use streamlink_video_launcher::history::{history_file, HistoryEntry};
use streamlink_video_launcher::install::Report;
use streamlink_video_launcher::platform::Os;
use streamlink_video_launcher::ui::{
    normalize_url, update, Context, Effect, InstallStage, Message, Quality, State, Status,
};

fn ctx() -> Context {
    Context { now_secs: 1_700_000_000, path_var: "/usr/bin:/bin".to_string() }
}

fn ready_state() -> State {
    State::new(Os::Linux, Vec::new(), Some("mpv".into()), true, true, "/h/history.json".into())
}

fn status_text(s: &State) -> Option<String> {
    match s.status() {
        Status::Error(m) => Some(m.clone()),
        _ => None,
    }
}

#[test]
fn quality_labels_and_order() {
    let labels: Vec<&str> = Quality::all().iter().map(|q| q.label()).collect();
    assert_eq!(labels, vec!["best", "1080p", "720p", "480p", "360p", "audio-only", "worst"]);
}

#[test]
fn normalize_adds_scheme_once() {
    assert_eq!(normalize_url("twitch.tv/x"), "https://twitch.tv/x");
    assert_eq!(normalize_url("http://a"), "http://a");
    let once = normalize_url("youtube.com/watch");
    assert_eq!(normalize_url(&once), once);
}

#[test]
fn history_file_location() {
    assert_eq!(history_file(Os::Linux, Some("/home/u/.local/share".into())), "/home/u/.local/share/streamlink-video-launcher/history.json");
    assert_eq!(history_file(Os::Linux, None), "./history.json");
    assert_eq!(history_file(Os::Windows, Some(r"C:\Users\u\AppData\Roaming".into())), r"C:\Users\u\AppData\Roaming\streamlink-video-launcher\history.json");
}

#[test]
fn new_state_prompts_for_missing_tools() {
    let s = State::new(Os::Linux, Vec::new(), None, true, false, "h".into());
    assert!(matches!(s.install(), Some(InstallStage::Prompt)));
    assert_eq!(s.quality(), Quality::Best);
    assert!(s.source().is_empty());
    assert!(ready_state().install().is_none());
}

#[test]
fn watch_link_starts_a_job() {
    let mut s = ready_state();
    update(&mut s, Message::SourceChanged("https://twitch.tv/x".into()), &ctx());
    update(&mut s, Message::QualityChanged(Quality::P720), &ctx());
    let e = update(&mut s, Message::WatchPressed, &ctx());
    match e {
        Effect::Watch { url, quality, player } => {
            assert_eq!((url.as_str(), quality.as_str(), player.as_str()), ("https://twitch.tv/x", "720p", "mpv"));
        }
        other => panic!("unexpected {:?}", other),
    }
    assert!(matches!(s.status(), Status::Resolving));
}

#[test]
fn watch_refusals() {
    let mut s = ready_state();
    assert!(matches!(update(&mut s, Message::WatchPressed, &ctx()), Effect::Nothing));
    assert!(matches!(s.status(), Status::Idle));

    let mut s = State::new(Os::Linux, Vec::new(), None, true, true, "h".into());
    update(&mut s, Message::SourceChanged("https://a/b".into()), &ctx());
    update(&mut s, Message::WatchPressed, &ctx());
    assert_eq!(status_text(&s), Some("No video player found (tried mpv, vlc, celluloid)".to_string()));

    let mut s = State::new(Os::Linux, Vec::new(), Some("vlc".into()), true, false, "h".into());
    update(&mut s, Message::SourceChanged("https://youtube.com/watch?v=1".into()), &ctx());
    update(&mut s, Message::WatchPressed, &ctx());
    assert_eq!(status_text(&s), Some("yt-dlp is not installed or not found on PATH".to_string()));

    let mut s = State::new(Os::Linux, Vec::new(), Some("vlc".into()), false, true, "h".into());
    update(&mut s, Message::SourceChanged("https://twitch.tv/a".into()), &ctx());
    update(&mut s, Message::WatchPressed, &ctx());
    assert_eq!(status_text(&s), Some("streamlink is not installed or not found on PATH".to_string()));
}

#[test]
fn watch_local_file_opens_it() {
    let mut s = ready_state();
    update(&mut s, Message::SourceChanged("/videos/a.mkv".into()), &ctx());
    match update(&mut s, Message::WatchPressed, &ctx()) {
        Effect::OpenFile { path } => assert_eq!(path, "/videos/a.mkv"),
        other => panic!("unexpected {:?}", other),
    }
    assert!(s.can_watch(true));
    assert!(!s.can_watch(false));
    assert!(!s.can_download());
}

#[test]
fn resolved_link_is_recorded() {
    let mut s = ready_state();
    update(&mut s, Message::SourceChanged("https://twitch.tv/x".into()), &ctx());
    let e = update(&mut s, Message::StreamResolved(Ok("Live!".into())), &ctx());
    assert!(matches!(e, Effect::SaveHistory));
    assert_eq!(s.history().len(), 1);
    assert_eq!(s.history()[0].url, "https://twitch.tv/x");
    assert_eq!(s.history()[0].title, "Live!");
    assert_eq!(s.history()[0].timestamp, 1_700_000_000);
    assert!(matches!(s.status(), Status::Ready));
    // an empty title is not recorded
    let e = update(&mut s, Message::StreamResolved(Ok(String::new())), &ctx());
    assert!(matches!(e, Effect::Nothing));
    assert_eq!(s.history().len(), 1);
    // errors are shown
    update(&mut s, Message::StreamResolved(Err("offline".into())), &ctx());
    assert_eq!(status_text(&s), Some("offline".to_string()));
}

#[test]
fn file_playback_is_not_recorded() {
    let mut s = ready_state();
    update(&mut s, Message::SourceChanged("/v/a.mkv".into()), &ctx());
    update(&mut s, Message::StreamResolved(Ok("title".into())), &ctx());
    assert!(s.history().is_empty());
}

#[test]
fn download_flow() {
    let mut s = ready_state();
    update(&mut s, Message::SourceChanged("youtu.be/abc".into()), &ctx());
    assert!(matches!(update(&mut s, Message::DownloadPressed, &ctx()), Effect::Nothing));
    update(&mut s, Message::SourceChanged("https://youtu.be/abc".into()), &ctx());
    assert!(matches!(update(&mut s, Message::DownloadPressed, &ctx()), Effect::ChooseDownloadPath));
    assert!(matches!(s.status(), Status::Resolving));
    update(&mut s, Message::QualityChanged(Quality::AudioOnly), &ctx());
    match update(&mut s, Message::DownloadPathChosen(Some("/tmp/a.m4a".into())), &ctx()) {
        Effect::DownloadVideo { url, format, output } => {
            assert_eq!((url.as_str(), format.as_str(), output.as_str()), ("https://youtu.be/abc", "bestaudio/best", "/tmp/a.m4a"));
        }
        other => panic!("unexpected {:?}", other),
    }
    assert!(matches!(s.status(), Status::Ready));
    update(&mut s, Message::SourceChanged("twitch.tv/x".into()), &ctx());
    match update(&mut s, Message::DownloadPathChosen(Some("o.ts".into())), &ctx()) {
        Effect::DownloadStream { url, quality, output } => {
            assert_eq!((url.as_str(), quality.as_str(), output.as_str()), ("https://twitch.tv/x", "audio-only", "o.ts"));
        }
        other => panic!("unexpected {:?}", other),
    }
    update(&mut s, Message::DownloadPathChosen(None), &ctx());
    assert!(matches!(s.status(), Status::Idle));
}

#[test]
fn download_needs_backend() {
    let mut s = State::new(Os::Linux, Vec::new(), None, false, true, "h".into());
    update(&mut s, Message::SourceChanged("https://twitch.tv/x".into()), &ctx());
    assert!(matches!(update(&mut s, Message::DownloadPressed, &ctx()), Effect::Nothing));
    assert!(matches!(s.status(), Status::Idle));
}

#[test]
fn history_list_toggles_and_clears() {
    let entry = HistoryEntry { url: "https://a/b".into(), title: "B".into(), timestamp: 1 };
    let mut s = State::new(Os::Linux, vec![entry], None, true, true, "h".into());
    update(&mut s, Message::ToggleHistory, &ctx());
    assert!(s.history_expanded());
    update(&mut s, Message::ClearHistoryPressed, &ctx());
    assert!(s.show_clear_confirmation());
    update(&mut s, Message::ToggleHistory, &ctx());
    assert!(!s.history_expanded());
    assert!(!s.show_clear_confirmation());
    update(&mut s, Message::ToggleHistory, &ctx());
    update(&mut s, Message::ClearHistoryPressed, &ctx());
    update(&mut s, Message::CancelClearHistory, &ctx());
    assert!(!s.show_clear_confirmation());
    assert!(s.history_expanded());
    update(&mut s, Message::ClearHistoryPressed, &ctx());
    assert!(matches!(update(&mut s, Message::ConfirmClearHistory, &ctx()), Effect::SaveHistory));
    assert!(s.history().is_empty());
    assert!(!s.history_expanded());
    update(&mut s, Message::ToggleHistory, &ctx());
    update(&mut s, Message::CloseHistory, &ctx());
    assert!(!s.history_expanded());
}

#[test]
fn toggling_twice_restores_the_list() {
    let mut s = ready_state();
    let before = s.history_expanded();
    update(&mut s, Message::ToggleHistory, &ctx());
    update(&mut s, Message::ToggleHistory, &ctx());
    assert_eq!(s.history_expanded(), before);
    assert!(!s.show_clear_confirmation());
}

#[test]
fn history_entry_click_sets_source() {
    let mut s = ready_state();
    update(&mut s, Message::ToggleHistory, &ctx());
    update(&mut s, Message::HistoryEntryClicked("https://x/y".into()), &ctx());
    assert_eq!(s.source(), "https://x/y");
    assert!(!s.history_expanded());
}

#[test]
fn install_dialog_flow() {
    let mut s = State::new(Os::Linux, Vec::new(), None, false, false, "h".into());
    assert!(matches!(update(&mut s, Message::InstallAccept, &ctx()), Effect::Install));
    assert!(matches!(s.install(), Some(InstallStage::Progress)));
    let report = Report { ytdlp: Some("ok".into()), streamlink: None, bin_dir: "/home/u/.local/bin".into() };
    assert!(matches!(update(&mut s, Message::InstallFinished(Ok(report)), &ctx()), Effect::DetectTools));
    update(&mut s, Message::ToolsDetected { streamlink: false, ytdlp: true }, &ctx());
    assert!(s.ytdlp_available());
    assert!(!s.streamlink_available());
    update(&mut s, Message::InstallDismiss, &ctx());
    assert!(s.install().is_none());
    assert_eq!(status_text(&s), Some("Add /home/u/.local/bin to your PATH or restart your shell".to_string()));
}

#[test]
fn install_dismiss_when_dir_on_path() {
    let mut s = State::new(Os::Linux, Vec::new(), None, false, true, "h".into());
    let report = Report { ytdlp: None, streamlink: None, bin_dir: "/bin".into() };
    update(&mut s, Message::InstallFinished(Ok(report)), &ctx());
    update(&mut s, Message::InstallDismiss, &ctx());
    assert!(matches!(s.status(), Status::Idle));
    let mut w = State::new(Os::Windows, Vec::new(), None, false, true, "h".into());
    let report = Report { ytdlp: None, streamlink: None, bin_dir: r"C:\x".into() };
    update(&mut w, Message::InstallFinished(Ok(report)), &ctx());
    update(&mut w, Message::InstallDismiss, &ctx());
    assert!(matches!(w.status(), Status::Idle));
}

#[test]
fn install_failure_is_reported() {
    let mut s = State::new(Os::Linux, Vec::new(), None, false, false, "h".into());
    assert!(matches!(update(&mut s, Message::InstallFinished(Err("x".into())), &ctx()), Effect::Nothing));
    match s.install() {
        Some(InstallStage::Done(r)) => {
            assert_eq!(r.streamlink, Some("Error: x".to_string()));
            assert_eq!(r.ytdlp, None);
            assert!(r.bin_dir.is_empty());
        }
        _ => panic!("expected a report"),
    }
    update(&mut s, Message::InstallDismiss, &ctx());
    assert!(s.install().is_none());
    assert!(matches!(s.status(), Status::Idle));
}

#[test]
fn configuration_is_fixed() {
    let mut s = ready_state();
    for m in [Message::WatchPressed, Message::ToggleHistory, Message::InstallAccept, Message::InstallDismiss] {
        update(&mut s, m, &ctx());
        assert_eq!(s.os(), Os::Linux);
        assert_eq!(s.history_path(), "/h/history.json");
        assert_eq!(s.player(), &Some("mpv".to_string()));
    }
}
