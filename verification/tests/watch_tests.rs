use streamlink_video_launcher::streamlink::StreamInfo;
use streamlink_video_launcher::watch::{resolve_and_watch, Watch, WatchEvent};
use streamlink_video_launcher::ytdlp::VideoInfo;

fn result(w: Watch) -> Result<String, String> {
    match w {
        Watch::Finished(r) => r,
        other => panic!("not finished: {:?}", other),
    }
}

#[test]
fn youtube_with_mpv() {
    let w = resolve_and_watch("https://youtube.com/watch?v=1".into(), "720p".into(), "mpv".into());
    assert!(matches!(w, Watch::ResolveVideo { .. }));
    let w = w.advance(WatchEvent::VideoResolved(Ok(VideoInfo { title: Some("Song".into()) })));
    match &w {
        Watch::LaunchMpv { title, launch } => {
            assert_eq!(title, "Song");
            assert_eq!(launch.command.program, "mpv");
            assert_eq!(
                launch.command.args,
                vec!["--ytdl-format=bestvideo[height<=720]+bestaudio/best[height<=720]", "https://youtube.com/watch?v=1"]
            );
        }
        other => panic!("unexpected {:?}", other),
    }
    assert_eq!(result(w.advance(WatchEvent::Started(Ok(())))), Ok("Song".to_string()));
}

#[test]
fn youtube_mpv_fails_to_start() {
    let w = resolve_and_watch("https://youtu.be/1".into(), "best".into(), "mpv".into())
        .advance(WatchEvent::VideoResolved(Err("offline".into())))
        .advance(WatchEvent::Started(Err("No such file".into())));
    assert_eq!(result(w), Err("Failed to launch mpv: No such file".to_string()));
}

#[test]
fn youtube_with_other_player() {
    let w = resolve_and_watch("https://youtu.be/1".into(), "best".into(), "vlc".into())
        .advance(WatchEvent::VideoResolved(Ok(VideoInfo { title: None })));
    match &w {
        Watch::FetchStreamUrls { url, format, player, title } => {
            assert_eq!((url.as_str(), format.as_str(), player.as_str(), title.as_str()), ("https://youtu.be/1", "best", "vlc", ""));
        }
        other => panic!("unexpected {:?}", other),
    }
    let w = w.advance(WatchEvent::StreamUrls(Ok(vec!["v".into(), "a".into()])));
    match &w {
        Watch::LaunchPlayer { launch, .. } => {
            assert_eq!(launch.command.program, "vlc");
            assert_eq!(launch.command.args, vec!["v", "a"]);
        }
        other => panic!("unexpected {:?}", other),
    }
    assert_eq!(result(w.advance(WatchEvent::Started(Err("x".into())))), Err("Failed to launch player: x".to_string()));
    let w = resolve_and_watch("https://youtu.be/1".into(), "best".into(), "vlc".into())
        .advance(WatchEvent::VideoResolved(Ok(VideoInfo { title: None })))
        .advance(WatchEvent::StreamUrls(Err("No stream URL returned".into())));
    assert_eq!(result(w), Err("No stream URL returned".to_string()));
}

#[test]
fn streamlink_path() {
    let w = resolve_and_watch("https://twitch.tv/x".into(), "best".into(), "vlc".into());
    assert!(matches!(w, Watch::ResolveStream { .. }));
    let w = w.advance(WatchEvent::StreamResolved(Ok(StreamInfo { title: Some("Live".into()) })));
    match &w {
        Watch::PlayStream { title, url, quality, player } => {
            assert_eq!((title.as_str(), url.as_str(), quality.as_str(), player.as_str()), ("Live", "https://twitch.tv/x", "best", "vlc"));
        }
        other => panic!("unexpected {:?}", other),
    }
    assert_eq!(result(w.advance(WatchEvent::Played)), Ok("Live".to_string()));
    let w = resolve_and_watch("https://twitch.tv/x".into(), "best".into(), "vlc".into())
        .advance(WatchEvent::StreamResolved(Err("Failed to run streamlink: x".into())));
    assert_eq!(result(w), Err("Failed to run streamlink: x".to_string()));
}

#[test]
fn unanswered_events_leave_the_job() {
    let w = resolve_and_watch("https://twitch.tv/x".into(), "best".into(), "vlc".into())
        .advance(WatchEvent::Played);
    assert!(matches!(w, Watch::ResolveStream { .. }));
}
