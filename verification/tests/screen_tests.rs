use streamlink_video_launcher::history::HistoryEntry;
use streamlink_video_launcher::install::Report;
use streamlink_video_launcher::platform::Os;
use streamlink_video_launcher::screen::{
    history_button, history_panel, install_summary, missing_tools_message, status_line,
    HistoryPanel, Tone,
};
use streamlink_video_launcher::ui::{update, Context, Message, State, Status};

fn ctx() -> Context {
    Context { now_secs: 0, path_var: String::new() }
}

#[test]
fn status_lines() {
    let l = status_line(&Status::Idle);
    assert_eq!((l.text.as_str(), l.tone), ("", Tone::Plain));
    assert_eq!(status_line(&Status::Resolving).text, "Resolving...");
    assert_eq!(status_line(&Status::Ready).tone, Tone::Success);
    let e = status_line(&Status::Error("bad".into()));
    assert_eq!((e.text.as_str(), e.tone), ("bad", Tone::Failure));
}

#[test]
fn history_panel_lists_newest_first() {
    let entries = vec![
        HistoryEntry { url: "https://a".into(), title: "A".into(), timestamp: 1 },
        HistoryEntry { url: "https://b".into(), title: "B".into(), timestamp: 2 },
    ];
    let mut s = State::new(Os::Linux, entries, None, true, true, "h".into());
    match history_panel(&s) {
        HistoryPanel::Entries(rows) => {
            let got: Vec<(&str, &str, usize)> = rows.iter().map(|r| (r.title.as_str(), r.url.as_str(), r.position)).collect();
            assert_eq!(got, vec![("B", "https://b", 0), ("A", "https://a", 1)]);
        }
        other => panic!("unexpected {:?}", other),
    }
    update(&mut s, Message::ClearHistoryPressed, &ctx());
    assert!(matches!(history_panel(&s), HistoryPanel::ConfirmClear));
    let empty = State::new(Os::Linux, Vec::new(), None, true, true, "h".into());
    assert!(matches!(history_panel(&empty), HistoryPanel::Empty));
}

#[test]
fn history_button_labels() {
    let mut s = State::new(Os::Linux, Vec::new(), None, true, true, "h".into());
    let b = history_button(&s);
    assert_eq!(b.label, "History \u{25b2}");
    assert!(matches!(b.on_press, Message::ToggleHistory));
    update(&mut s, Message::ToggleHistory, &ctx());
    let b = history_button(&s);
    assert_eq!(b.label, "History \u{25bc}");
    assert!(matches!(b.on_press, Message::CloseHistory));
}

#[test]
fn missing_tools_texts() {
    assert_eq!(missing_tools_message(true, true), "All tools are installed.");
    assert_eq!(missing_tools_message(false, false), "The following tools are required but not found:\nyt-dlp, streamlink");
    assert_eq!(missing_tools_message(false, true), "The following tools are required but not found:\nyt-dlp");
    assert_eq!(missing_tools_message(true, false), "The following tools are required but not found:\nstreamlink");
}

#[test]
fn install_summary_texts() {
    let r = Report { ytdlp: Some("Installed yt-dlp to /b/yt-dlp".into()), streamlink: Some("Error: Could not".into()), bin_dir: "/b".into() };
    let s = install_summary(&r, true, Os::Linux);
    assert_eq!((s.heading.as_str(), s.summary.as_str()), ("Done", "Installation complete."));
    let lines: Vec<(&str, bool)> = s.lines.iter().map(|l| (l.text.as_str(), l.is_error)).collect();
    assert_eq!(lines, vec![("yt-dlp: Installed yt-dlp to /b/yt-dlp", false), ("streamlink: Error: Could not", true)]);
    assert_eq!(s.tools_dir, Some("Tools installed in:\n/b".to_string()));
    let w = install_summary(&r, false, Os::Windows);
    assert_eq!((w.heading.as_str(), w.summary.as_str()), ("Issues", "Some tools could not be installed."));
    assert_eq!(w.tools_dir, None);
    let none = Report { ytdlp: None, streamlink: None, bin_dir: String::new() };
    let n = install_summary(&none, true, Os::Linux);
    assert!(n.lines.is_empty());
    assert_eq!(n.tools_dir, None);
}
