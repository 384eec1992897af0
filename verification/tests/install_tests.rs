use streamlink_video_launcher::install::{
    bin_dir, choose_binary, do_install, Setup, SetupEvent, install_streamlink, install_ytdlp, last_nonempty_line, report,
    streamlink_install_url, tool_path, ytdlp_download_url, DownloadError, StreamlinkEvent,
    StreamlinkInstall, YtdlpEvent, YtdlpInstall,
};
use streamlink_video_launcher::platform::{CommandOutput, Os};

#[test]
fn tool_directory_per_os() {
    assert_eq!(bin_dir(Os::Linux, None, Some("/home/u".into())), Ok("/home/u/.local/bin".to_string()));
    assert_eq!(bin_dir(Os::Linux, Some("x".into()), None), Err("Cannot find home directory".to_string()));
    assert_eq!(
        bin_dir(Os::Windows, Some(r"C:\Users\u\AppData\Local".into()), None),
        Ok(r"C:\Users\u\AppData\Local\streamlink-video-launcher\bin".to_string())
    );
    assert_eq!(bin_dir(Os::Windows, None, Some("h".into())), Err("LOCALAPPDATA not set".to_string()));
}

#[test]
fn tool_paths_and_binary_choice() {
    assert_eq!(tool_path(Os::Linux, Ok("/b".into()), "yt-dlp"), Some("/b/yt-dlp".to_string()));
    assert_eq!(tool_path(Os::Linux, Err("no".into()), "yt-dlp"), None);
    assert_eq!(choose_binary("yt-dlp", true, Some("/b/yt-dlp".into())), "yt-dlp");
    assert_eq!(choose_binary("yt-dlp", false, Some("/b/yt-dlp".into())), "/b/yt-dlp");
    assert_eq!(choose_binary("yt-dlp", false, None), "yt-dlp");
}

#[test]
fn download_addresses() {
    assert!(ytdlp_download_url(Os::Windows).ends_with("/yt-dlp.exe"));
    assert!(ytdlp_download_url(Os::MacOs).ends_with("/yt-dlp_macos"));
    assert_eq!(ytdlp_download_url(Os::Linux), "https://github.com/yt-dlp/yt-dlp/releases/latest/download/yt-dlp");
    assert_eq!(streamlink_install_url(), "https://streamlink.github.io/install.html");
}

fn finished(s: &YtdlpInstall) -> Option<Result<String, String>> {
    match s {
        YtdlpInstall::Finished(r) => Some(r.clone()),
        _ => None,
    }
}

#[test]
fn ytdlp_install_fresh_on_linux() {
    let s = install_ytdlp(Os::Linux, Ok("/home/u/.local/bin".into()));
    assert!(matches!(&s, YtdlpInstall::Check { dest } if dest == "/home/u/.local/bin/yt-dlp"));
    let s = s.advance(Os::Linux, YtdlpEvent::Checked(false));
    assert!(matches!(&s, YtdlpInstall::Download { url, dest } if url.ends_with("/yt-dlp") && dest == "/home/u/.local/bin/yt-dlp"));
    let s = s.advance(Os::Linux, YtdlpEvent::Downloaded(Ok(())));
    assert!(matches!(&s, YtdlpInstall::MakeExecutable { .. }));
    let s = s.advance(Os::Linux, YtdlpEvent::MadeExecutable(Ok(())));
    assert_eq!(finished(&s), Some(Ok("Installed yt-dlp to /home/u/.local/bin/yt-dlp".to_string())));
}

#[test]
fn ytdlp_install_edge_cases() {
    let s = install_ytdlp(Os::Linux, Err("Cannot find home directory".into()));
    assert_eq!(finished(&s), Some(Err("Cannot find home directory".to_string())));
    let s = install_ytdlp(Os::Linux, Ok("/b".into())).advance(Os::Linux, YtdlpEvent::Checked(true));
    assert_eq!(finished(&s), Some(Ok("yt-dlp already at /b/yt-dlp".to_string())));
    let s = install_ytdlp(Os::Windows, Ok(r"C:\b".into()))
        .advance(Os::Windows, YtdlpEvent::Checked(false))
        .advance(Os::Windows, YtdlpEvent::Downloaded(Ok(())));
    assert_eq!(finished(&s), Some(Ok(r"Installed yt-dlp to C:\b\yt-dlp.exe".to_string())));
    let fail = |e: DownloadError| {
        finished(
            &install_ytdlp(Os::Linux, Ok("/b".into()))
                .advance(Os::Linux, YtdlpEvent::Checked(false))
                .advance(Os::Linux, YtdlpEvent::Downloaded(Err(e))),
        )
    };
    assert_eq!(fail(DownloadError::Request("404".into())), Some(Err("Download failed: 404".to_string())));
    assert_eq!(fail(DownloadError::Read("reset".into())), Some(Err("Read response failed: reset".to_string())));
    assert_eq!(fail(DownloadError::Write("denied".into())), Some(Err("Write to /b/yt-dlp failed: denied".to_string())));
    let s = install_ytdlp(Os::Linux, Ok("/b".into()))
        .advance(Os::Linux, YtdlpEvent::Checked(false))
        .advance(Os::Linux, YtdlpEvent::Downloaded(Ok(())))
        .advance(Os::Linux, YtdlpEvent::MadeExecutable(Err("EPERM".into())));
    assert_eq!(finished(&s), Some(Err("Cannot set executable: EPERM".to_string())));
    // An event that does not answer the step changes nothing.
    let s = install_ytdlp(Os::Linux, Ok("/b".into())).advance(Os::Linux, YtdlpEvent::Downloaded(Ok(())));
    assert!(matches!(s, YtdlpInstall::Check { .. }));
}

fn ok_output(stdout: &str) -> Result<CommandOutput, String> {
    Ok(CommandOutput { success: true, stdout: stdout.into(), stderr: String::new() })
}

#[test]
fn streamlink_install_with_pip3() {
    let s = install_streamlink();
    assert!(matches!(&s, StreamlinkInstall::ProbePython { attempt: 0, command } if command.program == "python3" && command.args == vec!["--version"]));
    let s = s.advance(Os::Linux, StreamlinkEvent::PythonProbed(true));
    assert!(matches!(&s, StreamlinkInstall::RunPip { attempt: 0, command } if command.program == "pip3" && command.args == vec!["install", "--user", "streamlink"]));
    let s = s.advance(Os::Linux, StreamlinkEvent::PipRan(ok_output("Collecting streamlink\nSuccessfully installed streamlink-6.0\n\n")));
    assert!(matches!(&s, StreamlinkInstall::Finished(Ok(m)) if m == "streamlink (Successfully installed streamlink-6.0)"));
}

#[test]
fn streamlink_install_falls_back() {
    let s = install_streamlink()
        .advance(Os::Linux, StreamlinkEvent::PythonProbed(false));
    assert!(matches!(&s, StreamlinkInstall::ProbePython { attempt: 1, command } if command.program == "python"));
    let s = s.advance(Os::Linux, StreamlinkEvent::PythonProbed(false));
    assert!(matches!(&s, StreamlinkInstall::OpenPage { launch, message } if launch.command.program == "xdg-open" && launch.command.args == vec!["https://streamlink.github.io/install.html"] && message == "Python not found. Opening browser to streamlink download page."));
    let s = s.advance(Os::Linux, StreamlinkEvent::PageOpened);
    assert!(matches!(&s, StreamlinkInstall::Finished(Ok(m)) if m.starts_with("Python not found")));

    let s = install_streamlink()
        .advance(Os::Windows, StreamlinkEvent::PythonProbed(true))
        .advance(Os::Windows, StreamlinkEvent::PipRan(Err("not found".into())));
    assert!(matches!(&s, StreamlinkInstall::RunPip { attempt: 1, command } if command.program == "pip"));
    let failed = Ok(CommandOutput { success: false, stdout: String::new(), stderr: "no".into() });
    let s = s.advance(Os::Windows, StreamlinkEvent::PipRan(failed));
    assert!(matches!(&s, StreamlinkInstall::OpenPage { launch, message } if launch.command.program == "cmd" && message == "pip install failed. Opening browser to streamlink download page."));
    let s = install_streamlink()
        .advance(Os::Linux, StreamlinkEvent::PythonProbed(true))
        .advance(Os::Linux, StreamlinkEvent::PipRan(ok_output("")));
    assert!(matches!(&s, StreamlinkInstall::Finished(Ok(m)) if m == "streamlink (Done)"));
}

#[test]
fn last_line_of_output() {
    assert_eq!(last_nonempty_line("a\nb\n\n"), "b");
    assert_eq!(last_nonempty_line(""), "Done");
    assert_eq!(last_nonempty_line("\n\n"), "Done");
    assert_eq!(last_nonempty_line("only"), "only");
}

#[test]
fn installation_report() {
    let r = report(Some(Ok("Installed yt-dlp to /b/yt-dlp".into())), Some(Err("boom".into())), Ok("/b".into()));
    assert_eq!(r.ytdlp, Some("Installed yt-dlp to /b/yt-dlp".to_string()));
    assert_eq!(r.streamlink, Some("Error: boom".to_string()));
    assert_eq!(r.bin_dir, "/b");
    let r = report(None, None, Err("no home".into()));
    assert_eq!((r.ytdlp, r.streamlink, r.bin_dir), (None, None, String::new()));
}

fn report_of(s: Setup) -> (Option<String>, Option<String>, String) {
    match s {
        Setup::Finished(r) => (r.ytdlp, r.streamlink, r.bin_dir),
        other => panic!("not finished: {:?}", other),
    }
}

#[test]
fn setup_installs_only_missing_tools() {
    let s = do_install().advance(SetupEvent::Checked { ytdlp: false, streamlink: false });
    assert!(matches!(s, Setup::InstallYtdlp { streamlink_missing: true }));
    let s = s.advance(SetupEvent::YtdlpDone(Err("no net".into())));
    assert!(matches!(&s, Setup::InstallStreamlink { ytdlp: Some(Err(_)) }));
    let s = s
        .advance(SetupEvent::StreamlinkDone(Ok("streamlink (Done)".into())))
        .advance(SetupEvent::BinDir(Ok("/b".into())));
    assert_eq!(report_of(s), (Some("Error: no net".to_string()), Some("streamlink (Done)".to_string()), "/b".to_string()));

    let s = do_install().advance(SetupEvent::Checked { ytdlp: true, streamlink: false });
    assert!(matches!(s, Setup::InstallStreamlink { ytdlp: None }));
    let s = do_install().advance(SetupEvent::Checked { ytdlp: false, streamlink: true });
    let s = s.advance(SetupEvent::YtdlpDone(Ok("ok".into())));
    assert!(matches!(&s, Setup::FindBinDir { ytdlp: Some(Ok(_)), streamlink: None }));
    let s = do_install()
        .advance(SetupEvent::Checked { ytdlp: true, streamlink: true })
        .advance(SetupEvent::BinDir(Err("no home".into())));
    assert_eq!(report_of(s), (None, None, String::new()));
    // an event that does not answer the step changes nothing
    assert!(matches!(do_install().advance(SetupEvent::BinDir(Ok("/b".into()))), Setup::CheckTools));
}
