//! Installing the backends: where tools are put, how yt-dlp is fetched, how streamlink is
//! installed with pip, and the report shown afterwards.
//!
//! Both installations alternate outside work (checking files, downloading, running
//! programs) with decisions. The decisions are the step machines [`YtdlpInstall`] and
//! [`StreamlinkInstall`]: each state names the work to do next, and `advance` takes what that
//! work gave and returns the next state.

use crate::platform::{
    command_spec, join_path, join_spec, open_url, opener_spec, version_probe, CommandLine,
    CommandOutput, Launch, Os,
};
use crate::text::{joined, joined3, lines, lines_spec, owned};
use vstd::prelude::*;

verus! {

/// What the installation did for each tool, and the directory tools are installed in.
#[derive(Clone, Debug)]
pub struct Report {
    pub ytdlp: Option<String>,
    pub streamlink: Option<String>,
    pub bin_dir: String,
}

/// A report as plain values.
pub struct ReportView {
    pub ytdlp: Option<Seq<char>>,
    pub streamlink: Option<Seq<char>>,
    pub bin_dir: Seq<char>,
}

impl View for Report {
    type V = ReportView;

    open spec fn view(&self) -> ReportView {
        ReportView {
            ytdlp: opt_view(self.ytdlp),
            streamlink: opt_view(self.streamlink),
            bin_dir: self.bin_dir@,
        }
    }
}

/// The directory that holds installed tools, given the value of `LOCALAPPDATA` (used on
/// Windows) and the home directory (used elsewhere).
pub open spec fn bin_dir_spec(os: Os, local_app_data: Option<Seq<char>>, home: Option<Seq<char>>) -> Result<
    Seq<char>,
    Seq<char>,
> {
    if os == Os::Windows {
        match local_app_data {
            None => Err("LOCALAPPDATA not set"@),
            Some(a) => Ok(
                join_spec(os, join_spec(os, a, "streamlink-video-launcher"@), "bin"@),
            ),
        }
    } else {
        match home {
            None => Err("Cannot find home directory"@),
            Some(h) => Ok(join_spec(os, join_spec(os, h, ".local"@), "bin"@)),
        }
    }
}

pub open spec fn opt_view(o: Option<String>) -> Option<Seq<char>> {
    match o {
        Some(s) => Some(s@),
        None => None,
    }
}

pub open spec fn result_view(r: Result<String, String>) -> Result<Seq<char>, Seq<char>> {
    match r {
        Ok(s) => Ok(s@),
        Err(e) => Err(e@),
    }
}

/// The directory tools are installed in: `%LOCALAPPDATA%\streamlink-video-launcher\bin` on
/// Windows, `~/.local/bin` elsewhere. The caller creates it.
pub fn bin_dir(os: Os, local_app_data: Option<String>, home: Option<String>) -> (r: Result<
    String,
    String,
>)
    ensures
        result_view(r) == bin_dir_spec(os, opt_view(local_app_data), opt_view(home)),
{
    if os == Os::Windows {
        match local_app_data {
            None => Err(owned("LOCALAPPDATA not set")),
            Some(a) => {
                let d = join_path(os, a.as_str(), "streamlink-video-launcher");
                Ok(join_path(os, d.as_str(), "bin"))
            },
        }
    } else {
        match home {
            None => Err(owned("Cannot find home directory")),
            Some(h) => {
                let d = join_path(os, h.as_str(), ".local");
                Ok(join_path(os, d.as_str(), "bin"))
            },
        }
    }
}

/// Where the tool `name` lives once installed, if the tool directory is known.
pub fn tool_path(os: Os, bin_dir: Result<String, String>, name: &str) -> (r: Option<String>)
    ensures
        opt_view(r) == match bin_dir {
            Ok(d) => Some(join_spec(os, d@, name@)),
            Err(_) => None::<Seq<char>>,
        },
{
    match bin_dir {
        Ok(d) => Some(join_path(os, d.as_str(), name)),
        Err(_) => None,
    }
}

/// The program to run for a tool called `name`: `name` itself when it answers on the search
/// path, otherwise the installed copy when the tool directory is known, otherwise `name`.
pub fn choose_binary(name: &str, answers_on_path: bool, tool_path: Option<String>) -> (r: String)
    ensures
        r@ == if answers_on_path {
            name@
        } else {
            match tool_path {
                Some(p) => p@,
                None => name@,
            }
        },
{
    if answers_on_path {
        owned(name)
    } else {
        match tool_path {
            Some(p) => p,
            None => owned(name),
        }
    }
}

/// The address yt-dlp is downloaded from.
pub open spec fn ytdlp_download_url_spec(os: Os) -> Seq<char> {
    match os {
        Os::Windows => "https://github.com/yt-dlp/yt-dlp/releases/latest/download/yt-dlp.exe"@,
        Os::MacOs => "https://github.com/yt-dlp/yt-dlp/releases/latest/download/yt-dlp_macos"@,
        Os::Linux => "https://github.com/yt-dlp/yt-dlp/releases/latest/download/yt-dlp"@,
    }
}

/// The address of the latest yt-dlp build for `os`.
pub fn ytdlp_download_url(os: Os) -> (r: String)
    ensures
        r@ == ytdlp_download_url_spec(os),
{
    match os {
        Os::Windows => owned("https://github.com/yt-dlp/yt-dlp/releases/latest/download/yt-dlp.exe"),
        Os::MacOs => owned(
            "https://github.com/yt-dlp/yt-dlp/releases/latest/download/yt-dlp_macos",
        ),
        Os::Linux => owned("https://github.com/yt-dlp/yt-dlp/releases/latest/download/yt-dlp"),
    }
}

/// The page that explains how to install streamlink by hand.
pub open spec fn streamlink_install_url_spec() -> Seq<char> {
    "https://streamlink.github.io/install.html"@
}

/// The page that explains how to install streamlink by hand.
pub fn streamlink_install_url() -> (r: String)
    ensures
        r@ == streamlink_install_url_spec(),
{
    owned("https://streamlink.github.io/install.html")
}

/// Why fetching a file failed.
#[derive(Clone, Debug)]
pub enum DownloadError {
    /// The request failed; the system's description.
    Request(String),
    /// Reading the response failed; the system's description.
    Read(String),
    /// Writing the file failed; the system's description.
    Write(String),
}

/// The message that reports a failed download to `dest`.
pub open spec fn download_error_message(e: DownloadError, dest: Seq<char>) -> Seq<char> {
    match e {
        DownloadError::Request(m) => "Download failed: "@ + m@,
        DownloadError::Read(m) => "Read response failed: "@ + m@,
        DownloadError::Write(m) => "Write to "@ + dest + " failed: "@ + m@,
    }
}

/// Installing yt-dlp, one step at a time.
#[derive(Debug)]
pub enum YtdlpInstall {
    /// Check whether a file exists at `dest`; answer with [`YtdlpEvent::Checked`].
    Check { dest: String },
    /// Fetch `url` into the file `dest`; answer with [`YtdlpEvent::Downloaded`].
    Download { url: String, dest: String },
    /// Give `dest` execute permission; answer with [`YtdlpEvent::MadeExecutable`].
    MakeExecutable { dest: String },
    /// The installation is over, with its message.
    Finished(Result<String, String>),
}

/// What the work named by a [`YtdlpInstall`] state gave.
#[derive(Debug)]
pub enum YtdlpEvent {
    Checked(bool),
    Downloaded(Result<(), DownloadError>),
    /// `Err` holds the system's description of the failure.
    MadeExecutable(Result<(), String>),
}

/// `event` is the answer to the work named by `s`.
pub open spec fn ytdlp_answers(s: YtdlpInstall, event: YtdlpEvent) -> bool {
    match (s, event) {
        (YtdlpInstall::Check { .. }, YtdlpEvent::Checked(_)) => true,
        (YtdlpInstall::Download { .. }, YtdlpEvent::Downloaded(_)) => true,
        (YtdlpInstall::MakeExecutable { .. }, YtdlpEvent::MadeExecutable(_)) => true,
        _ => false,
    }
}

/// At most how many answered steps remain before the installation is finished.
pub open spec fn ytdlp_steps_left(s: YtdlpInstall) -> nat {
    match s {
        YtdlpInstall::Check { .. } => 3,
        YtdlpInstall::Download { .. } => 2,
        YtdlpInstall::MakeExecutable { .. } => 1,
        YtdlpInstall::Finished(_) => 0,
    }
}

/// The first step of installing yt-dlp into the tool directory (or the reason the tool
/// directory is unusable).
pub fn install_ytdlp(os: Os, bin_dir: Result<String, String>) -> (r: YtdlpInstall)
    ensures
        ytdlp_steps_left(r) <= 3,
        match bin_dir {
            Err(e) => r matches YtdlpInstall::Finished(Err(m)) && m@ == e@,
            Ok(d) => r matches YtdlpInstall::Check { dest } && dest@ == join_spec(
                os,
                d@,
                crate::ytdlp::binary_name_spec(os),
            ),
        },
{
    match bin_dir {
        Err(e) => YtdlpInstall::Finished(Err(e)),
        Ok(d) => {
            let name = crate::ytdlp::binary_name(os);
            YtdlpInstall::Check { dest: join_path(os, d.as_str(), name.as_str()) }
        },
    }
}

/// The message of a successful installation to `dest`.
pub open spec fn installed_message(dest: Seq<char>) -> Seq<char> {
    "Installed yt-dlp to "@ + dest
}

impl YtdlpInstall {
    /// The state after the work named by `self` gave `event`. An event that does not
    /// answer the current state leaves it unchanged; an answer brings the installation
    /// closer to its end, so it finishes after at most three answers.
    pub fn advance(self, os: Os, event: YtdlpEvent) -> (r: YtdlpInstall)
        ensures
            ytdlp_answers(self, event) ==> ytdlp_steps_left(r) < ytdlp_steps_left(self),
            !ytdlp_answers(self, event) ==> r == self,
            match (self, event) {
                (YtdlpInstall::Check { dest }, YtdlpEvent::Checked(true)) => r matches YtdlpInstall::Finished(
                    Ok(m),
                ) && m@ == "yt-dlp already at "@ + dest@,
                (YtdlpInstall::Check { dest }, YtdlpEvent::Checked(false)) => r matches YtdlpInstall::Download {
                    url,
                    dest: d,
                } && url@ == ytdlp_download_url_spec(os) && d@ == dest@,
                (YtdlpInstall::Download { url, dest }, YtdlpEvent::Downloaded(Err(e))) => r matches YtdlpInstall::Finished(
                    Err(m),
                ) && m@ == download_error_message(e, dest@),
                (YtdlpInstall::Download { url, dest }, YtdlpEvent::Downloaded(Ok(()))) => if os
                    == Os::Windows {
                    r matches YtdlpInstall::Finished(Ok(m)) && m@ == installed_message(dest@)
                } else {
                    r matches YtdlpInstall::MakeExecutable { dest: d } && d@ == dest@
                },
                (YtdlpInstall::MakeExecutable { dest }, YtdlpEvent::MadeExecutable(Err(e))) => r matches YtdlpInstall::Finished(
                    Err(m),
                ) && m@ == "Cannot set executable: "@ + e@,
                (YtdlpInstall::MakeExecutable { dest }, YtdlpEvent::MadeExecutable(Ok(()))) => r matches YtdlpInstall::Finished(
                    Ok(m),
                ) && m@ == installed_message(dest@),
                _ => r == self,
            },
    {
        match (self, event) {
            (YtdlpInstall::Check { dest }, YtdlpEvent::Checked(exists)) => {
                if exists {
                    YtdlpInstall::Finished(Ok(joined("yt-dlp already at ", dest.as_str())))
                } else {
                    YtdlpInstall::Download { url: ytdlp_download_url(os), dest }
                }
            },
            (YtdlpInstall::Download { url, dest }, YtdlpEvent::Downloaded(result)) => {
                match result {
                    Err(e) => {
                        let m = match e {
                            DownloadError::Request(m) => joined("Download failed: ", m.as_str()),
                            DownloadError::Read(m) => joined("Read response failed: ", m.as_str()),
                            DownloadError::Write(m) => {
                                let head = joined3("Write to ", dest.as_str(), " failed: ");
                                joined(head.as_str(), m.as_str())
                            },
                        };
                        YtdlpInstall::Finished(Err(m))
                    },
                    Ok(()) => {
                        if os == Os::Windows {
                            YtdlpInstall::Finished(Ok(joined("Installed yt-dlp to ", dest.as_str())))
                        } else {
                            YtdlpInstall::MakeExecutable { dest }
                        }
                    },
                }
            },
            (YtdlpInstall::MakeExecutable { dest }, YtdlpEvent::MadeExecutable(result)) => {
                match result {
                    Err(e) => YtdlpInstall::Finished(
                        Err(joined("Cannot set executable: ", e.as_str())),
                    ),
                    Ok(()) => YtdlpInstall::Finished(
                        Ok(joined("Installed yt-dlp to ", dest.as_str())),
                    ),
                }
            },
            (state, _) => state,
        }
    }
}

/// The last line of `ls` that is not empty, or `"Done"` when there is none.
pub open spec fn last_nonempty(ls: Seq<Seq<char>>) -> Seq<char>
    decreases ls.len(),
{
    if ls.len() == 0 {
        "Done"@
    } else if ls.last().len() > 0 {
        ls.last()
    } else {
        last_nonempty(ls.drop_last())
    }
}

/// The last non-empty line of `text`, or `"Done"` when it has none.
pub fn last_nonempty_line(text: &str) -> (r: String)
    ensures
        r@ == last_nonempty(lines_spec(text@)),
{
    let ls = lines(text);
    let ghost all = ls.deep_view();
    let mut i: usize = ls.len();
    assert(all.take(i as int) =~= all);
    while i > 0 && ls[i - 1].as_str().is_empty()
        invariant
            i <= ls.len(),
            all == ls.deep_view(),
            last_nonempty(all) == last_nonempty(all.take(i as int)),
        decreases i,
    {
        assert(all.take(i as int).drop_last() =~= all.take(i - 1));
        i = i - 1;
    }
    if i == 0 {
        owned("Done")
    } else {
        assert(all.take(i as int).last() == ls[i - 1]@);
        ls[i - 1].clone()
    }
}

/// The names tried, in order, for the Python interpreter.
pub open spec fn python_name(attempt: int) -> Seq<char> {
    if attempt == 0 {
        "python3"@
    } else {
        "python"@
    }
}

/// The names tried, in order, for pip.
pub open spec fn pip_name(attempt: int) -> Seq<char> {
    if attempt == 0 {
        "pip3"@
    } else {
        "pip"@
    }
}

/// The command that installs streamlink for the current user with the pip of `attempt`.
pub open spec fn pip_command_spec(attempt: int) -> (Seq<char>, Seq<Seq<char>>) {
    command_spec(pip_name(attempt), seq!["install"@, "--user"@, "streamlink"@])
}

/// The message when no Python interpreter was found.
pub open spec fn no_python_message() -> Seq<char> {
    "Python not found. Opening browser to streamlink download page."@
}

/// The message when every pip failed.
pub open spec fn pip_failed_message() -> Seq<char> {
    "pip install failed. Opening browser to streamlink download page."@
}

/// Installing streamlink, one step at a time.
#[derive(Debug)]
pub enum StreamlinkInstall {
    /// Run `command`, which asks a Python interpreter for its version; answer with
    /// [`StreamlinkEvent::PythonProbed`].
    ProbePython { attempt: usize, command: CommandLine },
    /// Run `command`, which installs streamlink with pip; answer with
    /// [`StreamlinkEvent::PipRan`].
    RunPip { attempt: usize, command: CommandLine },
    /// Open the manual installation page (how that goes does not matter); answer with
    /// [`StreamlinkEvent::PageOpened`].
    OpenPage { launch: Launch, message: String },
    /// The installation is over, with its message.
    Finished(Result<String, String>),
}

/// What the work named by a [`StreamlinkInstall`] state gave.
#[derive(Debug)]
pub enum StreamlinkEvent {
    PythonProbed(bool),
    /// `Err` holds the reason pip could not be run.
    PipRan(Result<CommandOutput, String>),
    PageOpened,
}

fn python_probe(attempt: usize) -> (c: CommandLine)
    requires
        attempt <= 1,
    ensures
        c@ == command_spec(python_name(attempt as int), seq!["--version"@]),
{
    if attempt == 0 {
        version_probe("python3")
    } else {
        version_probe("python")
    }
}

fn pip_command(attempt: usize) -> (c: CommandLine)
    requires
        attempt <= 1,
    ensures
        c@ == pip_command_spec(attempt as int),
{
    let program = if attempt == 0 {
        owned("pip3")
    } else {
        owned("pip")
    };
    let mut args: Vec<String> = Vec::new();
    args.push(owned("install"));
    args.push(owned("--user"));
    args.push(owned("streamlink"));
    let c = CommandLine { program, args };
    assert(c.args.deep_view() =~= seq!["install"@, "--user"@, "streamlink"@]);
    c
}

/// The first step of installing streamlink: look for `python3`.
pub fn install_streamlink() -> (r: StreamlinkInstall)
    ensures
        streamlink_steps_left(r) == 5,
        r matches StreamlinkInstall::ProbePython { attempt, command } && attempt == 0
            && command@ == command_spec(python_name(0), seq!["--version"@]),
{
    StreamlinkInstall::ProbePython { attempt: 0, command: python_probe(0) }
}

/// `event` is the answer to the work named by `s`.
pub open spec fn streamlink_answers(s: StreamlinkInstall, event: StreamlinkEvent) -> bool {
    match (s, event) {
        (StreamlinkInstall::ProbePython { .. }, StreamlinkEvent::PythonProbed(_)) => true,
        (StreamlinkInstall::RunPip { .. }, StreamlinkEvent::PipRan(_)) => true,
        (StreamlinkInstall::OpenPage { .. }, StreamlinkEvent::PageOpened) => true,
        _ => false,
    }
}

/// At most how many answered steps remain before the installation is finished.
pub open spec fn streamlink_steps_left(s: StreamlinkInstall) -> nat {
    match s {
        StreamlinkInstall::ProbePython { attempt, .. } => if attempt == 0 {
            5
        } else {
            4
        },
        StreamlinkInstall::RunPip { attempt, .. } => if attempt == 0 {
            3
        } else {
            2
        },
        StreamlinkInstall::OpenPage { .. } => 1,
        StreamlinkInstall::Finished(_) => 0,
    }
}

/// `r` is the step that opens the manual installation page and then reports `message`.
pub open spec fn opens_page(r: StreamlinkInstall, os: Os, message: Seq<char>) -> bool {
    r matches StreamlinkInstall::OpenPage { launch, message: m } && launch.command@
        == opener_spec(os, streamlink_install_url_spec()) && m@ == message
}

impl StreamlinkInstall {
    /// The state after the work named by `self` gave `event`: the interpreters `python3` and
    /// `python` are tried in turn; with one found, `pip3` and then `pip` install streamlink;
    /// the first pip that succeeds ends the installation with its last non-empty output
    /// line; when no interpreter is found or every pip fails, the manual installation page
    /// is opened. An event that does not answer the current state leaves it unchanged; an
    /// answer brings the installation closer to its end, so it finishes after at most five
    /// answers.
    pub fn advance(self, os: Os, event: StreamlinkEvent) -> (r: StreamlinkInstall)
        requires
            self matches StreamlinkInstall::ProbePython { attempt, .. } ==> attempt <= 1,
            self matches StreamlinkInstall::RunPip { attempt, .. } ==> attempt <= 1,
        ensures
            streamlink_answers(self, event) ==> streamlink_steps_left(r) < streamlink_steps_left(
                self,
            ),
            !streamlink_answers(self, event) ==> r == self,
            r matches StreamlinkInstall::ProbePython { attempt, .. } ==> attempt <= 1,
            r matches StreamlinkInstall::RunPip { attempt, .. } ==> attempt <= 1,
            match (self, event) {
                (StreamlinkInstall::ProbePython { attempt, command }, StreamlinkEvent::PythonProbed(found)) => if found {
                    r matches StreamlinkInstall::RunPip { attempt: a, command: c } && a == 0 && c@
                        == pip_command_spec(0)
                } else if attempt == 0 {
                    r matches StreamlinkInstall::ProbePython { attempt: a, command: c } && a == 1
                        && c@ == command_spec(python_name(1), seq!["--version"@])
                } else {
                    opens_page(r, os, no_python_message())
                },
                (StreamlinkInstall::RunPip { attempt, command }, StreamlinkEvent::PipRan(outcome)) => if outcome matches Ok(
                    o,
                ) && o.success {
                    r matches StreamlinkInstall::Finished(Ok(m)) && outcome matches Ok(o) && m@
                        == "streamlink ("@ + last_nonempty(lines_spec(o.stdout@)) + ")"@
                } else if attempt == 0 {
                    r matches StreamlinkInstall::RunPip { attempt: a, command: c } && a == 1 && c@
                        == pip_command_spec(1)
                } else {
                    opens_page(r, os, pip_failed_message())
                },
                (StreamlinkInstall::OpenPage { launch, message }, StreamlinkEvent::PageOpened) => r
                    == StreamlinkInstall::Finished(Ok(message)),
                _ => r == self,
            },
    {
        match (self, event) {
            (StreamlinkInstall::ProbePython { attempt, command }, StreamlinkEvent::PythonProbed(
                found,
            )) => {
                if found {
                    StreamlinkInstall::RunPip { attempt: 0, command: pip_command(0) }
                } else if attempt == 0 {
                    StreamlinkInstall::ProbePython { attempt: 1, command: python_probe(1) }
                } else {
                    let url = streamlink_install_url();
                    StreamlinkInstall::OpenPage {
                        launch: open_url(os, url.as_str()),
                        message: owned(
                            "Python not found. Opening browser to streamlink download page.",
                        ),
                    }
                }
            },
            (StreamlinkInstall::RunPip { attempt, command }, StreamlinkEvent::PipRan(outcome)) => {
                let succeeded = match &outcome {
                    Ok(o) => o.success,
                    Err(_) => false,
                };
                if succeeded {
                    match outcome {
                        Ok(o) => {
                            let last = last_nonempty_line(o.stdout.as_str());
                            StreamlinkInstall::Finished(
                                Ok(joined3("streamlink (", last.as_str(), ")")),
                            )
                        },
                        Err(e) => StreamlinkInstall::Finished(Err(e)),
                    }
                } else if attempt == 0 {
                    StreamlinkInstall::RunPip { attempt: 1, command: pip_command(1) }
                } else {
                    let url = streamlink_install_url();
                    StreamlinkInstall::OpenPage {
                        launch: open_url(os, url.as_str()),
                        message: owned(
                            "pip install failed. Opening browser to streamlink download page.",
                        ),
                    }
                }
            },
            (StreamlinkInstall::OpenPage { launch, message }, StreamlinkEvent::PageOpened) => {
                StreamlinkInstall::Finished(Ok(message))
            },
            (state, _) => state,
        }
    }
}

/// The report line for a tool: its installation message, or `"Error: "` and the reason it
/// failed; nothing when the tool was not installed.
pub open spec fn report_line(outcome: Option<Result<String, String>>) -> Option<Seq<char>> {
    match outcome {
        None => None,
        Some(Ok(m)) => Some(m@),
        Some(Err(e)) => Some("Error: "@ + e@),
    }
}

fn report_entry(outcome: Option<Result<String, String>>) -> (r: Option<String>)
    ensures
        opt_view(r) == report_line(outcome),
{
    match outcome {
        None => None,
        Some(Ok(m)) => Some(m),
        Some(Err(e)) => Some(joined("Error: ", e.as_str())),
    }
}

/// The report of an installation run, given the outcome for each tool that was installed
/// and the tool directory (empty when it is unusable).
pub fn report(
    ytdlp: Option<Result<String, String>>,
    streamlink: Option<Result<String, String>>,
    bin_dir: Result<String, String>,
) -> (r: Report)
    ensures
        opt_view(r.ytdlp) == report_line(ytdlp),
        opt_view(r.streamlink) == report_line(streamlink),
        r.bin_dir@ == match bin_dir {
            Ok(d) => d@,
            Err(_) => Seq::<char>::empty(),
        },
{
    let dir = match bin_dir {
        Ok(d) => d,
        Err(_) => String::new(),
    };
    Report { ytdlp: report_entry(ytdlp), streamlink: report_entry(streamlink), bin_dir: dir }
}

/// Installing the missing tools and reporting on it, one step at a time: both tools are
/// checked first; yt-dlp is installed if it is missing, then streamlink if it is missing;
/// last the tool directory is looked up for the report.
#[derive(Debug)]
pub enum Setup {
    /// Check whether each tool answers; answer with [`SetupEvent::Checked`].
    CheckTools,
    /// Install yt-dlp (see [`install_ytdlp`]); answer with [`SetupEvent::YtdlpDone`].
    /// Streamlink is installed next when `streamlink_missing`.
    InstallYtdlp { streamlink_missing: bool },
    /// Install streamlink (see [`install_streamlink`]); answer with
    /// [`SetupEvent::StreamlinkDone`]. `ytdlp` is the outcome for yt-dlp, if it was installed.
    InstallStreamlink { ytdlp: Option<Result<String, String>> },
    /// Look up the tool directory; answer with [`SetupEvent::BinDir`].
    FindBinDir { ytdlp: Option<Result<String, String>>, streamlink: Option<Result<String, String>> },
    /// The installation is over, with its report.
    Finished(Report),
}

/// What the work named by a [`Setup`] state gave.
#[derive(Debug)]
pub enum SetupEvent {
    /// Whether each tool answers.
    Checked { ytdlp: bool, streamlink: bool },
    YtdlpDone(Result<String, String>),
    StreamlinkDone(Result<String, String>),
    /// The tool directory, or why it is unusable.
    BinDir(Result<String, String>),
}

/// The first step of installing the missing tools.
pub fn do_install() -> (s: Setup)
    ensures
        s is CheckTools,
{
    Setup::CheckTools
}

/// `event` is the answer to the work named by `s`.
pub open spec fn setup_answers(s: Setup, event: SetupEvent) -> bool {
    match (s, event) {
        (Setup::CheckTools, SetupEvent::Checked { .. }) => true,
        (Setup::InstallYtdlp { .. }, SetupEvent::YtdlpDone(_)) => true,
        (Setup::InstallStreamlink { .. }, SetupEvent::StreamlinkDone(_)) => true,
        (Setup::FindBinDir { .. }, SetupEvent::BinDir(_)) => true,
        _ => false,
    }
}

/// At most how many answered steps remain before the installation is finished.
pub open spec fn setup_steps_left(s: Setup) -> nat {
    match s {
        Setup::CheckTools => 4,
        Setup::InstallYtdlp { .. } => 3,
        Setup::InstallStreamlink { .. } => 2,
        Setup::FindBinDir { .. } => 1,
        Setup::Finished(_) => 0,
    }
}

impl Setup {
    /// The state after the work named by `self` gave `event`: only a missing tool is
    /// installed, and the report holds a line for each installed tool (see [`report`]). An
    /// event that does not answer the current state leaves it unchanged.
    pub fn advance(self, event: SetupEvent) -> (r: Setup)
        ensures
            setup_answers(self, event) ==> setup_steps_left(r) < setup_steps_left(self),
            match (self, event) {
                (Setup::CheckTools, SetupEvent::Checked { ytdlp, streamlink }) => if !ytdlp {
                    r == Setup::InstallYtdlp { streamlink_missing: !streamlink }
                } else if !streamlink {
                    r == Setup::InstallStreamlink { ytdlp: None }
                } else {
                    r == Setup::FindBinDir { ytdlp: None, streamlink: None }
                },
                (Setup::InstallYtdlp { streamlink_missing }, SetupEvent::YtdlpDone(outcome)) => if streamlink_missing {
                    r == Setup::InstallStreamlink { ytdlp: Some(outcome) }
                } else {
                    r == Setup::FindBinDir { ytdlp: Some(outcome), streamlink: None }
                },
                (Setup::InstallStreamlink { ytdlp }, SetupEvent::StreamlinkDone(outcome)) => r
                    == Setup::FindBinDir { ytdlp, streamlink: Some(outcome) },
                (Setup::FindBinDir { ytdlp, streamlink }, SetupEvent::BinDir(dir)) => r matches Setup::Finished(
                    rep,
                ) && opt_view(rep.ytdlp) == report_line(ytdlp) && opt_view(rep.streamlink)
                    == report_line(streamlink) && rep.bin_dir@ == match dir {
                    Ok(d) => d@,
                    Err(_) => Seq::<char>::empty(),
                },
                _ => r == self,
            },
    {
        match (self, event) {
            (Setup::CheckTools, SetupEvent::Checked { ytdlp, streamlink }) => {
                if !ytdlp {
                    Setup::InstallYtdlp { streamlink_missing: !streamlink }
                } else if !streamlink {
                    Setup::InstallStreamlink { ytdlp: None }
                } else {
                    Setup::FindBinDir { ytdlp: None, streamlink: None }
                }
            },
            (Setup::InstallYtdlp { streamlink_missing }, SetupEvent::YtdlpDone(outcome)) => {
                if streamlink_missing {
                    Setup::InstallStreamlink { ytdlp: Some(outcome) }
                } else {
                    Setup::FindBinDir { ytdlp: Some(outcome), streamlink: None }
                }
            },
            (Setup::InstallStreamlink { ytdlp }, SetupEvent::StreamlinkDone(outcome)) => {
                Setup::FindBinDir { ytdlp, streamlink: Some(outcome) }
            },
            (Setup::FindBinDir { ytdlp, streamlink }, SetupEvent::BinDir(dir)) => {
                Setup::Finished(report(ytdlp, streamlink, dir))
            },
            (state, _) => state,
        }
    }
}


/// Off Windows the tool directory is `.local/bin` in the home directory, whatever
/// `LOCALAPPDATA` holds; on Windows it is `streamlink-video-launcher\bin` in
/// `LOCALAPPDATA`, whatever the home directory is.
pub proof fn law_bin_dir(
    os: Os,
    local_app_data: Option<Seq<char>>,
    home: Option<Seq<char>>,
    h: Seq<char>,
)
    ensures
        os != Os::Windows && h.len() > 0 && h.last() != '/' ==> bin_dir_spec(
            os,
            local_app_data,
            Some(h),
        ) == Ok::<Seq<char>, Seq<char>>(h + "/.local/bin"@),
        os != Os::Windows ==> bin_dir_spec(os, local_app_data, None) == Err::<
            Seq<char>,
            Seq<char>,
        >("Cannot find home directory"@),
        os == Os::Windows && h.len() > 0 && h.last() != '\\' && h.last() != '/' && !(h.len()
            == 2 && crate::platform::has_drive(h)) ==> bin_dir_spec(os, Some(h), home) == Ok::<
            Seq<char>,
            Seq<char>,
        >(h + "\\streamlink-video-launcher\\bin"@),
        os == Os::Windows ==> bin_dir_spec(os, None, home) == Err::<Seq<char>, Seq<char>>(
            "LOCALAPPDATA not set"@,
        ),
{
    reveal_strlit("/.local/bin");
    reveal_strlit(".local");
    reveal_strlit("bin");
    reveal_strlit("\\streamlink-video-launcher\\bin");
    reveal_strlit("streamlink-video-launcher");
    if os != Os::Windows && h.len() > 0 && h.last() != '/' {
        let a = join_spec(os, h, ".local"@);
        assert(a == h + seq!['/'] + ".local"@);
        assert(a.last() == 'l');
        assert(join_spec(os, a, "bin"@) =~= h + "/.local/bin"@);
    }
    if os == Os::Windows && h.len() > 0 && h.last() != '\\' && h.last() != '/' && !(h.len() == 2
        && crate::platform::has_drive(h)) {
        let a = join_spec(os, h, "streamlink-video-launcher"@);
        assert(!crate::platform::has_drive("streamlink-video-launcher"@));
        assert(a == h + seq!['\\'] + "streamlink-video-launcher"@);
        assert(a.last() == 'r');
        assert(!(a.len() == 2));
        assert(join_spec(os, a, "bin"@) =~= h + "\\streamlink-video-launcher\\bin"@);
    }
}

} // verus!
