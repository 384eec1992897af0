//! The yt-dlp backend: the commands run for YouTube links, and what their output means.

use crate::platform::{command_spec, CommandLine, CommandOutput, Launch, Os};
use crate::text::{joined, lines, lines_spec, owned, str_eq, trim, trim_spec};
use vstd::prelude::*;

verus! {

/// What yt-dlp reports about a video.
#[derive(Clone, Debug)]
pub struct VideoInfo {
    pub title: Option<String>,
}

/// The name of the yt-dlp executable.
pub open spec fn binary_name_spec(os: Os) -> Seq<char> {
    if os == Os::Windows {
        "yt-dlp.exe"@
    } else {
        "yt-dlp"@
    }
}

/// The name of the yt-dlp executable on `os`.
pub fn binary_name(os: Os) -> (r: String)
    ensures
        r@ == binary_name_spec(os),
{
    if os == Os::Windows {
        owned("yt-dlp.exe")
    } else {
        owned("yt-dlp")
    }
}

/// The command that asks yt-dlp (at `binary`) for the description of `url` as JSON.
pub fn resolve_command(binary: &str, url: &str) -> (c: CommandLine)
    ensures
        c@ == command_spec(binary@, seq!["--dump-json"@, url@]),
{
    let mut args: Vec<String> = Vec::new();
    args.push(owned("--dump-json"));
    args.push(owned(url));
    let c = CommandLine { program: owned(binary), args };
    assert(c.args.deep_view() =~= seq!["--dump-json"@, url@]);
    c
}

/// The description of a video, given how running the command of [`resolve_command`]
/// went (`Err` holds the reason it could not run) and what reading its standard output as
/// JSON gave (`Err` holds the reader's message).
pub fn resolve(output: Result<CommandOutput, String>, parsed: Result<VideoInfo, String>) -> (r:
    Result<VideoInfo, String>)
    ensures
        match output {
            Err(e) => r matches Err(m) && m@ == "Failed to run yt-dlp: "@ + e@,
            Ok(o) => if o.success {
                match parsed {
                    Ok(info) => r == Ok::<VideoInfo, String>(info),
                    Err(pe) => r matches Err(m) && m@ == "Failed to parse yt-dlp output: "@ + pe@,
                }
            } else {
                r matches Err(m) && m@ == trim_spec(o.stderr@)
            },
        },
{
    match output {
        Err(e) => Err(joined("Failed to run yt-dlp: ", e.as_str())),
        Ok(o) => {
            if o.success {
                match parsed {
                    Ok(info) => Ok(info),
                    Err(pe) => Err(joined("Failed to parse yt-dlp output: ", pe.as_str())),
                }
            } else {
                Err(trim(o.stderr.as_str()))
            }
        },
    }
}

/// The command that asks yt-dlp (at `binary`) for the direct stream URLs of `url` in the
/// given format.
pub fn stream_urls_command(binary: &str, url: &str, format: &str) -> (c: CommandLine)
    ensures
        c@ == command_spec(binary@, seq!["-g"@, "-f"@, format@, url@]),
{
    let mut args: Vec<String> = Vec::new();
    args.push(owned("-g"));
    args.push(owned("-f"));
    args.push(owned(format));
    args.push(owned(url));
    let c = CommandLine { program: owned(binary), args };
    assert(c.args.deep_view() =~= seq!["-g"@, "-f"@, format@, url@]);
    c
}

/// Each line of `s`, without surrounding whitespace.
pub open spec fn trimmed_lines(s: Seq<char>) -> Seq<Seq<char>> {
    lines_spec(s).map_values(|l: Seq<char>| trim_spec(l))
}

/// The stream URLs printed by the command of [`stream_urls_command`], given how running it
/// went: one URL per output line, trimmed; an error when the command could not run, failed
/// (its trimmed error output), or printed no line.
pub fn stream_urls(output: Result<CommandOutput, String>) -> (r: Result<Vec<String>, String>)
    ensures
        match output {
            Err(e) => r matches Err(m) && m@ == "Failed to get stream URL: "@ + e@,
            Ok(o) => if !o.success {
                r matches Err(m) && m@ == trim_spec(o.stderr@)
            } else if trimmed_lines(o.stdout@).len() == 0 {
                r matches Err(m) && m@ == "No stream URL returned"@
            } else {
                r matches Ok(urls) && urls.deep_view() == trimmed_lines(o.stdout@)
            },
        },
{
    match output {
        Err(e) => Err(joined("Failed to get stream URL: ", e.as_str())),
        Ok(o) => {
            if !o.success {
                return Err(trim(o.stderr.as_str()));
            }
            let raw = lines(o.stdout.as_str());
            let ghost ls = lines_spec(o.stdout@);
            let mut urls: Vec<String> = Vec::new();
            let mut i: usize = 0;
            while i < raw.len()
                invariant
                    raw.deep_view() == ls,
                    i <= raw.len(),
                    urls.deep_view() =~= ls.take(i as int).map_values(
                        |l: Seq<char>| trim_spec(l),
                    ),
                decreases raw.len() - i,
            {
                let t = trim(raw[i].as_str());
                let ghost before = urls.deep_view();
                urls.push(t);
                assert(urls.deep_view() =~= before.push(t@));
                assert(ls.take(i + 1) =~= ls.take(i as int).push(ls[i as int]));
                i = i + 1;
            }
            assert(ls.take(raw.len() as int) =~= ls);
            if urls.len() == 0 {
                Err(owned("No stream URL returned"))
            } else {
                Ok(urls)
            }
        },
    }
}

/// The command that makes yt-dlp (at `binary`) save `url` in the given format to `output`.
pub fn download(binary: &str, url: &str, format: &str, output: &str) -> (l: Launch)
    ensures
        l.command@ == command_spec(binary@, seq!["-f"@, format@, "-o"@, output@, url@]),
        l.failure@ == "Failed to start download: "@,
{
    let mut args: Vec<String> = Vec::new();
    args.push(owned("-f"));
    args.push(owned(format));
    args.push(owned("-o"));
    args.push(owned(output));
    args.push(owned(url));
    let command = CommandLine { program: owned(binary), args };
    assert(command.args.deep_view() =~= seq!["-f"@, format@, "-o"@, output@, url@]);
    Launch { command, failure: owned("Failed to start download: ") }
}

/// The yt-dlp format selection for a quality label; a label that is not one of the known
/// qualities is used as the format itself.
pub open spec fn format_spec(label: Seq<char>) -> Seq<char> {
    if label == "best"@ {
        "bestvideo+bestaudio/best"@
    } else if label == "1080p"@ {
        "bestvideo[height<=1080]+bestaudio/best[height<=1080]"@
    } else if label == "720p"@ {
        "bestvideo[height<=720]+bestaudio/best[height<=720]"@
    } else if label == "480p"@ {
        "bestvideo[height<=480]+bestaudio/best[height<=480]"@
    } else if label == "360p"@ {
        "bestvideo[height<=360]+bestaudio/best[height<=360]"@
    } else if label == "audio-only"@ {
        "bestaudio/best"@
    } else if label == "worst"@ {
        "worst"@
    } else {
        label
    }
}

/// The yt-dlp format selection for the quality `label`.
pub fn format_for_quality(label: &str) -> (r: String)
    ensures
        r@ == format_spec(label@),
{
    if str_eq(label, "best") {
        owned("bestvideo+bestaudio/best")
    } else if str_eq(label, "1080p") {
        owned("bestvideo[height<=1080]+bestaudio/best[height<=1080]")
    } else if str_eq(label, "720p") {
        owned("bestvideo[height<=720]+bestaudio/best[height<=720]")
    } else if str_eq(label, "480p") {
        owned("bestvideo[height<=480]+bestaudio/best[height<=480]")
    } else if str_eq(label, "360p") {
        owned("bestvideo[height<=360]+bestaudio/best[height<=360]")
    } else if str_eq(label, "audio-only") {
        owned("bestaudio/best")
    } else if str_eq(label, "worst") {
        owned("worst")
    } else {
        owned(label)
    }
}

} // verus!
