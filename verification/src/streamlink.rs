//! The streamlink backend: the commands run for links other than YouTube, and what their
//! output means.

use crate::platform::{command_spec, CommandLine, CommandOutput, Launch, Os};
use crate::text::{joined, owned, trim, trim_spec};
use vstd::prelude::*;

verus! {

/// What streamlink reports about a stream.
#[derive(Clone, Debug)]
pub struct StreamInfo {
    pub title: Option<String>,
}

/// The name of the streamlink executable.
pub open spec fn binary_name_spec(os: Os) -> Seq<char> {
    if os == Os::Windows {
        "streamlink.exe"@
    } else {
        "streamlink"@
    }
}

/// The name of the streamlink executable on `os`.
pub fn binary_name(os: Os) -> (r: String)
    ensures
        r@ == binary_name_spec(os),
{
    if os == Os::Windows {
        owned("streamlink.exe")
    } else {
        owned("streamlink")
    }
}

/// The command that asks streamlink (at `binary`) for the description of `url` as JSON.
pub fn resolve_command(binary: &str, url: &str) -> (c: CommandLine)
    ensures
        c@ == command_spec(binary@, seq!["--json"@, url@]),
{
    let mut args: Vec<String> = Vec::new();
    args.push(owned("--json"));
    args.push(owned(url));
    let c = CommandLine { program: owned(binary), args };
    assert(c.args.deep_view() =~= seq!["--json"@, url@]);
    c
}

/// The description of a stream, given how running the command of [`resolve_command`]
/// went (`Err` holds the reason it could not run) and what reading its standard output as
/// JSON gave (`Err` holds the reader's message).
pub fn resolve(output: Result<CommandOutput, String>, parsed: Result<StreamInfo, String>) -> (r:
    Result<StreamInfo, String>)
    ensures
        match output {
            Err(e) => r matches Err(m) && m@ == "Failed to run streamlink: "@ + e@,
            Ok(o) => if o.success {
                match parsed {
                    Ok(info) => r == Ok::<StreamInfo, String>(info),
                    Err(pe) => r matches Err(m) && m@ == "Failed to parse streamlink output: "@
                        + pe@,
                }
            } else {
                r matches Err(m) && m@ == trim_spec(o.stderr@)
            },
        },
{
    match output {
        Err(e) => Err(joined("Failed to run streamlink: ", e.as_str())),
        Ok(o) => {
            if o.success {
                match parsed {
                    Ok(info) => Ok(info),
                    Err(pe) => Err(joined("Failed to parse streamlink output: ", pe.as_str())),
                }
            } else {
                Err(trim(o.stderr.as_str()))
            }
        },
    }
}

/// The command that makes streamlink (at `binary`) play `url` at `quality` in `player`.
pub fn play(binary: &str, url: &str, quality: &str, player: &str) -> (l: Launch)
    ensures
        l.command@ == command_spec(binary@, seq!["--player"@, player@, url@, quality@]),
        l.failure@ == "Failed to launch streamlink: "@,
{
    let mut args: Vec<String> = Vec::new();
    args.push(owned("--player"));
    args.push(owned(player));
    args.push(owned(url));
    args.push(owned(quality));
    let command = CommandLine { program: owned(binary), args };
    assert(command.args.deep_view() =~= seq!["--player"@, player@, url@, quality@]);
    Launch { command, failure: owned("Failed to launch streamlink: ") }
}

/// The command that makes streamlink (at `binary`) save `url` at `quality` to `output`.
pub fn download(binary: &str, url: &str, quality: &str, output: &str) -> (l: Launch)
    ensures
        l.command@ == command_spec(binary@, seq!["-o"@, output@, url@, quality@]),
        l.failure@ == "Failed to start download: "@,
{
    let mut args: Vec<String> = Vec::new();
    args.push(owned("-o"));
    args.push(owned(output));
    args.push(owned(url));
    args.push(owned(quality));
    let command = CommandLine { program: owned(binary), args };
    assert(command.args.deep_view() =~= seq!["-o"@, output@, url@, quality@]);
    Launch { command, failure: owned("Failed to start download: ") }
}

} // verus!
