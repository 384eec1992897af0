//! Operating-system conventions: which programs open files and links, how a program is
//! looked up, how paths are joined, and which video players are tried.

use crate::text::{contains, contains_spec, joined, owned};
use vstd::prelude::*;

verus! {

/// The operating systems the launcher runs on.
#[derive(Clone, Copy, Debug, PartialEq, Eq, Structural)]
pub enum Os {
    Linux,
    MacOs,
    Windows,
}

/// A program and its arguments, to be run by the caller.
#[derive(Clone, Debug)]
pub struct CommandLine {
    pub program: String,
    pub args: Vec<String>,
}

impl View for CommandLine {
    type V = (Seq<char>, Seq<Seq<char>>);

    open spec fn view(&self) -> (Seq<char>, Seq<Seq<char>>) {
        (self.program@, self.args.deep_view())
    }
}

/// A program to be started in the background, with the message that reports a failure to
/// start it (the message is followed by the system's description of the failure).
#[derive(Clone, Debug)]
pub struct Launch {
    pub command: CommandLine,
    pub failure: String,
}

impl View for Launch {
    type V = ((Seq<char>, Seq<Seq<char>>), Seq<char>);

    open spec fn view(&self) -> ((Seq<char>, Seq<Seq<char>>), Seq<char>) {
        (self.command@, self.failure@)
    }
}

/// What a finished program left behind: whether it exited successfully and its output.
#[derive(Clone, Debug)]
pub struct CommandOutput {
    pub success: bool,
    pub stdout: String,
    pub stderr: String,
}

impl Launch {
    /// The result of this launch, given what starting the program gave.
    pub fn outcome(&self, started: Result<(), String>) -> (r: Result<(), String>)
        ensures
            r matches Ok(()) <==> started is Ok,
            r matches Err(m) ==> started matches Err(e) && m@ == self.failure@ + e@,
    {
        match started {
            Ok(()) => Ok(()),
            Err(e) => Err(joined(self.failure.as_str(), e.as_str())),
        }
    }
}

/// A command line of `program` with `args`.
pub open spec fn command_spec(program: Seq<char>, args: Seq<Seq<char>>) -> (
    Seq<char>,
    Seq<Seq<char>>,
) {
    (program, args)
}

/// The URL is a YouTube link.
pub open spec fn is_youtube_spec(url: Seq<char>) -> bool {
    contains_spec(url, "youtube.com"@) || contains_spec(url, "youtu.be"@)
}

/// Whether `url` names a YouTube video (it mentions `youtube.com` or `youtu.be`).
pub fn is_youtube_url(url: &str) -> (r: bool)
    ensures
        r == is_youtube_spec(url@),
{
    contains(url, "youtube.com") || contains(url, "youtu.be")
}

/// The command that starts `player` on the given URLs, in order.
pub fn launch_player(player: &str, urls: &Vec<String>) -> (l: Launch)
    ensures
        l.command@ == command_spec(player@, urls.deep_view()),
        l.failure@ == "Failed to launch player: "@,
{
    let mut args: Vec<String> = Vec::new();
    let mut i: usize = 0;
    while i < urls.len()
        invariant
            i <= urls.len(),
            args.deep_view() =~= urls.deep_view().take(i as int),
        decreases urls.len() - i,
    {
        let ghost before = args.deep_view();
        args.push(urls[i].clone());
        assert(args.deep_view() =~= before.push(urls[i as int]@));
        assert(urls.deep_view().take(i + 1) =~= urls.deep_view().take(i as int).push(
            urls[i as int]@,
        ));
        i = i + 1;
    }
    assert(urls.deep_view().take(urls.len() as int) =~= urls.deep_view());
    Launch {
        command: CommandLine { program: owned(player), args },
        failure: owned("Failed to launch player: "),
    }
}

/// The command line by which `os` hands `target` to the program registered for it.
pub open spec fn opener_spec(os: Os, target: Seq<char>) -> (Seq<char>, Seq<Seq<char>>) {
    match os {
        Os::Linux => command_spec("xdg-open"@, seq![target]),
        Os::MacOs => command_spec("open"@, seq![target]),
        Os::Windows => command_spec("cmd"@, seq!["/c"@, "start"@, ""@, target]),
    }
}

fn opener(os: Os, target: &str) -> (c: CommandLine)
    ensures
        c@ == opener_spec(os, target@),
{
    match os {
        Os::Linux => {
            let mut args: Vec<String> = Vec::new();
            args.push(owned(target));
            let c = CommandLine { program: owned("xdg-open"), args };
            assert(c.args.deep_view() =~= seq![target@]);
            c
        },
        Os::MacOs => {
            let mut args: Vec<String> = Vec::new();
            args.push(owned(target));
            let c = CommandLine { program: owned("open"), args };
            assert(c.args.deep_view() =~= seq![target@]);
            c
        },
        Os::Windows => {
            let mut args: Vec<String> = Vec::new();
            args.push(owned("/c"));
            args.push(owned("start"));
            args.push(owned(""));
            args.push(owned(target));
            let c = CommandLine { program: owned("cmd"), args };
            assert(c.args.deep_view() =~= seq!["/c"@, "start"@, ""@, target@]);
            c
        },
    }
}

/// The command that opens `url` in the default browser.
pub fn open_url(os: Os, url: &str) -> (l: Launch)
    ensures
        l.command@ == opener_spec(os, url@),
        l.failure@ == "Failed to open URL: "@,
{
    Launch { command: opener(os, url), failure: owned("Failed to open URL: ") }
}

/// The command that opens the file at `path` in the default player.
pub fn open_in_default_player(os: Os, path: &str) -> (l: Launch)
    ensures
        l.command@ == opener_spec(os, path@),
        l.failure@ == "Failed to open file: "@,
{
    Launch { command: opener(os, path), failure: owned("Failed to open file: ") }
}

/// The command that asks whether `program` answers `--version` (it is installed and runs).
pub fn version_probe(program: &str) -> (c: CommandLine)
    ensures
        c@ == command_spec(program@, seq!["--version"@]),
{
    let mut args: Vec<String> = Vec::new();
    args.push(owned("--version"));
    let c = CommandLine { program: owned(program), args };
    assert(c.args.deep_view() =~= seq!["--version"@]);
    c
}

/// The command that looks `name` up on the search path.
pub open spec fn lookup_spec(os: Os, name: Seq<char>) -> (Seq<char>, Seq<Seq<char>>) {
    if os == Os::Windows {
        command_spec("where"@, seq![name])
    } else {
        command_spec("which"@, seq![name])
    }
}

/// The command that looks `name` up on the search path; it succeeds when `name` is found.
pub fn lookup_command(os: Os, name: &str) -> (c: CommandLine)
    ensures
        c@ == lookup_spec(os, name@),
{
    let program = if os == Os::Windows {
        owned("where")
    } else {
        owned("which")
    };
    let mut args: Vec<String> = Vec::new();
    args.push(owned(name));
    let c = CommandLine { program, args };
    assert(c.args.deep_view() =~= seq![name@]);
    c
}

/// How the presence of a player is checked.
#[derive(Clone, Copy, Debug, PartialEq, Eq, Structural)]
pub enum Probe {
    /// Look the name up on the search path.
    SearchPath,
    /// Check that a file exists at the given path.
    FileExists,
}

/// A video player that may be installed.
#[derive(Clone, Debug)]
pub struct PlayerCandidate {
    pub name: String,
    pub probe: Probe,
}

/// The players tried, in order of preference.
pub open spec fn player_candidates_spec(os: Os) -> Seq<(Seq<char>, Probe)> {
    let common = seq![
        ("mpv"@, Probe::SearchPath),
        ("vlc"@, Probe::SearchPath),
        ("celluloid"@, Probe::SearchPath),
    ];
    if os == Os::Windows {
        common + seq![
            ("C:\\Program Files\\VideoLAN\\VLC\\vlc.exe"@, Probe::FileExists),
            ("C:\\Program Files (x86)\\VideoLAN\\VLC\\vlc.exe"@, Probe::FileExists),
        ]
    } else {
        common
    }
}

pub open spec fn candidates_view(c: Seq<PlayerCandidate>) -> Seq<(Seq<char>, Probe)> {
    c.map_values(|p: PlayerCandidate| (p.name@, p.probe))
}

/// The players to try on `os`, most preferred first: mpv, vlc and celluloid on the search
/// path, and on Windows the usual VLC install locations.
pub fn player_candidates(os: Os) -> (v: Vec<PlayerCandidate>)
    ensures
        candidates_view(v@) == player_candidates_spec(os),
{
    let mut v: Vec<PlayerCandidate> = Vec::new();
    v.push(PlayerCandidate { name: owned("mpv"), probe: Probe::SearchPath });
    v.push(PlayerCandidate { name: owned("vlc"), probe: Probe::SearchPath });
    v.push(PlayerCandidate { name: owned("celluloid"), probe: Probe::SearchPath });
    if os == Os::Windows {
        v.push(
            PlayerCandidate {
                name: owned("C:\\Program Files\\VideoLAN\\VLC\\vlc.exe"),
                probe: Probe::FileExists,
            },
        );
        v.push(
            PlayerCandidate {
                name: owned("C:\\Program Files (x86)\\VideoLAN\\VLC\\vlc.exe"),
                probe: Probe::FileExists,
            },
        );
    }
    assert(candidates_view(v@) =~= player_candidates_spec(os));
    v
}

/// Looking for a video player, one candidate at a time.
#[derive(Debug)]
pub enum PlayerSearch {
    /// Probe `candidates[index]` (as its `probe` says); answer with whether it is present.
    Probe { candidates: Vec<PlayerCandidate>, index: usize },
    /// The search is over: the first candidate found present, if any.
    Finished(Option<String>),
}

/// `s` is well formed: a probe names an existing candidate.
pub open spec fn search_ok(s: PlayerSearch) -> bool {
    s matches PlayerSearch::Probe { candidates, index } ==> index < candidates.len()
}

/// At most how many probes remain before the search is finished.
pub open spec fn probes_left(s: PlayerSearch) -> nat {
    match s {
        PlayerSearch::Probe { candidates, index } => (candidates.len() - index) as nat,
        PlayerSearch::Finished(_) => 0,
    }
}

/// The first step of looking for a player on `os`: probe the most preferred candidate
/// (see [`player_candidates_spec`]).
pub fn find_player(os: Os) -> (s: PlayerSearch)
    ensures
        search_ok(s),
        s matches PlayerSearch::Probe { candidates, index } && index == 0 && candidates_view(
            candidates@,
        ) == player_candidates_spec(os),
{
    let candidates = player_candidates(os);
    assert(candidates@.len() == player_candidates_spec(os).len());
    PlayerSearch::Probe { candidates, index: 0 }
}

impl PlayerSearch {
    /// The state after the probe named by `self` found the candidate present (`found`) or
    /// not: a present candidate ends the search with its name, so the candidates after it
    /// are never probed; an absent one moves on to the next candidate, and after the last
    /// one the search ends with no player.
    pub fn advance(self, found: bool) -> (r: PlayerSearch)
        requires
            search_ok(self),
        ensures
            search_ok(r),
            match self {
                PlayerSearch::Probe { candidates, index } => {
                    &&& probes_left(r) < probes_left(self)
                    &&& if found {
                        r matches PlayerSearch::Finished(Some(name)) && name@
                            == candidates[index as int].name@
                    } else if index + 1 < candidates.len() {
                        r matches PlayerSearch::Probe { candidates: c, index: i } && c == candidates
                            && i == index + 1
                    } else {
                        r == PlayerSearch::Finished(None)
                    }
                },
                PlayerSearch::Finished(_) => r == self,
            },
    {
        match self {
            PlayerSearch::Probe { candidates, index } => {
                if found {
                    PlayerSearch::Finished(Some(candidates[index].name.clone()))
                } else if index + 1 < candidates.len() {
                    PlayerSearch::Probe { candidates, index: index + 1 }
                } else {
                    PlayerSearch::Finished(None)
                }
            },
            PlayerSearch::Finished(p) => PlayerSearch::Finished(p),
        }
    }
}

/// The path separator of `os`.
pub open spec fn separator(os: Os) -> char {
    if os == Os::Windows {
        '\\'
    } else {
        '/'
    }
}

/// `c` separates path components on `os`.
pub open spec fn is_separator(os: Os, c: char) -> bool {
    c == '/' || (os == Os::Windows && c == '\\')
}

/// `p` starts with a drive prefix such as `C:` (Windows).
pub open spec fn has_drive(p: Seq<char>) -> bool {
    p.len() >= 2 && (('a' <= p[0] && p[0] <= 'z') || ('A' <= p[0] && p[0] <= 'Z')) && p[1] == ':'
}

/// `p` starts at a root: with a separator.
pub open spec fn has_root(os: Os, p: Seq<char>) -> bool {
    p.len() > 0 && is_separator(os, p[0])
}

/// `component` appended to `base`, as `Path::join` does it on `os`.
///
/// On Linux and macOS a component that starts with `/` replaces the base; otherwise a `/`
/// is put between the two unless the base is empty or already ends with one.
///
/// On Windows a component with a drive prefix (`D:...`) replaces the base; a component
/// that starts with a separator but has no drive keeps only the drive of the base (if the
/// base has one) in front of it; otherwise a `\` is put between the two unless the base is
/// empty, already ends with a separator, or is a drive alone (`C:`). Paths with the other
/// Windows prefixes, which start with two backslashes (`\\server\share`, `\\?\`, `\\.\`),
/// are outside what this describes.
pub open spec fn join_spec(os: Os, base: Seq<char>, component: Seq<char>) -> Seq<char> {
    if os == Os::Windows {
        if has_drive(component) {
            component
        } else if has_root(os, component) {
            (if has_drive(base) {
                base.take(2)
            } else {
                Seq::empty()
            }) + component
        } else if base.len() == 0 || is_separator(os, base.last()) || (base.len() == 2
            && has_drive(base)) {
            base + component
        } else {
            base + seq!['\\'] + component
        }
    } else {
        if has_root(os, component) {
            component
        } else if base.len() == 0 || base.last() == '/' {
            base + component
        } else {
            base + seq!['/'] + component
        }
    }
}

fn starts_with_drive(v: &Vec<char>) -> (r: bool)
    ensures
        r == has_drive(v@),
{
    v.len() >= 2 && (('a' <= v[0] && v[0] <= 'z') || ('A' <= v[0] && v[0] <= 'Z')) && v[1]
        == ':'
}

/// `component` appended to the path `base`, as [`join_spec`] describes.
pub fn join_path(os: Os, base: &str, component: &str) -> (r: String)
    ensures
        r@ == join_spec(os, base@, component@),
{
    let b = crate::text::chars_of(base);
    let c = crate::text::chars_of(component);
    proof {
        reveal_strlit("\\");
        reveal_strlit("/");
        reveal_strlit("");
    }
    if os == Os::Windows {
        if starts_with_drive(&c) {
            owned(component)
        } else if c.len() > 0 && (c[0] == '/' || c[0] == '\\') {
            if starts_with_drive(&b) {
                let drive = crate::text::substring(base, 0, 2);
                assert(drive@ == base@.take(2));
                joined(drive.as_str(), component)
            } else {
                owned(component)
            }
        } else if b.len() == 0 || b[b.len() - 1] == '/' || b[b.len() - 1] == '\\' || (b.len()
            == 2 && starts_with_drive(&b)) {
            joined(base, component)
        } else {
            crate::text::joined3(base, "\\", component)
        }
    } else {
        if c.len() > 0 && c[0] == '/' {
            owned(component)
        } else if b.len() == 0 || b[b.len() - 1] == '/' {
            joined(base, component)
        } else {
            crate::text::joined3(base, "/", component)
        }
    }
}


/// The players tried: mpv, vlc and celluloid, looked up on the search path in that order;
/// on Windows, after them, the VLC executables of the 64-bit and the 32-bit install
/// (`C:\Program Files\VideoLAN\VLC\vlc.exe`, `C:\Program Files (x86)\VideoLAN\VLC\vlc.exe`),
/// checked as files; on the other systems nothing more.
pub proof fn law_player_candidates(os: Os)
    ensures
        player_candidates_spec(os).len() == if os == Os::Windows {
            5int
        } else {
            3int
        },
        player_candidates_spec(os)[0] == ("mpv"@, Probe::SearchPath),
        player_candidates_spec(os)[1] == ("vlc"@, Probe::SearchPath),
        player_candidates_spec(os)[2] == ("celluloid"@, Probe::SearchPath),
        os == Os::Windows ==> player_candidates_spec(os)[3] == (
            "C:\\Program Files\\VideoLAN\\VLC\\vlc.exe"@,
            Probe::FileExists,
        ),
        os == Os::Windows ==> player_candidates_spec(os)[4] == (
            "C:\\Program Files (x86)\\VideoLAN\\VLC\\vlc.exe"@,
            Probe::FileExists,
        ),
{
}

/// On Linux and macOS, a base path that is not empty and does not end with `/` is
/// continued by `/` and a relative component.
pub proof fn law_join_unix(os: Os, base: Seq<char>, component: Seq<char>)
    requires
        os != Os::Windows,
        base.len() > 0,
        base.last() != '/',
        component.len() > 0,
        component[0] != '/',
    ensures
        join_spec(os, base, component) == base + "/"@ + component,
{
    reveal_strlit("/");
    assert("/"@ =~= seq!['/']);
}

} // verus!
