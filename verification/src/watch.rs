//! Resolving a link and starting playback, one step at a time.
//!
//! YouTube links go through yt-dlp: the video's title is looked up (a failure only loses
//! the title), then mpv is started with yt-dlp's format selection, or, for any other
//! player, the direct stream URLs are fetched and handed to the player. Other links go
//! through streamlink: the stream is resolved (a failure ends the job) and streamlink plays
//! it (how starting it goes does not matter). The job ends with the title, possibly
//! empty, or an error message.

use crate::platform::{command_spec, is_youtube_spec, is_youtube_url, launch_player, CommandLine, Launch};
use crate::streamlink::StreamInfo;
use crate::text::{joined, owned, str_eq};
use crate::ytdlp::{format_for_quality, format_spec, VideoInfo};
use vstd::prelude::*;

verus! {

/// A watch job: each state but `Finished` names the work to do next.
#[derive(Debug)]
pub enum Watch {
    /// Ask yt-dlp to describe `url`; answer with [`WatchEvent::VideoResolved`].
    ResolveVideo { url: String, quality: String, player: String },
    /// Start `launch` (mpv playing `url` through yt-dlp); answer with [`WatchEvent::Started`].
    LaunchMpv { title: String, launch: Launch },
    /// Ask yt-dlp for the stream URLs of `url` in `format`; answer with
    /// [`WatchEvent::StreamUrls`].
    FetchStreamUrls { url: String, format: String, player: String, title: String },
    /// Start `launch` (the player on the stream URLs); answer with [`WatchEvent::Started`].
    LaunchPlayer { title: String, launch: Launch },
    /// Ask streamlink to describe `url`; answer with [`WatchEvent::StreamResolved`].
    ResolveStream { url: String, quality: String, player: String },
    /// Start streamlink playing `url` at `quality` in `player` (the outcome does not
    /// matter); answer with [`WatchEvent::Played`].
    PlayStream { title: String, url: String, quality: String, player: String },
    /// The job is over: the title (possibly empty) or why it failed.
    Finished(Result<String, String>),
}

/// What the work named by a [`Watch`] state gave.
#[derive(Debug)]
pub enum WatchEvent {
    VideoResolved(Result<VideoInfo, String>),
    /// Whether the program could be started; `Err` holds the system's description.
    Started(Result<(), String>),
    StreamUrls(Result<Vec<String>, String>),
    StreamResolved(Result<StreamInfo, String>),
    Played,
}

/// `event` is the answer to the work named by `w`.
pub open spec fn answers(w: Watch, event: WatchEvent) -> bool {
    match (w, event) {
        (Watch::ResolveVideo { .. }, WatchEvent::VideoResolved(_)) => true,
        (Watch::LaunchMpv { .. }, WatchEvent::Started(_)) => true,
        (Watch::FetchStreamUrls { .. }, WatchEvent::StreamUrls(_)) => true,
        (Watch::LaunchPlayer { .. }, WatchEvent::Started(_)) => true,
        (Watch::ResolveStream { .. }, WatchEvent::StreamResolved(_)) => true,
        (Watch::PlayStream { .. }, WatchEvent::Played) => true,
        _ => false,
    }
}

/// At most how many answered steps remain before the job is finished.
pub open spec fn steps_left(w: Watch) -> nat {
    match w {
        Watch::ResolveVideo { .. } => 3,
        Watch::FetchStreamUrls { .. } => 2,
        Watch::ResolveStream { .. } => 2,
        Watch::LaunchMpv { .. } => 1,
        Watch::LaunchPlayer { .. } => 1,
        Watch::PlayStream { .. } => 1,
        Watch::Finished(_) => 0,
    }
}

/// The title found by a lookup, or the empty title when the lookup failed or found none.
pub open spec fn title_of(title: Option<String>) -> Seq<char> {
    match title {
        Some(t) => t@,
        None => Seq::empty(),
    }
}

/// The command that makes mpv play `url` with yt-dlp's format selection for `quality`.
pub open spec fn mpv_command_spec(url: Seq<char>, quality: Seq<char>) -> (
    Seq<char>,
    Seq<Seq<char>>,
) {
    command_spec("mpv"@, seq!["--ytdl-format="@ + format_spec(quality), url])
}

fn mpv_launch(url: &str, quality: &str) -> (l: Launch)
    ensures
        l.command@ == mpv_command_spec(url@, quality@),
        l.failure@ == "Failed to launch mpv: "@,
{
    let format = format_for_quality(quality);
    let mut args: Vec<String> = Vec::new();
    args.push(joined("--ytdl-format=", format.as_str()));
    args.push(owned(url));
    let command = CommandLine { program: owned("mpv"), args };
    assert(command.args.deep_view() =~= seq!["--ytdl-format="@ + format_spec(quality@), url@]);
    Launch { command, failure: owned("Failed to launch mpv: ") }
}

/// The first step of watching `url` at `quality` in `player`.
pub fn resolve_and_watch(url: String, quality: String, player: String) -> (w: Watch)
    ensures
        steps_left(w) <= 3,
        if is_youtube_spec(url@) {
            w == Watch::ResolveVideo { url, quality, player }
        } else {
            w == Watch::ResolveStream { url, quality, player }
        },
{
    if is_youtube_url(url.as_str()) {
        Watch::ResolveVideo { url, quality, player }
    } else {
        Watch::ResolveStream { url, quality, player }
    }
}

fn title_from(found: Option<String>) -> (t: String)
    ensures
        t@ == title_of(found),
{
    match found {
        Some(t) => t,
        None => String::new(),
    }
}

impl Watch {
    /// The state after the work named by `self` gave `event`. An event that does not
    /// answer the current state leaves it unchanged; an answer brings the job closer to its
    /// end, so a job finishes after at most three answers.
    pub fn advance(self, event: WatchEvent) -> (r: Watch)
        ensures
            answers(self, event) ==> steps_left(r) < steps_left(self),
            !answers(self, event) ==> r == self,
            match (self, event) {
                (Watch::ResolveVideo { url, quality, player }, WatchEvent::VideoResolved(found)) => {
                    let title = match found {
                        Ok(info) => title_of(info.title),
                        Err(_) => Seq::<char>::empty(),
                    };
                    if player@ == "mpv"@ {
                        r matches Watch::LaunchMpv { title: t, launch } && t@ == title
                            && launch.command@ == mpv_command_spec(url@, quality@)
                            && launch.failure@ == "Failed to launch mpv: "@
                    } else {
                        r matches Watch::FetchStreamUrls { url: u, format, player: p, title: t }
                            && u == url && format@ == "best"@ && p == player && t@ == title
                    }
                },
                (Watch::LaunchMpv { title, launch }, WatchEvent::Started(started)) => match started {
                    Ok(()) => r == Watch::Finished(Ok(title)),
                    Err(e) => r matches Watch::Finished(Err(m)) && m@ == launch.failure@ + e@,
                },
                (Watch::FetchStreamUrls { url, format, player, title }, WatchEvent::StreamUrls(
                    found,
                )) => match found {
                    Err(e) => r == Watch::Finished(Err(e)),
                    Ok(urls) => r matches Watch::LaunchPlayer { title: t, launch } && t == title
                        && launch.command@ == command_spec(player@, urls.deep_view())
                        && launch.failure@ == "Failed to launch player: "@,
                },
                (Watch::LaunchPlayer { title, launch }, WatchEvent::Started(started)) => match started {
                    Ok(()) => r == Watch::Finished(Ok(title)),
                    Err(e) => r matches Watch::Finished(Err(m)) && m@ == launch.failure@ + e@,
                },
                (Watch::ResolveStream { url, quality, player }, WatchEvent::StreamResolved(
                    found,
                )) => match found {
                    Err(e) => r == Watch::Finished(Err(e)),
                    Ok(info) => r matches Watch::PlayStream { title: t, url: u, quality: q, player: p }
                        && t@ == title_of(info.title) && u == url && q == quality && p == player,
                },
                (Watch::PlayStream { title, .. }, WatchEvent::Played) => r == Watch::Finished(
                    Ok(title),
                ),
                _ => r == self,
            },
    {
        match (self, event) {
            (Watch::ResolveVideo { url, quality, player }, WatchEvent::VideoResolved(found)) => {
                let title = match found {
                    Ok(info) => title_from(info.title),
                    Err(_) => String::new(),
                };
                if str_eq(player.as_str(), "mpv") {
                    Watch::LaunchMpv { title, launch: mpv_launch(url.as_str(), quality.as_str()) }
                } else {
                    Watch::FetchStreamUrls { url, format: owned("best"), player, title }
                }
            },
            (Watch::LaunchMpv { title, launch }, WatchEvent::Started(started)) => {
                match launch.outcome(started) {
                    Ok(()) => Watch::Finished(Ok(title)),
                    Err(m) => Watch::Finished(Err(m)),
                }
            },
            (Watch::FetchStreamUrls { url, format, player, title }, WatchEvent::StreamUrls(found)) => {
                match found {
                    Err(e) => Watch::Finished(Err(e)),
                    Ok(urls) => Watch::LaunchPlayer {
                        title,
                        launch: launch_player(player.as_str(), &urls),
                    },
                }
            },
            (Watch::LaunchPlayer { title, launch }, WatchEvent::Started(started)) => {
                match launch.outcome(started) {
                    Ok(()) => Watch::Finished(Ok(title)),
                    Err(m) => Watch::Finished(Err(m)),
                }
            },
            (Watch::ResolveStream { url, quality, player }, WatchEvent::StreamResolved(found)) => {
                match found {
                    Err(e) => Watch::Finished(Err(e)),
                    Ok(info) => Watch::PlayStream {
                        title: title_from(info.title),
                        url,
                        quality,
                        player,
                    },
                }
            },
            (Watch::PlayStream { title, url, quality, player }, WatchEvent::Played) => {
                Watch::Finished(Ok(title))
            },
            (state, _) => state,
        }
    }
}

} // verus!
