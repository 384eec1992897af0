//! The launcher's state and how each message changes it.
//!
//! [`update`] is the launcher's decision function: from the current state, a message and
//! the context (clock, search path) it computes the next state and the [`Effect`] the
//! caller performs (resolving and playing a link, saving the history, asking for a file
//! name, installing tools...). Its contract is the transition relation [`step`].

use crate::history::{entries_view, EntryView, HistoryEntry};
use crate::install::{opt_view, Report, ReportView};
use crate::platform::{is_youtube_spec, is_youtube_url, Os};
use crate::text::{joined, joined3, contains, contains_spec, owned};
use crate::ytdlp::{format_for_quality, format_spec};
use vstd::prelude::*;

verus! {

/// The stream quality the user picked.
#[derive(Clone, Copy, Debug, PartialEq, Eq, Structural)]
pub enum Quality {
    Best,
    P1080,
    P720,
    P480,
    P360,
    AudioOnly,
    Worst,
}

/// The label of a quality, as shown and as passed to the backends.
pub open spec fn label_spec(q: Quality) -> Seq<char> {
    match q {
        Quality::Best => "best"@,
        Quality::P1080 => "1080p"@,
        Quality::P720 => "720p"@,
        Quality::P480 => "480p"@,
        Quality::P360 => "360p"@,
        Quality::AudioOnly => "audio-only"@,
        Quality::Worst => "worst"@,
    }
}

/// The qualities offered, in the order they are listed.
pub open spec fn all_qualities() -> Seq<Quality> {
    seq![
        Quality::Best,
        Quality::P1080,
        Quality::P720,
        Quality::P480,
        Quality::P360,
        Quality::AudioOnly,
        Quality::Worst,
    ]
}

impl Quality {
    /// The label of this quality.
    pub fn label(&self) -> (r: &'static str)
        ensures
            r@ == label_spec(*self),
    {
        match self {
            Quality::Best => "best",
            Quality::P1080 => "1080p",
            Quality::P720 => "720p",
            Quality::P480 => "480p",
            Quality::P360 => "360p",
            Quality::AudioOnly => "audio-only",
            Quality::Worst => "worst",
        }
    }

    /// Every quality, in the order they are offered.
    pub fn all() -> (v: Vec<Quality>)
        ensures
            v@ == all_qualities(),
    {
        let v = vec![
            Quality::Best,
            Quality::P1080,
            Quality::P720,
            Quality::P480,
            Quality::P360,
            Quality::AudioOnly,
            Quality::Worst,
        ];
        assert(v@ =~= all_qualities());
        v
    }
}

/// What the launcher last did with the source.
#[derive(Clone, Debug)]
pub enum Status {
    Idle,
    Resolving,
    Ready,
    Error(String),
}

/// A status as plain values.
pub enum StatusView {
    Idle,
    Resolving,
    Ready,
    Error(Seq<char>),
}

impl View for Status {
    type V = StatusView;

    open spec fn view(&self) -> StatusView {
        match self {
            Status::Idle => StatusView::Idle,
            Status::Resolving => StatusView::Resolving,
            Status::Ready => StatusView::Ready,
            Status::Error(m) => StatusView::Error(m@),
        }
    }
}

/// Where the tool installation dialog stands.
#[derive(Clone, Debug)]
pub enum InstallStage {
    Prompt,
    Progress,
    Done(Report),
}

/// An installation stage as plain values.
pub enum InstallView {
    Prompt,
    Progress,
    Done(ReportView),
}

impl View for InstallStage {
    type V = InstallView;

    open spec fn view(&self) -> InstallView {
        match self {
            InstallStage::Prompt => InstallView::Prompt,
            InstallStage::Progress => InstallView::Progress,
            InstallStage::Done(r) => InstallView::Done(r@),
        }
    }
}

pub open spec fn install_opt_view(i: Option<InstallStage>) -> Option<InstallView> {
    match i {
        Some(s) => Some(s@),
        None => None,
    }
}

/// What the user did, or what finished in the background.
#[derive(Debug)]
pub enum Message {
    SourceChanged(String),
    QualityChanged(Quality),
    WatchPressed,
    DownloadPressed,
    /// Resolving and playing finished: the title (possibly empty), or why it failed.
    StreamResolved(Result<String, String>),
    /// The file chosen to save a download to, if any.
    DownloadPathChosen(Option<String>),
    ToggleHistory,
    CloseHistory,
    ClearHistoryPressed,
    ConfirmClearHistory,
    CancelClearHistory,
    HistoryEntryClicked(String),
    InstallAccept,
    InstallDismiss,
    InstallFinished(Result<Report, String>),
    /// Whether each backend answers, as found after an installation.
    ToolsDetected { streamlink: bool, ytdlp: bool },
}

/// A message as plain values.
pub enum MessageView {
    SourceChanged(Seq<char>),
    QualityChanged(Quality),
    WatchPressed,
    DownloadPressed,
    StreamResolved(Result<Seq<char>, Seq<char>>),
    DownloadPathChosen(Option<Seq<char>>),
    ToggleHistory,
    CloseHistory,
    ClearHistoryPressed,
    ConfirmClearHistory,
    CancelClearHistory,
    HistoryEntryClicked(Seq<char>),
    InstallAccept,
    InstallDismiss,
    InstallFinished(Result<ReportView, Seq<char>>),
    ToolsDetected { streamlink: bool, ytdlp: bool },
}

impl View for Message {
    type V = MessageView;

    open spec fn view(&self) -> MessageView {
        match self {
            Message::SourceChanged(s) => MessageView::SourceChanged(s@),
            Message::QualityChanged(q) => MessageView::QualityChanged(*q),
            Message::WatchPressed => MessageView::WatchPressed,
            Message::DownloadPressed => MessageView::DownloadPressed,
            Message::StreamResolved(r) => MessageView::StreamResolved(
                match r {
                    Ok(t) => Ok(t@),
                    Err(e) => Err(e@),
                },
            ),
            Message::DownloadPathChosen(p) => MessageView::DownloadPathChosen(opt_view(*p)),
            Message::ToggleHistory => MessageView::ToggleHistory,
            Message::CloseHistory => MessageView::CloseHistory,
            Message::ClearHistoryPressed => MessageView::ClearHistoryPressed,
            Message::ConfirmClearHistory => MessageView::ConfirmClearHistory,
            Message::CancelClearHistory => MessageView::CancelClearHistory,
            Message::HistoryEntryClicked(u) => MessageView::HistoryEntryClicked(u@),
            Message::InstallAccept => MessageView::InstallAccept,
            Message::InstallDismiss => MessageView::InstallDismiss,
            Message::InstallFinished(r) => MessageView::InstallFinished(
                match r {
                    Ok(rep) => Ok(rep@),
                    Err(e) => Err(e@),
                },
            ),
            Message::ToolsDetected { streamlink, ytdlp } => MessageView::ToolsDetected {
                streamlink: *streamlink,
                ytdlp: *ytdlp,
            },
        }
    }
}

/// The work a message leaves for the caller.
#[derive(Debug)]
pub enum Effect {
    /// Nothing.
    Nothing,
    /// Resolve `url` and play it at `quality` in `player` (see [`crate::watch`]); report
    /// with [`Message::StreamResolved`].
    Watch { url: String, quality: String, player: String },
    /// Open the local file `path` in the default player; report with
    /// [`Message::StreamResolved`] (an empty title on success).
    OpenFile { path: String },
    /// Write the history to the history file.
    SaveHistory,
    /// Ask the user for a file to save to; report with [`Message::DownloadPathChosen`].
    ChooseDownloadPath,
    /// Start yt-dlp saving `url` in `format` to `output`, in the background.
    DownloadVideo { url: String, format: String, output: String },
    /// Start streamlink saving `url` at `quality` to `output`, in the background.
    DownloadStream { url: String, quality: String, output: String },
    /// Install the missing tools; report with [`Message::InstallFinished`].
    Install,
    /// Check which backends answer; report with [`Message::ToolsDetected`].
    DetectTools,
}

/// An effect as plain values.
pub enum EffectView {
    Nothing,
    Watch { url: Seq<char>, quality: Seq<char>, player: Seq<char> },
    OpenFile { path: Seq<char> },
    SaveHistory,
    ChooseDownloadPath,
    DownloadVideo { url: Seq<char>, format: Seq<char>, output: Seq<char> },
    DownloadStream { url: Seq<char>, quality: Seq<char>, output: Seq<char> },
    Install,
    DetectTools,
}

impl View for Effect {
    type V = EffectView;

    open spec fn view(&self) -> EffectView {
        match self {
            Effect::Nothing => EffectView::Nothing,
            Effect::Watch { url, quality, player } => EffectView::Watch {
                url: url@,
                quality: quality@,
                player: player@,
            },
            Effect::OpenFile { path } => EffectView::OpenFile { path: path@ },
            Effect::SaveHistory => EffectView::SaveHistory,
            Effect::ChooseDownloadPath => EffectView::ChooseDownloadPath,
            Effect::DownloadVideo { url, format, output } => EffectView::DownloadVideo {
                url: url@,
                format: format@,
                output: output@,
            },
            Effect::DownloadStream { url, quality, output } => EffectView::DownloadStream {
                url: url@,
                quality: quality@,
                output: output@,
            },
            Effect::Install => EffectView::Install,
            Effect::DetectTools => EffectView::DetectTools,
        }
    }
}

/// What [`update`] reads from outside the launcher: the time (seconds since the Unix
/// epoch) and the value of the search path variable `PATH`.
#[derive(Clone, Debug)]
pub struct Context {
    pub now_secs: u64,
    pub path_var: String,
}

/// The launcher's state.
pub struct State {
    source: String,
    quality: Quality,
    history: Vec<HistoryEntry>,
    history_expanded: bool,
    show_clear_confirmation: bool,
    status: Status,
    player: Option<String>,
    streamlink_available: bool,
    ytdlp_available: bool,
    history_path: String,
    install: Option<InstallStage>,
    os: Os,
}

/// The launcher's state as plain values.
pub struct StateView {
    pub source: Seq<char>,
    pub quality: Quality,
    pub history: Seq<EntryView>,
    pub history_expanded: bool,
    pub show_clear_confirmation: bool,
    pub status: StatusView,
    pub player: Option<Seq<char>>,
    pub streamlink_available: bool,
    pub ytdlp_available: bool,
    pub history_path: Seq<char>,
    pub install: Option<InstallView>,
    pub os: Os,
}

impl View for State {
    type V = StateView;

    closed spec fn view(&self) -> StateView {
        StateView {
            source: self.source@,
            quality: self.quality,
            history: entries_view(self.history@),
            history_expanded: self.history_expanded,
            show_clear_confirmation: self.show_clear_confirmation,
            status: self.status@,
            player: opt_view(self.player),
            streamlink_available: self.streamlink_available,
            ytdlp_available: self.ytdlp_available,
            history_path: self.history_path@,
            install: install_opt_view(self.install),
            os: self.os,
        }
    }
}

/// `s` is a link (it holds `://`) rather than a file path.
pub open spec fn is_url_spec(s: Seq<char>) -> bool {
    contains_spec(s, "://"@)
}

/// A link as given, or with `https://` in front when it has no scheme.
pub open spec fn normalize_spec(u: Seq<char>) -> Seq<char> {
    if is_url_spec(u) {
        u
    } else {
        "https://"@ + u
    }
}

/// The message shown when no video player was found.
pub open spec fn no_player_message() -> Seq<char> {
    "No video player found (tried mpv, vlc, celluloid)"@
}

/// The message shown when the backend `name` is missing.
pub open spec fn backend_missing_message(name: Seq<char>) -> Seq<char> {
    name + " is not installed or not found on PATH"@
}

/// The backend used for `source`.
pub open spec fn backend_name(source: Seq<char>) -> Seq<char> {
    if is_youtube_spec(source) {
        "yt-dlp"@
    } else {
        "streamlink"@
    }
}

/// The backend needed for `source` is available.
pub open spec fn backend_available(s: StateView) -> bool {
    if is_youtube_spec(s.source) {
        s.ytdlp_available
    } else {
        s.streamlink_available
    }
}

/// The message shown after an installation when the tool directory is not on the search
/// path.
pub open spec fn path_hint(dir: Seq<char>) -> Seq<char> {
    "Add "@ + dir + " to your PATH or restart your shell"@
}

/// The state that holds `status` and is otherwise `s`.
pub open spec fn with_status(s: StateView, status: StatusView) -> StateView {
    StateView { status, ..s }
}

/// The transition relation of the launcher: the next state and the effect for message `m`
/// in state `s`, at time `now` and with search path `path_var`.
pub open spec fn step(s: StateView, m: MessageView, now: u64, path_var: Seq<char>) -> (
    StateView,
    EffectView,
) {
    match m {
        MessageView::SourceChanged(source) => (
            StateView { source, status: StatusView::Idle, ..s },
            EffectView::Nothing,
        ),
        MessageView::QualityChanged(quality) => (StateView { quality, ..s }, EffectView::Nothing),
        MessageView::WatchPressed => if s.source.len() == 0 {
            (s, EffectView::Nothing)
        } else if !is_url_spec(s.source) {
            (s, EffectView::OpenFile { path: s.source })
        } else if s.player is None {
            (with_status(s, StatusView::Error(no_player_message())), EffectView::Nothing)
        } else if !backend_available(s) {
            (
                with_status(
                    s,
                    StatusView::Error(backend_missing_message(backend_name(s.source))),
                ),
                EffectView::Nothing,
            )
        } else {
            (
                with_status(s, StatusView::Resolving),
                EffectView::Watch {
                    url: normalize_spec(s.source),
                    quality: label_spec(s.quality),
                    player: s.player->0,
                },
            )
        },
        MessageView::StreamResolved(Ok(title)) => if is_url_spec(s.source) && title.len() > 0 {
            (
                StateView {
                    history: s.history.push(
                        EntryView { url: s.source, title, timestamp: now },
                    ),
                    status: StatusView::Ready,
                    ..s
                },
                EffectView::SaveHistory,
            )
        } else {
            (with_status(s, StatusView::Ready), EffectView::Nothing)
        },
        MessageView::StreamResolved(Err(e)) => (
            with_status(s, StatusView::Error(e)),
            EffectView::Nothing,
        ),
        MessageView::DownloadPressed => if s.source.len() == 0 || !is_url_spec(s.source)
            || !backend_available(s) {
            (s, EffectView::Nothing)
        } else {
            (with_status(s, StatusView::Resolving), EffectView::ChooseDownloadPath)
        },
        MessageView::DownloadPathChosen(None) => (
            with_status(s, StatusView::Idle),
            EffectView::Nothing,
        ),
        MessageView::DownloadPathChosen(Some(output)) => (
            with_status(s, StatusView::Ready),
            if is_youtube_spec(s.source) {
                EffectView::DownloadVideo {
                    url: normalize_spec(s.source),
                    format: format_spec(label_spec(s.quality)),
                    output,
                }
            } else {
                EffectView::DownloadStream {
                    url: normalize_spec(s.source),
                    quality: label_spec(s.quality),
                    output,
                }
            },
        ),
        MessageView::ToggleHistory => (
            StateView {
                history_expanded: !s.history_expanded,
                show_clear_confirmation: false,
                ..s
            },
            EffectView::Nothing,
        ),
        MessageView::CloseHistory => (
            StateView { history_expanded: false, show_clear_confirmation: false, ..s },
            EffectView::Nothing,
        ),
        MessageView::ClearHistoryPressed => (
            StateView { show_clear_confirmation: true, ..s },
            EffectView::Nothing,
        ),
        MessageView::ConfirmClearHistory => (
            StateView {
                history: Seq::empty(),
                history_expanded: false,
                show_clear_confirmation: false,
                ..s
            },
            EffectView::SaveHistory,
        ),
        MessageView::CancelClearHistory => (
            StateView { show_clear_confirmation: false, ..s },
            EffectView::Nothing,
        ),
        MessageView::HistoryEntryClicked(url) => (
            StateView { source: url, history_expanded: false, ..s },
            EffectView::Nothing,
        ),
        MessageView::InstallAccept => (
            StateView { install: Some(InstallView::Progress), ..s },
            EffectView::Install,
        ),
        MessageView::InstallDismiss => {
            let hint = match s.install {
                Some(InstallView::Done(r)) => r.bin_dir.len() > 0 && s.os != Os::Windows
                    && !contains_spec(path_var, r.bin_dir),
                _ => false,
            };
            let dismissed = StateView { install: None, ..s };
            if hint {
                (
                    with_status(
                        dismissed,
                        StatusView::Error(path_hint(s.install->0->Done_0.bin_dir)),
                    ),
                    EffectView::Nothing,
                )
            } else {
                (dismissed, EffectView::Nothing)
            }
        },
        MessageView::InstallFinished(Ok(report)) => (
            StateView { install: Some(InstallView::Done(report)), ..s },
            EffectView::DetectTools,
        ),
        MessageView::InstallFinished(Err(e)) => (
            StateView {
                install: Some(
                    InstallView::Done(
                        ReportView {
                            ytdlp: None,
                            streamlink: Some("Error: "@ + e),
                            bin_dir: Seq::empty(),
                        },
                    ),
                ),
                ..s
            },
            EffectView::Nothing,
        ),
        MessageView::ToolsDetected { streamlink, ytdlp } => (
            StateView { streamlink_available: streamlink, ytdlp_available: ytdlp, ..s },
            EffectView::Nothing,
        ),
    }
}

/// A link as given, or with `https://` in front when it has no scheme.
pub fn normalize_url(url: &str) -> (r: String)
    ensures
        r@ == normalize_spec(url@),
{
    if contains(url, "://") {
        owned(url)
    } else {
        joined("https://", url)
    }
}

/// The state the launcher starts in, given what was found on this machine: the saved
/// history, the video player, whether each backend answers, and the history file. The
/// installation prompt is shown when a backend is missing.
pub open spec fn initial_spec(
    os: Os,
    history: Seq<EntryView>,
    player: Option<Seq<char>>,
    streamlink_available: bool,
    ytdlp_available: bool,
    history_path: Seq<char>,
) -> StateView {
    StateView {
        source: Seq::empty(),
        quality: Quality::Best,
        history,
        history_expanded: false,
        show_clear_confirmation: false,
        status: StatusView::Idle,
        player,
        streamlink_available,
        ytdlp_available,
        history_path,
        install: if !streamlink_available || !ytdlp_available {
            Some(InstallView::Prompt)
        } else {
            None
        },
        os,
    }
}

impl State {
    /// The state the launcher starts in (see [`initial_spec`]).
    pub fn new(
        os: Os,
        history: Vec<HistoryEntry>,
        player: Option<String>,
        streamlink_available: bool,
        ytdlp_available: bool,
        history_path: String,
    ) -> (s: State)
        ensures
            s@ == initial_spec(
                os,
                entries_view(history@),
                opt_view(player),
                streamlink_available,
                ytdlp_available,
                history_path@,
            ),
    {
        let install = if !streamlink_available || !ytdlp_available {
            Some(InstallStage::Prompt)
        } else {
            None
        };
        State {
            source: String::new(),
            quality: Quality::Best,
            history,
            history_expanded: false,
            show_clear_confirmation: false,
            status: Status::Idle,
            player,
            streamlink_available,
            ytdlp_available,
            history_path,
            install,
            os,
        }
    }

    /// The source typed by the user.
    pub fn source(&self) -> (r: &String)
        ensures
            r@ == self@.source,
    {
        &self.source
    }

    /// The quality picked.
    pub fn quality(&self) -> (r: Quality)
        ensures
            r == self@.quality,
    {
        self.quality
    }

    /// The watch history, oldest first.
    pub fn history(&self) -> (r: &Vec<HistoryEntry>)
        ensures
            entries_view(r@) == self@.history,
    {
        &self.history
    }

    /// Whether the history list is open.
    pub fn history_expanded(&self) -> (r: bool)
        ensures
            r == self@.history_expanded,
    {
        self.history_expanded
    }

    /// Whether the user is asked to confirm clearing the history.
    pub fn show_clear_confirmation(&self) -> (r: bool)
        ensures
            r == self@.show_clear_confirmation,
    {
        self.show_clear_confirmation
    }

    /// What the launcher last did with the source.
    pub fn status(&self) -> (r: &Status)
        ensures
            r@ == self@.status,
    {
        &self.status
    }

    /// The video player found, if any.
    pub fn player(&self) -> (r: &Option<String>)
        ensures
            opt_view(*r) == self@.player,
    {
        &self.player
    }

    /// Whether streamlink answers.
    pub fn streamlink_available(&self) -> (r: bool)
        ensures
            r == self@.streamlink_available,
    {
        self.streamlink_available
    }

    /// Whether yt-dlp answers.
    pub fn ytdlp_available(&self) -> (r: bool)
        ensures
            r == self@.ytdlp_available,
    {
        self.ytdlp_available
    }

    /// The file the history is saved to.
    pub fn history_path(&self) -> (r: &String)
        ensures
            r@ == self@.history_path,
    {
        &self.history_path
    }

    /// Where the installation dialog stands, if it is shown.
    pub fn install(&self) -> (r: &Option<InstallStage>)
        ensures
            install_opt_view(*r) == self@.install,
    {
        &self.install
    }

    /// The operating system the launcher runs on.
    pub fn os(&self) -> (r: Os)
        ensures
            r == self@.os,
    {
        self.os
    }

    /// Whether the source is a link (it holds `://`).
    pub fn source_is_url(&self) -> (r: bool)
        ensures
            r == is_url_spec(self@.source),
    {
        contains(self.source.as_str(), "://")
    }

    /// Whether the Watch button is enabled, given whether a file exists at the source path:
    /// the source is not empty and is a link or an existing file.
    pub fn can_watch(&self, source_exists: bool) -> (r: bool)
        ensures
            r == (self@.source.len() > 0 && (is_url_spec(self@.source) || source_exists)),
    {
        !self.source.as_str().is_empty() && (self.source_is_url() || source_exists)
    }

    /// Whether the Download button is enabled: the source is a non-empty link.
    pub fn can_download(&self) -> (r: bool)
        ensures
            r == (self@.source.len() > 0 && is_url_spec(self@.source)),
    {
        !self.source.as_str().is_empty() && self.source_is_url()
    }
}

/// The launcher's decision function: applies `message` to `state` and returns the work
/// left for the caller, as the relation [`step`] says.
pub fn update(state: &mut State, message: Message, context: &Context) -> (effect: Effect)
    ensures
        (final(state)@, effect@) == step(old(state)@, message@, context.now_secs, context.path_var@),
{
    proof {
        reveal_strlit("://");
    }
    match message {
        Message::SourceChanged(source) => {
            state.source = source;
            state.status = Status::Idle;
            Effect::Nothing
        },
        Message::QualityChanged(quality) => {
            state.quality = quality;
            Effect::Nothing
        },
        Message::WatchPressed => {
            if state.source.as_str().is_empty() {
                return Effect::Nothing;
            }
            if !state.source_is_url() {
                return Effect::OpenFile { path: state.source.clone() };
            }
            let player = match &state.player {
                None => {
                    state.status = Status::Error(
                        owned("No video player found (tried mpv, vlc, celluloid)"),
                    );
                    return Effect::Nothing;
                },
                Some(p) => p.clone(),
            };
            let is_youtube = is_youtube_url(state.source.as_str());
            let backend_ok = if is_youtube {
                state.ytdlp_available
            } else {
                state.streamlink_available
            };
            if !backend_ok {
                let name = if is_youtube {
                    "yt-dlp"
                } else {
                    "streamlink"
                };
                state.status = Status::Error(
                    joined(name, " is not installed or not found on PATH"),
                );
                return Effect::Nothing;
            }
            state.status = Status::Resolving;
            let url = normalize_url(state.source.as_str());
            let quality = owned(state.quality.label());
            Effect::Watch { url, quality, player }
        },
        Message::StreamResolved(result) => {
            match result {
                Ok(title) => {
                    if state.source_is_url() && !title.as_str().is_empty() {
                        let entry = HistoryEntry {
                            url: state.source.clone(),
                            title,
                            timestamp: context.now_secs,
                        };
                        let ghost before = state.history@;
                        state.history.push(entry);
                        proof {
                            assert(entries_view(state.history@) =~= entries_view(before).push(
                                entry@,
                            ));
                        }
                        state.status = Status::Ready;
                        Effect::SaveHistory
                    } else {
                        state.status = Status::Ready;
                        Effect::Nothing
                    }
                },
                Err(e) => {
                    state.status = Status::Error(e);
                    Effect::Nothing
                },
            }
        },
        Message::DownloadPressed => {
            if !state.can_download() {
                return Effect::Nothing;
            }
            let need_streamlink = !is_youtube_url(state.source.as_str());
            if need_streamlink && !state.streamlink_available || !need_streamlink
                && !state.ytdlp_available {
                return Effect::Nothing;
            }
            state.status = Status::Resolving;
            Effect::ChooseDownloadPath
        },
        Message::DownloadPathChosen(path) => {
            match path {
                Some(output) => {
                    let is_youtube = is_youtube_url(state.source.as_str());
                    let url = normalize_url(state.source.as_str());
                    let quality = owned(state.quality.label());
                    state.status = Status::Ready;
                    if is_youtube {
                        let format = format_for_quality(quality.as_str());
                        Effect::DownloadVideo { url, format, output }
                    } else {
                        Effect::DownloadStream { url, quality, output }
                    }
                },
                None => {
                    state.status = Status::Idle;
                    Effect::Nothing
                },
            }
        },
        Message::ToggleHistory => {
            state.history_expanded = !state.history_expanded;
            state.show_clear_confirmation = false;
            Effect::Nothing
        },
        Message::CloseHistory => {
            state.history_expanded = false;
            state.show_clear_confirmation = false;
            Effect::Nothing
        },
        Message::ClearHistoryPressed => {
            state.show_clear_confirmation = true;
            Effect::Nothing
        },
        Message::ConfirmClearHistory => {
            state.history.clear();
            proof {
                assert(entries_view(state.history@) =~= Seq::<EntryView>::empty());
            }
            state.history_expanded = false;
            state.show_clear_confirmation = false;
            Effect::SaveHistory
        },
        Message::CancelClearHistory => {
            state.show_clear_confirmation = false;
            Effect::Nothing
        },
        Message::HistoryEntryClicked(url) => {
            state.source = url;
            state.history_expanded = false;
            Effect::Nothing
        },
        Message::InstallAccept => {
            state.install = Some(InstallStage::Progress);
            Effect::Install
        },
        Message::InstallDismiss => {
            let stage = state.install.take();
            state.install = None;
            match stage {
                Some(InstallStage::Done(report)) => {
                    let dir = report.bin_dir;
                    if !dir.as_str().is_empty() && state.os != Os::Windows && !contains(
                        context.path_var.as_str(),
                        dir.as_str(),
                    ) {
                        state.status = Status::Error(
                            joined3("Add ", dir.as_str(), " to your PATH or restart your shell"),
                        );
                    }
                },
                _ => {},
            }
            Effect::Nothing
        },
        Message::InstallFinished(result) => {
            match result {
                Ok(report) => {
                    state.install = Some(InstallStage::Done(report));
                    Effect::DetectTools
                },
                Err(e) => {
                    state.install = Some(
                        InstallStage::Done(
                            Report {
                                ytdlp: None,
                                streamlink: Some(joined("Error: ", e.as_str())),
                                bin_dir: String::new(),
                            },
                        ),
                    );
                    Effect::Nothing
                },
            }
        },
        Message::ToolsDetected { streamlink, ytdlp } => {
            state.streamlink_available = streamlink;
            state.ytdlp_available = ytdlp;
            Effect::Nothing
        },
    }
}


proof fn lemma_prefix_is_link(u: Seq<char>)
    ensures
        is_url_spec("https://"@ + u),
{
    reveal_strlit("https://");
    reveal_strlit("://");
    let i: int = 5;
    assert(("https://"@ + u).subrange(i, i + "://"@.len()) =~= "://"@);
}

/// Normalizing always gives a link, and normalizing a normalized link changes nothing.
pub proof fn law_normalize_idempotent(u: Seq<char>)
    ensures
        is_url_spec(normalize_spec(u)),
        normalize_spec(normalize_spec(u)) == normalize_spec(u),
{
    if !is_url_spec(u) {
        lemma_prefix_is_link(u);
    }
}

/// Normalizing a link never changes which backend handles it.
pub proof fn law_normalize_keeps_backend(u: Seq<char>)
    ensures
        is_youtube_spec(normalize_spec(u)) == is_youtube_spec(u),
{
    reveal_strlit("https://");
    reveal_strlit("youtube.com");
    reveal_strlit("youtu.be");
    crate::text::lemma_contains_after_prefix("https://"@, u, "youtube.com"@);
    crate::text::lemma_contains_after_prefix("https://"@, u, "youtu.be"@);
}

/// Quality labels tell qualities apart.
pub proof fn law_labels_distinct(a: Quality, b: Quality)
    ensures
        label_spec(a) == label_spec(b) ==> a == b,
{
    reveal_strlit("best");
    reveal_strlit("1080p");
    reveal_strlit("720p");
    reveal_strlit("480p");
    reveal_strlit("360p");
    reveal_strlit("audio-only");
    reveal_strlit("worst");
    if label_spec(a) == label_spec(b) && a != b {
        assert(label_spec(a).len() == label_spec(b).len());
        assert(label_spec(a)[0] == label_spec(b)[0]);
        assert(label_spec(a)[1] == label_spec(b)[1]);
    }
}

/// The history changes only in two ways, and each change is saved: the current link is
/// appended with the non-empty title it resolved to, at time `now`; or the history is
/// cleared.
pub proof fn law_history_changes(s: StateView, m: MessageView, now: u64, path_var: Seq<char>)
    ensures
        ({
            let (t, e) = step(s, m, now, path_var);
            ||| t.history == s.history
            ||| (t.history == s.history.push(
                EntryView {
                    url: s.source,
                    title: t.history.last().title,
                    timestamp: now,
                },
            ) && is_url_spec(s.source) && t.history.last().title.len() > 0
                && e is SaveHistory)
            ||| (t.history.len() == 0 && e is SaveHistory)
        }),
{
}

/// Every entry of `h` is a link with a non-empty title.
pub open spec fn entries_are_links(h: Seq<EntryView>) -> bool {
    forall|i: int| 0 <= i < h.len() ==> is_url_spec(#[trigger] h[i].url) && h[i].title.len() > 0
}

/// The entries of the history are links with non-empty titles, whatever messages arrive.
pub proof fn law_history_entries_are_links(
    s: StateView,
    m: MessageView,
    now: u64,
    path_var: Seq<char>,
)
    requires
        entries_are_links(s.history),
    ensures
        entries_are_links(step(s, m, now, path_var).0.history),
{
    let t = step(s, m, now, path_var).0;
    law_history_changes(s, m, now, path_var);
    assert forall|i: int| 0 <= i < t.history.len() implies is_url_spec(
        #[trigger] t.history[i].url,
    ) && t.history[i].title.len() > 0 by {
        if t.history == s.history {
            assert(is_url_spec(s.history[i].url));
        } else if t.history.len() > 0 {
            if i < s.history.len() {
                assert(t.history[i] == s.history[i]);
                assert(is_url_spec(s.history[i].url));
            } else {
                assert(i == s.history.len());
            }
        }
    }
}

/// No message changes the operating system, the history file or the video player.
pub proof fn law_configuration_fixed(s: StateView, m: MessageView, now: u64, path_var: Seq<char>)
    ensures
        ({
            let t = step(s, m, now, path_var).0;
            t.os == s.os && t.history_path == s.history_path && t.player == s.player
        }),
{
}

/// Toggling the history list twice leaves it as it was, with no clear confirmation shown.
pub proof fn law_toggle_twice(s: StateView, now: u64, path_var: Seq<char>)
    ensures
        ({
            let t = step(step(s, MessageView::ToggleHistory, now, path_var).0, MessageView::ToggleHistory, now, path_var).0;
            t.history_expanded == s.history_expanded && !t.show_clear_confirmation
                && t.history == s.history && t.source == s.source
        }),
{
}

/// Clearing the history empties it, closes the list and saves.
pub proof fn law_clear_history(s: StateView, now: u64, path_var: Seq<char>)
    ensures
        ({
            let (t, e) = step(s, MessageView::ConfirmClearHistory, now, path_var);
            t.history.len() == 0 && !t.history_expanded && !t.show_clear_confirmation
                && e is SaveHistory
        }),
{
}

/// A watch job is started only for a link, with the state's player, the picked quality and
/// an available backend for that link; the link given to the job is the source itself.
pub proof fn law_watch_effect(s: StateView, now: u64, path_var: Seq<char>)
    ensures
        ({
            let (t, e) = step(s, MessageView::WatchPressed, now, path_var);
            e matches EffectView::Watch { url, quality, player } ==> {
                &&& is_url_spec(s.source)
                &&& url == s.source
                &&& s.player == Some(player)
                &&& quality == label_spec(s.quality)
                &&& backend_available(s)
                &&& is_youtube_spec(url) == is_youtube_spec(s.source)
                &&& t.status is Resolving
            }
        }),
{
}

/// A download is started for a link, with the backend that handles the source.
pub proof fn law_download_effect(s: StateView, output: Seq<char>, now: u64, path_var: Seq<char>)
    ensures
        ({
            let e = step(s, MessageView::DownloadPathChosen(Some(output)), now, path_var).1;
            &&& e matches EffectView::DownloadVideo { url, format, output: o } ==> is_url_spec(url)
                && is_youtube_spec(url) && o == output && format == format_spec(
                label_spec(s.quality),
            )
            &&& e matches EffectView::DownloadStream { url, quality, output: o } ==> is_url_spec(
                url,
            ) && !is_youtube_spec(url) && o == output && quality == label_spec(s.quality)
        }),
{
    law_normalize_idempotent(s.source);
    law_normalize_keeps_backend(s.source);
}

/// Dismissing the installation dialog closes it.
pub proof fn law_dismiss_closes(s: StateView, now: u64, path_var: Seq<char>)
    ensures
        step(s, MessageView::InstallDismiss, now, path_var).0.install is None,
{
}


/// Pressing Watch on a link, with a player found, starts the watch job as soon as the
/// backend for that link is installed: yt-dlp for a link that mentions `youtube.com` or
/// `youtu.be`, streamlink for any other link; the other backend does not matter. The job
/// gets the link itself, the picked quality's label and the player, and the status becomes
/// Resolving.
pub proof fn law_watch_needs_own_backend_only(s: StateView, now: u64, path_var: Seq<char>)
    requires
        s.source.len() > 0,
        contains_spec(s.source, "://"@),
        s.player is Some,
        (contains_spec(s.source, "youtube.com"@) || contains_spec(s.source, "youtu.be"@))
            ==> s.ytdlp_available,
        !(contains_spec(s.source, "youtube.com"@) || contains_spec(s.source, "youtu.be"@))
            ==> s.streamlink_available,
    ensures
        step(s, MessageView::WatchPressed, now, path_var).1 == (EffectView::Watch {
            url: s.source,
            quality: label_spec(s.quality),
            player: s.player->0,
        }),
        step(s, MessageView::WatchPressed, now, path_var).0.status is Resolving,
        step(s, MessageView::WatchPressed, now, path_var).0.history == s.history,
{
}

/// Pressing Watch on a link whose own backend is missing (yt-dlp for YouTube links,
/// streamlink for the others) starts nothing and names that backend in the status.
pub proof fn law_watch_missing_backend(s: StateView, now: u64, path_var: Seq<char>)
    requires
        s.source.len() > 0,
        contains_spec(s.source, "://"@),
        s.player is Some,
    ensures
        (contains_spec(s.source, "youtube.com"@) || contains_spec(s.source, "youtu.be"@))
            && !s.ytdlp_available ==> step(s, MessageView::WatchPressed, now, path_var) == (
            StateView {
                status: StatusView::Error(
                    "yt-dlp"@ + " is not installed or not found on PATH"@,
                ),
                ..s
            },
            EffectView::Nothing,
        ),
        !(contains_spec(s.source, "youtube.com"@) || contains_spec(s.source, "youtu.be"@))
            && !s.streamlink_available ==> step(s, MessageView::WatchPressed, now, path_var) == (
            StateView {
                status: StatusView::Error(
                    "streamlink"@ + " is not installed or not found on PATH"@,
                ),
                ..s
            },
            EffectView::Nothing,
        ),
{
}

/// Pressing Download on a link whose own backend is installed (yt-dlp for YouTube links,
/// streamlink for the others) asks for a file to save to and sets the status to
/// Resolving, whatever the other backend's availability.
pub proof fn law_download_needs_own_backend_only(s: StateView, now: u64, path_var: Seq<char>)
    requires
        s.source.len() > 0,
        contains_spec(s.source, "://"@),
        (contains_spec(s.source, "youtube.com"@) || contains_spec(s.source, "youtu.be"@))
            ==> s.ytdlp_available,
        !(contains_spec(s.source, "youtube.com"@) || contains_spec(s.source, "youtu.be"@))
            ==> s.streamlink_available,
    ensures
        step(s, MessageView::DownloadPressed, now, path_var) == (
            StateView { status: StatusView::Resolving, ..s },
            EffectView::ChooseDownloadPath,
        ),
{
}

/// A link that resolved to a non-empty title is appended to the history as the entry
/// (link, title, current time), whatever the link (YouTube or not); the history is saved
/// and the status becomes Ready.
pub proof fn law_resolved_link_recorded(
    s: StateView,
    title: Seq<char>,
    now: u64,
    path_var: Seq<char>,
)
    requires
        contains_spec(s.source, "://"@),
        title.len() > 0,
    ensures
        step(s, MessageView::StreamResolved(Ok(title)), now, path_var) == (
            StateView {
                history: s.history.push(EntryView { url: s.source, title, timestamp: now }),
                status: StatusView::Ready,
                ..s
            },
            EffectView::SaveHistory,
        ),
{
}

/// Each quality's label, as shown and as handed to the backends.
pub proof fn law_quality_labels()
    ensures
        label_spec(Quality::Best) == "best"@,
        label_spec(Quality::P1080) == "1080p"@,
        label_spec(Quality::P720) == "720p"@,
        label_spec(Quality::P480) == "480p"@,
        label_spec(Quality::P360) == "360p"@,
        label_spec(Quality::AudioOnly) == "audio-only"@,
        label_spec(Quality::Worst) == "worst"@,
{
}

} // verus!
