//! What the screens show, as plain values: the status line, the history list, and the
//! texts of the installation dialog. Drawing them is left to the caller.

use crate::history::EntryView;
use crate::install::Report;
use crate::platform::Os;
use crate::text::{joined, joined3, contains, contains_spec, owned};
use crate::ui::{Message, State, Status, StatusView};
use vstd::prelude::*;

verus! {

/// How a line of text is coloured.
#[derive(Clone, Copy, Debug, PartialEq, Eq, Structural)]
pub enum Tone {
    Plain,
    Muted,
    Success,
    Failure,
}

/// The status line below the controls.
#[derive(Debug)]
pub struct StatusLine {
    pub text: String,
    pub tone: Tone,
}

/// The text and tone of the status line for `status`.
pub open spec fn status_line_spec(status: StatusView) -> (Seq<char>, Tone) {
    match status {
        StatusView::Idle => (Seq::empty(), Tone::Plain),
        StatusView::Resolving => ("Resolving..."@, Tone::Muted),
        StatusView::Ready => ("Ready"@, Tone::Success),
        StatusView::Error(m) => (m, Tone::Failure),
    }
}

/// The status line for `status`: empty when idle, the error itself on failure.
pub fn status_line(status: &Status) -> (r: StatusLine)
    ensures
        (r.text@, r.tone) == status_line_spec(status@),
{
    match status {
        Status::Idle => StatusLine { text: String::new(), tone: Tone::Plain },
        Status::Resolving => StatusLine { text: owned("Resolving..."), tone: Tone::Muted },
        Status::Ready => StatusLine { text: owned("Ready"), tone: Tone::Success },
        Status::Error(m) => StatusLine { text: m.clone(), tone: Tone::Failure },
    }
}

/// The button that opens or closes the history list.
#[derive(Debug)]
pub struct HistoryButton {
    pub label: String,
    pub on_press: Message,
}

/// The history button: it closes the open list and opens the closed one.
pub fn history_button(state: &State) -> (b: HistoryButton)
    ensures
        if state@.history_expanded {
            b.label@ == "History \u{25bc}"@ && b.on_press is CloseHistory
        } else {
            b.label@ == "History \u{25b2}"@ && b.on_press is ToggleHistory
        },
{
    if state.history_expanded() {
        HistoryButton { label: owned("History \u{25bc}"), on_press: Message::CloseHistory }
    } else {
        HistoryButton { label: owned("History \u{25b2}"), on_press: Message::ToggleHistory }
    }
}

/// A row of the history list: the entry's title and link, and its position in the list
/// (rows alternate in colour by position).
#[derive(Debug)]
pub struct HistoryRow {
    pub title: String,
    pub url: String,
    pub position: usize,
}

/// The open history list.
#[derive(Debug)]
pub enum HistoryPanel {
    /// There is no entry yet.
    Empty,
    /// The user is asked to confirm clearing the history.
    ConfirmClear,
    /// The entries, most recent first.
    Entries(Vec<HistoryRow>),
}

/// The rows for a history, most recent entry first.
pub open spec fn rows_spec(h: Seq<EntryView>) -> Seq<(Seq<char>, Seq<char>, int)> {
    Seq::new(h.len(), |i: int| (h[h.len() - 1 - i].title, h[h.len() - 1 - i].url, i))
}

pub open spec fn rows_view(rows: Seq<HistoryRow>) -> Seq<(Seq<char>, Seq<char>, int)> {
    rows.map_values(|r: HistoryRow| (r.title@, r.url@, r.position as int))
}

/// The content of the open history list.
pub fn history_panel(state: &State) -> (p: HistoryPanel)
    ensures
        state@.history.len() == 0 ==> p is Empty,
        state@.history.len() > 0 && state@.show_clear_confirmation ==> p is ConfirmClear,
        state@.history.len() > 0 && !state@.show_clear_confirmation ==> (p matches HistoryPanel::Entries(
            rows,
        ) && rows_view(rows@) == rows_spec(state@.history)),
{
    let history = state.history();
    let n = history.len();
    if n == 0 {
        return HistoryPanel::Empty;
    }
    if state.show_clear_confirmation() {
        return HistoryPanel::ConfirmClear;
    }
    let ghost h = state@.history;
    let mut rows: Vec<HistoryRow> = Vec::new();
    let mut i: usize = 0;
    while i < n
        invariant
            n == history.len(),
            h == crate::history::entries_view(history@),
            i <= n,
            rows_view(rows@) =~= rows_spec(h).take(i as int),
        decreases n - i,
    {
        let e = &history[n - 1 - i];
        let row = HistoryRow { title: e.title.clone(), url: e.url.clone(), position: i };
        let ghost before = rows@;
        rows.push(row);
        proof {
            assert(rows@ =~= before.push(row));
            assert(rows_view(rows@) =~= rows_view(before).push((row.title@, row.url@, i as int)));
            assert(rows_spec(h).take(i + 1) =~= rows_spec(h).take(i as int).push(
                rows_spec(h)[i as int],
            ));
        }
        i = i + 1;
    }
    assert(rows_spec(h).take(n as int) =~= rows_spec(h));
    HistoryPanel::Entries(rows)
}

/// The text of the installation prompt.
pub open spec fn missing_tools_spec(ytdlp_ok: bool, streamlink_ok: bool) -> Seq<char> {
    if ytdlp_ok && streamlink_ok {
        "All tools are installed."@
    } else {
        "The following tools are required but not found:\n"@ + if !ytdlp_ok && !streamlink_ok {
            "yt-dlp, streamlink"@
        } else if !ytdlp_ok {
            "yt-dlp"@
        } else {
            "streamlink"@
        }
    }
}

/// The text of the installation prompt, given whether each tool answers: the missing tools
/// joined by `", "`, or a note that all tools are installed.
pub fn missing_tools_message(ytdlp_ok: bool, streamlink_ok: bool) -> (r: String)
    ensures
        r@ == missing_tools_spec(ytdlp_ok, streamlink_ok),
{
    let head = "The following tools are required but not found:\n";
    if ytdlp_ok && streamlink_ok {
        owned("All tools are installed.")
    } else if !ytdlp_ok && !streamlink_ok {
        joined(head, "yt-dlp, streamlink")
    } else if !ytdlp_ok {
        joined(head, "yt-dlp")
    } else {
        joined(head, "streamlink")
    }
}

/// A line of the installation report; error lines are shown in the failure colour.
#[derive(Debug)]
pub struct ReportLine {
    pub text: String,
    pub is_error: bool,
}

/// The texts of the installation result screen.
#[derive(Debug)]
pub struct InstallSummary {
    pub heading: String,
    pub summary: String,
    pub lines: Vec<ReportLine>,
    pub tools_dir: Option<String>,
}

/// A report line is an error line when it mentions `Error` or `Could not`.
pub open spec fn is_error_line(text: Seq<char>) -> bool {
    contains_spec(text, "Error"@) || contains_spec(text, "Could not"@)
}

/// The report lines: one per tool that has an entry in the report, yt-dlp first.
pub open spec fn report_lines_spec(ytdlp: Option<Seq<char>>, streamlink: Option<Seq<char>>) -> Seq<
    Seq<char>,
> {
    (match ytdlp {
        Some(m) => seq!["yt-dlp: "@ + m],
        None => Seq::empty(),
    }) + (match streamlink {
        Some(m) => seq!["streamlink: "@ + m],
        None => Seq::empty(),
    })
}

fn report_line(text: String) -> (l: ReportLine)
    ensures
        l.text@ == text@,
        l.is_error == is_error_line(text@),
{
    let is_error = contains(text.as_str(), "Error") || contains(text.as_str(), "Could not");
    ReportLine { text, is_error }
}

/// The installation result screen for `report`, given whether any tool answers now: the
/// heading and summary say whether all went well, each tool's line is listed, and on
/// Linux and macOS the tool directory is named.
pub fn install_summary(report: &Report, any_tool_ok: bool, os: Os) -> (s: InstallSummary)
    ensures
        s.heading@ == if any_tool_ok {
            "Done"@
        } else {
            "Issues"@
        },
        s.summary@ == if any_tool_ok {
            "Installation complete."@
        } else {
            "Some tools could not be installed."@
        },
        s.lines@.map_values(|l: ReportLine| l.text@) == report_lines_spec(
            report@.ytdlp,
            report@.streamlink,
        ),
        forall|i: int| 0 <= i < s.lines@.len() ==> #[trigger] s.lines@[i].is_error == is_error_line(
            s.lines@[i].text@,
        ),
        match s.tools_dir {
            Some(t) => report.bin_dir@.len() > 0 && os != Os::Windows && t@
                == "Tools installed in:\n"@ + report.bin_dir@,
            None => report.bin_dir@.len() == 0 || os == Os::Windows,
        },
{
    let mut lines: Vec<ReportLine> = Vec::new();
    match &report.ytdlp {
        Some(r) => {
            lines.push(report_line(joined("yt-dlp: ", r.as_str())));
        },
        None => {},
    }
    match &report.streamlink {
        Some(r) => {
            lines.push(report_line(joined("streamlink: ", r.as_str())));
        },
        None => {},
    }
    assert(lines@.map_values(|l: ReportLine| l.text@) =~= report_lines_spec(
        report@.ytdlp,
        report@.streamlink,
    ));
    let tools_dir = if !report.bin_dir.as_str().is_empty() && os != Os::Windows {
        Some(joined("Tools installed in:\n", report.bin_dir.as_str()))
    } else {
        None
    };
    InstallSummary {
        heading: if any_tool_ok {
            owned("Done")
        } else {
            owned("Issues")
        },
        summary: if any_tool_ok {
            owned("Installation complete.")
        } else {
            owned("Some tools could not be installed.")
        },
        lines,
        tools_dir,
    }
}

} // verus!
