//! The lookup on systems where a window manager owns the foreground window
//! and each window belongs to a process whose executable has a path.
//!
//! The caller makes each query that a step asks for and hands its answer to
//! the matching `after_*` function, until a step is `Done`.
use vstd::prelude::*;
use crate::exe_path::{file_name, file_name_of};
use crate::outcome::{
    access_denied, access_denied_text, lemma_placeholders_non_empty, name_or_unknown, no_window,
    no_window_text, reported_name, unknown, unknown_text,
};

verus! {

/// The name of valid UTF-16 text, or `None` where the units are not valid
/// UTF-16 (an unpaired surrogate).
pub uninterp spec fn utf16_text(units: Seq<u16>) -> Option<Seq<char>>;

/// Relies on `String::from_utf16`: the decoded text, or an error exactly
/// where the units are not valid UTF-16.
#[verifier::external_body]
fn decode_utf16(units: &[u16]) -> (r: Option<String>)
    ensures
        match r {
            Some(s) => utf16_text(units@) == Some(s@),
            None => utf16_text(units@) is None,
        },
{
    String::from_utf16(units).ok()
}

/// A query the caller makes of the operating system.
#[derive(Clone, Copy, Debug, PartialEq, Eq, Structural)]
pub enum WindowQuery {
    /// Which window is in the foreground.
    ForegroundWindow,
    /// Which process owns that window.
    WindowProcess,
    /// Open the process with this identifier, with limited query rights.
    OpenProcess(u32),
    /// The path of the executable loaded into the opened process.
    ExecutablePath,
}

/// What to do next: make a query, or report a name.
#[derive(Clone, Debug, PartialEq, Eq)]
pub enum WindowStep {
    Query(WindowQuery),
    Done(String),
}

pub ghost enum WindowStepView {
    Query(WindowQuery),
    Done(Seq<char>),
}

impl View for WindowStep {
    type V = WindowStepView;

    open spec fn view(&self) -> WindowStepView {
        match self {
            WindowStep::Query(q) => WindowStepView::Query(*q),
            WindowStep::Done(s) => WindowStepView::Done(s@),
        }
    }
}

pub open spec fn foreground_window_step(found: bool) -> WindowStepView {
    if found {
        WindowStepView::Query(WindowQuery::WindowProcess)
    } else {
        WindowStepView::Done(no_window_text())
    }
}

pub open spec fn window_process_step(pid: u32) -> WindowStepView {
    if pid == 0 {
        WindowStepView::Done(unknown_text())
    } else {
        WindowStepView::Query(WindowQuery::OpenProcess(pid))
    }
}

pub open spec fn open_process_step(opened: bool) -> WindowStepView {
    if opened {
        WindowStepView::Query(WindowQuery::ExecutablePath)
    } else {
        WindowStepView::Done(access_denied_text())
    }
}

/// The name reported for the executable path `path`: its decoded file name,
/// or the unknown placeholder.
pub open spec fn executable_name(path: Seq<u16>) -> Seq<char> {
    match file_name_of(path) {
        Some(n) => reported_name(utf16_text(n)),
        None => unknown_text(),
    }
}

/// The name a whole lookup reports, given the answer to each query: whether
/// a foreground window exists, the identifier of its process, whether that
/// process could be opened, and the path of its executable.
pub open spec fn window_outcome(window: bool, pid: u32, opened: bool, path: Seq<u16>) -> Seq<
    char,
> {
    match foreground_window_step(window) {
        WindowStepView::Done(t) => t,
        WindowStepView::Query(_) => match window_process_step(pid) {
            WindowStepView::Done(t) => t,
            WindowStepView::Query(_) => match open_process_step(opened) {
                WindowStepView::Done(t) => t,
                WindowStepView::Query(_) => executable_name(path),
            },
        },
    }
}

/// The first step: ask for the foreground window.
pub fn window_first() -> (r: WindowStep)
    ensures
        r@ == WindowStepView::Query(WindowQuery::ForegroundWindow),
{
    WindowStep::Query(WindowQuery::ForegroundWindow)
}

/// The step after asking for the foreground window (`found` is false for a
/// null window handle).
pub fn after_foreground_window(found: bool) -> (r: WindowStep)
    ensures
        r@ == foreground_window_step(found),
        !found ==> r@ == WindowStepView::Done(no_window_text()),
{
    if found {
        WindowStep::Query(WindowQuery::WindowProcess)
    } else {
        WindowStep::Done(no_window())
    }
}

/// The step after asking which process owns the window (0: none found).
pub fn after_window_process(pid: u32) -> (r: WindowStep)
    ensures
        r@ == window_process_step(pid),
{
    if pid == 0 {
        WindowStep::Done(unknown())
    } else {
        WindowStep::Query(WindowQuery::OpenProcess(pid))
    }
}

/// The step after opening the process (`opened` is false where access was
/// denied or the handle is invalid).
pub fn after_open_process(opened: bool) -> (r: WindowStep)
    ensures
        r@ == open_process_step(opened),
        !opened ==> r@ == WindowStepView::Done(access_denied_text()),
{
    if opened {
        WindowStep::Query(WindowQuery::ExecutablePath)
    } else {
        WindowStep::Done(access_denied())
    }
}

/// The name to report once the executable's path has been read (empty where
/// the query returned no data).
pub fn after_executable_path(path: &[u16]) -> (r: String)
    ensures
        r@ == executable_name(path@),
{
    match file_name(path) {
        Some(n) => name_or_unknown(decode_utf16(n.as_slice())),
        None => unknown(),
    }
}

/// Whatever the operating system answers, the lookup reports a non-empty
/// name.
pub proof fn lemma_window_outcome_non_empty(window: bool, pid: u32, opened: bool, path: Seq<u16>)
    ensures
        window_outcome(window, pid, opened, path).len() > 0,
{
    lemma_placeholders_non_empty();
}

/// With no foreground window, the lookup reports the no-window placeholder.
pub proof fn lemma_no_window_reported(pid: u32, opened: bool, path: Seq<u16>)
    ensures
        window_outcome(false, pid, opened, path) == no_window_text(),
{
}

/// When the owning process cannot be opened, the lookup reports the
/// access-denied placeholder.
pub proof fn lemma_access_denied_reported(pid: u32, path: Seq<u16>)
    requires
        pid != 0,
    ensures
        window_outcome(true, pid, false, path) == access_denied_text(),
{
}

/// Two lookups that get the same answers report the same name.
pub proof fn lemma_window_outcome_repeatable(
    window: bool,
    pid: u32,
    opened: bool,
    path: Seq<u16>,
    window2: bool,
    pid2: u32,
    opened2: bool,
    path2: Seq<u16>,
)
    requires
        window == window2,
        pid == pid2,
        opened == opened2,
        path == path2,
    ensures
        window_outcome(window, pid, opened, path) == window_outcome(window2, pid2, opened2, path2),
{
}

} // verus!
