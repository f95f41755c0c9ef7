//! The lookup on systems where a shared workspace object knows the
//! frontmost application and that application has a display name.
//!
//! The caller makes each query that a step asks for and hands whether it
//! yielded an object to `after_query`. At `ReadName` it reads the name as
//! text and hands it to `after_read_name`.
use vstd::prelude::*;
use crate::outcome::{
    lemma_placeholders_non_empty, name_or_unknown, reported_name, unknown, unknown_text,
};

verus! {

/// An object the caller asks the operating system for.
#[derive(Clone, Copy, Debug, PartialEq, Eq, Structural)]
pub enum WorkspaceQuery {
    /// The shared workspace of the desktop session.
    SharedWorkspace,
    /// The frontmost application of that workspace.
    FrontmostApplication,
    /// The localized display name of that application.
    LocalizedName,
}

/// What to do next: ask for an object, read the name as text, or report a
/// name.
#[derive(Clone, Debug, PartialEq, Eq)]
pub enum WorkspaceStep {
    Query(WorkspaceQuery),
    ReadName,
    Done(String),
}

pub ghost enum WorkspaceStepView {
    Query(WorkspaceQuery),
    ReadName,
    Done(Seq<char>),
}

impl View for WorkspaceStep {
    type V = WorkspaceStepView;

    open spec fn view(&self) -> WorkspaceStepView {
        match self {
            WorkspaceStep::Query(q) => WorkspaceStepView::Query(*q),
            WorkspaceStep::ReadName => WorkspaceStepView::ReadName,
            WorkspaceStep::Done(s) => WorkspaceStepView::Done(s@),
        }
    }
}

pub open spec fn workspace_step(done: WorkspaceQuery, found: bool) -> WorkspaceStepView {
    if !found {
        WorkspaceStepView::Done(unknown_text())
    } else {
        match done {
            WorkspaceQuery::SharedWorkspace => WorkspaceStepView::Query(
                WorkspaceQuery::FrontmostApplication,
            ),
            WorkspaceQuery::FrontmostApplication => WorkspaceStepView::Query(
                WorkspaceQuery::LocalizedName,
            ),
            WorkspaceQuery::LocalizedName => WorkspaceStepView::ReadName,
        }
    }
}

/// How many queries at most are left before `s` is reached and handled.
pub open spec fn queries_left(s: WorkspaceStepView) -> nat {
    match s {
        WorkspaceStepView::Query(WorkspaceQuery::SharedWorkspace) => 3,
        WorkspaceStepView::Query(WorkspaceQuery::FrontmostApplication) => 2,
        WorkspaceStepView::Query(WorkspaceQuery::LocalizedName) => 1,
        _ => 0,
    }
}

/// The name reported from step `s` on, where `found` says whether each query
/// yields an object and `text` is the name read as text (`None` where the
/// read fails).
pub open spec fn workspace_from(
    s: WorkspaceStepView,
    found: spec_fn(WorkspaceQuery) -> bool,
    text: Option<Seq<char>>,
) -> Seq<char>
    decreases queries_left(s),
{
    match s {
        WorkspaceStepView::Query(q) => workspace_from(workspace_step(q, found(q)), found, text),
        WorkspaceStepView::ReadName => reported_name(text),
        WorkspaceStepView::Done(t) => t,
    }
}

/// The name a whole lookup reports, from the first step.
pub open spec fn workspace_outcome(
    found: spec_fn(WorkspaceQuery) -> bool,
    text: Option<Seq<char>>,
) -> Seq<char> {
    workspace_from(WorkspaceStepView::Query(WorkspaceQuery::SharedWorkspace), found, text)
}

/// The first step: ask for the shared workspace.
pub fn workspace_first() -> (r: WorkspaceStep)
    ensures
        r@ == WorkspaceStepView::Query(WorkspaceQuery::SharedWorkspace),
{
    WorkspaceStep::Query(WorkspaceQuery::SharedWorkspace)
}

/// The step after asking for `done` (`found` is false for a null object).
pub fn after_query(done: WorkspaceQuery, found: bool) -> (r: WorkspaceStep)
    ensures
        r@ == workspace_step(done, found),
        !found ==> r@ == WorkspaceStepView::Done(unknown_text()),
{
    if !found {
        return WorkspaceStep::Done(unknown());
    }
    match done {
        WorkspaceQuery::SharedWorkspace => WorkspaceStep::Query(
            WorkspaceQuery::FrontmostApplication,
        ),
        WorkspaceQuery::FrontmostApplication => WorkspaceStep::Query(WorkspaceQuery::LocalizedName),
        WorkspaceQuery::LocalizedName => WorkspaceStep::ReadName,
    }
}

/// The name to report once the display name has been read as text (`None`
/// where the text could not be had).
pub fn after_read_name(text: Option<String>) -> (r: String)
    ensures
        r@ == reported_name(
            match text {
                Some(t) => Some(t@),
                None => None,
            },
        ),
{
    name_or_unknown(text)
}

/// Whatever the operating system answers, the lookup reports a non-empty
/// name.
pub proof fn lemma_workspace_outcome_non_empty(
    found: spec_fn(WorkspaceQuery) -> bool,
    text: Option<Seq<char>>,
)
    ensures
        workspace_outcome(found, text).len() > 0,
{
    reveal_with_fuel(workspace_from, 4);
    lemma_placeholders_non_empty();
}

/// When the shared workspace or the frontmost application cannot be had,
/// the lookup reports the unknown placeholder.
pub proof fn lemma_missing_object_unknown(
    found: spec_fn(WorkspaceQuery) -> bool,
    text: Option<Seq<char>>,
)
    requires
        !found(WorkspaceQuery::SharedWorkspace) || !found(WorkspaceQuery::FrontmostApplication),
    ensures
        workspace_outcome(found, text) == unknown_text(),
{
    reveal_with_fuel(workspace_from, 3);
}

/// When every object is found and the name reads as non-empty text, the
/// lookup reports that text.
pub proof fn lemma_name_reported(found: spec_fn(WorkspaceQuery) -> bool, name: Seq<char>)
    requires
        forall|q: WorkspaceQuery| #[trigger] found(q),
        name.len() > 0,
    ensures
        workspace_outcome(found, Some(name)) == name,
{
    reveal_with_fuel(workspace_from, 4);
    assert(found(WorkspaceQuery::SharedWorkspace));
    assert(found(WorkspaceQuery::FrontmostApplication));
    assert(found(WorkspaceQuery::LocalizedName));
}

/// Two lookups that get the same answers report the same name.
pub proof fn lemma_workspace_outcome_repeatable(
    found: spec_fn(WorkspaceQuery) -> bool,
    text: Option<Seq<char>>,
    found2: spec_fn(WorkspaceQuery) -> bool,
    text2: Option<Seq<char>>,
)
    requires
        forall|q: WorkspaceQuery| #[trigger] found(q) == found2(q),
        text == text2,
    ensures
        workspace_outcome(found, text) == workspace_outcome(found2, text2),
{
    assert(found =~= found2);
}

} // verus!
