//! The names a lookup can report: a real name or one of the fixed placeholders.
use vstd::prelude::*;

verus! {

/// Placeholder when an intermediate query yields nothing usable.
pub open spec fn unknown_text() -> Seq<char> {
    "Unknown"@
}

/// Placeholder when no window is in the foreground.
pub open spec fn no_window_text() -> Seq<char> {
    "No window"@
}

/// Placeholder when the owning process cannot be opened.
pub open spec fn access_denied_text() -> Seq<char> {
    "Access denied"@
}

/// Placeholder on a platform that has no lookup.
pub open spec fn not_implemented_text() -> Seq<char> {
    "Not implemented on this platform"@
}

/// The name reported for a decoded application name: the name itself, or
/// the unknown placeholder when there is none or it is empty.
pub open spec fn reported_name(text: Option<Seq<char>>) -> Seq<char> {
    match text {
        Some(t) => if t.len() > 0 { t } else { unknown_text() },
        None => unknown_text(),
    }
}

/// The unknown placeholder.
pub fn unknown() -> (r: String)
    ensures
        r@ == unknown_text(),
{
    String::from_str("Unknown")
}

/// The no-window placeholder.
pub fn no_window() -> (r: String)
    ensures
        r@ == no_window_text(),
{
    String::from_str("No window")
}

/// The access-denied placeholder.
pub fn access_denied() -> (r: String)
    ensures
        r@ == access_denied_text(),
{
    String::from_str("Access denied")
}

/// What a platform without a lookup reports, on every call.
pub fn not_implemented() -> (r: String)
    ensures
        r@ == not_implemented_text(),
{
    String::from_str("Not implemented on this platform")
}

/// The name to report once the application's name has been read and
/// decoded (`None` when the read failed).
pub fn name_or_unknown(text: Option<String>) -> (r: String)
    ensures
        r@ == reported_name(
            match text {
                Some(t) => Some(t@),
                None => None,
            },
        ),
{
    match text {
        Some(t) => {
            if t.unicode_len() > 0 {
                t
            } else {
                unknown()
            }
        },
        None => unknown(),
    }
}

/// Every placeholder is non-empty.
pub proof fn lemma_placeholders_non_empty()
    ensures
        unknown_text().len() > 0,
        no_window_text().len() > 0,
        access_denied_text().len() > 0,
        not_implemented_text().len() > 0,
{
    reveal_strlit("Unknown");
    reveal_strlit("No window");
    reveal_strlit("Access denied");
    reveal_strlit("Not implemented on this platform");
}

} // verus!
