//! The file name at the end of an executable's path, as UTF-16 code units.
//!
//! A path is split into pieces at `\` and `/`. Empty pieces (repeated or
//! trailing separators) and `.` pieces are skipped. The file name is the last
//! remaining piece, unless that piece is `..` or holds `:` (a drive, not a
//! file), in which case the path has no file name.
use vstd::prelude::*;

verus! {

pub const BACKSLASH: u16 = 0x5c;

pub const SLASH: u16 = 0x2f;

pub const DOT: u16 = 0x2e;

pub const COLON: u16 = 0x3a;

pub open spec fn is_separator(u: u16) -> bool {
    u == BACKSLASH || u == SLASH
}

/// The unit at `end - 1` can be skipped: a separator, or a `.` piece.
pub open spec fn skippable_before(p: Seq<u16>, end: int) -> bool {
    is_separator(p[end - 1]) || (p[end - 1] == DOT && (end == 1 || is_separator(p[end - 2])))
}

/// Where the piece that ends at `end` starts: just past the last separator
/// before `end`, or 0.
pub open spec fn piece_start(p: Seq<u16>, end: int) -> int
    decreases end,
{
    if end <= 0 {
        0
    } else if is_separator(p[end - 1]) {
        end
    } else {
        piece_start(p, end - 1)
    }
}

/// The file name of the first `end` units of `p`.
pub open spec fn file_name_before(p: Seq<u16>, end: int) -> Option<Seq<u16>>
    decreases end,
{
    if end <= 0 {
        None
    } else if skippable_before(p, end) {
        file_name_before(p, end - 1)
    } else {
        let piece = p.subrange(piece_start(p, end), end);
        if piece == seq![DOT, DOT] || piece.contains(COLON) {
            None
        } else {
            Some(piece)
        }
    }
}

/// The file name of the path `p`, if it has one.
pub open spec fn file_name_of(p: Seq<u16>) -> Option<Seq<u16>> {
    file_name_before(p, p.len() as int)
}

fn separator(u: u16) -> (r: bool)
    ensures
        r == is_separator(u),
{
    u == BACKSLASH || u == SLASH
}

/// The file name of the path `path`, or `None` where the path has none.
pub fn file_name(path: &[u16]) -> (r: Option<Vec<u16>>)
    ensures
        match r {
            Some(v) => file_name_of(path@) == Some(v@),
            None => file_name_of(path@) is None,
        },
{
    let ghost p = path@;
    let mut end: usize = path.len();
    while end > 0 && (separator(path[end - 1]) || (path[end - 1] == DOT && (end == 1 || separator(
        path[end - 2],
    ))))
        invariant
            end <= p.len(),
            p == path@,
            file_name_before(p, end as int) == file_name_of(p),
        decreases end,
    {
        end = end - 1;
    }
    if end == 0 {
        return None;
    }
    assert(!skippable_before(p, end as int));
    let mut start: usize = end;
    while start > 0 && !separator(path[start - 1])
        invariant
            start <= end <= p.len(),
            p == path@,
            piece_start(p, start as int) == piece_start(p, end as int),
        decreases start,
    {
        start = start - 1;
    }
    assert(piece_start(p, start as int) == start as int);
    let ghost piece = p.subrange(start as int, end as int);
    let mut name: Vec<u16> = Vec::new();
    let mut i: usize = start;
    let mut has_colon = false;
    while i < end
        invariant
            start <= i <= end <= p.len(),
            p == path@,
            name@ == p.subrange(start as int, i as int),
            has_colon == name@.contains(COLON),
        decreases end - i,
    {
        let ghost before = name@;
        let u = path[i];
        if u == COLON {
            has_colon = true;
        }
        name.push(u);
        proof {
            assert(name@ =~= before.push(u));
            assert(p.subrange(start as int, i as int + 1) =~= before.push(u));
            if has_colon {
                if u == COLON {
                    assert(name@[name@.len() - 1] == COLON);
                } else {
                    let k = choose|k: int| 0 <= k < before.len() && before[k] == COLON;
                    assert(name@[k] == COLON);
                }
            } else {
                assert forall|k: int| 0 <= k < name@.len() implies name@[k] != COLON by {
                    if k < before.len() {
                        assert(name@[k] == before[k]);
                    }
                }
            }
        }
        i = i + 1;
    }
    assert(name@ =~= piece);
    if has_colon || (name.len() == 2 && name[0] == DOT && name[1] == DOT) {
        proof {
            if !has_colon {
                assert(name@ =~= seq![DOT, DOT]);
            }
        }
        None
    } else {
        proof {
            if name@ == seq![DOT, DOT] {
                assert(name@[0] == DOT && name@[1] == DOT);
            }
        }
        Some(name)
    }
}

} // verus!
