//! Deriving a symbolic name from a source-root path: the final path segment,
//! with the separator character `-` normalized to `_` so the result is legal as
//! a toolchain crate name and as an artifact file name.

use vstd::prelude::*;
use vstd::string::StrSliceExecFns;
use vstd::string::StringExecFns;

verus! {

/// Normalizing one character of a path segment: `-` becomes `_`.
pub open spec fn normalize_char(c: char) -> char {
    if c == '-' {
        '_'
    } else {
        c
    }
}

/// A path segment with every separator character normalized.
pub open spec fn normalized(s: Seq<char>) -> Seq<char> {
    s.map_values(|c: char| normalize_char(c))
}

/// The path with trailing `/` separators removed.
pub open spec fn strip_trailing_separators(s: Seq<char>) -> Seq<char>
    decreases s.len(),
{
    if s.len() > 0 && s.last() == '/' {
        strip_trailing_separators(s.drop_last())
    } else {
        s
    }
}

/// What follows the last `/` of a path that does not end in `/`; empty when the
/// path is empty or ends in a separator.
pub open spec fn last_segment(s: Seq<char>) -> Seq<char>
    decreases s.len(),
{
    if s.len() == 0 {
        s
    } else if s.last() == '/' {
        Seq::<char>::empty()
    } else {
        last_segment(s.drop_last()).push(s.last())
    }
}

/// The final segment of a path: trailing separators are dropped first, then
/// everything up to and including the last remaining separator.
pub open spec fn file_name_of(s: Seq<char>) -> Seq<char> {
    last_segment(strip_trailing_separators(s))
}

/// The symbolic name a source-root path derives: its final segment, normalized.
pub open spec fn derived_name(path: Seq<char>) -> Seq<char> {
    normalized(file_name_of(path))
}

/// A character that may stand in a toolchain-legal symbolic name.
pub open spec fn is_ident_char(c: char) -> bool {
    ('a' as int <= c as int && c as int <= 'z' as int) || ('A' as int <= c as int && c as int
        <= 'Z' as int) || ('0' as int <= c as int && c as int <= '9' as int) || c == '_'
}

/// A toolchain-legal symbolic name: non-empty, made of letters, digits and
/// underscores only.
pub open spec fn is_ident(s: Seq<char>) -> bool {
    s.len() > 0 && forall|i: int| 0 <= i < s.len() ==> is_ident_char(#[trigger] s[i])
}

/// Whether a string may stand as a symbolic name as it is. A caller that
/// cannot see a name in advance checks this before supplying it.
pub fn ident_ok(s: &str) -> (r: bool)
    ensures
        r == is_ident(s@),
{
    let n = s.unicode_len();
    if n == 0 {
        return false;
    }
    let mut i: usize = 0;
    let mut ok = true;
    while i < n
        invariant
            i <= n,
            n == s@.len(),
            ok == forall|j: int| 0 <= j < i ==> is_ident_char(#[trigger] s@[j]),
        decreases n - i,
    {
        let c = s.get_char(i);
        // ASCII ranges: lower-case letters, upper-case letters, digits.
        let u = c as u32;
        let good = (97 <= u && u <= 122) || (65 <= u && u <= 90) || (48 <= u && u <= 57) || c
            == '_';
        proof {
            assert(good == is_ident_char(c));
        }
        ok = ok && good;
        i = i + 1;
    }
    ok
}

/// The bounds of the final path segment inside `path` itself: the returned pair
/// `(start, end)` delimits exactly `file_name_of(path@)`.
fn segment_bounds(path: &str) -> (se: (usize, usize))
    ensures
        se.0 <= se.1 <= path@.len(),
        path@.subrange(se.0 as int, se.1 as int) == file_name_of(path@),
{
    let n = path.unicode_len();
    proof {
        assert(path@.take(n as int) =~= path@);
    }
    let mut end: usize = n;
    while end > 0 && path.get_char(end - 1) == '/'
        invariant
            end <= n,
            n == path@.len(),
            strip_trailing_separators(path@) == strip_trailing_separators(
                path@.take(end as int),
            ),
        decreases end,
    {
        proof {
            assert(path@.take(end as int).drop_last() =~= path@.take(end as int - 1));
            assert(path@.take(end as int).last() == path@[end as int - 1]);
        }
        end = end - 1;
    }
    proof {
        if end > 0 {
            assert(path@.take(end as int).last() == path@[end as int - 1]);
        }
        assert(strip_trailing_separators(path@) =~= path@.take(end as int));
    }
    let ghost stripped = path@.take(end as int);
    proof {
        assert(stripped.take(end as int) =~= stripped);
        assert(last_segment(stripped) =~= last_segment(stripped.take(end as int))
            + stripped.subrange(end as int, end as int));
    }
    let mut start: usize = end;
    while start > 0 && path.get_char(start - 1) != '/'
        invariant
            start <= end <= n,
            n == path@.len(),
            stripped == path@.take(end as int),
            stripped == strip_trailing_separators(path@),
            last_segment(stripped) == last_segment(stripped.take(start as int))
                + stripped.subrange(start as int, end as int),
        decreases start,
    {
        proof {
            let t = stripped.take(start as int);
            assert(t.last() == path@[start as int - 1]);
            assert(t.drop_last() =~= stripped.take(start as int - 1));
            assert(last_segment(t) == last_segment(t.drop_last()).push(t.last()));
            assert(last_segment(t.drop_last()).push(t.last()) + stripped.subrange(
                start as int,
                end as int,
            ) =~= last_segment(stripped.take(start as int - 1)) + stripped.subrange(
                start as int - 1,
                end as int,
            ));
        }
        start = start - 1;
    }
    proof {
        if start > 0 {
            assert(stripped.take(start as int).last() == path@[start as int - 1]);
        }
        assert(last_segment(stripped.take(start as int)) =~= Seq::<char>::empty());
        assert(stripped.subrange(start as int, end as int) =~= path@.subrange(
            start as int,
            end as int,
        ));
        assert(path@.subrange(start as int, end as int) =~= file_name_of(path@));
    }
    (start, end)
}

/// Whether the symbolic name a path would derive is toolchain-legal. A caller
/// that cannot see the path in advance checks this before deriving.
pub fn crate_name_ok(path: &str) -> (r: bool)
    ensures
        r == is_ident(derived_name(path@)),
{
    let bounds = segment_bounds(path);
    let start = bounds.0;
    let end = bounds.1;
    let ghost segment = path@.subrange(start as int, end as int);
    if start == end {
        proof {
            assert(derived_name(path@).len() == 0);
        }
        return false;
    }
    let mut i: usize = start;
    let mut ok = true;
    while i < end
        invariant
            start <= i <= end <= path@.len(),
            segment == path@.subrange(start as int, end as int),
            segment == file_name_of(path@),
            ok == forall|j: int|
                start <= j < i ==> is_ident_char(normalize_char(#[trigger] path@[j])),
        decreases end - i,
    {
        let c = path.get_char(i);
        // As above, with the separator admitted: it normalizes to an underscore.
        let u = c as u32;
        let good = (97 <= u && u <= 122) || (65 <= u && u <= 90) || (48 <= u && u <= 57) || c
            == '_' || c == '-';
        proof {
            assert(good == is_ident_char(normalize_char(c)));
        }
        ok = ok && good;
        i = i + 1;
    }
    proof {
        assert(derived_name(path@).len() == segment.len());
        assert forall|k: int| 0 <= k < segment.len() implies derived_name(path@)[k]
            == normalize_char(path@[start + k]) by {
            assert(segment[k] == path@[start + k]);
        }
        if ok {
            assert forall|k: int| 0 <= k < derived_name(path@).len() implies is_ident_char(
                #[trigger] derived_name(path@)[k],
            ) by {
                assert(is_ident_char(normalize_char(path@[start + k])));
            }
        } else {
            let j = choose|j: int|
                start <= j < end && !is_ident_char(normalize_char(#[trigger] path@[j]));
            assert(derived_name(path@)[j - start] == normalize_char(path@[j]));
        }
    }
    ok
}

/// Derives the symbolic name of a source root: the final path segment with
/// separators normalized.
pub fn derive_crate_name(path: &str) -> (r: String)
    requires
        file_name_of(path@).len() > 0,
    ensures
        r@ == derived_name(path@),
{
    let bounds = segment_bounds(path);
    let start = bounds.0;
    let end = bounds.1;
    let ghost segment = path@.subrange(start as int, end as int);
    let mut out = String::new();
    let mut i: usize = start;
    while i < end
        invariant
            start <= i <= end <= path@.len(),
            segment == path@.subrange(start as int, end as int),
            segment == file_name_of(path@),
            out@ == normalized(path@.subrange(start as int, i as int)),
        decreases end - i,
    {
        let c = path.get_char(i);
        if c == '-' {
            out.append("_");
            proof {
                reveal_strlit("_");
            }
        } else {
            let piece = path.substring_char(i, i + 1);
            out.append(piece);
        }
        proof {
            assert(out@ =~= normalized(path@.subrange(start as int, i as int + 1)));
        }
        i = i + 1;
    }
    proof {
        assert(out@ =~= derived_name(path@));
    }
    out
}

} // verus!
