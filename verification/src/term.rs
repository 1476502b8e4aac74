//! Pure terminal formatting: the truecolor escape wrapping used by the build
//! notices. Nothing here writes to a stream; callers print the returned text.

use vstd::prelude::*;
use vstd::string::StringExecFns;

use crate::strnum::dec_int;
use crate::strnum::fmt_i32;

verus! {

/// The ANSI truecolor rendering of `text`: a foreground escape carrying the
/// three channel values, the text itself, then the reset escape.
pub open spec fn colored_text(r: int, g: int, b: int, text: Seq<char>) -> Seq<char> {
    "\u{1b}[38;2;"@ + dec_int(r) + ";"@ + dec_int(g) + ";"@ + dec_int(b) + "m"@ + text
        + "\u{1b}[0m"@
}

/// Wraps `text` in the ANSI escape that colors it with the given RGB channels.
pub fn colored(r: i32, g: i32, b: i32, text: &str) -> (res: String)
    ensures
        res@ == colored_text(r as int, g as int, b as int, text@),
{
    let mut s = String::from_str("\u{1b}[38;2;");
    let red = fmt_i32(r);
    s.append(red.as_str());
    s.append(";");
    let green = fmt_i32(g);
    s.append(green.as_str());
    s.append(";");
    let blue = fmt_i32(b);
    s.append(blue.as_str());
    s.append("m");
    s.append(text);
    s.append("\u{1b}[0m");
    proof {
        assert(s@ =~= colored_text(r as int, g as int, b as int, text@));
    }
    s
}

} // verus!
