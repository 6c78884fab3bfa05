//! Borrowing a string immutably and mutably.
use vstd::prelude::*;
use vstd::string::StringExecFns;

use crate::console::{emit, lines};

verus! {

/// The line written when a string is read through a shared borrow.
pub open spec fn borrowed_line(s: Seq<char>) -> Seq<char> {
    "Borrowed: "@ + s
}

/// What a mutable borrow appends to the string it holds.
pub open spec fn suffix() -> Seq<char> {
    " world"@
}

/// The line written once a string has been changed through a mutable borrow.
pub open spec fn modified_line(s: Seq<char>) -> Seq<char> {
    "Modified borrowed string: "@ + s
}

/// Reads `s` through a shared borrow and writes it, prefixed, to `out`.
/// `s` cannot change: the borrow is read-only.
pub fn print_string(s: &String, out: &mut Vec<String>)
    ensures
        lines(final(out)@) == lines(old(out)@).push(borrowed_line(s@)),
{
    let line = String::from_str("Borrowed: ").concat(s.as_str());
    emit(out, line);
}

/// Appends `" world"` to `s` in place through a mutable borrow, then writes
/// the changed value, prefixed, to `out`.
pub fn modify_string(s: &mut String, out: &mut Vec<String>)
    ensures
        final(s)@ == old(s)@ + suffix(),
        lines(final(out)@) == lines(old(out)@).push(modified_line(old(s)@ + suffix())),
{
    s.append(" world");
    let line = String::from_str("Modified borrowed string: ").concat(s.as_str());
    emit(out, line);
}

} // verus!
