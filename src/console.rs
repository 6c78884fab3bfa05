//! A console modelled as the list of lines written to it.
use vstd::prelude::*;

verus! {

/// What the lines of a console read as character sequences.
pub open spec fn lines(out: Seq<String>) -> Seq<Seq<char>> {
    out.map_values(|l: String| l@)
}

/// Writes `line` as the next line of `out`.
pub fn emit(out: &mut Vec<String>, line: String)
    ensures
        lines(final(out)@) == lines(old(out)@).push(line@),
{
    out.push(line);
    assert(lines(out@) =~= lines(old(out)@).push(line@));
}

} // verus!
