//! The demonstration: each step moves, borrows or shares a string and writes
//! what it sees to the console.
use vstd::prelude::*;
use vstd::string::StringExecFns;

use crate::console::{emit, lines};
use crate::decimal::{decimal, push_decimal};
use crate::ownership::{borrowed_line, modified_line, modify_string, print_string, suffix};
use crate::shared::SharedString;

verus! {

/// The lines of the move step: the value as first owned, then as owned by
/// the binding it moved to.
pub open spec fn move_lines() -> Seq<Seq<char>> {
    seq!["Created string: "@ + "hello"@, "Ownership transferred to s2: "@ + "hello"@]
}

/// The lines of the shared-borrow step: the value read through the borrow,
/// then read again through its owner.
pub open spec fn borrow_lines() -> Seq<Seq<char>> {
    seq![borrowed_line("world"@), "After borrowing, s3 is still valid: "@ + "world"@]
}

/// The lines of the mutable-borrow step: the changed value as the borrow
/// sees it, then as its owner sees it.
pub open spec fn mut_borrow_lines() -> Seq<Seq<char>> {
    seq![
        modified_line("hello"@ + suffix()),
        "After mutable borrowing, s4 is: "@ + ("hello"@ + suffix()),
    ]
}

/// The line of the scope step, written while the scoped value lives.
pub open spec fn scope_lines() -> Seq<Seq<char>> {
    seq!["Inside scope: "@ + "temporary"@]
}

/// The lines of the shared-ownership step, for the three counts read.
pub open spec fn shared_lines(first: nat, inner: nat, last: nat) -> Seq<Seq<char>> {
    seq![
        "Created shared data, ref count: "@ + decimal(first),
        "Added two references, ref count: "@ + decimal(inner),
        "Shared data via ref1: "@ + "shared"@,
        "Shared data via ref2: "@ + "shared"@,
        "After inner scope, ref count: "@ + decimal(last),
    ]
}

/// Every line of the demonstration, in order.
pub open spec fn demo_lines() -> Seq<Seq<char>> {
    move_lines() + borrow_lines() + mut_borrow_lines() + scope_lines() + shared_lines(1, 3, 1)
}

fn line_of(prefix: &str, value: &str) -> (r: String)
    ensures
        r@ == prefix@ + value@,
{
    String::from_str(prefix).concat(value)
}

fn count_line(prefix: &str, n: usize) -> (r: String)
    ensures
        r@ == prefix@ + decimal(n as nat),
{
    let mut r = String::from_str(prefix);
    push_decimal(&mut r, n);
    r
}

/// Creates `"hello"`, moves it to a second binding and writes it through
/// each owner in turn.
pub fn demo_move(out: &mut Vec<String>)
    ensures
        lines(final(out)@) == lines(old(out)@) + move_lines(),
{
    let s1 = String::from_str("hello");
    emit(out, line_of("Created string: ", s1.as_str()));
    let s2 = s1;
    emit(out, line_of("Ownership transferred to s2: ", s2.as_str()));
    assert(lines(out@) =~= lines(old(out)@) + move_lines());
}

/// Lends `"world"` to a reader, then writes it again through its owner.
pub fn demo_borrow(out: &mut Vec<String>)
    ensures
        lines(final(out)@) == lines(old(out)@) + borrow_lines(),
{
    let s3 = String::from_str("world");
    print_string(&s3, out);
    emit(out, line_of("After borrowing, s3 is still valid: ", s3.as_str()));
    assert(lines(out@) =~= lines(old(out)@) + borrow_lines());
}

/// Lends `"hello"` to a writer that extends it, then writes the changed
/// value through its owner.
pub fn demo_mut_borrow(out: &mut Vec<String>)
    ensures
        lines(final(out)@) == lines(old(out)@) + mut_borrow_lines(),
{
    let mut s4 = String::from_str("hello");
    modify_string(&mut s4, out);
    emit(out, line_of("After mutable borrowing, s4 is: ", s4.as_str()));
    assert(lines(out@) =~= lines(old(out)@) + mut_borrow_lines());
}

/// Writes `"temporary"` from inside a nested scope, at whose end it is freed.
pub fn demo_scope(out: &mut Vec<String>)
    ensures
        lines(final(out)@) == lines(old(out)@) + scope_lines(),
{
    {
        let s5 = String::from_str("temporary");
        emit(out, line_of("Inside scope: ", s5.as_str()));
    }
    assert(lines(out@) =~= lines(old(out)@) + scope_lines());
}

/// Shares `"shared"` with two more handles inside a nested scope and drops
/// them at its end, writing the count before, inside and after that scope
/// and the value through each new handle. Returns the three counts read.
pub fn demo_shared(out: &mut Vec<String>) -> (counts: (usize, usize, usize))
    ensures
        counts == (1usize, 3usize, 1usize),
        lines(final(out)@) == lines(old(out)@) + shared_lines(
            counts.0 as nat,
            counts.1 as nat,
            counts.2 as nat,
        ),
{
    let mut shared_data = SharedString::new(String::from_str("shared"));
    let first = shared_data.strong_count();
    emit(out, count_line("Created shared data, ref count: ", first));
    let inner;
    {
        let shared_ref1 = shared_data.share();
        let shared_ref2 = shared_data.share();
        inner = shared_data.strong_count();
        emit(out, count_line("Added two references, ref count: ", inner));
        emit(out, line_of("Shared data via ref1: ", shared_ref1.as_str()));
        emit(out, line_of("Shared data via ref2: ", shared_ref2.as_str()));
        shared_data.release(shared_ref2);
        shared_data.release(shared_ref1);
    }
    let last = shared_data.strong_count();
    emit(out, count_line("After inner scope, ref count: ", last));
    assert(lines(out@) =~= lines(old(out)@) + shared_lines(first as nat, inner as nat, last as nat));
    (first, inner, last)
}

/// Runs every step in order and returns the lines written.
pub fn run_demo() -> (out: Vec<String>)
    ensures
        lines(out@) == demo_lines(),
        out@.len() == 12,
{
    let mut out: Vec<String> = Vec::new();
    demo_move(&mut out);
    demo_borrow(&mut out);
    demo_mut_borrow(&mut out);
    demo_scope(&mut out);
    demo_shared(&mut out);
    assert(lines(out@) =~= demo_lines());
    out
}

/// The demonstration writes exactly these twelve lines, in this order.
pub proof fn lemma_demo_text()
    ensures
        demo_lines() == seq![
            "Created string: hello"@,
            "Ownership transferred to s2: hello"@,
            "Borrowed: world"@,
            "After borrowing, s3 is still valid: world"@,
            "Modified borrowed string: hello world"@,
            "After mutable borrowing, s4 is: hello world"@,
            "Inside scope: temporary"@,
            "Created shared data, ref count: 1"@,
            "Added two references, ref count: 3"@,
            "Shared data via ref1: shared"@,
            "Shared data via ref2: shared"@,
            "After inner scope, ref count: 1"@,
        ],
{
    reveal_strlit("hello");
    reveal_strlit("world");
    reveal_strlit(" world");
    reveal_strlit("temporary");
    reveal_strlit("shared");
    reveal_strlit("Created string: ");
    reveal_strlit("Ownership transferred to s2: ");
    reveal_strlit("Borrowed: ");
    reveal_strlit("After borrowing, s3 is still valid: ");
    reveal_strlit("Modified borrowed string: ");
    reveal_strlit("After mutable borrowing, s4 is: ");
    reveal_strlit("Inside scope: ");
    reveal_strlit("Created shared data, ref count: ");
    reveal_strlit("Added two references, ref count: ");
    reveal_strlit("Shared data via ref1: ");
    reveal_strlit("Shared data via ref2: ");
    reveal_strlit("After inner scope, ref count: ");
    reveal_strlit("Created string: hello");
    reveal_strlit("Ownership transferred to s2: hello");
    reveal_strlit("Borrowed: world");
    reveal_strlit("After borrowing, s3 is still valid: world");
    reveal_strlit("Modified borrowed string: hello world");
    reveal_strlit("After mutable borrowing, s4 is: hello world");
    reveal_strlit("Inside scope: temporary");
    reveal_strlit("Created shared data, ref count: 1");
    reveal_strlit("Added two references, ref count: 3");
    reveal_strlit("Shared data via ref1: shared");
    reveal_strlit("Shared data via ref2: shared");
    reveal_strlit("After inner scope, ref count: 1");
    assert(decimal(1) =~= seq!['1']);
    assert(decimal(3) =~= seq!['3']);
    assert("Created string: "@ + "hello"@ =~= "Created string: hello"@);
    assert("Ownership transferred to s2: "@ + "hello"@ =~= "Ownership transferred to s2: hello"@);
    assert(borrowed_line("world"@) =~= "Borrowed: world"@);
    assert("After borrowing, s3 is still valid: "@ + "world"@
        =~= "After borrowing, s3 is still valid: world"@);
    assert(modified_line("hello"@ + suffix()) =~= "Modified borrowed string: hello world"@);
    assert("After mutable borrowing, s4 is: "@ + ("hello"@ + suffix())
        =~= "After mutable borrowing, s4 is: hello world"@);
    assert("Inside scope: "@ + "temporary"@ =~= "Inside scope: temporary"@);
    assert("Created shared data, ref count: "@ + decimal(1) =~= "Created shared data, ref count: 1"@);
    assert("Added two references, ref count: "@ + decimal(3)
        =~= "Added two references, ref count: 3"@);
    assert("Shared data via ref1: "@ + "shared"@ =~= "Shared data via ref1: shared"@);
    assert("Shared data via ref2: "@ + "shared"@ =~= "Shared data via ref2: shared"@);
    assert("After inner scope, ref count: "@ + decimal(1) =~= "After inner scope, ref count: 1"@);
    assert(demo_lines() =~= seq![
        "Created string: hello"@,
        "Ownership transferred to s2: hello"@,
        "Borrowed: world"@,
        "After borrowing, s3 is still valid: world"@,
        "Modified borrowed string: hello world"@,
        "After mutable borrowing, s4 is: hello world"@,
        "Inside scope: temporary"@,
        "Created shared data, ref count: 1"@,
        "Added two references, ref count: 3"@,
        "Shared data via ref1: shared"@,
        "Shared data via ref2: shared"@,
        "After inner scope, ref count: 1"@,
    ]);
}

} // verus!
