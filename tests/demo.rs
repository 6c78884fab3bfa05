use ownership_demo::console::emit;
use ownership_demo::decimal::push_decimal;
use ownership_demo::demo::{
    demo_borrow, demo_move, demo_mut_borrow, demo_scope, demo_shared, run_demo,
};
use ownership_demo::ownership::{modify_string, print_string};
use ownership_demo::shared::SharedString;

#[test]
fn run_demo_writes_every_line_in_order() {
    let out = run_demo();
    let expected = vec![
        "Created string: hello",
        "Ownership transferred to s2: hello",
        "Borrowed: world",
        "After borrowing, s3 is still valid: world",
        "Modified borrowed string: hello world",
        "After mutable borrowing, s4 is: hello world",
        "Inside scope: temporary",
        "Created shared data, ref count: 1",
        "Added two references, ref count: 3",
        "Shared data via ref1: shared",
        "Shared data via ref2: shared",
        "After inner scope, ref count: 1",
    ];
    assert_eq!(out, expected);
}

#[test]
fn move_prints_the_same_value_through_the_new_owner() {
    let mut out = Vec::new();
    demo_move(&mut out);
    assert_eq!(out, vec!["Created string: hello", "Ownership transferred to s2: hello"]);
}

#[test]
fn shared_borrow_leaves_the_value_usable() {
    let mut out = Vec::new();
    demo_borrow(&mut out);
    assert_eq!(out, vec!["Borrowed: world", "After borrowing, s3 is still valid: world"]);
}

#[test]
fn print_string_prefixes_and_keeps_the_value() {
    let s = String::from("world");
    let mut out = vec![String::from("earlier")];
    print_string(&s, &mut out);
    assert_eq!(s, "world");
    assert_eq!(out, vec!["earlier", "Borrowed: world"]);
}

#[test]
fn print_string_of_empty_value() {
    let s = String::new();
    let mut out = Vec::new();
    print_string(&s, &mut out);
    assert_eq!(out, vec!["Borrowed: "]);
}

#[test]
fn mutable_borrow_appends_world() {
    let mut out = Vec::new();
    demo_mut_borrow(&mut out);
    assert_eq!(
        out,
        vec!["Modified borrowed string: hello world", "After mutable borrowing, s4 is: hello world"]
    );
}

#[test]
fn modify_string_changes_the_owner() {
    let mut s = String::from("hello");
    let mut out = Vec::new();
    modify_string(&mut s, &mut out);
    assert_eq!(s, "hello world");
    assert_eq!(out, vec!["Modified borrowed string: hello world"]);
}

#[test]
fn modify_string_of_empty_value() {
    let mut s = String::new();
    let mut out = Vec::new();
    modify_string(&mut s, &mut out);
    assert_eq!(s, " world");
    assert_eq!(out, vec!["Modified borrowed string:  world"]);
}

#[test]
fn scope_writes_one_line() {
    let mut out = Vec::new();
    demo_scope(&mut out);
    assert_eq!(out, vec!["Inside scope: temporary"]);
}

#[test]
fn shared_counts_go_one_three_one() {
    let mut out = Vec::new();
    let counts = demo_shared(&mut out);
    assert_eq!(counts, (1, 3, 1));
    assert_eq!(
        out,
        vec![
            "Created shared data, ref count: 1",
            "Added two references, ref count: 3",
            "Shared data via ref1: shared",
            "Shared data via ref2: shared",
            "After inner scope, ref count: 1",
        ]
    );
}

#[test]
fn shared_string_counts_handles() {
    let mut owner = SharedString::new(String::from("shared"));
    assert_eq!(owner.strong_count(), 1);
    let a = owner.share();
    assert_eq!(owner.strong_count(), 2);
    let b = owner.share();
    assert_eq!(owner.strong_count(), 3);
    assert_eq!(a.as_str(), "shared");
    assert_eq!(b.as_str(), "shared");
    assert_eq!(owner.as_str(), "shared");
    owner.release(a);
    assert_eq!(owner.strong_count(), 2);
    owner.release(b);
    assert_eq!(owner.strong_count(), 1);
}

#[test]
fn decimal_digits() {
    let cases: Vec<(usize, String)> = vec![
        (0, String::from("0")),
        (7, String::from("7")),
        (10, String::from("10")),
        (1234, String::from("1234")),
        (usize::MAX, format!("{}", usize::MAX)),
    ];
    for (n, expected) in cases {
        let mut s = String::from("count: ");
        push_decimal(&mut s, n);
        assert_eq!(s, format!("count: {}", expected));
    }
}

#[test]
fn emit_appends_a_line() {
    let mut out = vec![String::from("a")];
    emit(&mut out, String::from("b"));
    assert_eq!(out, vec!["a", "b"]);
}
