use ws_frontend::errors::{at_line, compose_undefined, compose_undefined_member, highlight, quote};
use ws_frontend::text::{
    append_repeated, decimal_text, first_segment_of, last_segment_of, without_quotes,
};

#[test]
fn segments_of_paths() {
    assert_eq!(first_segment_of("std.Console"), "std");
    assert_eq!(last_segment_of("std.Console"), "Console");
    assert_eq!(first_segment_of("a.b.c.D"), "a");
    assert_eq!(last_segment_of("a.b.c.D"), "D");
    assert_eq!(first_segment_of("single"), "single");
    assert_eq!(last_segment_of("single"), "single");
    assert_eq!(first_segment_of(""), "");
    assert_eq!(last_segment_of(""), "");
    assert_eq!(first_segment_of(".x"), "");
    assert_eq!(last_segment_of("x."), "");
    assert_eq!(first_segment_of("é.ü"), "é");
    assert_eq!(last_segment_of("é.ü"), "ü");
    assert_eq!(first_segment_of("a\\b.c"), "a\\b");
}

#[test]
fn quotes() {
    assert_eq!(without_quotes("\"Ada\""), "Ada");
    assert_eq!(without_quotes("Ada"), "Ada");
    assert_eq!(without_quotes("\"Ada"), "\"Ada");
    assert_eq!(without_quotes("Ada\""), "Ada\"");
    assert_eq!(without_quotes("\""), "\"");
    assert_eq!(without_quotes("\"\""), "");
    assert_eq!(without_quotes("'a'"), "'a'");
    assert_eq!(without_quotes("\"é\""), "é");
}

#[test]
fn decimals() {
    assert_eq!(decimal_text(0), "0");
    assert_eq!(decimal_text(7), "7");
    assert_eq!(decimal_text(10), "10");
    assert_eq!(decimal_text(1234567890), "1234567890");
    assert_eq!(decimal_text(usize::MAX), usize::MAX.to_string());
}

#[test]
fn runs() {
    let mut text = String::from("x");
    append_repeated(&mut text, "ab", 3);
    assert_eq!(text, "xababab");
    append_repeated(&mut text, "c", 0);
    assert_eq!(text, "xababab");
}

#[test]
fn pieces_of_a_message() {
    assert_eq!(quote("name"), "`name`");
    assert_eq!(quote(""), "``");
    assert_eq!(at_line(1), "At: 1 | ");
    assert_eq!(at_line(120), "At: 120 | ");
    assert_eq!(highlight("abc", 0, 1), "         ^^^");
    assert_eq!(highlight("abc", 2, 10), "            ^^^");
    assert_eq!(highlight("", 0, 1), "         ");
    assert_eq!(highlight("é", 0, 1), "         ^");
}

#[test]
fn layouts() {
    assert_eq!(
        compose_undefined("L", "N", "A", "S", "M"),
        "L: N is undefined\n        AS\n        M"
    );
    assert_eq!(
        compose_undefined_member("L", "N", "A", "S", "M", "D"),
        "L: Cannot access member of undefined: N\n        AS\n        M\n        D"
    );
}
