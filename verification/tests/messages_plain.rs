use ws_frontend::errors::{throw_undefined, throw_undefined_class_error};

#[test]
fn undefined_without_colours() {
    colored::control::set_override(false);
    assert_eq!(
        throw_undefined("missing", "Console.println(missing)", 0, 3),
        "Error: `missing` is undefined\n        At: 3 | `Console.println(missing)`\n                 ^^^^^^^"
    );
}

#[test]
fn undefined_member_without_colours() {
    colored::control::set_override(false);
    assert_eq!(
        throw_undefined_class_error(
            "Console",
            "Console.println(\"hello\")",
            0,
            12,
            "Consider importing this module with `import std.Console;`",
        ),
        "Error: Cannot access member of undefined: `Console`\n        At: 12 | `Console.println(\"hello\")`\n                  ^^^^^^^\n        Consider importing this module with `import std.Console;`"
    );
}

#[test]
fn position_moves_the_carets() {
    colored::control::set_override(false);
    assert_eq!(
        throw_undefined("x", "x", 4, 1),
        "Error: `x` is undefined\n        At: 1 | `x`\n                     ^"
    );
}

#[test]
fn every_text_is_kept_without_colours() {
    colored::control::set_override(false);
    assert_eq!(
        throw_undefined("a\u{1b}[0mb", "x\u{1b}y", 0, 7),
        "Error: `a\u{1b}[0mb` is undefined\n        At: 7 | `x\u{1b}y`\n                 ^^^^^^"
    );
}
