use ws_frontend::errors::{throw_undefined, throw_undefined_class_error};

#[test]
fn undefined_with_colours() {
    colored::control::set_override(true);
    assert_eq!(
        throw_undefined("missing", "Console.println(missing)", 0, 3),
        "\u{1b}[1;31mError\u{1b}[0m: \u{1b}[1m`missing`\u{1b}[0m is undefined\n        At: 3 | \u{1b}[1;33m`Console.println(missing)`\u{1b}[0m\n        \u{1b}[31m         ^^^^^^^\u{1b}[0m"
    );
}

#[test]
fn undefined_member_with_colours() {
    colored::control::set_override(true);
    assert_eq!(
        throw_undefined_class_error("Console", "Console.print()", 0, 1, "Import it."),
        "\u{1b}[1;31mError\u{1b}[0m: Cannot access member of undefined: \u{1b}[1m`Console`\u{1b}[0m\n        At: 1 | \u{1b}[1;33m`Console.print()`\u{1b}[0m\n        \u{1b}[31m         ^^^^^^^\u{1b}[0m\n        \u{1b}[1;36mImport it.\u{1b}[0m"
    );
}

#[test]
fn escape_without_reset_is_kept_with_colours() {
    colored::control::set_override(true);
    assert_eq!(
        throw_undefined("a\u{1b}[1mb", "x\u{1b}y", 0, 7),
        "\u{1b}[1;31mError\u{1b}[0m: \u{1b}[1m`a\u{1b}[1mb`\u{1b}[0m is undefined\n        At: 7 | \u{1b}[1;33m`x\u{1b}y`\u{1b}[0m\n        \u{1b}[31m         ^^^^^^\u{1b}[0m"
    );
}
