//! What can go wrong, as plain facts, and the messages that report it.
//!
//! A message is laid out from pieces: a label, the offending name between
//! backticks, the line, the offending source text between backticks, and a row
//! of carets. The pieces and the layout are computed here. The colours are
//! `colored`'s: whether it adds them depends on the terminal and the
//! environment, so a message is stated up to that choice.
use vstd::prelude::*;
use vstd::string::*;
use colored::Colorize;
use crate::event::Rule;
use crate::text::{
    append_repeated, decimal, decimal_text, lemma_repeated_add, lemma_repeated_char, repeated,
};

verus! {

/// A parse event that lacks a part its builder needs: the grammar's promise
/// about the event's shape does not hold. `rule` is the tag of the event that
/// lacks the part.
#[derive(Clone, Copy, Debug, PartialEq, Eq, Structural)]
pub struct GrammarViolation {
    pub rule: Rule,
}

/// What a builder returns, with the built node replaced by its view.
pub open spec fn built<T: View>(result: Result<T, GrammarViolation>) -> Result<
    T::V,
    GrammarViolation,
> {
    match result {
        Ok(node) => Ok(node@),
        Err(violation) => Err(violation),
    }
}

/// Why a run stopped.
#[derive(Debug, PartialEq, Eq)]
pub enum Diagnostic {
    /// A parse event did not have the shape its builder expects.
    GrammarViolation { rule: Rule },
    /// A member of a module was used and the module was not imported.
    UndefinedModule { identifier: String, span: String, line: usize, suggestion: String },
    /// A name was used as an argument and nothing in scope declares it.
    UndefinedIdentifier { identifier: String, span: String, line: usize },
    /// The program uses a construct that is recognised and not yet carried out.
    UnimplementedConstruct { span: String, line: usize },
}

/// What a [`Diagnostic`] holds, as mathematical values.
pub enum DiagnosticView {
    GrammarViolation { rule: Rule },
    UndefinedModule { identifier: Seq<char>, span: Seq<char>, line: nat, suggestion: Seq<char> },
    UndefinedIdentifier { identifier: Seq<char>, span: Seq<char>, line: nat },
    UnimplementedConstruct { span: Seq<char>, line: nat },
}

impl View for Diagnostic {
    type V = DiagnosticView;

    open spec fn view(&self) -> DiagnosticView {
        match *self {
            Diagnostic::GrammarViolation { rule } => DiagnosticView::GrammarViolation { rule },
            Diagnostic::UndefinedModule {
                identifier,
                span,
                line,
                suggestion,
            } => DiagnosticView::UndefinedModule {
                identifier: identifier@,
                span: span@,
                line: line as nat,
                suggestion: suggestion@,
            },
            Diagnostic::UndefinedIdentifier {
                identifier,
                span,
                line,
            } => DiagnosticView::UndefinedIdentifier {
                identifier: identifier@,
                span: span@,
                line: line as nat,
            },
            Diagnostic::UnimplementedConstruct {
                span,
                line,
            } => DiagnosticView::UnimplementedConstruct { span: span@, line: line as nat },
        }
    }
}

impl Clone for Diagnostic {
    /// A copy with the same view.
    fn clone(&self) -> (copy: Diagnostic)
        ensures
            copy@ == self@,
    {
        match self {
            Diagnostic::GrammarViolation { rule } => Diagnostic::GrammarViolation { rule: *rule },
            Diagnostic::UndefinedModule {
                identifier,
                span,
                line,
                suggestion,
            } => Diagnostic::UndefinedModule {
                identifier: identifier.clone(),
                span: span.clone(),
                line: *line,
                suggestion: suggestion.clone(),
            },
            Diagnostic::UndefinedIdentifier {
                identifier,
                span,
                line,
            } => Diagnostic::UndefinedIdentifier {
                identifier: identifier.clone(),
                span: span.clone(),
                line: *line,
            },
            Diagnostic::UnimplementedConstruct {
                span,
                line,
            } => Diagnostic::UnimplementedConstruct { span: span.clone(), line: *line },
        }
    }
}

/// The escape character that starts a terminal control sequence.
pub open spec fn escape() -> char {
    '\u{1b}'
}

/// The control sequence that resets all styles.
pub open spec fn reset() -> Seq<char> {
    seq![escape(), '[', '0', 'm']
}

/// Whether `text` holds the reset sequence somewhere.
pub open spec fn holds_reset(text: Seq<char>) -> bool {
    exists|at: int|
        0 <= at && at + 4 <= text.len() && #[trigger] text.subrange(at, at + 4) == reset()
}

/// `text` between the control sequence that switches the given style codes on
/// and the one that resets all styles.
pub open spec fn styled(codes: Seq<char>, text: Seq<char>) -> Seq<char> {
    seq![escape(), '['] + codes + seq!['m'] + text + reset()
}

/// Whether `painted` is `text` in the style of `codes`, with colours off or
/// on: the text itself, or the styled text.
pub open spec fn is_rendering(painted: Seq<char>, text: Seq<char>, codes: Seq<char>) -> bool {
    painted == text || painted == styled(codes, text)
}

/// What `colored` gives for `text` in the style of `codes`: a rendering of it,
/// for every text that does not itself hold the reset sequence. Within a text
/// that holds one, `colored` switches the style on again after each, and
/// nothing is said of that here.
pub open spec fn is_painting(painted: Seq<char>, text: Seq<char>, codes: Seq<char>) -> bool {
    holds_reset(text) || is_rendering(painted, text, codes)
}

/// A text without an escape character holds no reset sequence.
pub proof fn lemma_no_escape_no_reset(text: Seq<char>)
    requires
        forall|i: int| 0 <= i < text.len() ==> text[i] != escape(),
    ensures
        !holds_reset(text),
{
    if holds_reset(text) {
        let at = choose|at: int|
            0 <= at && at + 4 <= text.len() && #[trigger] text.subrange(at, at + 4) == reset();
        assert(text.subrange(at, at + 4)[0] == text[at]);
        assert(reset()[0] == escape());
    }
}

/// The backticks around a text neither make a reset sequence nor break one:
/// the quoted text holds one exactly where the text does.
pub proof fn lemma_quoted_holds_reset(text: Seq<char>)
    ensures
        holds_reset(quoted(text)) == holds_reset(text),
{
    reveal_strlit("`");
    let wrapped = quoted(text);
    assert(wrapped.len() == text.len() + 2);
    assert(wrapped[0] == '`');
    assert(wrapped[wrapped.len() - 1] == '`');
    assert forall|i: int| 0 <= i < text.len() implies wrapped[i + 1] == text[i] by {}
    if holds_reset(text) {
        let at = choose|at: int|
            0 <= at && at + 4 <= text.len() && #[trigger] text.subrange(at, at + 4) == reset();
        let outer = at + 1;
        assert(wrapped.subrange(outer, outer + 4) =~= text.subrange(at, at + 4));
        assert(holds_reset(wrapped));
    }
    if holds_reset(wrapped) {
        let at = choose|at: int|
            0 <= at && at + 4 <= wrapped.len() && #[trigger] wrapped.subrange(at, at + 4)
                == reset();
        let found = wrapped.subrange(at, at + 4);
        assert(found[0] == wrapped[at]);
        assert(found[3] == wrapped[at + 3]);
        assert(reset()[0] == escape());
        assert(reset()[3] == 'm');
        assert(at >= 1 && at + 3 <= text.len());
        let inner = at - 1;
        assert(text.subrange(inner, inner + 4) =~= found);
        assert(holds_reset(text));
    }
}

/// The style codes of bold red.
pub open spec fn bold_red() -> Seq<char> {
    seq!['1', ';', '3', '1']
}

/// The style codes of bold.
pub open spec fn bold() -> Seq<char> {
    seq!['1']
}

/// The style codes of bold yellow.
pub open spec fn bold_yellow() -> Seq<char> {
    seq!['1', ';', '3', '3']
}

/// The style codes of red.
pub open spec fn red() -> Seq<char> {
    seq!['3', '1']
}

/// The style codes of bold cyan.
pub open spec fn bold_cyan() -> Seq<char> {
    seq!['1', ';', '3', '6']
}

/// `colored`'s `red` and `bold` on a string slice, rendered by its `Display`.
/// Not proved: that the result is the text unchanged when `colored` has
/// colours off, and the text between `ESC[1;31m` and `ESC[0m` when it has them
/// on, for a text that does not hold the reset sequence `ESC[0m`. `colored`
/// reads the terminal, the environment and its own override to decide, so
/// which of the two comes back is open; the claim takes it that the decision
/// stands for the length of the call.
#[verifier::external_body]
fn paint_bold_red(text: &str) -> (painted: String)
    ensures
        is_painting(painted@, text@, bold_red()),
{
    text.red().bold().to_string()
}

/// `colored`'s `bold` on a string slice, rendered by its `Display`. Not
/// proved: that the result is the text unchanged, or the text between
/// `ESC[1m` and `ESC[0m`, for a text that does not hold the reset sequence.
#[verifier::external_body]
fn paint_bold(text: &str) -> (painted: String)
    ensures
        is_painting(painted@, text@, bold()),
{
    text.bold().to_string()
}

/// `colored`'s `yellow` and `bold` on a string slice, rendered by its
/// `Display`. Not proved: that the result is the text unchanged, or the text
/// between `ESC[1;33m` and `ESC[0m`, for a text that does not hold the reset
/// sequence.
#[verifier::external_body]
fn paint_bold_yellow(text: &str) -> (painted: String)
    ensures
        is_painting(painted@, text@, bold_yellow()),
{
    text.yellow().bold().to_string()
}

/// `colored`'s `red` on a string slice, rendered by its `Display`. Not proved:
/// that the result is the text unchanged, or the text between `ESC[31m` and
/// `ESC[0m`, for a text that does not hold the reset sequence.
#[verifier::external_body]
fn paint_red(text: &str) -> (painted: String)
    ensures
        is_painting(painted@, text@, red()),
{
    text.red().to_string()
}

/// `colored`'s `cyan` and `bold` on a string slice, rendered by its `Display`.
/// Not proved: that the result is the text unchanged, or the text between
/// `ESC[1;36m` and `ESC[0m`, for a text that does not hold the reset sequence.
#[verifier::external_body]
fn paint_bold_cyan(text: &str) -> (painted: String)
    ensures
        is_painting(painted@, text@, bold_cyan()),
{
    text.cyan().bold().to_string()
}

/// `text` between backticks.
pub open spec fn quoted(text: Seq<char>) -> Seq<char> {
    "`"@ + text + "`"@
}

/// The label of a line: `At: `, the line number in decimal, and ` | `.
pub open spec fn at_line_text(line: nat) -> Seq<char> {
    "At: "@ + decimal(line) + " | "@
}

/// The row under the source text that points at the name: blanks for the
/// position, for the width of the line label and one more, then one caret for
/// each character of the name.
pub open spec fn caret_row(identifier: Seq<char>, position: nat, line: nat) -> Seq<char> {
    repeated(" "@, position + at_line_text(line).len() + 1) + repeated("^"@, identifier.len())
}

/// What stands between two lines of a message: a line break and the indent.
pub open spec fn line_break() -> Seq<char> {
    "\n        "@
}

/// The layout of the message for a name that nothing declares.
pub open spec fn undefined_layout(
    label: Seq<char>,
    name: Seq<char>,
    at_line: Seq<char>,
    span: Seq<char>,
    marks: Seq<char>,
) -> Seq<char> {
    label + ": "@ + name + " is undefined"@ + line_break() + at_line + span + line_break() + marks
}

/// The layout of the message for a member of something that is not defined.
pub open spec fn undefined_member_layout(
    label: Seq<char>,
    name: Seq<char>,
    at_line: Seq<char>,
    span: Seq<char>,
    marks: Seq<char>,
    advice: Seq<char>,
) -> Seq<char> {
    label + ": Cannot access member of undefined: "@ + name + line_break() + at_line + span
        + line_break() + marks + line_break() + advice
}

/// Whether `message` is laid out from the given pieces, and the pieces are what
/// the report of an undeclared `identifier` is made of: a bold red `Error`,
/// the bold name between backticks, the bold yellow source text between
/// backticks, and the red row of carets. The label and the carets are
/// renderings for every input; the name and the source text are renderings
/// unless they hold the reset sequence themselves.
pub open spec fn undefined_pieces(
    message: Seq<char>,
    label: Seq<char>,
    name: Seq<char>,
    shown: Seq<char>,
    marks: Seq<char>,
    identifier: Seq<char>,
    span: Seq<char>,
    position: nat,
    line: nat,
) -> bool {
    &&& message == undefined_layout(label, name, at_line_text(line), shown, marks)
    &&& is_rendering(label, "Error"@, bold_red())
    &&& holds_reset(identifier) || is_rendering(name, quoted(identifier), bold())
    &&& holds_reset(span) || is_rendering(shown, quoted(span), bold_yellow())
    &&& is_rendering(marks, caret_row(identifier, position, line), red())
}

/// Whether `message` reports that nothing declares `identifier`: there are
/// pieces that it is laid out from and that are what such a report is made
/// of. Which pieces come plain and which styled is `colored`'s choice.
pub open spec fn is_undefined_report(
    message: Seq<char>,
    identifier: Seq<char>,
    span: Seq<char>,
    position: nat,
    line: nat,
) -> bool {
    exists|label: Seq<char>, name: Seq<char>, shown: Seq<char>, marks: Seq<char>| #[trigger]
        undefined_pieces(message, label, name, shown, marks, identifier, span, position, line)
}

/// Whether `message` is laid out from the given pieces, and the pieces are what
/// the report of a member used on the undefined `identifier` is made of: a
/// bold red `Error`, the bold name between backticks, the bold yellow source
/// text between backticks, the red row of carets, and the bold cyan
/// suggestion. The label and the carets are renderings for every input; the
/// name, the source text and the suggestion are renderings unless they hold
/// the reset sequence themselves.
pub open spec fn undefined_member_pieces(
    message: Seq<char>,
    label: Seq<char>,
    name: Seq<char>,
    shown: Seq<char>,
    marks: Seq<char>,
    advice: Seq<char>,
    identifier: Seq<char>,
    span: Seq<char>,
    position: nat,
    line: nat,
    suggestion: Seq<char>,
) -> bool {
    &&& message == undefined_member_layout(
        label,
        name,
        at_line_text(line),
        shown,
        marks,
        advice,
    )
    &&& is_rendering(label, "Error"@, bold_red())
    &&& holds_reset(identifier) || is_rendering(name, quoted(identifier), bold())
    &&& holds_reset(span) || is_rendering(shown, quoted(span), bold_yellow())
    &&& is_rendering(marks, caret_row(identifier, position, line), red())
    &&& holds_reset(suggestion) || is_rendering(advice, suggestion, bold_cyan())
}

/// Whether `message` reports that a member of the undefined `identifier` was
/// used: there are pieces that it is laid out from and that are what such a
/// report is made of. Which pieces come plain and which styled is `colored`'s
/// choice.
pub open spec fn is_undefined_member_report(
    message: Seq<char>,
    identifier: Seq<char>,
    span: Seq<char>,
    position: nat,
    line: nat,
    suggestion: Seq<char>,
) -> bool {
    exists|
        label: Seq<char>,
        name: Seq<char>,
        shown: Seq<char>,
        marks: Seq<char>,
        advice: Seq<char>,
    | #[trigger]
        undefined_member_pieces(
            message,
            label,
            name,
            shown,
            marks,
            advice,
            identifier,
            span,
            position,
            line,
            suggestion,
        )
}

/// Whether `part` stands somewhere in `text`, unbroken.
pub open spec fn holds(text: Seq<char>, part: Seq<char>) -> bool {
    exists|at: int|
        0 <= at && at + part.len() <= text.len() && #[trigger] text.subrange(
            at,
            at + part.len(),
        ) == part
}

/// A text holds itself.
pub proof fn lemma_holds_itself(text: Seq<char>)
    ensures
        holds(text, text),
{
    let at = 0int;
    assert(text.subrange(at, at + text.len()) =~= text);
}

/// What stands in a text stands in every text around it.
pub proof fn lemma_holds_within(
    before: Seq<char>,
    middle: Seq<char>,
    after: Seq<char>,
    part: Seq<char>,
)
    requires
        holds(middle, part),
    ensures
        holds(before + middle + after, part),
{
    let at = choose|at: int|
        0 <= at && at + part.len() <= middle.len() && #[trigger] middle.subrange(
            at,
            at + part.len(),
        ) == part;
    let whole = before + middle + after;
    let outer = before.len() + at;
    assert(whole.subrange(outer, outer + part.len()) =~= middle.subrange(at, at + part.len()));
}

/// A rendering of a text holds whatever the text holds.
pub proof fn lemma_rendering_holds(
    painted: Seq<char>,
    text: Seq<char>,
    codes: Seq<char>,
    part: Seq<char>,
)
    requires
        is_rendering(painted, text, codes),
        holds(text, part),
    ensures
        holds(painted, part),
{
    if painted != text {
        lemma_holds_within(seq![escape(), '['] + codes + seq!['m'], text, reset(), part);
    }
}

/// A text between backticks holds the text.
pub proof fn lemma_quoted_holds(text: Seq<char>)
    ensures
        holds(quoted(text), text),
{
    lemma_holds_itself(text);
    lemma_holds_within("`"@, text, "`"@, text);
}

/// A row of carets holds its carets, one for each character of the name.
pub proof fn lemma_caret_row_holds(identifier: Seq<char>, position: nat, line: nat)
    ensures
        holds(caret_row(identifier, position, line), repeated("^"@, identifier.len())),
{
    let blanks = repeated(" "@, position + at_line_text(line).len() + 1);
    let carets = repeated("^"@, identifier.len());
    lemma_holds_itself(carets);
    lemma_holds_within(blanks, carets, Seq::empty(), carets);
    assert(blanks + carets + Seq::<char>::empty() =~= caret_row(identifier, position, line));
}

/// A report that nothing declares a name carries its facts as they were
/// given: the line label with the line in decimal, one caret for each
/// character of the name, and, unless they hold the reset sequence, the name
/// and the source text.
pub proof fn lemma_undefined_report_carries(
    message: Seq<char>,
    identifier: Seq<char>,
    span: Seq<char>,
    position: nat,
    line: nat,
)
    requires
        is_undefined_report(message, identifier, span, position, line),
    ensures
        holds(message, at_line_text(line)),
        holds(message, repeated("^"@, identifier.len())),
        !holds_reset(identifier) ==> holds(message, identifier),
        !holds_reset(span) ==> holds(message, span),
{
    let (label, name, shown, marks) = choose|
        label: Seq<char>,
        name: Seq<char>,
        shown: Seq<char>,
        marks: Seq<char>,
    | #[trigger]
        undefined_pieces(message, label, name, shown, marks, identifier, span, position, line);
    let at_line = at_line_text(line);
    let head = label + ": "@;
    let middle = " is undefined"@ + line_break();
    let carets = repeated("^"@, identifier.len());
    assert(message == head + name + middle + at_line + shown + line_break() + marks) by {
        assert(head + name + middle + at_line + shown + line_break() + marks =~= message);
    }
    assert(holds(message, at_line)) by {
        let after = shown + line_break() + marks;
        lemma_holds_itself(at_line);
        lemma_holds_within(head + name + middle, at_line, after, at_line);
        assert(head + name + middle + at_line + after =~= message);
    }
    assert(holds(message, carets)) by {
        let before = head + name + middle + at_line + shown + line_break();
        lemma_caret_row_holds(identifier, position, line);
        lemma_rendering_holds(marks, caret_row(identifier, position, line), red(), carets);
        lemma_holds_within(before, marks, Seq::empty(), carets);
        assert(before + marks + Seq::<char>::empty() =~= message);
    }
    if !holds_reset(identifier) {
        assert(holds(message, identifier)) by {
            let after = middle + at_line + shown + line_break() + marks;
            lemma_quoted_holds(identifier);
            lemma_rendering_holds(name, quoted(identifier), bold(), identifier);
            lemma_holds_within(head, name, after, identifier);
            assert(head + name + after =~= message);
        }
    }
    if !holds_reset(span) {
        assert(holds(message, span)) by {
            let before = head + name + middle + at_line;
            let after = line_break() + marks;
            lemma_quoted_holds(span);
            lemma_rendering_holds(shown, quoted(span), bold_yellow(), span);
            lemma_holds_within(before, shown, after, span);
            assert(before + shown + after =~= message);
        }
    }
}

/// A report that a member was used on something undefined carries its facts
/// as they were given: the line label with the line in decimal, one caret for
/// each character of the name, and, unless they hold the reset sequence, the
/// name, the source text and the suggestion.
pub proof fn lemma_undefined_member_report_carries(
    message: Seq<char>,
    identifier: Seq<char>,
    span: Seq<char>,
    position: nat,
    line: nat,
    suggestion: Seq<char>,
)
    requires
        is_undefined_member_report(message, identifier, span, position, line, suggestion),
    ensures
        holds(message, at_line_text(line)),
        holds(message, repeated("^"@, identifier.len())),
        !holds_reset(identifier) ==> holds(message, identifier),
        !holds_reset(span) ==> holds(message, span),
        !holds_reset(suggestion) ==> holds(message, suggestion),
{
    let (label, name, shown, marks, advice) = choose|
        label: Seq<char>,
        name: Seq<char>,
        shown: Seq<char>,
        marks: Seq<char>,
        advice: Seq<char>,
    | #[trigger]
        undefined_member_pieces(
            message,
            label,
            name,
            shown,
            marks,
            advice,
            identifier,
            span,
            position,
            line,
            suggestion,
        );
    let at_line = at_line_text(line);
    let head = label + ": Cannot access member of undefined: "@;
    let gap = line_break();
    let carets = repeated("^"@, identifier.len());
    assert(message == head + name + gap + at_line + shown + gap + marks + gap + advice) by {
        assert(head + name + gap + at_line + shown + gap + marks + gap + advice =~= message);
    }
    assert(holds(message, at_line)) by {
        let after = shown + gap + marks + gap + advice;
        lemma_holds_itself(at_line);
        lemma_holds_within(head + name + gap, at_line, after, at_line);
        assert(head + name + gap + at_line + after =~= message);
    }
    assert(holds(message, carets)) by {
        let before = head + name + gap + at_line + shown + gap;
        let after = gap + advice;
        lemma_caret_row_holds(identifier, position, line);
        lemma_rendering_holds(marks, caret_row(identifier, position, line), red(), carets);
        lemma_holds_within(before, marks, after, carets);
        assert(before + marks + after =~= message);
    }
    if !holds_reset(identifier) {
        assert(holds(message, identifier)) by {
            let after = gap + at_line + shown + gap + marks + gap + advice;
            lemma_quoted_holds(identifier);
            lemma_rendering_holds(name, quoted(identifier), bold(), identifier);
            lemma_holds_within(head, name, after, identifier);
            assert(head + name + after =~= message);
        }
    }
    if !holds_reset(span) {
        assert(holds(message, span)) by {
            let before = head + name + gap + at_line;
            let after = gap + marks + gap + advice;
            lemma_quoted_holds(span);
            lemma_rendering_holds(shown, quoted(span), bold_yellow(), span);
            lemma_holds_within(before, shown, after, span);
            assert(before + shown + after =~= message);
        }
    }
    if !holds_reset(suggestion) {
        assert(holds(message, suggestion)) by {
            let before = head + name + gap + at_line + shown + gap + marks + gap;
            lemma_holds_itself(suggestion);
            lemma_rendering_holds(advice, suggestion, bold_cyan(), suggestion);
            lemma_holds_within(before, advice, Seq::empty(), suggestion);
            assert(before + advice + Seq::<char>::empty() =~= message);
        }
    }
}

/// The label `Error` holds no reset sequence.
pub proof fn lemma_label_has_no_reset()
    ensures
        !holds_reset("Error"@),
{
    reveal_strlit("Error");
    lemma_no_escape_no_reset("Error"@);
}

/// A row of carets holds no reset sequence: it is made of blanks and carets.
pub proof fn lemma_caret_row_has_no_reset(identifier: Seq<char>, position: nat, line: nat)
    ensures
        !holds_reset(caret_row(identifier, position, line)),
{
    reveal_strlit(" ");
    reveal_strlit("^");
    let blanks = position + at_line_text(line).len() + 1;
    assert(" "@ =~= seq![' ']);
    assert("^"@ =~= seq!['^']);
    lemma_repeated_char(' ', blanks);
    lemma_repeated_char('^', identifier.len());
    let row = caret_row(identifier, position, line);
    assert forall|i: int| 0 <= i < row.len() implies row[i] != escape() by {
        if i < blanks {
            assert(row[i] == repeated(seq![' '], blanks)[i]);
        } else {
            assert(row[i] == repeated(seq!['^'], identifier.len())[i - blanks]);
        }
    }
    lemma_no_escape_no_reset(row);
}

/// `text` between backticks.
pub fn quote(text: &str) -> (wrapped: String)
    ensures
        wrapped@ == quoted(text@),
{
    let mut wrapped = "`".to_owned();
    wrapped.append(text);
    wrapped.append("`");
    wrapped
}

/// The label of a line.
pub fn at_line(line: usize) -> (label: String)
    ensures
        label@ == at_line_text(line as nat),
{
    let mut label = "At: ".to_owned();
    label.append(decimal_text(line).as_str());
    label.append(" | ");
    label
}

/// The row of carets under the name.
pub fn highlight(identifier: &str, position: usize, line: usize) -> (row: String)
    ensures
        row@ == caret_row(identifier@, position as nat, line as nat),
{
    let label = at_line(line);
    let mut row = String::new();
    append_repeated(&mut row, " ", position);
    append_repeated(&mut row, " ", label.as_str().unicode_len());
    append_repeated(&mut row, " ", 1);
    proof {
        let width = at_line_text(line as nat).len();
        lemma_repeated_add(" "@, position as nat, width);
        lemma_repeated_add(" "@, position as nat + width, 1);
        assert(row@ =~= repeated(" "@, position as nat + width + 1));
    }
    append_repeated(&mut row, "^", identifier.unicode_len());
    row
}

/// Lays out the message for a name that nothing declares from its pieces.
pub fn compose_undefined(
    label: &str,
    name: &str,
    at_line: &str,
    span: &str,
    marks: &str,
) -> (message: String)
    ensures
        message@ == undefined_layout(label@, name@, at_line@, span@, marks@),
{
    let mut message = label.to_owned();
    message.append(": ");
    message.append(name);
    message.append(" is undefined");
    message.append("\n        ");
    message.append(at_line);
    message.append(span);
    message.append("\n        ");
    message.append(marks);
    message
}

/// Lays out the message for a member of something undefined from its pieces.
pub fn compose_undefined_member(
    label: &str,
    name: &str,
    at_line: &str,
    span: &str,
    marks: &str,
    advice: &str,
) -> (message: String)
    ensures
        message@ == undefined_member_layout(label@, name@, at_line@, span@, marks@, advice@),
{
    let mut message = label.to_owned();
    message.append(": Cannot access member of undefined: ");
    message.append(name);
    message.append("\n        ");
    message.append(at_line);
    message.append(span);
    message.append("\n        ");
    message.append(marks);
    message.append("\n        ");
    message.append(advice);
    message
}

/// The message for a member used on `identifier`, which is not defined.
/// `span_str` is the offending source text, `position` the column the carets
/// start from, `line` the 1-based line, `suggestion` the advice that ends the
/// message.
pub fn throw_undefined_class_error(
    identifier: &str,
    span_str: &str,
    position: usize,
    line: usize,
    suggestion: &str,
) -> (message: String)
    ensures
        is_undefined_member_report(
            message@,
            identifier@,
            span_str@,
            position as nat,
            line as nat,
            suggestion@,
        ),
        holds(message@, at_line_text(line as nat)),
        holds(message@, repeated("^"@, identifier@.len())),
        !holds_reset(identifier@) ==> holds(message@, identifier@),
        !holds_reset(span_str@) ==> holds(message@, span_str@),
        !holds_reset(suggestion@) ==> holds(message@, suggestion@),
{
    let label = paint_bold_red("Error");
    let name = paint_bold(quote(identifier).as_str());
    let shown = paint_bold_yellow(quote(span_str).as_str());
    let marks = paint_red(highlight(identifier, position, line).as_str());
    let advice = paint_bold_cyan(suggestion);
    proof {
        lemma_label_has_no_reset();
        lemma_quoted_holds_reset(identifier@);
        lemma_quoted_holds_reset(span_str@);
        lemma_caret_row_has_no_reset(identifier@, position as nat, line as nat);
    }
    let message = compose_undefined_member(
        label.as_str(),
        name.as_str(),
        at_line(line).as_str(),
        shown.as_str(),
        marks.as_str(),
        advice.as_str(),
    );
    proof {
        assert(undefined_member_pieces(
            message@,
            label@,
            name@,
            shown@,
            marks@,
            advice@,
            identifier@,
            span_str@,
            position as nat,
            line as nat,
            suggestion@,
        ));
        lemma_undefined_member_report_carries(
            message@,
            identifier@,
            span_str@,
            position as nat,
            line as nat,
            suggestion@,
        );
    }
    message
}

/// The message for `identifier`, which nothing declares. `span_str` is the
/// offending source text, `position` the column the carets start from, `line`
/// the 1-based line.
pub fn throw_undefined(
    identifier: &str,
    span_str: &str,
    position: usize,
    line: usize,
) -> (message: String)
    ensures
        is_undefined_report(message@, identifier@, span_str@, position as nat, line as nat),
        holds(message@, at_line_text(line as nat)),
        holds(message@, repeated("^"@, identifier@.len())),
        !holds_reset(identifier@) ==> holds(message@, identifier@),
        !holds_reset(span_str@) ==> holds(message@, span_str@),
{
    let label = paint_bold_red("Error");
    let name = paint_bold(quote(identifier).as_str());
    let shown = paint_bold_yellow(quote(span_str).as_str());
    let marks = paint_red(highlight(identifier, position, line).as_str());
    proof {
        lemma_label_has_no_reset();
        lemma_quoted_holds_reset(identifier@);
        lemma_quoted_holds_reset(span_str@);
        lemma_caret_row_has_no_reset(identifier@, position as nat, line as nat);
    }
    let message = compose_undefined(
        label.as_str(),
        name.as_str(),
        at_line(line).as_str(),
        shown.as_str(),
        marks.as_str(),
    );
    proof {
        assert(undefined_pieces(
            message@,
            label@,
            name@,
            shown@,
            marks@,
            identifier@,
            span_str@,
            position as nat,
            line as nat,
        ));
        lemma_undefined_report_carries(
            message@,
            identifier@,
            span_str@,
            position as nat,
            line as nat,
        );
    }
    message
}

} // verus!
