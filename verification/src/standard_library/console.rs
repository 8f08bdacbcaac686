//! The console module: `print` and `println`.
//!
//! Both turn their arguments into text, in order. They write nothing
//! themselves: they return the text, and with it the fault that stopped them,
//! if one did. What came before the fault is still to be written.
//!
//! An argument is a literal, which gives its text, or a name, which gives the
//! text of the literal that the first variable of that name was declared
//! with. One pair of double quotes around the text is dropped. Any other
//! argument is a construct that is not carried out yet.
use vstd::prelude::*;
use vstd::string::*;
use crate::scope::lookup_of;
use crate::structure::{
    arguments_view, lemma_arguments_view, Argument, ArgumentKind, ArgumentView, ExecutionContext,
    Expression, ExpressionKind, ExpressionView, UnaryExpressionKind, VarDeclarationView,
};
use crate::text::{strip_quotes, without_quotes};

verus! {

/// Why an argument has no text.
#[derive(Debug, PartialEq, Eq)]
pub enum Fault {
    /// Nothing in scope declares the name.
    UndefinedIdentifier { identifier: String },
    /// The argument, or the value of the variable it names, is not a literal
    /// or a name.
    UnimplementedConstruct,
}

/// What a [`Fault`] holds, as mathematical values.
pub enum FaultView {
    UndefinedIdentifier { identifier: Seq<char> },
    UnimplementedConstruct,
}

impl View for Fault {
    type V = FaultView;

    open spec fn view(&self) -> FaultView {
        match *self {
            Fault::UndefinedIdentifier { identifier } => FaultView::UndefinedIdentifier {
                identifier: identifier@,
            },
            Fault::UnimplementedConstruct => FaultView::UnimplementedConstruct,
        }
    }
}

impl Clone for Fault {
    /// A copy with the same view.
    fn clone(&self) -> (copy: Fault)
        ensures
            copy@ == self@,
    {
        match self {
            Fault::UndefinedIdentifier { identifier } => Fault::UndefinedIdentifier {
                identifier: identifier.clone(),
            },
            Fault::UnimplementedConstruct => Fault::UnimplementedConstruct,
        }
    }
}

/// What a call of `print` or `println` gives: the text to write, and the
/// fault that ended the call early, if any.
#[derive(Debug, PartialEq, Eq)]
pub struct Printed {
    pub text: String,
    pub fault: Option<Fault>,
}

/// What a [`Printed`] holds, as mathematical values.
pub struct PrintedView {
    pub text: Seq<char>,
    pub fault: Option<FaultView>,
}

impl View for Printed {
    type V = PrintedView;

    open spec fn view(&self) -> PrintedView {
        PrintedView {
            text: self.text@,
            fault: match self.fault {
                Some(fault) => Some(fault@),
                None => None,
            },
        }
    }
}

impl Clone for Printed {
    /// A copy with the same view.
    fn clone(&self) -> (copy: Printed)
        ensures
            copy@ == self@,
    {
        Printed {
            text: self.text.clone(),
            fault: match &self.fault {
                Some(fault) => Some(fault.clone()),
                None => None,
            },
        }
    }
}

/// The text of the value that a variable was declared with: the source text of
/// a literal or a name, without the quotes around it.
pub open spec fn definition_text(definition: ExpressionView) -> Result<Seq<char>, FaultView> {
    match (definition.expression_kind, definition.unary_expression) {
        (ExpressionKind::Unary, Some(unary)) => match (unary.kind, unary.string_value) {
            (UnaryExpressionKind::Literal, Some(raw)) => Ok(strip_quotes(raw)),
            (UnaryExpressionKind::Identifier, Some(raw)) => Ok(strip_quotes(raw)),
            _ => Err(FaultView::UnimplementedConstruct),
        },
        _ => Err(FaultView::UnimplementedConstruct),
    }
}

/// The text that a name stands for: the text of the value of the first
/// variable declared under it. A name that nothing declares is a fault, and
/// so is a variable without a value.
pub open spec fn variable_text(name: Seq<char>, variables: Seq<VarDeclarationView>) -> Result<
    Seq<char>,
    FaultView,
> {
    match lookup_of(variables, name) {
        None => Err(FaultView::UndefinedIdentifier { identifier: name }),
        Some(variable) => match variable.definition {
            Some(definition) => definition_text(definition),
            None => Err(FaultView::UnimplementedConstruct),
        },
    }
}

/// The text of an expression: a literal gives its source text without the
/// quotes around it, a name gives what it stands for.
pub open spec fn expression_text(
    expression: ExpressionView,
    variables: Seq<VarDeclarationView>,
) -> Result<Seq<char>, FaultView> {
    match (expression.expression_kind, expression.unary_expression) {
        (ExpressionKind::Unary, Some(unary)) => match (unary.kind, unary.string_value) {
            (UnaryExpressionKind::Literal, Some(raw)) => Ok(strip_quotes(raw)),
            (UnaryExpressionKind::Identifier, Some(name)) => variable_text(name, variables),
            _ => Err(FaultView::UnimplementedConstruct),
        },
        _ => Err(FaultView::UnimplementedConstruct),
    }
}

/// The text of one argument.
pub open spec fn argument_text(
    argument: ArgumentView,
    variables: Seq<VarDeclarationView>,
) -> Result<Seq<char>, FaultView> {
    match (argument.argument_kind, argument.identifier, argument.expression) {
        (ArgumentKind::Identifier, Some(name), _) => variable_text(name, variables),
        (ArgumentKind::Expression, _, Some(expression)) => expression_text(expression, variables),
        _ => Err(FaultView::UnimplementedConstruct),
    }
}

/// What the first `count` arguments give: their texts in order, each followed
/// by `terminator`. The first argument with a fault ends it: the text of those
/// before it stays, and nothing after it is looked at.
pub open spec fn printed_upto(
    arguments: Seq<ArgumentView>,
    variables: Seq<VarDeclarationView>,
    terminator: Seq<char>,
    count: int,
) -> PrintedView
    decreases count,
{
    if count <= 0 || count > arguments.len() {
        PrintedView { text: Seq::empty(), fault: None }
    } else {
        let before = printed_upto(arguments, variables, terminator, count - 1);
        match before.fault {
            Some(_) => before,
            None => match argument_text(arguments[count - 1], variables) {
                Ok(text) => PrintedView { text: before.text + text + terminator, fault: None },
                Err(fault) => PrintedView { text: before.text, fault: Some(fault) },
            },
        }
    }
}

/// What `print` gives: the texts of the arguments, one after the other with
/// nothing between them.
pub open spec fn print_of(
    arguments: Seq<ArgumentView>,
    variables: Seq<VarDeclarationView>,
) -> PrintedView {
    printed_upto(arguments, variables, Seq::empty(), arguments.len() as int)
}

/// What `println` gives: the texts of the arguments, each followed by one line
/// break.
pub open spec fn println_of(
    arguments: Seq<ArgumentView>,
    variables: Seq<VarDeclarationView>,
) -> PrintedView {
    printed_upto(arguments, variables, "\n"@, arguments.len() as int)
}

/// A result of text or fault, with both replaced by their views.
pub open spec fn solved(result: Result<String, Fault>) -> Result<Seq<char>, FaultView> {
    match result {
        Ok(text) => Ok(text@),
        Err(fault) => Err(fault@),
    }
}

/// The text of the value that a variable was declared with.
fn solve_definition(definition: &Expression) -> (result: Result<String, Fault>)
    ensures
        solved(result) == definition_text(definition@),
{
    match definition.expression_kind {
        ExpressionKind::Unary => match &definition.unary_expression {
            Some(unary) => match unary.kind {
                UnaryExpressionKind::Literal | UnaryExpressionKind::Identifier => {
                    match &unary.string_value {
                        Some(raw) => Ok(without_quotes(raw.as_str())),
                        None => Err(Fault::UnimplementedConstruct),
                    }
                },
                _ => Err(Fault::UnimplementedConstruct),
            },
            None => Err(Fault::UnimplementedConstruct),
        },
        _ => Err(Fault::UnimplementedConstruct),
    }
}

/// The text that a name stands for in a scope.
pub fn solve_identifier(name: &str, execution_context: &ExecutionContext) -> (result: Result<
    String,
    Fault,
>)
    ensures
        solved(result) == variable_text(name@, execution_context@.scoped_variables),
{
    match execution_context.lookup(name) {
        None => Err(Fault::UndefinedIdentifier { identifier: name.to_owned() }),
        Some(variable) => match &variable.definition {
            Some(definition) => solve_definition(definition),
            None => Err(Fault::UnimplementedConstruct),
        },
    }
}

/// The text of an expression in a scope.
pub fn solve_expression(
    expression: &Expression,
    execution_context: &ExecutionContext,
) -> (result: Result<String, Fault>)
    ensures
        solved(result) == expression_text(expression@, execution_context@.scoped_variables),
{
    match expression.expression_kind {
        ExpressionKind::Unary => match &expression.unary_expression {
            Some(unary) => match unary.kind {
                UnaryExpressionKind::Literal => match &unary.string_value {
                    Some(raw) => Ok(without_quotes(raw.as_str())),
                    None => Err(Fault::UnimplementedConstruct),
                },
                UnaryExpressionKind::Identifier => match &unary.string_value {
                    Some(name) => solve_identifier(name.as_str(), execution_context),
                    None => Err(Fault::UnimplementedConstruct),
                },
                _ => Err(Fault::UnimplementedConstruct),
            },
            None => Err(Fault::UnimplementedConstruct),
        },
        _ => Err(Fault::UnimplementedConstruct),
    }
}

/// The text of one argument in a scope.
pub fn solve_argument(argument: &Argument, execution_context: &ExecutionContext) -> (result: Result<
    String,
    Fault,
>)
    ensures
        solved(result) == argument_text(argument@, execution_context@.scoped_variables),
{
    match argument.argument_kind {
        ArgumentKind::Identifier => match &argument.identifier {
            Some(name) => solve_identifier(name.as_str(), execution_context),
            None => Err(Fault::UnimplementedConstruct),
        },
        ArgumentKind::Expression => match &argument.expression {
            Some(expression) => solve_expression(expression, execution_context),
            None => Err(Fault::UnimplementedConstruct),
        },
    }
}

/// The texts of the arguments in order, each followed by `terminator`.
fn print_each(
    arguments: &Vec<Argument>,
    execution_context: &ExecutionContext,
    terminator: &str,
) -> (printed: Printed)
    ensures
        printed@ == printed_upto(
            arguments_view(arguments@),
            execution_context@.scoped_variables,
            terminator@,
            arguments@.len() as int,
        ),
{
    let ghost views = arguments_view(arguments@);
    let ghost variables = execution_context@.scoped_variables;
    proof {
        lemma_arguments_view(arguments@);
    }
    let mut text = String::new();
    let mut i: usize = 0;
    while i < arguments.len()
        invariant
            i <= arguments@.len(),
            views == arguments_view(arguments@),
            views.len() == arguments@.len(),
            forall|j: int| 0 <= j < arguments@.len() ==> views[j] == arguments@[j]@,
            variables == execution_context@.scoped_variables,
            printed_upto(views, variables, terminator@, i as int) == (PrintedView {
                text: text@,
                fault: None,
            }),
        decreases arguments@.len() - i,
    {
        match solve_argument(&arguments[i], execution_context) {
            Ok(piece) => {
                text.append(piece.as_str());
                text.append(terminator);
            },
            Err(fault) => {
                let printed = Printed { text, fault: Some(fault) };
                proof {
                    assert(printed@ == printed_upto(views, variables, terminator@, i as int + 1));
                    lemma_printed_upto_stops(
                        views,
                        variables,
                        terminator@,
                        i as int + 1,
                        views.len() as int,
                    );
                }
                return printed;
            },
        }
        i += 1;
    }
    Printed { text, fault: None }
}

/// Once a fault has ended the printing among the first `count` arguments, more
/// arguments change nothing.
pub proof fn lemma_printed_upto_stops(
    arguments: Seq<ArgumentView>,
    variables: Seq<VarDeclarationView>,
    terminator: Seq<char>,
    count: int,
    more: int,
)
    requires
        0 <= count <= more <= arguments.len(),
        printed_upto(arguments, variables, terminator, count).fault.is_some(),
    ensures
        printed_upto(arguments, variables, terminator, more) == printed_upto(
            arguments,
            variables,
            terminator,
            count,
        ),
    decreases more - count,
{
    if count < more {
        lemma_printed_upto_stops(arguments, variables, terminator, count, more - 1);
    }
}

/// `println` of a name whose first declaration gives it a literal writes the
/// literal's text without the quotes around it, and one line break.
pub proof fn lemma_println_of_declared_name(
    name: Seq<char>,
    raw: Seq<char>,
    variables: Seq<VarDeclarationView>,
)
    requires
        match lookup_of(variables, name) {
            Some(variable) => match variable.definition {
                Some(definition) => definition.expression_kind == ExpressionKind::Unary && (
                match definition.unary_expression {
                    Some(unary) => unary.kind == UnaryExpressionKind::Literal
                        && unary.string_value == Some(raw),
                    None => false,
                }),
                None => false,
            },
            None => false,
        },
    ensures
        println_of(
            seq![
                ArgumentView {
                    argument_kind: ArgumentKind::Identifier,
                    expression: None,
                    identifier: Some(name),
                },
            ],
            variables,
        ) == (PrintedView { text: strip_quotes(raw) + "\n"@, fault: None }),
{
    reveal_with_fuel(printed_upto, 2);
    assert(Seq::<char>::empty() + strip_quotes(raw) + "\n"@ =~= strip_quotes(raw) + "\n"@);
}

/// `print` and `println` of a name that nothing declares write nothing and
/// give the fault that names it.
pub proof fn lemma_print_of_undeclared_name(
    name: Seq<char>,
    variables: Seq<VarDeclarationView>,
    terminator: Seq<char>,
)
    requires
        lookup_of(variables, name).is_none(),
    ensures
        printed_upto(
            seq![
                ArgumentView {
                    argument_kind: ArgumentKind::Identifier,
                    expression: None,
                    identifier: Some(name),
                },
            ],
            variables,
            terminator,
            1,
        ) == (PrintedView {
            text: Seq::empty(),
            fault: Some(FaultView::UndefinedIdentifier { identifier: name }),
        }),
{
    reveal_with_fuel(printed_upto, 2);
}

/// Printing two lists of arguments one after the other is printing the second
/// list after the first: the text of the first comes first, unchanged, and the
/// text of the second follows it with nothing between them. Where the first
/// list has a fault, the second is not looked at.
pub proof fn lemma_printed_in_sequence(
    first: Seq<ArgumentView>,
    second: Seq<ArgumentView>,
    variables: Seq<VarDeclarationView>,
    terminator: Seq<char>,
    count: int,
)
    requires
        0 <= count <= second.len(),
    ensures
        printed_upto(first + second, variables, terminator, first.len() + count) == ({
            let before = printed_upto(first, variables, terminator, first.len() as int);
            if before.fault.is_some() {
                before
            } else {
                let after = printed_upto(second, variables, terminator, count);
                PrintedView { text: before.text + after.text, fault: after.fault }
            }
        }),
    decreases count,
{
    let both = first + second;
    let before = printed_upto(first, variables, terminator, first.len() as int);
    if count == 0 {
        lemma_printed_prefix(first, both, variables, terminator, first.len() as int);
        assert(before.text + Seq::<char>::empty() =~= before.text);
    } else {
        lemma_printed_in_sequence(first, second, variables, terminator, count - 1);
        assert(both[first.len() + count - 1] == second[count - 1]);
        if before.fault.is_none() {
            let after = printed_upto(second, variables, terminator, count - 1);
            if after.fault.is_none() {
                match argument_text(second[count - 1], variables) {
                    Ok(text) => {
                        assert((before.text + after.text) + text + terminator =~= before.text + (
                        after.text + text + terminator));
                    },
                    Err(_) => {},
                }
            }
        }
    }
}

/// Printing the first `count` arguments looks at no argument after them.
pub proof fn lemma_printed_prefix(
    arguments: Seq<ArgumentView>,
    longer: Seq<ArgumentView>,
    variables: Seq<VarDeclarationView>,
    terminator: Seq<char>,
    count: int,
)
    requires
        0 <= count <= arguments.len() <= longer.len(),
        forall|i: int| 0 <= i < arguments.len() ==> arguments[i] == longer[i],
    ensures
        printed_upto(arguments, variables, terminator, count) == printed_upto(
            longer,
            variables,
            terminator,
            count,
        ),
    decreases count,
{
    if count > 0 {
        lemma_printed_prefix(arguments, longer, variables, terminator, count - 1);
    }
}

/// The console.
#[derive(Clone, Copy, Debug, PartialEq, Eq)]
pub struct ConsoleModule {}

impl ConsoleModule {
    /// The text that `print` writes for the given arguments: their texts, one
    /// after the other, with nothing added.
    pub fn print(
        arguments: Vec<Argument>,
        execution_context: &ExecutionContext,
    ) -> (printed: Printed)
        ensures
            printed@ == print_of(arguments_view(arguments@), execution_context@.scoped_variables),
    {
        proof {
            lemma_arguments_view(arguments@);
        }
        let printed = print_each(&arguments, execution_context, "");
        proof {
            reveal_strlit("");
            assert(""@ =~= Seq::<char>::empty());
        }
        printed
    }

    /// The text that `println` writes for the given arguments: the text of
    /// each, followed by one line break.
    pub fn println(
        arguments: Vec<Argument>,
        execution_context: &ExecutionContext,
    ) -> (printed: Printed)
        ensures
            printed@ == println_of(
                arguments_view(arguments@),
                execution_context@.scoped_variables,
            ),
    {
        proof {
            lemma_arguments_view(arguments@);
        }
        print_each(&arguments, execution_context, "\n")
    }
}

} // verus!
