//! The walk over a program: one step for each top-level parse event.
//!
//! A step takes the state of the walk and one event, and gives the state after
//! it, the text that the event writes, and the diagnostic that stops the walk,
//! if there is one. Imports fill the module set, declarations of variables
//! fill the global scope, a line break advances the line counter, and a member
//! access on the console module calls `print` or `println`. Nothing is written
//! here: the caller writes the text of each step and stops at the first
//! diagnostic.
use vstd::prelude::*;
use vstd::string::*;
use crate::errors::{Diagnostic, DiagnosticView, GrammarViolation};
use crate::event::{events_view, ParseEvent, ParseEventView, Rule};
use crate::handlers::{
    args_list_of, binary_of, declaration_of, expression_of, function_call_of, handle_args_list,
    handle_binary_expression, handle_declaration, handle_expression, handle_function_call,
    handle_import_stmt, handle_member_access, handle_unary_expression, handle_var_declaration,
    import_of, member_access_of, unary_of, var_declaration_of,
};
use crate::scope::has_module;
use crate::standard_library::console::{
    print_of, println_of, ConsoleModule, Fault, FaultView, Printed, PrintedView,
};
use crate::structure::{
    DeclarationKind, ExecutionContext, ExecutionContextView, ImportedModules, ImportedModulesView,
    MemberAccess, MemberAccessView,
};

verus! {

/// The state of a walk: what has been imported, what has been declared, and
/// the line that the walk has reached, counted from 1.
#[derive(Debug, PartialEq, Eq)]
pub struct Session {
    pub imported_modules: ImportedModules,
    pub global_execution_context: ExecutionContext,
    pub line: usize,
}

/// What a [`Session`] holds, as mathematical values.
pub struct SessionView {
    pub imported_modules: ImportedModulesView,
    pub global_execution_context: ExecutionContextView,
    pub line: nat,
}

impl View for Session {
    type V = SessionView;

    open spec fn view(&self) -> SessionView {
        SessionView {
            imported_modules: self.imported_modules@,
            global_execution_context: self.global_execution_context@,
            line: self.line as nat,
        }
    }
}

impl Clone for Session {
    /// A copy with the same view.
    fn clone(&self) -> (copy: Session)
        ensures
            copy@ == self@,
    {
        Session {
            imported_modules: self.imported_modules.clone(),
            global_execution_context: self.global_execution_context.clone(),
            line: self.line,
        }
    }
}

impl SessionView {
    /// The state before the first event: nothing imported, nothing declared,
    /// line 1.
    pub open spec fn start() -> SessionView {
        SessionView {
            imported_modules: ImportedModulesView::empty(),
            global_execution_context: ExecutionContextView::empty(),
            line: 1,
        }
    }
}

/// What one step gives besides the new state: the text to write and, where
/// the walk has to stop, the reason.
#[derive(Debug, PartialEq, Eq)]
pub struct Step {
    pub output: String,
    pub diagnostic: Option<Diagnostic>,
}

/// What a [`Step`] holds, as mathematical values.
pub struct StepView {
    pub output: Seq<char>,
    pub diagnostic: Option<DiagnosticView>,
}

impl View for Step {
    type V = StepView;

    open spec fn view(&self) -> StepView {
        StepView {
            output: self.output@,
            diagnostic: match self.diagnostic {
                Some(diagnostic) => Some(diagnostic@),
                None => None,
            },
        }
    }
}

impl Clone for Step {
    /// A copy with the same view.
    fn clone(&self) -> (copy: Step)
        ensures
            copy@ == self@,
    {
        Step {
            output: self.output.clone(),
            diagnostic: match &self.diagnostic {
                Some(diagnostic) => Some(diagnostic.clone()),
                None => None,
            },
        }
    }
}

/// The name of the console module.
pub const CONSOLE_NAME: &'static str = "Console";

/// The advice given where the console module is used without its import.
pub const CONSOLE_ADVICE: &'static str =
    "Consider importing this module with `import std.Console;`";

/// The name of the console module, as a sequence of characters.
pub open spec fn console_name() -> Seq<char> {
    CONSOLE_NAME@
}

/// The advice given where the console module is used without its import, as a
/// sequence of characters.
pub open spec fn console_advice() -> Seq<char> {
    CONSOLE_ADVICE@
}

/// A step that writes nothing and stops nothing.
pub open spec fn quiet() -> StepView {
    StepView { output: Seq::empty(), diagnostic: None }
}

/// A step that writes nothing and stops the walk.
pub open spec fn halted(diagnostic: DiagnosticView) -> StepView {
    StepView { output: Seq::empty(), diagnostic: Some(diagnostic) }
}

/// A step that stops the walk on an event of the wrong shape.
pub open spec fn misshapen(violation: GrammarViolation) -> StepView {
    halted(DiagnosticView::GrammarViolation { rule: violation.rule })
}

/// The step of a console call: the text it wrote, and its fault as a
/// diagnostic with the source text of the call and the line.
pub open spec fn console_step(printed: PrintedView, span: Seq<char>, line: nat) -> StepView {
    StepView {
        output: printed.text,
        diagnostic: match printed.fault {
            None => None,
            Some(FaultView::UndefinedIdentifier { identifier }) => Some(
                DiagnosticView::UndefinedIdentifier { identifier, span, line },
            ),
            Some(FaultView::UnimplementedConstruct) => Some(
                DiagnosticView::UnimplementedConstruct { span, line },
            ),
        },
    }
}

/// The step of a member access. Only a member of the console module does
/// anything. It needs the module imported: without the import the step stops
/// the walk, writes nothing, and names the module, the source text, the line
/// and the advice. With it, `print` and `println` give their text; any other
/// member is passed over.
pub open spec fn dispatch_of(
    state: SessionView,
    member: MemberAccessView,
    span: Seq<char>,
) -> StepView {
    if member.parent != console_name() {
        quiet()
    } else if !has_module(state.imported_modules.modules, console_name()) {
        halted(
            DiagnosticView::UndefinedModule {
                identifier: console_name(),
                span,
                line: state.line,
                suggestion: console_advice(),
            },
        )
    } else if member.identifier == "print"@ {
        console_step(
            print_of(member.args_list, state.global_execution_context.scoped_variables),
            span,
            state.line,
        )
    } else if member.identifier == "println"@ {
        console_step(
            println_of(member.args_list, state.global_execution_context.scoped_variables),
            span,
            state.line,
        )
    } else {
        quiet()
    }
}

/// What the step of an event writes, and whether it stops the walk.
/// - An event of the wrong shape stops the walk, whatever its rule builds.
/// - A declaration of anything but a variable stops the walk as a construct
///   that is not carried out.
/// - A member access is dispatched.
/// - Every other event is quiet.
#[verifier::opaque]
pub open spec fn step_of(state: SessionView, event: ParseEventView) -> StepView {
    match event.rule {
        Rule::ImportStmt => match import_of(event) {
            Err(violation) => misshapen(violation),
            Ok(_) => quiet(),
        },
        Rule::Declaration => match declaration_of(event) {
            Err(violation) => misshapen(violation),
            Ok(declaration) => match (declaration.declaration_kind, declaration.var_declaration) {
                (DeclarationKind::Var, Some(_)) => quiet(),
                _ => halted(
                    DiagnosticView::UnimplementedConstruct { span: event.text, line: state.line },
                ),
            },
        },
        Rule::VarDeclaration => match var_declaration_of(event) {
            Err(violation) => misshapen(violation),
            Ok(_) => quiet(),
        },
        Rule::Expression => match expression_of(event) {
            Err(violation) => misshapen(violation),
            Ok(_) => quiet(),
        },
        Rule::UnaryExpression => match unary_of(event) {
            Err(violation) => misshapen(violation),
            Ok(_) => quiet(),
        },
        Rule::BinaryExpression => match binary_of(event) {
            Err(violation) => misshapen(violation),
            Ok(_) => quiet(),
        },
        Rule::FunctionCall => match function_call_of(event) {
            Err(violation) => misshapen(violation),
            Ok(_) => quiet(),
        },
        Rule::ArgList => match args_list_of(event) {
            Err(violation) => misshapen(violation),
            Ok(_) => quiet(),
        },
        Rule::MemberAccess => match member_access_of(event) {
            Err(violation) => misshapen(violation),
            Ok(member) => dispatch_of(state, member, event.text),
        },
        _ => quiet(),
    }
}

/// The state after the step of an event. An import adds its module, a
/// declaration of a variable adds the variable to the global scope, a line
/// break advances the line by one. A step that stops the walk, and every other
/// event, leaves the state as it is.
#[verifier::opaque]
pub open spec fn state_after(state: SessionView, event: ParseEventView) -> SessionView {
    match event.rule {
        Rule::ImportStmt => match import_of(event) {
            Ok(module) => SessionView {
                imported_modules: ImportedModulesView {
                    modules: state.imported_modules.modules.push(module),
                },
                ..state
            },
            Err(_) => state,
        },
        Rule::Declaration => match declaration_of(event) {
            Ok(declaration) => match (declaration.declaration_kind, declaration.var_declaration) {
                (DeclarationKind::Var, Some(variable)) => SessionView {
                    global_execution_context: ExecutionContextView {
                        scoped_variables:
                            state.global_execution_context.scoped_variables.push(variable),
                        ..state.global_execution_context
                    },
                    ..state
                },
                _ => state,
            },
            Err(_) => state,
        },
        Rule::VarDeclaration => match var_declaration_of(event) {
            Ok(variable) => SessionView {
                global_execution_context: ExecutionContextView {
                    scoped_variables: state.global_execution_context.scoped_variables.push(
                        variable,
                    ),
                    ..state.global_execution_context
                },
                ..state
            },
            Err(_) => state,
        },
        Rule::NewLine => SessionView { line: state.line + 1, ..state },
        _ => state,
    }
}

/// The state and the outcome after the first `count` events of a walk that
/// starts in `state`. The texts of the steps follow one another with nothing
/// between them. The first step that stops the walk ends it: its diagnostic is
/// the outcome's, and no later event is looked at.
pub open spec fn walk_upto(state: SessionView, events: Seq<ParseEventView>, count: int) -> (
    SessionView,
    StepView,
)
    decreases count,
{
    if count <= 0 || count > events.len() {
        (state, quiet())
    } else {
        let (reached, before) = walk_upto(state, events, count - 1);
        if before.diagnostic.is_some() {
            (reached, before)
        } else {
            let step = step_of(reached, events[count - 1]);
            (
                state_after(reached, events[count - 1]),
                StepView { output: before.output + step.output, diagnostic: step.diagnostic },
            )
        }
    }
}

/// The state and the outcome after a walk over all of `events`.
pub open spec fn walk_of(state: SessionView, events: Seq<ParseEventView>) -> (
    SessionView,
    StepView,
) {
    walk_upto(state, events, events.len() as int)
}

/// What running a program gives: the outcome of a walk over the children of
/// the program event, from the start state.
pub open spec fn run_of(program: ParseEventView) -> StepView {
    walk_of(SessionView::start(), program.children).1
}

/// The number of line breaks among the first `count` events.
pub open spec fn line_breaks(events: Seq<ParseEventView>, count: int) -> nat
    decreases count,
{
    if count <= 0 || count > events.len() {
        0
    } else if events[count - 1].rule == Rule::NewLine {
        line_breaks(events, count - 1) + 1
    } else {
        line_breaks(events, count - 1)
    }
}

/// A step moves the line by one on a line break and not at all otherwise.
pub proof fn lemma_step_line(state: SessionView, event: ParseEventView)
    ensures
        state_after(state, event).line == state.line + (if event.rule == Rule::NewLine {
            1nat
        } else {
            0nat
        }),
{
    reveal(state_after);
}

/// The line counter counts line breaks: a walk that nothing stops ends on the
/// line it started on plus the number of line breaks it passed. So a walk from
/// the start state is on line 1 until the first line break.
pub proof fn lemma_walk_counts_lines(state: SessionView, events: Seq<ParseEventView>, count: int)
    requires
        0 <= count <= events.len(),
    ensures
        walk_upto(state, events, count).1.diagnostic.is_none() ==> walk_upto(
            state,
            events,
            count,
        ).0.line == state.line + line_breaks(events, count),
        walk_upto(state, events, count).0.line <= state.line + count,
    decreases count,
{
    if count > 0 {
        lemma_walk_counts_lines(state, events, count - 1);
        let (reached, before) = walk_upto(state, events, count - 1);
        lemma_step_line(reached, events[count - 1]);
    }
}

/// Once a walk has stopped, more events change nothing.
pub proof fn lemma_walk_stops(
    state: SessionView,
    events: Seq<ParseEventView>,
    count: int,
    more: int,
)
    requires
        0 <= count <= more <= events.len(),
        walk_upto(state, events, count).1.diagnostic.is_some(),
    ensures
        walk_upto(state, events, more) == walk_upto(state, events, count),
    decreases more - count,
{
    if count < more {
        lemma_walk_stops(state, events, count, more - 1);
    }
}

/// A walk over the first `count` events looks at no event after them.
pub proof fn lemma_walk_prefix(
    state: SessionView,
    events: Seq<ParseEventView>,
    longer: Seq<ParseEventView>,
    count: int,
)
    requires
        0 <= count <= events.len() <= longer.len(),
        forall|i: int| 0 <= i < events.len() ==> events[i] == longer[i],
    ensures
        walk_upto(state, events, count) == walk_upto(state, longer, count),
    decreases count,
{
    if count > 0 {
        lemma_walk_prefix(state, events, longer, count - 1);
    }
}

/// Walking over two lists of events one after the other is walking over the
/// second list from the state that the first list leaves: the text of the
/// first walk comes first, unchanged, and the text of the second follows it
/// with nothing between them. Where the first walk stops, the second does not
/// happen.
pub proof fn lemma_walk_in_sequence(
    state: SessionView,
    first: Seq<ParseEventView>,
    second: Seq<ParseEventView>,
    count: int,
)
    requires
        0 <= count <= second.len(),
    ensures
        walk_upto(state, first + second, first.len() + count) == ({
            let (reached, before) = walk_of(state, first);
            if before.diagnostic.is_some() {
                (reached, before)
            } else {
                let (end, after) = walk_upto(reached, second, count);
                (
                    end,
                    StepView { output: before.output + after.output, diagnostic: after.diagnostic },
                )
            }
        }),
    decreases count,
{
    let both = first + second;
    let (reached, before) = walk_of(state, first);
    if count == 0 {
        lemma_walk_prefix(state, first, both, first.len() as int);
        assert(before.output + quiet().output =~= before.output);
    } else {
        lemma_walk_in_sequence(state, first, second, count - 1);
        assert(both[first.len() + count - 1] == second[count - 1]);
        if before.diagnostic.is_none() {
            let (end, after) = walk_upto(reached, second, count - 1);
            if after.diagnostic.is_none() {
                let step = step_of(end, second[count - 1]);
                assert((before.output + after.output) + step.output =~= before.output + (
                after.output + step.output));
            }
        }
    }
}

/// Without its import, every use of the console stops the walk and writes
/// nothing: the diagnostic names the module, the source text of the use, the
/// line that the walk is on, and the advice. The state stays as it is.
pub proof fn lemma_console_needs_import(state: SessionView, event: ParseEventView)
    requires
        event.rule == Rule::MemberAccess,
        match member_access_of(event) {
            Ok(member) => member.parent == console_name(),
            Err(_) => false,
        },
        !has_module(state.imported_modules.modules, console_name()),
    ensures
        step_of(state, event) == halted(
            DiagnosticView::UndefinedModule {
                identifier: console_name(),
                span: event.text,
                line: state.line,
                suggestion: console_advice(),
            },
        ),
        state_after(state, event) == state,
{
    reveal(step_of);
    reveal(state_after);
}

/// With its import, a call of `print` or `println` on the console writes what
/// the console gives for the arguments in the global scope, and a fault of the
/// console stops the walk with the source text of the call and the line that
/// the walk is on. The state stays as it is.
pub proof fn lemma_console_call(state: SessionView, event: ParseEventView)
    requires
        event.rule == Rule::MemberAccess,
        match member_access_of(event) {
            Ok(member) => member.parent == console_name(),
            Err(_) => false,
        },
        has_module(state.imported_modules.modules, console_name()),
    ensures
        match member_access_of(event) {
            Ok(member) => {
                let variables = state.global_execution_context.scoped_variables;
                step_of(state, event) == if member.identifier == "print"@ {
                    console_step(print_of(member.args_list, variables), event.text, state.line)
                } else if member.identifier == "println"@ {
                    console_step(println_of(member.args_list, variables), event.text, state.line)
                } else {
                    quiet()
                }
            },
            Err(_) => false,
        },
        state_after(state, event) == state,
{
    reveal(step_of);
    reveal(state_after);
}

/// A step that writes nothing and stops nothing.
fn quiet_step() -> (step: Step)
    ensures
        step@ == quiet(),
{
    Step { output: String::new(), diagnostic: None }
}

/// A step that stops the walk on an event of the wrong shape.
fn misshapen_step(violation: GrammarViolation) -> (step: Step)
    ensures
        step@ == misshapen(violation),
{
    Step {
        output: String::new(),
        diagnostic: Some(Diagnostic::GrammarViolation { rule: violation.rule }),
    }
}

/// The step of a console call.
fn step_of_printed(printed: Printed, span: &str, line: usize) -> (step: Step)
    ensures
        step@ == console_step(printed@, span@, line as nat),
{
    let Printed { text, fault } = printed;
    let diagnostic = match fault {
        None => None,
        Some(Fault::UndefinedIdentifier { identifier }) => Some(
            Diagnostic::UndefinedIdentifier { identifier, span: span.to_owned(), line },
        ),
        Some(Fault::UnimplementedConstruct) => Some(
            Diagnostic::UnimplementedConstruct { span: span.to_owned(), line },
        ),
    };
    Step { output: text, diagnostic }
}

impl Session {
    /// The state before the first event.
    pub fn new() -> (session: Session)
        ensures
            session@ == SessionView::start(),
    {
        Session {
            imported_modules: ImportedModules::default(),
            global_execution_context: ExecutionContext::default(),
            line: 1,
        }
    }

    /// Dispatches a member access whose source text is `span`.
    pub fn dispatch(&self, member: MemberAccess, span: &str) -> (step: Step)
        ensures
            step@ == dispatch_of(self@, member@, span@),
    {
        if member.parent != CONSOLE_NAME.to_owned() {
            return quiet_step();
        }
        if !self.imported_modules.contains(CONSOLE_NAME) {
            return Step {
                output: String::new(),
                diagnostic: Some(
                    Diagnostic::UndefinedModule {
                        identifier: CONSOLE_NAME.to_owned(),
                        span: span.to_owned(),
                        line: self.line,
                        suggestion: CONSOLE_ADVICE.to_owned(),
                    },
                ),
            };
        }
        let MemberAccess { parent: _, identifier, kind: _, args_list, type_arguments: _ } = member;
        if identifier == "print".to_owned() {
            step_of_printed(
                ConsoleModule::print(args_list, &self.global_execution_context),
                span,
                self.line,
            )
        } else if identifier == "println".to_owned() {
            step_of_printed(
                ConsoleModule::println(args_list, &self.global_execution_context),
                span,
                self.line,
            )
        } else {
            quiet_step()
        }
    }

    /// Walks over `events` in order, up to the first step that stops the
    /// walk. The line counter has to have room for one line break per event.
    pub fn walk(&mut self, events: &Vec<ParseEvent>) -> (outcome: Step)
        requires
            old(self).line + events@.len() <= usize::MAX,
        ensures
            (final(self)@, outcome@) == walk_of(old(self)@, events_view(events@)),
    {
        let ghost start = self@;
        let ghost views = events_view(events@);
        let mut output = String::new();
        let mut i: usize = 0;
        while i < events.len()
            invariant
                i <= events@.len(),
                start == old(self)@,
                views == events_view(events@),
                views.len() == events@.len(),
                forall|j: int| 0 <= j < events@.len() ==> views[j] == events@[j]@,
                start.line + events@.len() <= usize::MAX,
                self@.line <= start.line + i,
                walk_upto(start, views, i as int) == (
                    self@,
                    StepView { output: output@, diagnostic: None },
                ),
            decreases events@.len() - i,
        {
            let ghost reached = self@;
            let ghost before = output@;
            let step = self.step(&events[i]);
            proof {
                lemma_step_line(reached, views[i as int]);
            }
            let Step { output: written, diagnostic } = step;
            output.append(written.as_str());
            if diagnostic.is_some() {
                let outcome = Step { output, diagnostic };
                proof {
                    assert(walk_upto(start, views, i as int + 1) == (self@, outcome@));
                    lemma_walk_stops(start, views, i as int + 1, views.len() as int);
                }
                return outcome;
            }
            i += 1;
        }
        Step { output, diagnostic: None }
    }

    /// Takes one step of the walk.
    pub fn step(&mut self, event: &ParseEvent) -> (step: Step)
        requires
            old(self).line < usize::MAX,
        ensures
            step@ == step_of(old(self)@, event@),
            final(self)@ == state_after(old(self)@, event@),
    {
        reveal(step_of);
        reveal(state_after);
        match event.rule {
            Rule::ImportStmt => match handle_import_stmt(event) {
                Err(violation) => misshapen_step(violation),
                Ok(module) => {
                    self.imported_modules.import(module);
                    quiet_step()
                },
            },
            Rule::Declaration => match handle_declaration(event) {
                Err(violation) => misshapen_step(violation),
                Ok(declaration) => match (
                    declaration.declaration_kind,
                    declaration.var_declaration,
                ) {
                    (DeclarationKind::Var, Some(variable)) => {
                        self.global_execution_context.declare(variable);
                        quiet_step()
                    },
                    _ => Step {
                        output: String::new(),
                        diagnostic: Some(
                            Diagnostic::UnimplementedConstruct {
                                span: event.text.clone(),
                                line: self.line,
                            },
                        ),
                    },
                },
            },
            Rule::VarDeclaration => match handle_var_declaration(event) {
                Err(violation) => misshapen_step(violation),
                Ok(variable) => {
                    self.global_execution_context.declare(variable);
                    quiet_step()
                },
            },
            Rule::Expression => match handle_expression(event) {
                Err(violation) => misshapen_step(violation),
                Ok(_) => quiet_step(),
            },
            Rule::UnaryExpression => match handle_unary_expression(event) {
                Err(violation) => misshapen_step(violation),
                Ok(_) => quiet_step(),
            },
            Rule::BinaryExpression => match handle_binary_expression(event) {
                Err(violation) => misshapen_step(violation),
                Ok(_) => quiet_step(),
            },
            Rule::FunctionCall => match handle_function_call(event) {
                Err(violation) => misshapen_step(violation),
                Ok(_) => quiet_step(),
            },
            Rule::ArgList => match handle_args_list(event) {
                Err(violation) => misshapen_step(violation),
                Ok(_) => quiet_step(),
            },
            Rule::MemberAccess => match handle_member_access(event) {
                Err(violation) => misshapen_step(violation),
                Ok(member) => self.dispatch(member, event.text.as_str()),
            },
            Rule::NewLine => {
                self.line = self.line + 1;
                quiet_step()
            },
            _ => quiet_step(),
        }
    }
}

/// Runs a program: walks over the children of the program event from the
/// start state. The outcome holds all that the program writes up to the end or
/// to the diagnostic that stops it.
pub fn run_program(program: &ParseEvent) -> (outcome: Step)
    requires
        program.children@.len() < usize::MAX,
    ensures
        outcome@ == run_of(program@),
{
    assert(program@.children == events_view(program.children@));
    let mut session = Session::new();
    session.walk(&program.children)
}

} // verus!
