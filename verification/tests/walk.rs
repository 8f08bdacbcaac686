use ws_frontend::errors::Diagnostic;
use ws_frontend::event::{ParseEvent, Rule};
use ws_frontend::handlers::handle_member_access;
use ws_frontend::program::{run_program, Session, Step};
use ws_frontend::standard_library::console::{
    solve_argument, solve_expression, solve_identifier, ConsoleModule, Fault, Printed,
};
use ws_frontend::standard_library::StandardLibrary;
use ws_frontend::structure::{
    Argument, ArgumentKind, ExecutionContext, Expression, ExpressionKind, ImportedModule,
    ImportedModules, MemberAccess, MemberAccessKind, Type, UnaryExpression, UnaryExpressionKind,
    VarDeclaration,
};

fn walk_leaf(rule: Rule, text: &str) -> ParseEvent {
    ParseEvent::leaf(rule, text)
}

fn walk_node(rule: Rule, text: &str, children: Vec<ParseEvent>) -> ParseEvent {
    ParseEvent::new(rule, text, children)
}

fn import_console() -> ParseEvent {
    walk_node(
        Rule::ImportStmt,
        "import std.Console;",
        vec![walk_node(
            Rule::ModuleName,
            "std.Console",
            vec![walk_leaf(Rule::Identifier, "std"), walk_leaf(Rule::Identifier, "Console")],
        )],
    )
}

fn literal_argument(raw: &str) -> ParseEvent {
    walk_node(
        Rule::Expression,
        raw,
        vec![walk_node(
            Rule::UnaryExpression,
            raw,
            vec![walk_node(Rule::Literal, raw, vec![walk_leaf(Rule::StringLiteral, raw)])],
        )],
    )
}

fn name_argument(name: &str) -> ParseEvent {
    walk_leaf(Rule::Identifier, name)
}

fn name_expression_argument(name: &str) -> ParseEvent {
    walk_node(
        Rule::Expression,
        name,
        vec![walk_node(Rule::UnaryExpression, name, vec![walk_leaf(Rule::Identifier, name)])],
    )
}

fn console_call(method: &str, raw_arguments: &str, arguments: Vec<ParseEvent>) -> ParseEvent {
    let call = format!("{}({})", method, raw_arguments);
    walk_node(
        Rule::MemberAccess,
        &format!("Console.{}", call),
        vec![
            walk_node(Rule::UnaryExpression, "Console", vec![walk_leaf(Rule::Identifier, "Console")]),
            walk_node(
                Rule::MethodCall,
                &call,
                vec![walk_node(
                    Rule::FunctionCall,
                    &call,
                    vec![
                        walk_leaf(Rule::Identifier, method),
                        walk_node(Rule::ArgList, raw_arguments, arguments),
                    ],
                )],
            ),
        ],
    )
}

fn declare_string(name: &str, raw: &str) -> ParseEvent {
    walk_node(
        Rule::Declaration,
        &format!("string {} = {};", name, raw),
        vec![walk_node(
            Rule::VarDeclaration,
            &format!("string {} = {};", name, raw),
            vec![
                walk_node(Rule::Type, "string", vec![walk_leaf(Rule::SimpleType, "string")]),
                walk_leaf(Rule::Identifier, name),
                walk_node(Rule::Definition, raw, vec![literal_argument(raw)]),
            ],
        )],
    )
}

fn program(events: Vec<ParseEvent>) -> ParseEvent {
    walk_node(Rule::Program, "", events)
}

fn new_line() -> ParseEvent {
    walk_leaf(Rule::NewLine, "\n")
}

#[test]
fn console_without_import_is_an_undefined_module() {
    let outcome = run_program(&program(vec![console_call(
        "println",
        "\"hello\"",
        vec![literal_argument("\"hello\"")],
    )]));
    assert_eq!(outcome.output, "");
    assert_eq!(
        outcome.diagnostic,
        Some(Diagnostic::UndefinedModule {
            identifier: "Console".to_string(),
            span: "Console.println(\"hello\")".to_string(),
            line: 1,
            suggestion: "Consider importing this module with `import std.Console;`".to_string(),
        })
    );
}

#[test]
fn println_of_a_declared_name() {
    let outcome = run_program(&program(vec![
        import_console(),
        new_line(),
        declare_string("name", "\"Ada\""),
        new_line(),
        console_call("println", "name", vec![name_argument("name")]),
    ]));
    assert_eq!(outcome, Step { output: "Ada\n".to_string(), diagnostic: None });
}

#[test]
fn println_of_a_declared_name_written_as_an_expression() {
    let outcome = run_program(&program(vec![
        import_console(),
        declare_string("name", "\"Ada\""),
        console_call("println", "name", vec![name_expression_argument("name")]),
    ]));
    assert_eq!(outcome, Step { output: "Ada\n".to_string(), diagnostic: None });
}

#[test]
fn prints_follow_one_another() {
    let outcome = run_program(&program(vec![
        import_console(),
        console_call("print", "\"a\"", vec![literal_argument("\"a\"")]),
        console_call("print", "\"b\"", vec![literal_argument("\"b\"")]),
    ]));
    assert_eq!(outcome, Step { output: "ab".to_string(), diagnostic: None });
}

#[test]
fn steps_write_what_the_run_writes() {
    let events = vec![
        import_console(),
        console_call("print", "\"a\"", vec![literal_argument("\"a\"")]),
        new_line(),
        console_call("println", "\"b\", \"c\"", vec![literal_argument("\"b\""), literal_argument("\"c\"")]),
    ];
    let mut session = Session::new();
    let mut written = String::new();
    for event in &events {
        let step = session.step(event);
        assert_eq!(step.diagnostic, None);
        written.push_str(&step.output);
    }
    assert_eq!(written, "ab\nc\n");
    assert_eq!(session.line, 2);
    assert_eq!(run_program(&program(events)).output, written);
    let mut halves = Session::new();
    let events = vec![
        import_console(),
        console_call("print", "\"a\"", vec![literal_argument("\"a\"")]),
        console_call("print", "\"b\"", vec![literal_argument("\"b\"")]),
    ];
    let first = halves.walk(&events[..2].to_vec());
    let second = halves.walk(&events[2..].to_vec());
    assert_eq!(format!("{}{}", first.output, second.output), "ab");
}

#[test]
fn undefined_identifier_names_it_and_the_line() {
    let outcome = run_program(&program(vec![
        import_console(),
        new_line(),
        new_line(),
        console_call("println", "missing", vec![name_argument("missing")]),
    ]));
    assert_eq!(outcome.output, "");
    assert_eq!(
        outcome.diagnostic,
        Some(Diagnostic::UndefinedIdentifier {
            identifier: "missing".to_string(),
            span: "Console.println(missing)".to_string(),
            line: 3,
        })
    );
    let first_line = run_program(&program(vec![
        import_console(),
        console_call("println", "missing", vec![name_expression_argument("missing")]),
    ]));
    assert_eq!(
        first_line.diagnostic,
        Some(Diagnostic::UndefinedIdentifier {
            identifier: "missing".to_string(),
            span: "Console.println(missing)".to_string(),
            line: 1,
        })
    );
}

#[test]
fn what_was_written_before_a_diagnostic_stays() {
    let outcome = run_program(&program(vec![
        import_console(),
        console_call("print", "\"a\"", vec![literal_argument("\"a\"")]),
        console_call(
            "println",
            "\"b\", missing, \"c\"",
            vec![literal_argument("\"b\""), name_argument("missing"), literal_argument("\"c\"")],
        ),
        console_call("print", "\"d\"", vec![literal_argument("\"d\"")]),
    ]));
    assert_eq!(outcome.output, "ab\n");
    assert_eq!(
        outcome.diagnostic,
        Some(Diagnostic::UndefinedIdentifier {
            identifier: "missing".to_string(),
            span: "Console.println(\"b\", missing, \"c\")".to_string(),
            line: 1,
        })
    );
}

#[test]
fn a_stopped_walk_looks_no_further() {
    let outcome = run_program(&program(vec![
        console_call("print", "\"a\"", vec![literal_argument("\"a\"")]),
        walk_leaf(Rule::ImportStmt, "import ;"),
    ]));
    assert!(matches!(outcome.diagnostic, Some(Diagnostic::UndefinedModule { .. })));
}

#[test]
fn first_declaration_of_a_name_wins() {
    let outcome = run_program(&program(vec![
        import_console(),
        declare_string("name", "\"Ada\""),
        declare_string("name", "\"Grace\""),
        console_call("print", "name", vec![name_argument("name")]),
    ]));
    assert_eq!(outcome, Step { output: "Ada".to_string(), diagnostic: None });
}

#[test]
fn top_level_variable_declaration_is_declared() {
    let declaration = declare_string("name", "\"Ada\"");
    let variable = declaration.children[0].clone();
    let outcome = run_program(&program(vec![
        import_console(),
        variable,
        console_call("print", "name", vec![name_argument("name")]),
    ]));
    assert_eq!(outcome, Step { output: "Ada".to_string(), diagnostic: None });
}

#[test]
fn other_members_and_other_receivers_are_passed_over() {
    let outcome = run_program(&program(vec![
        import_console(),
        console_call("clear", "", vec![]),
        walk_node(
            Rule::MemberAccess,
            "point.x",
            vec![
                walk_node(Rule::UnaryExpression, "point", vec![walk_leaf(Rule::Identifier, "point")]),
                walk_leaf(Rule::Identifier, "x"),
            ],
        ),
        walk_leaf(Rule::Whitespace, " "),
        walk_leaf(Rule::EndOfInput, ""),
    ]));
    assert_eq!(outcome, Step { output: String::new(), diagnostic: None });
}

#[test]
fn other_receivers_need_no_import() {
    let outcome = run_program(&program(vec![walk_node(
        Rule::MemberAccess,
        "point.x",
        vec![
            walk_node(Rule::UnaryExpression, "point", vec![walk_leaf(Rule::Identifier, "point")]),
            walk_leaf(Rule::Identifier, "x"),
        ],
    )]));
    assert_eq!(outcome, Step { output: String::new(), diagnostic: None });
}

#[test]
fn import_under_another_parent_counts_by_name() {
    let import = walk_node(
        Rule::ImportStmt,
        "import my.own.Console;",
        vec![walk_leaf(Rule::ModuleName, "my.own.Console")],
    );
    let outcome = run_program(&program(vec![
        import,
        console_call("print", "\"a\"", vec![literal_argument("\"a\"")]),
    ]));
    assert_eq!(outcome, Step { output: "a".to_string(), diagnostic: None });
}

#[test]
fn declarations_of_other_kinds_are_not_carried_out() {
    let event = walk_node(
        Rule::Declaration,
        "class A {}",
        vec![walk_leaf(Rule::ClassDeclaration, "class A {}")],
    );
    let outcome = run_program(&program(vec![new_line(), event]));
    assert_eq!(
        outcome.diagnostic,
        Some(Diagnostic::UnimplementedConstruct { span: "class A {}".to_string(), line: 2 })
    );
}

#[test]
fn arguments_of_other_kinds_are_not_carried_out() {
    let binary = walk_node(
        Rule::Expression,
        "1 + 2",
        vec![walk_node(
            Rule::BinaryExpression,
            "1 + 2",
            vec![
                walk_node(
                    Rule::UnaryExpression,
                    "1",
                    vec![walk_node(Rule::Literal, "1", vec![walk_leaf(Rule::NumberLiteral, "1")])],
                ),
                walk_leaf(Rule::BinaryOperator, "+"),
                walk_node(
                    Rule::UnaryExpression,
                    "2",
                    vec![walk_node(Rule::Literal, "2", vec![walk_leaf(Rule::NumberLiteral, "2")])],
                ),
            ],
        )],
    );
    let outcome = run_program(&program(vec![
        import_console(),
        console_call("print", "1 + 2", vec![binary]),
    ]));
    assert_eq!(outcome.output, "");
    assert_eq!(
        outcome.diagnostic,
        Some(Diagnostic::UnimplementedConstruct { span: "Console.print(1 + 2)".to_string(), line: 1 })
    );
}

#[test]
fn misshapen_events_stop_the_walk() {
    let outcome = run_program(&program(vec![walk_leaf(Rule::ImportStmt, "import ;")]));
    assert_eq!(outcome.diagnostic, Some(Diagnostic::GrammarViolation { rule: Rule::ImportStmt }));
    for rule in [
        Rule::Declaration,
        Rule::Expression,
        Rule::UnaryExpression,
        Rule::BinaryExpression,
    ] {
        let outcome = run_program(&program(vec![walk_leaf(rule, "")]));
        assert_eq!(outcome.diagnostic, Some(Diagnostic::GrammarViolation { rule }));
    }
    for rule in [Rule::VarDeclaration, Rule::FunctionCall, Rule::ArgList, Rule::MemberAccess, Rule::Literal] {
        let outcome = run_program(&program(vec![walk_leaf(rule, "")]));
        assert_eq!(outcome.diagnostic, None);
    }
}

#[test]
fn dispatch_on_a_built_member() {
    let mut session = Session::new();
    session.step(&import_console());
    let event = console_call("print", "\"x\"", vec![literal_argument("\"x\"")]);
    let member = handle_member_access(&event).unwrap();
    let step = session.dispatch(member, "Console.print(\"x\")");
    assert_eq!(step, Step { output: "x".to_string(), diagnostic: None });
}

fn literal_expression(raw: &str) -> Expression {
    Expression {
        expression_kind: ExpressionKind::Unary,
        unary_expression: Some(UnaryExpression {
            kind: UnaryExpressionKind::Literal,
            string_value: Some(raw.to_string()),
            function_call: None,
            expression: None,
        }),
        ..Expression::default()
    }
}

fn scope_with(name: &str, raw: &str) -> ExecutionContext {
    let mut scope = ExecutionContext::default();
    scope.declare(VarDeclaration {
        type_def: Type::default(),
        identifier: name.to_string(),
        definition: Some(literal_expression(raw)),
    });
    scope
}

#[test]
fn quotes_are_stripped_once() {
    let scope = ExecutionContext::default();
    assert_eq!(solve_expression(&literal_expression("\"hello\""), &scope), Ok("hello".to_string()));
    assert_eq!(solve_expression(&literal_expression("\"\"quoted\"\""), &scope), Ok("\"quoted\"".to_string()));
    assert_eq!(solve_expression(&literal_expression("\"a\"b\""), &scope), Ok("a\"b".to_string()));
    assert_eq!(solve_expression(&literal_expression("42"), &scope), Ok("42".to_string()));
    assert_eq!(solve_expression(&literal_expression("\""), &scope), Ok("\"".to_string()));
    assert_eq!(solve_expression(&literal_expression("\"\""), &scope), Ok(String::new()));
    assert_eq!(solve_expression(&literal_expression("\"open"), &scope), Ok("\"open".to_string()));
    assert_eq!(solve_expression(&literal_expression(""), &scope), Ok(String::new()));
}

#[test]
fn solving_names() {
    let scope = scope_with("name", "\"Ada\"");
    assert_eq!(solve_identifier("name", &scope), Ok("Ada".to_string()));
    assert_eq!(
        solve_identifier("other", &scope),
        Err(Fault::UndefinedIdentifier { identifier: "other".to_string() })
    );
    let mut bare = ExecutionContext::default();
    bare.declare(VarDeclaration { identifier: "x".to_string(), ..VarDeclaration::default() });
    assert_eq!(solve_identifier("x", &bare), Err(Fault::UnimplementedConstruct));
    let by_name = Argument {
        argument_kind: ArgumentKind::Identifier,
        expression: None,
        identifier: Some("name".to_string()),
    };
    assert_eq!(solve_argument(&by_name, &scope), Ok("Ada".to_string()));
    let empty = Argument::default();
    assert_eq!(solve_argument(&empty, &scope), Err(Fault::UnimplementedConstruct));
    assert_eq!(
        solve_expression(&Expression::default(), &scope),
        Err(Fault::UnimplementedConstruct)
    );
}

#[test]
fn print_and_println_differ_by_the_line_break() {
    let scope = scope_with("name", "\"Ada\"");
    let arguments = || {
        vec![
            Argument {
                argument_kind: ArgumentKind::Identifier,
                expression: None,
                identifier: Some("name".to_string()),
            },
            Argument {
                argument_kind: ArgumentKind::Expression,
                expression: Some(literal_expression("\"!\"")),
                identifier: None,
            },
        ]
    };
    assert_eq!(
        ConsoleModule::print(arguments(), &scope),
        Printed { text: "Ada!".to_string(), fault: None }
    );
    assert_eq!(
        ConsoleModule::println(arguments(), &scope),
        Printed { text: "Ada\n!\n".to_string(), fault: None }
    );
    assert_eq!(ConsoleModule::print(vec![], &scope), Printed { text: String::new(), fault: None });
    assert_eq!(ConsoleModule::println(vec![], &scope), Printed { text: String::new(), fault: None });
}

#[test]
fn scope_and_modules() {
    let mut modules = ImportedModules::default();
    assert!(!modules.contains("Console"));
    modules.import(ImportedModule {
        parent: "std".to_string(),
        name: "Console".to_string(),
        full_path: "std.Console".to_string(),
    });
    assert!(modules.contains("Console"));
    assert!(!modules.contains("std"));
    assert!(!modules.contains("std.Console"));
    modules.import(ImportedModule::default());
    assert_eq!(modules.modules.len(), 2);
    assert!(modules.contains(""));
    let mut scope = scope_with("a", "1");
    scope.declare(VarDeclaration { identifier: "b".to_string(), ..VarDeclaration::default() });
    scope.declare(VarDeclaration { identifier: "a".to_string(), ..VarDeclaration::default() });
    assert_eq!(scope.scoped_variables.len(), 3);
    assert!(scope.lookup("a").unwrap().definition.is_some());
    assert_eq!(scope.lookup("b").unwrap().identifier, "b");
    assert!(scope.lookup("c").is_none());
    assert_eq!(scope.scoped_constants.len(), 0);
}

#[test]
fn empty_values() {
    let session = Session::new();
    assert_eq!(session.line, 1);
    assert_eq!(session.imported_modules, ImportedModules::default());
    assert_eq!(session.global_execution_context, ExecutionContext::default());
    let member = MemberAccess::default();
    assert_eq!(member.kind, MemberAccessKind::Property);
    assert_eq!(member.parent, "");
    assert_eq!(member.type_arguments, None);
    assert_eq!(Expression::default().expression_kind, ExpressionKind::Unary);
    assert_eq!(UnaryExpression::default().kind, UnaryExpressionKind::Identifier);
    assert_eq!(Argument::default().argument_kind, ArgumentKind::Expression);
    assert_eq!(StandardLibrary::default().console_module, ConsoleModule {});
    assert_eq!(ws_frontend::structure::unbox(Box::new(7u8)), 7);
}

#[test]
fn copies_are_equal() {
    let event = console_call("println", "name, \"x\"", vec![name_argument("name"), literal_argument("\"x\"")]);
    assert_eq!(event.clone(), event);
    let member = handle_member_access(&event).unwrap();
    assert_eq!(member.clone(), member);
    let scope = scope_with("name", "\"Ada\"");
    assert_eq!(scope.clone(), scope);
    let declaration = ws_frontend::handlers::handle_declaration(&declare_string("a", "\"b\"")).unwrap();
    assert_eq!(declaration.clone(), declaration);
    let mut session = Session::new();
    session.step(&import_console());
    session.step(&declare_string("a", "\"b\""));
    session.step(&new_line());
    assert_eq!(session.clone(), session);
    let outcome = run_program(&program(vec![console_call("print", "x", vec![name_argument("x")])]));
    assert_eq!(outcome.clone(), outcome);
    let printed = ConsoleModule::print(vec![Argument::default()], &scope);
    assert_eq!(printed.clone(), printed);
    assert_eq!(printed.fault, Some(Fault::UnimplementedConstruct));
}
