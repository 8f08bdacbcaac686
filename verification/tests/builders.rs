use ws_frontend::errors::GrammarViolation;
use ws_frontend::event::{ParseEvent, Rule};
use ws_frontend::handlers::{
    handle_args_list, handle_binary_expression, handle_binary_operator, handle_boolean_literal,
    handle_declaration, handle_expression, handle_function_call, handle_identifier,
    handle_import_stmt, handle_literal, handle_member_access, handle_method_call,
    handle_number_literal, handle_postfix_expression, handle_prefix_expression,
    handle_string_literal, handle_type, handle_unary_expression, handle_var_declaration,
};
use ws_frontend::structure::{
    AffixExpression, ArgumentKind, DeclarationKind, ExpressionKind, MemberAccessKind, Type,
    TypeKind, UnaryExpressionKind,
};

fn leaf(rule: Rule, text: &str) -> ParseEvent {
    ParseEvent::leaf(rule, text)
}

fn node(rule: Rule, text: &str, children: Vec<ParseEvent>) -> ParseEvent {
    ParseEvent::new(rule, text, children)
}

fn import_event(path: &str) -> ParseEvent {
    let segments = path.split('.').map(|s| leaf(Rule::Identifier, s)).collect();
    node(
        Rule::ImportStmt,
        &format!("import {};", path),
        vec![node(Rule::ModuleName, path, segments)],
    )
}

fn unary_identifier(name: &str) -> ParseEvent {
    node(Rule::UnaryExpression, name, vec![leaf(Rule::Identifier, name)])
}

fn unary_string(raw: &str) -> ParseEvent {
    node(
        Rule::UnaryExpression,
        raw,
        vec![node(Rule::Literal, raw, vec![leaf(Rule::StringLiteral, raw)])],
    )
}

fn unary_number(raw: &str) -> ParseEvent {
    node(
        Rule::UnaryExpression,
        raw,
        vec![node(Rule::Literal, raw, vec![leaf(Rule::NumberLiteral, raw)])],
    )
}

fn expression(inner: ParseEvent) -> ParseEvent {
    let text = inner.text.clone();
    node(Rule::Expression, &text, vec![inner])
}

#[test]
fn import_of_two_segments() {
    let module = handle_import_stmt(&import_event("std.Console")).unwrap();
    assert_eq!(module.parent, "std");
    assert_eq!(module.name, "Console");
    assert_eq!(module.full_path, "std.Console");
}

#[test]
fn import_of_four_segments() {
    let module = handle_import_stmt(&import_event("a.b.c.D")).unwrap();
    assert_eq!(module.parent, "a");
    assert_eq!(module.name, "D");
    assert_eq!(module.full_path, "a.b.c.D");
}

#[test]
fn import_reads_the_text_of_the_path() {
    let event = node(Rule::ImportStmt, "import std.Console;", vec![leaf(Rule::ModuleName, "std.Console")]);
    let module = handle_import_stmt(&event).unwrap();
    assert_eq!(module.parent, "std");
    assert_eq!(module.name, "Console");
    assert_eq!(module.full_path, "std.Console");
}

#[test]
fn import_of_one_segment_has_it_as_parent_and_name() {
    let module = handle_import_stmt(&import_event("Console")).unwrap();
    assert_eq!(module.parent, "Console");
    assert_eq!(module.name, "Console");
    assert_eq!(module.full_path, "Console");
}

#[test]
fn import_with_empty_segments() {
    let module = handle_import_stmt(&import_event(".a.")).unwrap();
    assert_eq!(module.parent, "");
    assert_eq!(module.name, "");
    assert_eq!(module.full_path, ".a.");
    let empty = handle_import_stmt(&import_event("")).unwrap();
    assert_eq!(empty.parent, "");
    assert_eq!(empty.name, "");
    assert_eq!(empty.full_path, "");
}

#[test]
fn import_without_a_path_is_a_violation() {
    let event = leaf(Rule::ImportStmt, "import ;");
    assert_eq!(handle_import_stmt(&event), Err(GrammarViolation { rule: Rule::ImportStmt }));
}

#[test]
fn expression_of_an_identifier() {
    let built = handle_expression(&expression(unary_identifier("total"))).unwrap();
    assert_eq!(built.expression_kind, ExpressionKind::Unary);
    let unary = built.unary_expression.unwrap();
    assert_eq!(unary.kind, UnaryExpressionKind::Identifier);
    assert_eq!(unary.string_value, Some("total".to_string()));
    assert_eq!(unary.function_call, None);
    assert_eq!(unary.expression, None);
    assert_eq!(built.binary_expression, None);
    assert_eq!(built.prefix_expression, None);
    assert_eq!(built.postfix_expression, None);
    assert_eq!(built.member_access, None);
}

#[test]
fn expression_of_a_literal_keeps_the_raw_text() {
    let built = handle_expression(&expression(unary_string("\"Ada\""))).unwrap();
    let unary = built.unary_expression.unwrap();
    assert_eq!(unary.kind, UnaryExpressionKind::Literal);
    assert_eq!(unary.string_value, Some("\"Ada\"".to_string()));
}

#[test]
fn expression_kinds_follow_the_child() {
    let prefix = handle_expression(&node(Rule::Expression, "++i", vec![leaf(Rule::PrefixExpression, "++i")])).unwrap();
    assert_eq!(prefix.expression_kind, ExpressionKind::Prefix);
    assert_eq!(prefix.prefix_expression, Some(AffixExpression::default()));
    assert_eq!(prefix.postfix_expression, None);
    let postfix = handle_expression(&node(Rule::Expression, "i++", vec![leaf(Rule::PostfixExpression, "i++")])).unwrap();
    assert_eq!(postfix.expression_kind, ExpressionKind::Postfix);
    assert_eq!(postfix.postfix_expression, Some(AffixExpression::default()));
    assert_eq!(postfix.prefix_expression, None);
    let binary = handle_expression(&node(
        Rule::Expression,
        "a+b",
        vec![node(
            Rule::BinaryExpression,
            "a+b",
            vec![unary_identifier("a"), leaf(Rule::BinaryOperator, "+"), unary_identifier("b")],
        )],
    ))
    .unwrap();
    assert_eq!(binary.expression_kind, ExpressionKind::Binary);
    assert!(binary.binary_expression.is_some());
    assert_eq!(binary.unary_expression, None);
    let member = handle_expression(&node(
        Rule::Expression,
        "a.b",
        vec![node(Rule::MemberAccess, "a.b", vec![unary_identifier("a"), leaf(Rule::Identifier, "b")])],
    ))
    .unwrap();
    assert_eq!(member.expression_kind, ExpressionKind::MemberAccess);
    assert!(member.member_access.is_some());
}

#[test]
fn expression_takes_the_last_form_and_passes_over_other_tags() {
    let event = node(
        Rule::Expression,
        "x",
        vec![unary_identifier("first"), unary_identifier("last"), leaf(Rule::Whitespace, " ")],
    );
    let built = handle_expression(&event).unwrap();
    assert_eq!(built.unary_expression.unwrap().string_value, Some("last".to_string()));
}

#[test]
fn expression_without_a_form_is_a_violation() {
    let event = node(Rule::Expression, "", vec![leaf(Rule::Whitespace, " ")]);
    assert_eq!(handle_expression(&event), Err(GrammarViolation { rule: Rule::Expression }));
    let bare = leaf(Rule::Expression, "");
    assert_eq!(handle_expression(&bare), Err(GrammarViolation { rule: Rule::Expression }));
}

#[test]
fn unary_of_each_form() {
    let call = node(
        Rule::UnaryExpression,
        "f()",
        vec![node(Rule::FunctionCall, "f()", vec![leaf(Rule::Identifier, "f")])],
    );
    let built = handle_unary_expression(&call).unwrap();
    assert_eq!(built.kind, UnaryExpressionKind::FunctionCall);
    assert_eq!(built.string_value, None);
    assert_eq!(built.function_call.unwrap().identifier, "f");
    let nested = node(Rule::UnaryExpression, "(x)", vec![expression(unary_identifier("x"))]);
    let built = handle_unary_expression(&nested).unwrap();
    assert_eq!(built.kind, UnaryExpressionKind::Expression);
    assert_eq!(built.string_value, None);
    let inner = built.expression.unwrap();
    assert_eq!(inner.unary_expression.unwrap().string_value, Some("x".to_string()));
    let number = handle_unary_expression(&unary_number("42")).unwrap();
    assert_eq!(number.kind, UnaryExpressionKind::Literal);
    assert_eq!(number.string_value, Some("42".to_string()));
}

#[test]
fn unary_without_a_form_is_a_violation() {
    let event = leaf(Rule::UnaryExpression, "");
    assert_eq!(
        handle_unary_expression(&event),
        Err(GrammarViolation { rule: Rule::UnaryExpression })
    );
}

#[test]
fn violation_inside_comes_up() {
    let event = node(
        Rule::UnaryExpression,
        "()",
        vec![node(Rule::Expression, "", vec![leaf(Rule::UnaryExpression, "")])],
    );
    assert_eq!(
        handle_unary_expression(&event),
        Err(GrammarViolation { rule: Rule::UnaryExpression })
    );
    let outer = node(Rule::UnaryExpression, "()", vec![leaf(Rule::Expression, "")]);
    assert_eq!(handle_unary_expression(&outer), Err(GrammarViolation { rule: Rule::Expression }));
}

#[test]
fn binary_operands_in_order() {
    let event = node(
        Rule::BinaryExpression,
        "a - 1",
        vec![unary_identifier("a"), leaf(Rule::BinaryOperator, "-"), unary_number("1")],
    );
    let built = handle_binary_expression(&event).unwrap();
    assert_eq!(built.first_term.string_value, Some("a".to_string()));
    assert_eq!(built.first_term.kind, UnaryExpressionKind::Identifier);
    assert_eq!(built.operator, "-");
    assert_eq!(built.second_term.string_value, Some("1".to_string()));
    assert_eq!(built.second_term.kind, UnaryExpressionKind::Literal);
}

#[test]
fn binary_keeps_the_first_two_operands() {
    let event = node(
        Rule::BinaryExpression,
        "a + b * c",
        vec![
            unary_identifier("a"),
            leaf(Rule::BinaryOperator, "+"),
            unary_identifier("b"),
            leaf(Rule::BinaryOperator, "*"),
            unary_identifier("c"),
        ],
    );
    let built = handle_binary_expression(&event).unwrap();
    assert_eq!(built.first_term.string_value, Some("a".to_string()));
    assert_eq!(built.second_term.string_value, Some("b".to_string()));
    assert_eq!(built.operator, "+");
}

#[test]
fn binary_with_fewer_than_two_operands_is_a_violation() {
    let one = node(
        Rule::BinaryExpression,
        "a +",
        vec![unary_identifier("a"), leaf(Rule::BinaryOperator, "+")],
    );
    assert_eq!(
        handle_binary_expression(&one),
        Err(GrammarViolation { rule: Rule::BinaryExpression })
    );
    let none = leaf(Rule::BinaryExpression, "");
    assert_eq!(
        handle_binary_expression(&none),
        Err(GrammarViolation { rule: Rule::BinaryExpression })
    );
}

#[test]
fn binary_without_an_operator_has_an_empty_one() {
    let event = node(Rule::BinaryExpression, "a b", vec![unary_identifier("a"), unary_identifier("b")]);
    assert_eq!(handle_binary_expression(&event).unwrap().operator, "");
}

#[test]
fn affix_expressions_are_empty() {
    let event = leaf(Rule::PrefixExpression, "++i");
    assert_eq!(handle_prefix_expression(&event), AffixExpression::default());
    assert_eq!(handle_postfix_expression(&event), AffixExpression::default());
    assert_eq!(AffixExpression::default().operator, "");
    assert_eq!(AffixExpression::default().identifier, "");
}

#[test]
fn leaves_give_their_text() {
    assert_eq!(handle_identifier(&leaf(Rule::Identifier, "name")), "name");
    assert_eq!(handle_number_literal(&leaf(Rule::NumberLiteral, "12.5")), "12.5");
    assert_eq!(handle_string_literal(&leaf(Rule::StringLiteral, "\"hi\"")), "\"hi\"");
    assert_eq!(handle_boolean_literal(&leaf(Rule::BooleanLiteral, "true")), "true");
    assert_eq!(handle_binary_operator(&leaf(Rule::BinaryOperator, "==")), "==");
}

#[test]
fn literal_takes_its_last_inner_literal() {
    let event = node(
        Rule::Literal,
        "x",
        vec![leaf(Rule::NumberLiteral, "1"), leaf(Rule::BooleanLiteral, "false"), leaf(Rule::Identifier, "z")],
    );
    assert_eq!(handle_literal(&event), "false");
    assert_eq!(handle_literal(&leaf(Rule::Literal, "7")), "");
}

#[test]
fn args_list_in_order() {
    let event = node(
        Rule::ArgList,
        "a, \"b\", c",
        vec![
            leaf(Rule::Identifier, "a"),
            leaf(Rule::Whitespace, " "),
            expression(unary_string("\"b\"")),
            leaf(Rule::Identifier, "c"),
        ],
    );
    let arguments = handle_args_list(&event).unwrap();
    assert_eq!(arguments.len(), 3);
    assert_eq!(arguments[0].argument_kind, ArgumentKind::Identifier);
    assert_eq!(arguments[0].identifier, Some("a".to_string()));
    assert_eq!(arguments[0].expression, None);
    assert_eq!(arguments[1].argument_kind, ArgumentKind::Expression);
    assert_eq!(arguments[1].identifier, None);
    let inner = arguments[1].expression.as_ref().unwrap();
    assert_eq!(inner.unary_expression.as_ref().unwrap().string_value, Some("\"b\"".to_string()));
    assert_eq!(arguments[2].identifier, Some("c".to_string()));
    assert_eq!(handle_args_list(&leaf(Rule::ArgList, "")).unwrap().len(), 0);
}

#[test]
fn args_list_stops_at_the_first_violation() {
    let event = node(
        Rule::ArgList,
        "",
        vec![
            leaf(Rule::Identifier, "a"),
            node(Rule::Expression, "", vec![leaf(Rule::BinaryExpression, "")]),
            leaf(Rule::Expression, ""),
        ],
    );
    assert_eq!(handle_args_list(&event), Err(GrammarViolation { rule: Rule::BinaryExpression }));
}

#[test]
fn function_call_with_and_without_arguments() {
    let with = node(
        Rule::FunctionCall,
        "f(a)",
        vec![
            leaf(Rule::Identifier, "f"),
            node(Rule::ArgList, "a", vec![leaf(Rule::Identifier, "a")]),
        ],
    );
    let call = handle_function_call(&with).unwrap();
    assert_eq!(call.identifier, "f");
    assert_eq!(call.args_list.len(), 1);
    assert_eq!(call.type_arguments.len(), 0);
    let without = handle_function_call(&leaf(Rule::FunctionCall, "")).unwrap();
    assert_eq!(without.identifier, "");
    assert_eq!(without.args_list.len(), 0);
}

#[test]
fn method_call_is_the_call_of_its_first_child() {
    let event = node(
        Rule::MethodCall,
        "g()",
        vec![node(Rule::FunctionCall, "g()", vec![leaf(Rule::Identifier, "g")])],
    );
    assert_eq!(handle_method_call(&event).unwrap().identifier, "g");
    assert_eq!(
        handle_method_call(&leaf(Rule::MethodCall, "")),
        Err(GrammarViolation { rule: Rule::MethodCall })
    );
}

#[test]
fn member_access_of_a_method() {
    let event = node(
        Rule::MemberAccess,
        "Console.println(name)",
        vec![
            unary_identifier("Console"),
            node(
                Rule::MethodCall,
                "println(name)",
                vec![node(
                    Rule::FunctionCall,
                    "println(name)",
                    vec![
                        leaf(Rule::Identifier, "println"),
                        node(Rule::ArgList, "name", vec![leaf(Rule::Identifier, "name")]),
                    ],
                )],
            ),
        ],
    );
    let member = handle_member_access(&event).unwrap();
    assert_eq!(member.parent, "Console");
    assert_eq!(member.identifier, "println");
    assert_eq!(member.kind, MemberAccessKind::Method);
    assert_eq!(member.args_list.len(), 1);
    assert_eq!(member.args_list[0].identifier, Some("name".to_string()));
    assert_eq!(member.type_arguments, None);
}

#[test]
fn member_access_of_a_property() {
    let event = node(
        Rule::MemberAccess,
        "point.x",
        vec![unary_identifier("point"), leaf(Rule::Identifier, "x")],
    );
    let member = handle_member_access(&event).unwrap();
    assert_eq!(member.parent, "point");
    assert_eq!(member.identifier, "x");
    assert_eq!(member.kind, MemberAccessKind::Property);
    assert_eq!(member.args_list.len(), 0);
    let empty = handle_member_access(&leaf(Rule::MemberAccess, "")).unwrap();
    assert_eq!(empty.parent, "");
    assert_eq!(empty.identifier, "");
    assert_eq!(empty.kind, MemberAccessKind::Property);
}

#[test]
fn member_access_needs_a_named_receiver() {
    let event = node(
        Rule::MemberAccess,
        "f().x",
        vec![
            node(
                Rule::UnaryExpression,
                "f()",
                vec![node(Rule::FunctionCall, "f()", vec![leaf(Rule::Identifier, "f")])],
            ),
            leaf(Rule::Identifier, "x"),
        ],
    );
    assert_eq!(
        handle_member_access(&event),
        Err(GrammarViolation { rule: Rule::UnaryExpression })
    );
}

#[test]
fn type_simple() {
    let event = node(Rule::Type, "string", vec![leaf(Rule::SimpleType, "string")]);
    let built = handle_type(&event).unwrap();
    assert_eq!(built.type_kind, TypeKind::Simple);
    assert_eq!(built.type_identifier, "string");
    assert_eq!(built.type_parameters.len(), 0);
    assert_eq!(built.type_class, None);
    assert!(!built.is_type_array);
}

fn generic_list(text: &str, name: &str, parameters: &[&str]) -> ParseEvent {
    node(
        Rule::GenericType,
        text,
        vec![
            leaf(Rule::Identifier, name),
            node(
                Rule::TypeArgument,
                "",
                parameters.iter().map(|p| leaf(Rule::Identifier, p)).collect(),
            ),
        ],
    )
}

#[test]
fn type_generic() {
    let event = node(Rule::Type, "Map<K, V>", vec![generic_list("Map<K, V>", "Map", &["K", "V"])]);
    let built = handle_type(&event).unwrap();
    assert_eq!(built.type_kind, TypeKind::Generic);
    assert_eq!(built.type_identifier, "Map");
    assert_eq!(built.type_parameters, vec!["K".to_string(), "V".to_string()]);
    assert!(!built.is_type_array);
}

#[test]
fn type_array_of_simple() {
    let event = node(
        Rule::Type,
        "int[]",
        vec![node(Rule::TypeArray, "int[]", vec![leaf(Rule::SimpleType, "int")])],
    );
    let built = handle_type(&event).unwrap();
    assert_eq!(built.type_kind, TypeKind::TypeArray);
    assert_eq!(built.type_identifier, "int");
    assert_eq!(built.type_parameters.len(), 0);
    assert!(built.is_type_array);
}

#[test]
fn type_array_of_generics_collects_parameters() {
    let event = node(
        Rule::Type,
        "List<T>[]",
        vec![node(
            Rule::TypeArray,
            "List<T>[]",
            vec![generic_list("List<T>", "List", &["T"]), generic_list("Map<K, V>", "Map", &["K", "V"])],
        )],
    );
    let built = handle_type(&event).unwrap();
    assert_eq!(built.type_kind, TypeKind::TypeArray);
    assert_eq!(built.type_identifier, "List");
    assert_eq!(built.type_parameters, vec!["T".to_string(), "K".to_string(), "V".to_string()]);
    assert!(built.is_type_array);
}

#[test]
fn type_of_another_rule() {
    let event = node(Rule::Type, "void", vec![leaf(Rule::Void, "void")]);
    let built = handle_type(&event).unwrap();
    assert_eq!(built.type_kind, TypeKind::Builtin);
    assert_eq!(built.type_identifier, "void");
    assert_eq!(built.type_parameters.len(), 0);
    assert!(!built.is_type_array);
}

#[test]
fn type_violations() {
    assert_eq!(handle_type(&leaf(Rule::Type, "")), Err(GrammarViolation { rule: Rule::Type }));
    let short = node(
        Rule::Type,
        "",
        vec![node(Rule::GenericType, "", vec![leaf(Rule::Identifier, "List")])],
    );
    assert_eq!(handle_type(&short), Err(GrammarViolation { rule: Rule::GenericType }));
    let empty_array = node(Rule::Type, "", vec![leaf(Rule::TypeArray, "[]")]);
    assert_eq!(handle_type(&empty_array), Err(GrammarViolation { rule: Rule::TypeArray }));
    let bad_inner = node(
        Rule::Type,
        "",
        vec![node(Rule::TypeArray, "", vec![leaf(Rule::SimpleType, "int"), leaf(Rule::GenericType, "")])],
    );
    assert_eq!(handle_type(&bad_inner), Err(GrammarViolation { rule: Rule::GenericType }));
}

fn string_declaration(name: &str, raw: &str) -> ParseEvent {
    node(
        Rule::VarDeclaration,
        &format!("string {} = {};", name, raw),
        vec![
            node(Rule::Type, "string", vec![leaf(Rule::SimpleType, "string")]),
            leaf(Rule::Identifier, name),
            node(Rule::Definition, raw, vec![expression(unary_string(raw))]),
        ],
    )
}

#[test]
fn var_declaration_in_full() {
    let built = handle_var_declaration(&string_declaration("name", "\"Ada\"")).unwrap();
    assert_eq!(built.identifier, "name");
    assert_eq!(built.type_def.type_identifier, "string");
    assert_eq!(built.type_def.type_kind, TypeKind::Simple);
    let definition = built.definition.unwrap();
    assert_eq!(definition.expression_kind, ExpressionKind::Unary);
    assert_eq!(definition.unary_expression.unwrap().string_value, Some("\"Ada\"".to_string()));
}

#[test]
fn var_declaration_without_parts() {
    let built = handle_var_declaration(&leaf(Rule::VarDeclaration, "")).unwrap();
    assert_eq!(built.identifier, "");
    assert_eq!(built.type_def, Type::default());
    assert_eq!(built.definition, None);
}

#[test]
fn var_declaration_with_an_empty_definition_is_a_violation() {
    let event = node(
        Rule::VarDeclaration,
        "",
        vec![leaf(Rule::Identifier, "x"), leaf(Rule::Definition, "")],
    );
    assert_eq!(handle_var_declaration(&event), Err(GrammarViolation { rule: Rule::Definition }));
}

#[test]
fn declaration_of_a_variable() {
    let event = node(Rule::Declaration, "", vec![string_declaration("name", "\"Ada\"")]);
    let built = handle_declaration(&event).unwrap();
    assert_eq!(built.declaration_kind, DeclarationKind::Var);
    assert_eq!(built.var_declaration.unwrap().identifier, "name");
    assert_eq!(built.const_declaration, None);
    assert_eq!(built.class_declaration, None);
    assert_eq!(built.function_declaration, None);
    assert_eq!(built.interface_declaration, None);
}

#[test]
fn declaration_of_the_other_kinds_is_bare() {
    for (rule, kind) in [
        (Rule::ConstDeclaration, DeclarationKind::Const),
        (Rule::ClassDeclaration, DeclarationKind::Class),
        (Rule::FunctionDeclaration, DeclarationKind::Function),
        (Rule::InterfaceDeclaration, DeclarationKind::Interface),
    ] {
        let built = handle_declaration(&node(Rule::Declaration, "", vec![leaf(rule, "")])).unwrap();
        assert_eq!(built.declaration_kind, kind);
        assert_eq!(built.var_declaration, None);
        assert_eq!(built.const_declaration, None);
    }
}

#[test]
fn declaration_without_a_form_is_a_violation() {
    assert_eq!(
        handle_declaration(&leaf(Rule::Declaration, "")),
        Err(GrammarViolation { rule: Rule::Declaration })
    );
}

#[test]
fn building_twice_gives_equal_nodes() {
    let event = node(
        Rule::Expression,
        "Console.println(name, \"x\")",
        vec![node(
            Rule::MemberAccess,
            "Console.println(name, \"x\")",
            vec![
                unary_identifier("Console"),
                node(
                    Rule::MethodCall,
                    "println(name, \"x\")",
                    vec![node(
                        Rule::FunctionCall,
                        "println(name, \"x\")",
                        vec![
                            leaf(Rule::Identifier, "println"),
                            node(
                                Rule::ArgList,
                                "name, \"x\"",
                                vec![leaf(Rule::Identifier, "name"), expression(unary_string("\"x\""))],
                            ),
                        ],
                    )],
                ),
            ],
        )],
    );
    assert_eq!(handle_expression(&event), handle_expression(&event));
    assert_eq!(handle_expression(&event), handle_expression(&event.clone()));
    let declaration = node(Rule::Declaration, "", vec![string_declaration("a", "\"b\"")]);
    assert_eq!(handle_declaration(&declaration), handle_declaration(&declaration));
    let bad = leaf(Rule::Expression, "");
    assert_eq!(handle_expression(&bad), handle_expression(&bad));
    let import = import_event("std.Console");
    assert_eq!(handle_import_stmt(&import), handle_import_stmt(&import));
}

#[test]
fn import_with_a_backslash_keeps_it() {
    let module = handle_import_stmt(&import_event("std\\io.Console")).unwrap();
    assert_eq!(module.parent, "std\\io");
    assert_eq!(module.name, "Console");
    assert_eq!(module.full_path, "std\\io.Console");
    let alone = handle_import_stmt(&import_event("a\\b")).unwrap();
    assert_eq!(alone.parent, "a\\b");
    assert_eq!(alone.name, "a\\b");
}

#[test]
fn type_array_of_one_generic() {
    let event = node(
        Rule::Type,
        "List<T>[]",
        vec![node(Rule::TypeArray, "List<T>[]", vec![generic_list("List<T>", "List", &["T"])])],
    );
    let built = handle_type(&event).unwrap();
    assert_eq!(built.type_kind, TypeKind::TypeArray);
    assert_eq!(built.type_identifier, "List");
    assert_eq!(built.type_parameters, vec!["T".to_string()]);
    assert!(built.is_type_array);
}

#[test]
fn type_array_names_its_element() {
    let simple_last = node(
        Rule::Type,
        "",
        vec![node(
            Rule::TypeArray,
            "",
            vec![generic_list("Map<K, V>", "Map", &["K", "V"]), leaf(Rule::SimpleType, "int")],
        )],
    );
    let built = handle_type(&simple_last).unwrap();
    assert_eq!(built.type_identifier, "int");
    assert_eq!(built.type_parameters, vec!["K".to_string(), "V".to_string()]);
    let other = node(
        Rule::Type,
        "",
        vec![node(Rule::TypeArray, "void[]", vec![leaf(Rule::Void, "void")])],
    );
    let built = handle_type(&other).unwrap();
    assert_eq!(built.type_kind, TypeKind::TypeArray);
    assert_eq!(built.type_identifier, "void");
    assert!(built.is_type_array);
    let generic_later = node(
        Rule::Type,
        "",
        vec![node(
            Rule::TypeArray,
            "",
            vec![leaf(Rule::Identifier, "x"), generic_list("List<T>", "List", &["T"])],
        )],
    );
    let built = handle_type(&generic_later).unwrap();
    assert_eq!(built.type_identifier, "x");
    assert_eq!(built.type_parameters, vec!["T".to_string()]);
}

#[test]
fn kind_and_array_mark_agree() {
    for first in [
        leaf(Rule::SimpleType, "int"),
        generic_list("List<T>", "List", &["T"]),
        node(Rule::TypeArray, "int[]", vec![leaf(Rule::SimpleType, "int")]),
        leaf(Rule::Void, "void"),
        leaf(Rule::Identifier, "x"),
    ] {
        let built = handle_type(&node(Rule::Type, "", vec![first])).unwrap();
        assert_eq!(built.type_kind == TypeKind::TypeArray, built.is_type_array);
    }
}
