//! The builders: one per grammar production, each from one parse event to one
//! node of the syntax tree.
//!
//! A builder reads the children of its event by their rule tags and passes over
//! tags it does not know. Where several children carry the tag it looks for,
//! the last one counts, except where a builder says otherwise. A builder
//! returns a [`GrammarViolation`] exactly when a child that it cannot do
//! without is missing; it never panics and it keeps no state, so the same event
//! always gives the same node.
//!
//! Each builder has a spec function on views that says what it returns:
//! `type_of` for `handle_type`, `expression_of` for `handle_expression`, and so
//! on. Where such a function builds the child at an index that a search has
//! found, it tests the index against the bounds first. The test always holds;
//! it is there so that the function is seen to end.
use vstd::prelude::*;
use vstd::string::*;
use crate::errors::{built, GrammarViolation};
use crate::event::{ParseEvent, ParseEventView, Rule};
use crate::structure::{
    arguments_view, lemma_arguments_view, lemma_types_view, strings_view, types_view,
    AffixExpression, AffixExpressionView, Argument, ArgumentKind, ArgumentView, BinaryExpression,
    BinaryExpressionView, Declaration, DeclarationKind, DeclarationView, Expression,
    ExpressionKind, ExpressionView, FunctionCall, FunctionCallView, ImportedModule,
    ImportedModuleView, MemberAccess, MemberAccessKind, MemberAccessView, Type, TypeKind,
    TypeView, UnaryExpression, UnaryExpressionKind, UnaryExpressionView, VarDeclaration,
    VarDeclarationView,
};
use crate::text::{
    dot_free, first_segment, first_segment_of, last_segment, last_segment_of,
    lemma_first_segment_of_joined, lemma_last_segment_of_joined,
};

verus! {

/// Scanning backward from `before`: the index of the last child with the given
/// rule that stands before it.
pub open spec fn last_with_rule_before(
    children: Seq<ParseEventView>,
    rule: Rule,
    before: int,
) -> Option<int>
    decreases before,
{
    if before <= 0 || before > children.len() {
        None
    } else if children[before - 1].rule == rule {
        Some(before - 1)
    } else {
        last_with_rule_before(children, rule, before - 1)
    }
}

/// The index of the last child with the given rule.
pub open spec fn last_with_rule(children: Seq<ParseEventView>, rule: Rule) -> Option<int> {
    last_with_rule_before(children, rule, children.len() as int)
}

/// What `last_with_rule_before` finds is a child with the rule, and no child
/// between it and `before` has the rule.
pub proof fn lemma_last_with_rule_before(children: Seq<ParseEventView>, rule: Rule, before: int)
    requires
        0 <= before <= children.len(),
    ensures
        match last_with_rule_before(children, rule, before) {
            Some(found) => {
                &&& 0 <= found < before
                &&& children[found].rule == rule
                &&& forall|i: int| found < i < before ==> children[i].rule != rule
            },
            None => forall|i: int| 0 <= i < before ==> children[i].rule != rule,
        },
    decreases before,
{
    if before > 0 && children[before - 1].rule != rule {
        lemma_last_with_rule_before(children, rule, before - 1);
    }
}

/// The index of the last child of `event` with the given rule.
pub fn find_last(event: &ParseEvent, rule: Rule) -> (found: Option<usize>)
    ensures
        match found {
            Some(index) => index < event.children@.len() && last_with_rule(event@.children, rule)
                == Some(index as int),
            None => last_with_rule(event@.children, rule).is_none(),
        },
{
    let ghost children = event@.children;
    let mut before: usize = event.children.len();
    proof {
        event.lemma_children();
    }
    while before > 0
        invariant
            before <= event.children@.len(),
            children == event@.children,
            children.len() == event.children@.len(),
            last_with_rule(children, rule) == last_with_rule_before(children, rule, before as int),
        decreases before,
    {
        proof {
            event.child_view(before - 1);
        }
        if event.children[before - 1].rule == rule {
            return Some(before - 1);
        }
        before -= 1;
    }
    None
}

/// The source texts of a list of events, in order.
pub open spec fn texts_of(events: Seq<ParseEventView>) -> Seq<Seq<char>> {
    Seq::new(events.len(), |i: int| events[i].text)
}

/// The source texts of the children of `event`, in order.
pub fn child_texts(event: &ParseEvent) -> (texts: Vec<String>)
    ensures
        strings_view(texts@) == texts_of(event@.children),
{
    let mut texts: Vec<String> = Vec::new();
    let mut i: usize = 0;
    proof {
        event.lemma_children();
    }
    while i < event.children.len()
        invariant
            i <= event.children@.len(),
            event@.children.len() == event.children@.len(),
            texts@.len() == i,
            forall|j: int| 0 <= j < i ==> texts@[j]@ == event@.children[j].text,
        decreases event.children@.len() - i,
    {
        proof {
            event.child_view(i as int);
        }
        texts.push(event.children[i].text.clone());
        i += 1;
    }
    assert(strings_view(texts@) =~= texts_of(event@.children));
    texts
}

/// The type parameters of a generic type: the texts of the children of its
/// second child. A generic type with fewer than two children is a violation.
pub open spec fn generic_parameters(generic: ParseEventView) -> Result<
    Seq<Seq<char>>,
    GrammarViolation,
> {
    if generic.children.len() < 2 {
        Err(GrammarViolation { rule: generic.rule })
    } else {
        Ok(texts_of(generic.children[1].children))
    }
}

/// The type parameters that the generic types among the first `count` children
/// of an array type carry, in order; the first generic type among them that is
/// a violation decides.
pub open spec fn array_parameters(children: Seq<ParseEventView>, count: int) -> Result<
    Seq<Seq<char>>,
    GrammarViolation,
>
    decreases count,
{
    if count <= 0 || count > children.len() {
        Ok(Seq::empty())
    } else {
        match array_parameters(children, count - 1) {
            Err(violation) => Err(violation),
            Ok(before) => if children[count - 1].rule == Rule::GenericType {
                match generic_parameters(children[count - 1]) {
                    Err(violation) => Err(violation),
                    Ok(parameters) => Ok(before + parameters),
                }
            } else {
                Ok(before)
            },
        }
    }
}

/// The name of a generic type: the text of its first child. The parameters
/// are not part of the name.
pub open spec fn generic_name(generic: ParseEventView) -> Seq<char> {
    generic.children[0].text
}

/// The element name of an array type: the text of its last simple-type child.
/// Where it has no simple-type child, its first child is the element: a
/// generic type gives its name, without its parameters, and anything else
/// gives its text.
pub open spec fn array_identifier(children: Seq<ParseEventView>) -> Seq<char> {
    match last_with_rule(children, Rule::SimpleType) {
        Some(found) => children[found].text,
        None => if children[0].rule == Rule::GenericType {
            generic_name(children[0])
        } else {
            children[0].text
        },
    }
}

/// Where the parameters of an array type are there, every generic type among
/// its children has its two children: the name and the parameter list.
pub proof fn lemma_array_parameters_ok(children: Seq<ParseEventView>, count: int)
    requires
        0 <= count <= children.len(),
        array_parameters(children, count).is_ok(),
    ensures
        forall|i: int|
            0 <= i < count && (#[trigger] children[i]).rule == Rule::GenericType
                ==> children[i].children.len() >= 2,
    decreases count,
{
    if count > 0 {
        lemma_array_parameters_ok(children, count - 1);
    }
}

/// The type that a type event stands for. Its first child decides:
/// - a simple type gives its text as the name;
/// - a generic type gives the text of its first child as the name and the
///   texts of the children of its second child as the parameters;
/// - an array type gives its element name, the parameters of the generic types
///   among its children, and the array mark;
/// - any other child, such as `void`, is a type that the language brings with
///   it: it gives its text as the name, under the built-in kind.
/// So the kind is that of an array exactly where the array mark is set, and a
/// name never repeats the parameters. An event without children is a
/// violation, and so is an array type without children.
pub open spec fn type_of(event: ParseEventView) -> Result<TypeView, GrammarViolation> {
    if event.children.len() == 0 {
        Err(GrammarViolation { rule: event.rule })
    } else {
        let written = event.children[0];
        match written.rule {
            Rule::SimpleType => Ok(
                TypeView {
                    type_kind: TypeKind::Simple,
                    type_identifier: written.text,
                    type_parameters: Seq::empty(),
                    type_class: None,
                    is_type_array: false,
                },
            ),
            Rule::GenericType => match generic_parameters(written) {
                Err(violation) => Err(violation),
                Ok(parameters) => Ok(
                    TypeView {
                        type_kind: TypeKind::Generic,
                        type_identifier: generic_name(written),
                        type_parameters: parameters,
                        type_class: None,
                        is_type_array: false,
                    },
                ),
            },
            Rule::TypeArray => if written.children.len() == 0 {
                Err(GrammarViolation { rule: written.rule })
            } else {
                match array_parameters(written.children, written.children.len() as int) {
                    Err(violation) => Err(violation),
                    Ok(parameters) => Ok(
                        TypeView {
                            type_kind: TypeKind::TypeArray,
                            type_identifier: array_identifier(written.children),
                            type_parameters: parameters,
                            type_class: None,
                            is_type_array: true,
                        },
                    ),
                }
            },
            _ => Ok(
                TypeView {
                    type_kind: TypeKind::Builtin,
                    type_identifier: written.text,
                    type_parameters: Seq::empty(),
                    type_class: None,
                    is_type_array: false,
                },
            ),
        }
    }
}

/// A built type has the kind of an array exactly where its array mark is set.
pub proof fn lemma_type_kind_and_mark(event: ParseEventView)
    ensures
        match type_of(event) {
            Ok(built_type) => (built_type.type_kind == TypeKind::TypeArray)
                == built_type.is_type_array,
            Err(_) => true,
        },
{
}

/// An array whose one child is a generic type has the name of that generic
/// type, without its parameters, and its parameters in order: `List<T>[]` has
/// the name `List` and the parameter `T`.
pub proof fn lemma_type_of_generic_array(event: ParseEventView)
    requires
        event.children.len() > 0,
        event.children[0].rule == Rule::TypeArray,
        event.children[0].children.len() == 1,
        event.children[0].children[0].rule == Rule::GenericType,
        event.children[0].children[0].children.len() >= 2,
    ensures
        type_of(event) == Ok::<TypeView, GrammarViolation>(
            TypeView {
                type_kind: TypeKind::TypeArray,
                type_identifier: event.children[0].children[0].children[0].text,
                type_parameters: texts_of(event.children[0].children[0].children[1].children),
                type_class: None,
                is_type_array: true,
            },
        ),
{
    let parts = event.children[0].children;
    let generic = parts[0];
    reveal_with_fuel(array_parameters, 2);
    reveal_with_fuel(last_with_rule_before, 2);
    assert(array_parameters(parts, 0) == Ok::<Seq<Seq<char>>, GrammarViolation>(Seq::empty()));
    assert(Seq::<Seq<char>>::empty() + texts_of(generic.children[1].children) =~= texts_of(
        generic.children[1].children,
    ));
    assert(last_with_rule(parts, Rule::SimpleType).is_none());
}

/// The type parameters of a generic type event.
fn handle_generic_parameters(generic: &ParseEvent) -> (result: Result<
    Vec<String>,
    GrammarViolation,
>)
    ensures
        match result {
            Ok(parameters) => generic_parameters(generic@) == Ok::<
                Seq<Seq<char>>,
                GrammarViolation,
            >(strings_view(parameters@)),
            Err(violation) => generic_parameters(generic@) == Err::<
                Seq<Seq<char>>,
                GrammarViolation,
            >(violation),
        },
{
    proof {
        generic.lemma_children();
    }
    if generic.children.len() < 2 {
        return Err(GrammarViolation { rule: generic.rule });
    }
    proof {
        generic.child_view(1);
    }
    Ok(child_texts(&generic.children[1]))
}

/// The type parameters that the generic types among the children of an array
/// type event carry.
fn handle_array_parameters(array: &ParseEvent) -> (result: Result<Vec<String>, GrammarViolation>)
    ensures
        match result {
            Ok(parameters) => array_parameters(array@.children, array@.children.len() as int)
                == Ok::<Seq<Seq<char>>, GrammarViolation>(strings_view(parameters@)),
            Err(violation) => array_parameters(array@.children, array@.children.len() as int)
                == Err::<Seq<Seq<char>>, GrammarViolation>(violation),
        },
{
    proof {
        array.lemma_children();
    }
    let mut parameters: Vec<String> = Vec::new();
    let mut i: usize = 0;
    assert(strings_view(parameters@) =~= Seq::empty());
    while i < array.children.len()
        invariant
            i <= array.children@.len(),
            array@.children.len() == array.children@.len(),
            array_parameters(array@.children, i as int) == Ok::<Seq<Seq<char>>, GrammarViolation>(
                strings_view(parameters@),
            ),
        decreases array.children@.len() - i,
    {
        proof {
            array.child_view(i as int);
        }
        let part = &array.children[i];
        if part.rule == Rule::GenericType {
            match handle_generic_parameters(part) {
                Err(violation) => {
                    proof {
                        assert(array_parameters(array@.children, i as int + 1) == Err::<
                            Seq<Seq<char>>,
                            GrammarViolation,
                        >(violation));
                        lemma_array_parameters_fail(
                            array@.children,
                            i as int + 1,
                            array@.children.len() as int,
                        );
                    }
                    return Err(violation);
                },
                Ok(mut more) => {
                    let ghost before = strings_view(parameters@);
                    let ghost added = strings_view(more@);
                    parameters.append(&mut more);
                    assert(strings_view(parameters@) =~= before + added);
                },
            }
        }
        i += 1;
    }
    Ok(parameters)
}

/// Builds a [`Type`] from a type event.
pub fn handle_type(event: &ParseEvent) -> (result: Result<Type, GrammarViolation>)
    ensures
        built(result) == type_of(event@),
        match result {
            Ok(built_type) => (built_type.type_kind == TypeKind::TypeArray)
                == built_type.is_type_array,
            Err(_) => true,
        },
{
    proof {
        event.lemma_children();
    }
    if event.children.len() == 0 {
        return Err(GrammarViolation { rule: event.rule });
    }
    proof {
        event.child_view(0);
    }
    let written = &event.children[0];
    proof {
        written.lemma_children();
    }
    match written.rule {
        Rule::SimpleType => {
            let built_type = Type {
                type_kind: TypeKind::Simple,
                type_identifier: written.text.clone(),
                type_parameters: Vec::new(),
                type_class: None,
                is_type_array: false,
            };
            assert(strings_view(built_type.type_parameters@) =~= Seq::empty());
            Ok(built_type)
        },
        Rule::GenericType => {
            match handle_generic_parameters(written) {
                Err(violation) => Err(violation),
                Ok(parameters) => {
                    proof {
                        written.child_view(0);
                    }
                    Ok(
                        Type {
                            type_kind: TypeKind::Generic,
                            type_identifier: written.children[0].text.clone(),
                            type_parameters: parameters,
                            type_class: None,
                            is_type_array: false,
                        },
                    )
                },
            }
        },
        Rule::TypeArray => {
            if written.children.len() == 0 {
                return Err(GrammarViolation { rule: written.rule });
            }
            let parameters = match handle_array_parameters(written) {
                Err(violation) => {
                    return Err(violation);
                },
                Ok(parameters) => parameters,
            };
            let type_identifier = match find_last(written, Rule::SimpleType) {
                Some(found) => {
                    proof {
                        written.child_view(found as int);
                    }
                    written.children[found].text.clone()
                },
                None => {
                    proof {
                        written.child_view(0);
                        lemma_array_parameters_ok(
                            written@.children,
                            written@.children.len() as int,
                        );
                    }
                    let element = &written.children[0];
                    if element.rule == Rule::GenericType {
                        proof {
                            element.lemma_children();
                            element.child_view(0);
                        }
                        element.children[0].text.clone()
                    } else {
                        element.text.clone()
                    }
                },
            };
            Ok(
                Type {
                    type_kind: TypeKind::TypeArray,
                    type_identifier,
                    type_parameters: parameters,
                    type_class: None,
                    is_type_array: true,
                },
            )
        },
        _ => {
            let built_type = Type {
                type_kind: TypeKind::Builtin,
                type_identifier: written.text.clone(),
                type_parameters: Vec::new(),
                type_class: None,
                is_type_array: false,
            };
            assert(strings_view(built_type.type_parameters@) =~= Seq::empty());
            Ok(built_type)
        },
    }
}

/// Once the parameters of an array type fail among its first `count` children,
/// they fail the same way however many more children are taken.
proof fn lemma_array_parameters_fail(children: Seq<ParseEventView>, count: int, more: int)
    requires
        0 <= count <= more <= children.len(),
        array_parameters(children, count).is_err(),
    ensures
        array_parameters(children, more) == array_parameters(children, count),
    decreases more - count,
{
    if count < more {
        lemma_array_parameters_fail(children, count, more - 1);
    }
}

/// Scanning forward from `from`: the index of the first child with the given
/// rule at or after it.
pub open spec fn first_with_rule_from(
    children: Seq<ParseEventView>,
    rule: Rule,
    from: int,
) -> Option<int>
    decreases children.len() - from,
{
    if from < 0 || from >= children.len() {
        None
    } else if children[from].rule == rule {
        Some(from)
    } else {
        first_with_rule_from(children, rule, from + 1)
    }
}

/// What `first_with_rule_from` finds is a child with the rule, and no child
/// between `from` and it has the rule.
pub proof fn lemma_first_with_rule_from(children: Seq<ParseEventView>, rule: Rule, from: int)
    requires
        0 <= from <= children.len(),
    ensures
        match first_with_rule_from(children, rule, from) {
            Some(found) => {
                &&& from <= found < children.len()
                &&& children[found].rule == rule
                &&& forall|i: int| from <= i < found ==> children[i].rule != rule
            },
            None => forall|i: int| from <= i < children.len() ==> children[i].rule != rule,
        },
    decreases children.len() - from,
{
    if from < children.len() && children[from].rule != rule {
        lemma_first_with_rule_from(children, rule, from + 1);
    }
}

/// The text of the last child with the given rule, or no text where no child
/// has it.
pub open spec fn text_of_last(children: Seq<ParseEventView>, rule: Rule) -> Seq<char> {
    match last_with_rule(children, rule) {
        Some(found) => children[found].text,
        None => Seq::empty(),
    }
}

/// The text of the first child with the given rule, or no text where no child
/// has it.
pub open spec fn text_of_first(children: Seq<ParseEventView>, rule: Rule) -> Seq<char> {
    match first_with_rule_from(children, rule, 0) {
        Some(found) => children[found].text,
        None => Seq::empty(),
    }
}

/// The name that an identifier event stands for: its source text.
pub open spec fn identifier_of(event: ParseEventView) -> Seq<char> {
    event.text
}

/// Whether a rule is one of the three kinds of literal.
pub open spec fn is_literal_rule(rule: Rule) -> bool {
    rule == Rule::NumberLiteral || rule == Rule::StringLiteral || rule == Rule::BooleanLiteral
}

/// Scanning backward from `before`: the text of the last number, string or
/// boolean literal among the children, or no text where there is none.
pub open spec fn literal_from(children: Seq<ParseEventView>, before: int) -> Seq<char>
    decreases before,
{
    if before <= 0 || before > children.len() {
        Seq::empty()
    } else if is_literal_rule(children[before - 1].rule) {
        children[before - 1].text
    } else {
        literal_from(children, before - 1)
    }
}

/// The raw source text of a literal: the text of its last number, string or
/// boolean child. Nothing is converted: a string keeps its quotes.
pub open spec fn literal_of(event: ParseEventView) -> Seq<char> {
    literal_from(event.children, event.children.len() as int)
}

/// A unary expression that is a name.
pub open spec fn unary_identifier(name: Seq<char>) -> UnaryExpressionView {
    UnaryExpressionView {
        kind: UnaryExpressionKind::Identifier,
        string_value: Some(name),
        function_call: None,
        expression: None,
    }
}

/// A unary expression that is a literal, in its source text.
pub open spec fn unary_literal(raw: Seq<char>) -> UnaryExpressionView {
    UnaryExpressionView {
        kind: UnaryExpressionKind::Literal,
        string_value: Some(raw),
        function_call: None,
        expression: None,
    }
}

/// A unary expression that is a call.
pub open spec fn unary_call(call: FunctionCallView) -> UnaryExpressionView {
    UnaryExpressionView {
        kind: UnaryExpressionKind::FunctionCall,
        string_value: None,
        function_call: Some(call),
        expression: None,
    }
}

/// A unary expression that is an expression in parentheses.
pub open spec fn unary_parenthesized(inner: ExpressionView) -> UnaryExpressionView {
    UnaryExpressionView {
        kind: UnaryExpressionKind::Expression,
        string_value: None,
        function_call: None,
        expression: Some(Box::new(inner)),
    }
}

/// An expression that is a unary expression.
pub open spec fn expression_unary(unary: UnaryExpressionView) -> ExpressionView {
    ExpressionView {
        expression_kind: ExpressionKind::Unary,
        binary_expression: None,
        unary_expression: Some(unary),
        prefix_expression: None,
        postfix_expression: None,
        member_access: None,
    }
}

/// An expression that is a binary expression.
pub open spec fn expression_binary(binary: BinaryExpressionView) -> ExpressionView {
    ExpressionView {
        expression_kind: ExpressionKind::Binary,
        binary_expression: Some(binary),
        unary_expression: None,
        prefix_expression: None,
        postfix_expression: None,
        member_access: None,
    }
}

/// An expression that is a prefix expression.
pub open spec fn expression_prefix(affix: AffixExpressionView) -> ExpressionView {
    ExpressionView {
        expression_kind: ExpressionKind::Prefix,
        binary_expression: None,
        unary_expression: None,
        prefix_expression: Some(affix),
        postfix_expression: None,
        member_access: None,
    }
}

/// An expression that is a postfix expression.
pub open spec fn expression_postfix(affix: AffixExpressionView) -> ExpressionView {
    ExpressionView {
        expression_kind: ExpressionKind::Postfix,
        binary_expression: None,
        unary_expression: None,
        prefix_expression: None,
        postfix_expression: Some(affix),
        member_access: None,
    }
}

/// An expression that is a member access.
pub open spec fn expression_member(member: MemberAccessView) -> ExpressionView {
    ExpressionView {
        expression_kind: ExpressionKind::MemberAccess,
        binary_expression: None,
        unary_expression: None,
        prefix_expression: None,
        postfix_expression: None,
        member_access: Some(member),
    }
}

/// An argument that is an expression.
pub open spec fn argument_expression(expression: ExpressionView) -> ArgumentView {
    ArgumentView {
        argument_kind: ArgumentKind::Expression,
        expression: Some(expression),
        identifier: None,
    }
}

/// An argument that is a bare name.
pub open spec fn argument_identifier(name: Seq<char>) -> ArgumentView {
    ArgumentView {
        argument_kind: ArgumentKind::Identifier,
        expression: None,
        identifier: Some(name),
    }
}

/// The arguments that the first `count` children of an argument list stand
/// for, in order: one for each expression child and one for each identifier
/// child. The first expression among them that cannot be built decides.
pub open spec fn args_from(children: Seq<ParseEventView>, count: int) -> Result<
    Seq<ArgumentView>,
    GrammarViolation,
>
    decreases children, count,
{
    if count <= 0 || count > children.len() {
        Ok(Seq::empty())
    } else {
        match args_from(children, count - 1) {
            Err(violation) => Err(violation),
            Ok(before) => match children[count - 1].rule {
                Rule::Expression => match expression_of(children[count - 1]) {
                    Err(violation) => Err(violation),
                    Ok(expression) => Ok(before.push(argument_expression(expression))),
                },
                Rule::Identifier => Ok(
                    before.push(argument_identifier(identifier_of(children[count - 1]))),
                ),
                _ => Ok(before),
            },
        }
    }
}

/// The arguments that an argument-list event stands for.
pub open spec fn args_list_of(event: ParseEventView) -> Result<Seq<ArgumentView>, GrammarViolation>
    decreases event,
{
    args_from(event.children, event.children.len() as int)
}

/// Scanning backward from `before`: the expression that the last child with
/// the tag of a binary, unary, prefix, postfix or member-access expression
/// stands for; `None` where no child has such a tag.
pub open spec fn expression_from(children: Seq<ParseEventView>, before: int) -> Option<
    Result<ExpressionView, GrammarViolation>,
>
    decreases children, before,
{
    if before <= 0 || before > children.len() {
        None
    } else {
        let child = children[before - 1];
        match child.rule {
            Rule::BinaryExpression => Some(
                match binary_of(child) {
                    Err(violation) => Err(violation),
                    Ok(binary) => Ok(expression_binary(binary)),
                },
            ),
            Rule::UnaryExpression => Some(
                match unary_of(child) {
                    Err(violation) => Err(violation),
                    Ok(unary) => Ok(expression_unary(unary)),
                },
            ),
            Rule::PrefixExpression => Some(Ok(expression_prefix(AffixExpressionView::empty()))),
            Rule::PostfixExpression => Some(Ok(expression_postfix(AffixExpressionView::empty()))),
            Rule::MemberAccess => Some(
                match member_access_of(child) {
                    Err(violation) => Err(violation),
                    Ok(member) => Ok(expression_member(member)),
                },
            ),
            _ => expression_from(children, before - 1),
        }
    }
}

/// The expression that an expression event stands for: what its last child
/// with the tag of an expression form stands for, under the kind of that
/// form. An event without such a child is a violation.
pub open spec fn expression_of(event: ParseEventView) -> Result<ExpressionView, GrammarViolation>
    decreases event,
{
    match expression_from(event.children, event.children.len() as int) {
        Some(result) => result,
        None => Err(GrammarViolation { rule: event.rule }),
    }
}

/// Scanning backward from `before`: the unary expression that the last child
/// with the tag of an identifier, a literal, a function call or an expression
/// stands for; `None` where no child has such a tag.
pub open spec fn unary_from(children: Seq<ParseEventView>, before: int) -> Option<
    Result<UnaryExpressionView, GrammarViolation>,
>
    decreases children, before,
{
    if before <= 0 || before > children.len() {
        None
    } else {
        let child = children[before - 1];
        match child.rule {
            Rule::Identifier => Some(Ok(unary_identifier(identifier_of(child)))),
            Rule::Literal => Some(Ok(unary_literal(literal_of(child)))),
            Rule::FunctionCall => Some(
                match function_call_of(child) {
                    Err(violation) => Err(violation),
                    Ok(call) => Ok(unary_call(call)),
                },
            ),
            Rule::Expression => Some(
                match expression_of(child) {
                    Err(violation) => Err(violation),
                    Ok(inner) => Ok(unary_parenthesized(inner)),
                },
            ),
            _ => unary_from(children, before - 1),
        }
    }
}

/// The unary expression that a unary-expression event stands for: what its
/// last child with the tag of an operand form stands for, with the kind and
/// the payload of that form and no other payload. An event without such a
/// child is a violation.
pub open spec fn unary_of(event: ParseEventView) -> Result<UnaryExpressionView, GrammarViolation>
    decreases event,
{
    match unary_from(event.children, event.children.len() as int) {
        Some(result) => result,
        None => Err(GrammarViolation { rule: event.rule }),
    }
}

/// The binary expression that a binary-expression event stands for. Its first
/// unary-expression child is the left operand and the next one the right
/// operand; further operands are passed over. The operator is the text of its
/// first operator child, or empty where it has none. An event with fewer than
/// two operands is a violation.
pub open spec fn binary_of(event: ParseEventView) -> Result<BinaryExpressionView, GrammarViolation>
    decreases event,
{
    let children = event.children;
    match first_with_rule_from(children, Rule::UnaryExpression, 0) {
        Some(left) if 0 <= left < children.len() => match first_with_rule_from(
            children,
            Rule::UnaryExpression,
            left + 1,
        ) {
            Some(right) if 0 <= right < children.len() => match unary_of(children[left]) {
                Err(violation) => Err(violation),
                Ok(first_term) => match unary_of(children[right]) {
                    Err(violation) => Err(violation),
                    Ok(second_term) => Ok(
                        BinaryExpressionView {
                            first_term,
                            operator: text_of_first(children, Rule::BinaryOperator),
                            second_term,
                        },
                    ),
                },
            },
            _ => Err(GrammarViolation { rule: event.rule }),
        },
        _ => Err(GrammarViolation { rule: event.rule }),
    }
}

/// The call that a function-call event stands for: the text of its last
/// identifier child as the name, and the arguments of its last argument-list
/// child. Without an identifier child the name is empty; without an argument
/// list there are no arguments.
pub open spec fn function_call_of(event: ParseEventView) -> Result<
    FunctionCallView,
    GrammarViolation,
>
    decreases event,
{
    let children = event.children;
    match last_with_rule(children, Rule::ArgList) {
        Some(found) if 0 <= found < children.len() => match args_list_of(children[found]) {
            Err(violation) => Err(violation),
            Ok(args_list) => Ok(
                FunctionCallView {
                    identifier: text_of_last(children, Rule::Identifier),
                    type_arguments: Seq::empty(),
                    args_list,
                },
            ),
        },
        _ => Ok(
            FunctionCallView {
                identifier: text_of_last(children, Rule::Identifier),
                type_arguments: Seq::empty(),
                args_list: Seq::empty(),
            },
        ),
    }
}

/// The call that a method-call event stands for: the function call of its
/// first child. An event without children is a violation.
pub open spec fn method_call_of(event: ParseEventView) -> Result<FunctionCallView, GrammarViolation>
    decreases event,
{
    if event.children.len() == 0 {
        Err(GrammarViolation { rule: event.rule })
    } else {
        function_call_of(event.children[0])
    }
}

/// The receiver of a member access: the name or literal text of its last
/// unary-expression child, or no text where it has none. A receiver that is
/// neither a name nor a literal is a violation.
pub open spec fn receiver_of(children: Seq<ParseEventView>) -> Result<Seq<char>, GrammarViolation>
    decreases children, 0int,
{
    match last_with_rule(children, Rule::UnaryExpression) {
        Some(found) if 0 <= found < children.len() => match unary_of(children[found]) {
            Err(violation) => Err(violation),
            Ok(unary) => match unary.string_value {
                Some(text) => Ok(text),
                None => Err(GrammarViolation { rule: children[found].rule }),
            },
        },
        _ => Ok(Seq::empty()),
    }
}

/// The member access that a member-access event stands for. Where it has a
/// method-call child, the last such child gives the member's name and its
/// arguments, and the kind is `Method`. Otherwise the text of its last
/// identifier child is the member's name, there are no arguments, and the kind
/// is `Property`. The receiver is looked at first.
pub open spec fn member_access_of(event: ParseEventView) -> Result<
    MemberAccessView,
    GrammarViolation,
>
    decreases event,
{
    let children = event.children;
    match receiver_of(children) {
        Err(violation) => Err(violation),
        Ok(parent) => match last_with_rule(children, Rule::MethodCall) {
            Some(found) if 0 <= found < children.len() => match method_call_of(children[found]) {
                Err(violation) => Err(violation),
                Ok(call) => Ok(
                    MemberAccessView {
                        parent,
                        identifier: call.identifier,
                        kind: MemberAccessKind::Method,
                        args_list: call.args_list,
                        type_arguments: None,
                    },
                ),
            },
            _ => Ok(
                MemberAccessView {
                    parent,
                    identifier: text_of_last(children, Rule::Identifier),
                    kind: MemberAccessKind::Property,
                    args_list: Seq::empty(),
                    type_arguments: None,
                },
            ),
        },
    }
}

/// What the builder of an argument list returns, with the arguments replaced
/// by their views.
pub open spec fn built_arguments(result: Result<Vec<Argument>, GrammarViolation>) -> Result<
    Seq<ArgumentView>,
    GrammarViolation,
> {
    match result {
        Ok(arguments) => Ok(arguments_view(arguments@)),
        Err(violation) => Err(violation),
    }
}

/// The views of a list of arguments that has grown by one.
proof fn lemma_arguments_view_push(arguments: Seq<Argument>, argument: Argument)
    ensures
        arguments_view(arguments.push(argument)) == arguments_view(arguments).push(argument@),
{
    lemma_arguments_view(arguments);
    lemma_arguments_view(arguments.push(argument));
    assert(arguments_view(arguments.push(argument)) =~= arguments_view(arguments).push(
        argument@,
    ));
}

/// Once the arguments fail among the first `count` children, they fail the
/// same way however many more children are taken.
proof fn lemma_args_from_fail(children: Seq<ParseEventView>, count: int, more: int)
    requires
        0 <= count <= more <= children.len(),
        args_from(children, count).is_err(),
    ensures
        args_from(children, more) == args_from(children, count),
    decreases more - count,
{
    if count < more {
        lemma_args_from_fail(children, count, more - 1);
    }
}

/// The text of the last child of `event` with the given rule, or an empty
/// string where no child has it.
pub fn last_text(event: &ParseEvent, rule: Rule) -> (text: String)
    ensures
        text@ == text_of_last(event@.children, rule),
{
    match find_last(event, rule) {
        Some(found) => {
            proof {
                event.child_view(found as int);
            }
            event.children[found].text.clone()
        },
        None => String::new(),
    }
}

/// The text of the first child of `event` with the given rule, or an empty
/// string where no child has it.
pub fn first_text(event: &ParseEvent, rule: Rule) -> (text: String)
    ensures
        text@ == text_of_first(event@.children, rule),
{
    match find_first_from(event, rule, 0) {
        Some(found) => {
            proof {
                event.child_view(found as int);
            }
            event.children[found].text.clone()
        },
        None => String::new(),
    }
}

/// Builds the name of an identifier event: its source text.
pub fn handle_identifier(event: &ParseEvent) -> (name: String)
    ensures
        name@ == identifier_of(event@),
{
    event.text.clone()
}

/// Builds a number literal: its source text, unconverted.
pub fn handle_number_literal(event: &ParseEvent) -> (raw: String)
    ensures
        raw@ == event@.text,
{
    event.text.clone()
}

/// Builds a string literal: its source text, quotes included.
pub fn handle_string_literal(event: &ParseEvent) -> (raw: String)
    ensures
        raw@ == event@.text,
{
    event.text.clone()
}

/// Builds a boolean literal: its source text, unconverted.
pub fn handle_boolean_literal(event: &ParseEvent) -> (raw: String)
    ensures
        raw@ == event@.text,
{
    event.text.clone()
}

/// Builds a binary operator: its source text.
pub fn handle_binary_operator(event: &ParseEvent) -> (operator: String)
    ensures
        operator@ == event@.text,
{
    event.text.clone()
}

/// Builds the raw text of a literal event.
pub fn handle_literal(event: &ParseEvent) -> (raw: String)
    ensures
        raw@ == literal_of(event@),
{
    let ghost children = event@.children;
    proof {
        event.lemma_children();
    }
    let mut before: usize = event.children.len();
    while before > 0
        invariant
            before <= event.children@.len(),
            children == event@.children,
            children.len() == event.children@.len(),
            literal_of(event@) == literal_from(children, before as int),
        decreases before,
    {
        proof {
            event.child_view(before - 1);
        }
        let child = &event.children[before - 1];
        match child.rule {
            Rule::NumberLiteral => {
                return handle_number_literal(child);
            },
            Rule::StringLiteral => {
                return handle_string_literal(child);
            },
            Rule::BooleanLiteral => {
                return handle_boolean_literal(child);
            },
            _ => {},
        }
        before -= 1;
    }
    String::new()
}

/// Builds a prefix expression. Nothing of it is read yet: the result is the
/// empty value.
pub fn handle_prefix_expression(event: &ParseEvent) -> (affix: AffixExpression)
    ensures
        affix@ == AffixExpressionView::empty(),
{
    AffixExpression::default()
}

/// Builds a postfix expression. Nothing of it is read yet: the result is the
/// empty value.
pub fn handle_postfix_expression(event: &ParseEvent) -> (affix: AffixExpression)
    ensures
        affix@ == AffixExpressionView::empty(),
{
    AffixExpression::default()
}

/// Builds the arguments of an argument-list event.
pub fn handle_args_list(event: &ParseEvent) -> (result: Result<Vec<Argument>, GrammarViolation>)
    ensures
        built_arguments(result) == args_list_of(event@),
        match built_arguments(result) {
            Ok(arguments) => forall|i: int|
                0 <= i < arguments.len() ==> (#[trigger] arguments[i]).well_formed(),
            Err(_) => true,
        },
    decreases event,
{
    proof {
        lemma_args_from_is_well_formed(event@.children, event@.children.len() as int);
    }
    let ghost children = event@.children;
    proof {
        event.lemma_children();
    }
    let mut arguments: Vec<Argument> = Vec::new();
    let mut i: usize = 0;
    proof {
        lemma_arguments_view(arguments@);
    }
    assert(arguments_view(arguments@) =~= Seq::empty());
    while i < event.children.len()
        invariant
            i <= event.children@.len(),
            children == event@.children,
            children.len() == event.children@.len(),
            args_from(children, i as int) == Ok::<Seq<ArgumentView>, GrammarViolation>(
                arguments_view(arguments@),
            ),
        decreases event.children@.len() - i,
    {
        proof {
            event.child_view(i as int);
        }
        let child = &event.children[i];
        let ghost before = arguments_view(arguments@);
        match child.rule {
            Rule::Expression => {
                match handle_expression(child) {
                    Err(violation) => {
                        proof {
                            assert(args_from(children, i as int + 1) == Err::<
                                Seq<ArgumentView>,
                                GrammarViolation,
                            >(violation));
                            lemma_args_from_fail(children, i as int + 1, children.len() as int);
                        }
                        return Err(violation);
                    },
                    Ok(expression) => {
                        let argument = Argument {
                            argument_kind: ArgumentKind::Expression,
                            expression: Some(expression),
                            identifier: None,
                        };
                        let ghost pushed = argument;
                        assert(pushed@ == argument_expression(expression@));
                        proof {
                            lemma_arguments_view_push(arguments@, argument);
                        }
                        arguments.push(argument);
                    },
                }
            },
            Rule::Identifier => {
                let name = handle_identifier(child);
                let ghost text = name@;
                let argument = Argument {
                    argument_kind: ArgumentKind::Identifier,
                    expression: None,
                    identifier: Some(name),
                };
                let ghost pushed = argument;
                assert(pushed@ == argument_identifier(text));
                proof {
                    lemma_arguments_view_push(arguments@, argument);
                }
                arguments.push(argument);
            },
            _ => {},
        }
        i += 1;
    }
    Ok(arguments)
}

/// Builds an [`Expression`] from an expression event.
pub fn handle_expression(event: &ParseEvent) -> (result: Result<Expression, GrammarViolation>)
    ensures
        built(result) == expression_of(event@),
        match result {
            Ok(node) => node@.well_formed(),
            Err(_) => true,
        },
    decreases event,
{
    proof {
        lemma_expression_is_well_formed(event@);
    }
    let ghost children = event@.children;
    proof {
        event.lemma_children();
    }
    let mut before: usize = event.children.len();
    while before > 0
        invariant
            before <= event.children@.len(),
            children == event@.children,
            children.len() == event.children@.len(),
            expression_from(children, children.len() as int) == expression_from(
                children,
                before as int,
            ),
        decreases before,
    {
        proof {
            event.child_view(before - 1);
        }
        let child = &event.children[before - 1];
        match child.rule {
            Rule::BinaryExpression => {
                return match handle_binary_expression(child) {
                    Err(violation) => Err(violation),
                    Ok(binary) => Ok(
                        Expression {
                            expression_kind: ExpressionKind::Binary,
                            binary_expression: Some(binary),
                            unary_expression: None,
                            prefix_expression: None,
                            postfix_expression: None,
                            member_access: None,
                        },
                    ),
                };
            },
            Rule::UnaryExpression => {
                return match handle_unary_expression(child) {
                    Err(violation) => Err(violation),
                    Ok(unary) => Ok(
                        Expression {
                            expression_kind: ExpressionKind::Unary,
                            binary_expression: None,
                            unary_expression: Some(unary),
                            prefix_expression: None,
                            postfix_expression: None,
                            member_access: None,
                        },
                    ),
                };
            },
            Rule::PrefixExpression => {
                return Ok(
                    Expression {
                        expression_kind: ExpressionKind::Prefix,
                        binary_expression: None,
                        unary_expression: None,
                        prefix_expression: Some(handle_prefix_expression(child)),
                        postfix_expression: None,
                        member_access: None,
                    },
                );
            },
            Rule::PostfixExpression => {
                return Ok(
                    Expression {
                        expression_kind: ExpressionKind::Postfix,
                        binary_expression: None,
                        unary_expression: None,
                        prefix_expression: None,
                        postfix_expression: Some(handle_postfix_expression(child)),
                        member_access: None,
                    },
                );
            },
            Rule::MemberAccess => {
                return match handle_member_access(child) {
                    Err(violation) => Err(violation),
                    Ok(member) => Ok(
                        Expression {
                            expression_kind: ExpressionKind::MemberAccess,
                            binary_expression: None,
                            unary_expression: None,
                            prefix_expression: None,
                            postfix_expression: None,
                            member_access: Some(member),
                        },
                    ),
                };
            },
            _ => {},
        }
        before -= 1;
    }
    Err(GrammarViolation { rule: event.rule })
}

/// Builds a [`UnaryExpression`] from a unary-expression event.
pub fn handle_unary_expression(event: &ParseEvent) -> (result: Result<
    UnaryExpression,
    GrammarViolation,
>)
    ensures
        built(result) == unary_of(event@),
        match result {
            Ok(node) => node@.well_formed(),
            Err(_) => true,
        },
    decreases event,
{
    proof {
        lemma_unary_is_well_formed(event@);
    }
    let ghost children = event@.children;
    proof {
        event.lemma_children();
    }
    let mut before: usize = event.children.len();
    while before > 0
        invariant
            before <= event.children@.len(),
            children == event@.children,
            children.len() == event.children@.len(),
            unary_from(children, children.len() as int) == unary_from(children, before as int),
        decreases before,
    {
        proof {
            event.child_view(before - 1);
        }
        let child = &event.children[before - 1];
        match child.rule {
            Rule::Identifier => {
                return Ok(
                    UnaryExpression {
                        kind: UnaryExpressionKind::Identifier,
                        string_value: Some(handle_identifier(child)),
                        function_call: None,
                        expression: None,
                    },
                );
            },
            Rule::Literal => {
                return Ok(
                    UnaryExpression {
                        kind: UnaryExpressionKind::Literal,
                        string_value: Some(handle_literal(child)),
                        function_call: None,
                        expression: None,
                    },
                );
            },
            Rule::FunctionCall => {
                return match handle_function_call(child) {
                    Err(violation) => Err(violation),
                    Ok(call) => Ok(
                        UnaryExpression {
                            kind: UnaryExpressionKind::FunctionCall,
                            string_value: None,
                            function_call: Some(call),
                            expression: None,
                        },
                    ),
                };
            },
            Rule::Expression => {
                return match handle_expression(child) {
                    Err(violation) => Err(violation),
                    Ok(inner) => Ok(
                        UnaryExpression {
                            kind: UnaryExpressionKind::Expression,
                            string_value: None,
                            function_call: None,
                            expression: Some(Box::new(inner)),
                        },
                    ),
                };
            },
            _ => {},
        }
        before -= 1;
    }
    Err(GrammarViolation { rule: event.rule })
}

/// The index of the first child of `event` with the given rule at or after
/// `from`.
pub fn find_first_from(event: &ParseEvent, rule: Rule, from: usize) -> (found: Option<usize>)
    requires
        from <= event.children@.len(),
    ensures
        match found {
            Some(index) => index < event.children@.len() && first_with_rule_from(
                event@.children,
                rule,
                from as int,
            ) == Some(index as int),
            None => first_with_rule_from(event@.children, rule, from as int).is_none(),
        },
{
    let ghost children = event@.children;
    proof {
        event.lemma_children();
    }
    let mut at: usize = from;
    while at < event.children.len()
        invariant
            from <= at <= event.children@.len(),
            children == event@.children,
            children.len() == event.children@.len(),
            first_with_rule_from(children, rule, from as int) == first_with_rule_from(
                children,
                rule,
                at as int,
            ),
        decreases event.children@.len() - at,
    {
        proof {
            event.child_view(at as int);
        }
        if event.children[at].rule == rule {
            return Some(at);
        }
        at += 1;
    }
    None
}

/// Builds a [`BinaryExpression`] from a binary-expression event.
pub fn handle_binary_expression(event: &ParseEvent) -> (result: Result<
    BinaryExpression,
    GrammarViolation,
>)
    ensures
        built(result) == binary_of(event@),
        match result {
            Ok(node) => node@.well_formed(),
            Err(_) => true,
        },
    decreases event,
{
    proof {
        lemma_binary_is_well_formed(event@);
    }
    proof {
        event.lemma_children();
    }
    let count = event.children.len();
    let left = match find_first_from(event, Rule::UnaryExpression, 0) {
        Some(left) => left,
        None => {
            return Err(GrammarViolation { rule: event.rule });
        },
    };
    let right = match find_first_from(event, Rule::UnaryExpression, left + 1) {
        Some(right) => right,
        None => {
            return Err(GrammarViolation { rule: event.rule });
        },
    };
    proof {
        event.child_view(left as int);
        event.child_view(right as int);
    }
    let first_term = match handle_unary_expression(&event.children[left]) {
        Err(violation) => {
            return Err(violation);
        },
        Ok(first_term) => first_term,
    };
    let second_term = match handle_unary_expression(&event.children[right]) {
        Err(violation) => {
            return Err(violation);
        },
        Ok(second_term) => second_term,
    };
    let operator = first_text(event, Rule::BinaryOperator);
    Ok(BinaryExpression { first_term, operator, second_term })
}

/// Builds a [`FunctionCall`] from a function-call event.
pub fn handle_function_call(event: &ParseEvent) -> (result: Result<FunctionCall, GrammarViolation>)
    ensures
        built(result) == function_call_of(event@),
        match result {
            Ok(node) => node@.well_formed(),
            Err(_) => true,
        },
    decreases event,
{
    proof {
        lemma_function_call_is_well_formed(event@);
    }
    proof {
        event.lemma_children();
    }
    let args_list = match find_last(event, Rule::ArgList) {
        Some(found) => {
            proof {
                event.child_view(found as int);
            }
            match handle_args_list(&event.children[found]) {
                Err(violation) => {
                    return Err(violation);
                },
                Ok(args_list) => args_list,
            }
        },
        None => {
            let args_list: Vec<Argument> = Vec::new();
            proof {
                lemma_arguments_view(args_list@);
            }
            assert(arguments_view(args_list@) =~= Seq::empty());
            args_list
        },
    };
    let call = FunctionCall {
        identifier: last_text(event, Rule::Identifier),
        type_arguments: Vec::new(),
        args_list,
    };
    proof {
        lemma_types_view(call.type_arguments@);
    }
    assert(types_view(call.type_arguments@) =~= Seq::empty());
    Ok(call)
}

/// Builds the call of a method-call event.
pub fn handle_method_call(event: &ParseEvent) -> (result: Result<FunctionCall, GrammarViolation>)
    ensures
        built(result) == method_call_of(event@),
    decreases event,
{
    proof {
        event.lemma_children();
    }
    if event.children.len() == 0 {
        return Err(GrammarViolation { rule: event.rule });
    }
    proof {
        event.child_view(0);
    }
    handle_function_call(&event.children[0])
}

/// The receiver of a member-access event.
fn handle_receiver(event: &ParseEvent) -> (result: Result<String, GrammarViolation>)
    ensures
        match result {
            Ok(parent) => receiver_of(event@.children) == Ok::<Seq<char>, GrammarViolation>(
                parent@,
            ),
            Err(violation) => receiver_of(event@.children) == Err::<Seq<char>, GrammarViolation>(
                violation,
            ),
        },
    decreases event, 0int,
{
    proof {
        event.lemma_children();
    }
    match find_last(event, Rule::UnaryExpression) {
        Some(found) => {
            proof {
                event.child_view(found as int);
            }
            let child = &event.children[found];
            match handle_unary_expression(child) {
                Err(violation) => Err(violation),
                Ok(unary) => match unary.string_value {
                    Some(text) => Ok(text),
                    None => Err(GrammarViolation { rule: child.rule }),
                },
            }
        },
        None => Ok(String::new()),
    }
}

/// Builds a [`MemberAccess`] from a member-access event.
pub fn handle_member_access(event: &ParseEvent) -> (result: Result<MemberAccess, GrammarViolation>)
    ensures
        built(result) == member_access_of(event@),
        match result {
            Ok(node) => node@.well_formed(),
            Err(_) => true,
        },
    decreases event, 1int,
{
    proof {
        lemma_member_access_is_well_formed(event@);
    }
    proof {
        event.lemma_children();
    }
    let parent = match handle_receiver(event) {
        Err(violation) => {
            return Err(violation);
        },
        Ok(parent) => parent,
    };
    match find_last(event, Rule::MethodCall) {
        Some(found) => {
            proof {
                event.child_view(found as int);
            }
            match handle_method_call(&event.children[found]) {
                Err(violation) => Err(violation),
                Ok(call) => {
                    let FunctionCall { identifier, type_arguments: _, args_list } = call;
                    let member = MemberAccess {
                        parent,
                        identifier,
                        kind: MemberAccessKind::Method,
                        args_list,
                        type_arguments: None,
                    };
                    Ok(member)
                },
            }
        },
        None => {
            let member = MemberAccess {
                parent,
                identifier: last_text(event, Rule::Identifier),
                kind: MemberAccessKind::Property,
                args_list: Vec::new(),
                type_arguments: None,
            };
            proof {
                lemma_arguments_view(member.args_list@);
            }
            assert(arguments_view(member.args_list@) =~= Seq::empty());
            Ok(member)
        },
    }
}

/// The initial value of a variable: the expression of the first child of its
/// last definition child, or none where it has no definition child. A
/// definition without children is a violation.
pub open spec fn definition_of(children: Seq<ParseEventView>) -> Result<
    Option<ExpressionView>,
    GrammarViolation,
> {
    match last_with_rule(children, Rule::Definition) {
        Some(found) => if children[found].children.len() == 0 {
            Err(GrammarViolation { rule: children[found].rule })
        } else {
            match expression_of(children[found].children[0]) {
                Err(violation) => Err(violation),
                Ok(expression) => Ok(Some(expression)),
            }
        },
        None => Ok(None),
    }
}

/// The declared type of a variable: the type of its last type child, or the
/// empty type where it has no type child.
pub open spec fn declared_type_of(children: Seq<ParseEventView>) -> Result<
    TypeView,
    GrammarViolation,
> {
    match last_with_rule(children, Rule::Type) {
        Some(found) => type_of(children[found]),
        None => Ok(TypeView::empty()),
    }
}

/// The variable that a variable-declaration event stands for: its declared
/// type, the text of its last identifier child as its name, and its initial
/// value. The type is looked at first.
pub open spec fn var_declaration_of(event: ParseEventView) -> Result<
    VarDeclarationView,
    GrammarViolation,
> {
    match declared_type_of(event.children) {
        Err(violation) => Err(violation),
        Ok(type_def) => match definition_of(event.children) {
            Err(violation) => Err(violation),
            Ok(definition) => Ok(
                VarDeclarationView {
                    type_def,
                    identifier: text_of_last(event.children, Rule::Identifier),
                    definition,
                },
            ),
        },
    }
}

/// A declaration of the given kind that carries nothing.
pub open spec fn bare_declaration(kind: DeclarationKind) -> DeclarationView {
    DeclarationView {
        declaration_kind: kind,
        const_declaration: None,
        var_declaration: None,
        class_declaration: None,
        function_declaration: None,
        interface_declaration: None,
    }
}

/// A declaration of a variable.
pub open spec fn declaration_var(variable: VarDeclarationView) -> DeclarationView {
    DeclarationView {
        declaration_kind: DeclarationKind::Var,
        const_declaration: None,
        var_declaration: Some(variable),
        class_declaration: None,
        function_declaration: None,
        interface_declaration: None,
    }
}

/// Scanning backward from `before`: the declaration that the last child with
/// the tag of a variable, constant, class, function or interface declaration
/// stands for; `None` where no child has such a tag.
pub open spec fn declaration_from(children: Seq<ParseEventView>, before: int) -> Option<
    Result<DeclarationView, GrammarViolation>,
>
    decreases before,
{
    if before <= 0 || before > children.len() {
        None
    } else {
        let child = children[before - 1];
        match child.rule {
            Rule::VarDeclaration => Some(
                match var_declaration_of(child) {
                    Err(violation) => Err(violation),
                    Ok(variable) => Ok(declaration_var(variable)),
                },
            ),
            Rule::ConstDeclaration => Some(Ok(bare_declaration(DeclarationKind::Const))),
            Rule::ClassDeclaration => Some(Ok(bare_declaration(DeclarationKind::Class))),
            Rule::FunctionDeclaration => Some(Ok(bare_declaration(DeclarationKind::Function))),
            Rule::InterfaceDeclaration => Some(Ok(bare_declaration(DeclarationKind::Interface))),
            _ => declaration_from(children, before - 1),
        }
    }
}

/// The declaration that a declaration event stands for: what its last child
/// with the tag of a declaration form stands for. A variable is built in full;
/// the other forms give their kind and nothing more. An event without such a
/// child is a violation.
pub open spec fn declaration_of(event: ParseEventView) -> Result<
    DeclarationView,
    GrammarViolation,
> {
    match declaration_from(event.children, event.children.len() as int) {
        Some(result) => result,
        None => Err(GrammarViolation { rule: event.rule }),
    }
}

/// The module that an import event stands for. The text of its first child is
/// the dotted path; the path's first segment is the parent and its last
/// segment the name, so a path of one segment has that segment as both. An
/// event without children is a violation.
pub open spec fn import_of(event: ParseEventView) -> Result<ImportedModuleView, GrammarViolation> {
    if event.children.len() == 0 {
        Err(GrammarViolation { rule: event.rule })
    } else {
        let path = event.children[0].text;
        Ok(
            ImportedModuleView {
                parent: first_segment(path),
                name: last_segment(path),
                full_path: path,
            },
        )
    }
}

/// Builds an [`ImportedModule`] from an import event.
pub fn handle_import_stmt(event: &ParseEvent) -> (result: Result<ImportedModule, GrammarViolation>)
    ensures
        built(result) == import_of(event@),
{
    proof {
        event.lemma_children();
    }
    if event.children.len() == 0 {
        return Err(GrammarViolation { rule: event.rule });
    }
    proof {
        event.child_view(0);
    }
    let path = &event.children[0].text;
    Ok(
        ImportedModule {
            parent: first_segment_of(path.as_str()),
            name: last_segment_of(path.as_str()),
            full_path: path.clone(),
        },
    )
}

/// The declared type of a variable-declaration event.
fn handle_declared_type(event: &ParseEvent) -> (result: Result<Type, GrammarViolation>)
    ensures
        built(result) == declared_type_of(event@.children),
{
    match find_last(event, Rule::Type) {
        Some(found) => {
            proof {
                event.child_view(found as int);
            }
            handle_type(&event.children[found])
        },
        None => Ok(Type::default()),
    }
}

/// The initial value of a variable-declaration event.
fn handle_definition(event: &ParseEvent) -> (result: Result<Option<Expression>, GrammarViolation>)
    ensures
        match result {
            Ok(Some(expression)) => definition_of(event@.children) == Ok::<
                Option<ExpressionView>,
                GrammarViolation,
            >(Some(expression@)),
            Ok(None) => definition_of(event@.children) == Ok::<
                Option<ExpressionView>,
                GrammarViolation,
            >(None),
            Err(violation) => definition_of(event@.children) == Err::<
                Option<ExpressionView>,
                GrammarViolation,
            >(violation),
        },
{
    match find_last(event, Rule::Definition) {
        Some(found) => {
            proof {
                event.child_view(found as int);
            }
            let definition = &event.children[found];
            proof {
                definition.lemma_children();
            }
            if definition.children.len() == 0 {
                return Err(GrammarViolation { rule: definition.rule });
            }
            proof {
                definition.child_view(0);
            }
            match handle_expression(&definition.children[0]) {
                Err(violation) => Err(violation),
                Ok(expression) => Ok(Some(expression)),
            }
        },
        None => Ok(None),
    }
}

/// Builds a [`VarDeclaration`] from a variable-declaration event.
pub fn handle_var_declaration(event: &ParseEvent) -> (result: Result<
    VarDeclaration,
    GrammarViolation,
>)
    ensures
        built(result) == var_declaration_of(event@),
        match result {
            Ok(node) => node@.well_formed(),
            Err(_) => true,
        },
{
    proof {
        lemma_var_declaration_is_well_formed(event@);
    }
    let type_def = match handle_declared_type(event) {
        Err(violation) => {
            return Err(violation);
        },
        Ok(type_def) => type_def,
    };
    let definition = match handle_definition(event) {
        Err(violation) => {
            return Err(violation);
        },
        Ok(definition) => definition,
    };
    Ok(VarDeclaration { type_def, identifier: last_text(event, Rule::Identifier), definition })
}

/// Builds a [`Declaration`] from a declaration event.
pub fn handle_declaration(event: &ParseEvent) -> (result: Result<Declaration, GrammarViolation>)
    ensures
        built(result) == declaration_of(event@),
        match result {
            Ok(node) => node@.well_formed(),
            Err(_) => true,
        },
{
    proof {
        lemma_declaration_is_well_formed(event@);
    }
    let ghost children = event@.children;
    proof {
        event.lemma_children();
    }
    let mut before: usize = event.children.len();
    while before > 0
        invariant
            before <= event.children@.len(),
            children == event@.children,
            children.len() == event.children@.len(),
            declaration_from(children, children.len() as int) == declaration_from(
                children,
                before as int,
            ),
        decreases before,
    {
        proof {
            event.child_view(before - 1);
        }
        let child = &event.children[before - 1];
        match child.rule {
            Rule::VarDeclaration => {
                return match handle_var_declaration(child) {
                    Err(violation) => Err(violation),
                    Ok(variable) => Ok(
                        Declaration {
                            declaration_kind: DeclarationKind::Var,
                            const_declaration: None,
                            var_declaration: Some(variable),
                            class_declaration: None,
                            function_declaration: None,
                            interface_declaration: None,
                        },
                    ),
                };
            },
            Rule::ConstDeclaration => {
                return Ok(bare(DeclarationKind::Const));
            },
            Rule::ClassDeclaration => {
                return Ok(bare(DeclarationKind::Class));
            },
            Rule::FunctionDeclaration => {
                return Ok(bare(DeclarationKind::Function));
            },
            Rule::InterfaceDeclaration => {
                return Ok(bare(DeclarationKind::Interface));
            },
            _ => {},
        }
        before -= 1;
    }
    Err(GrammarViolation { rule: event.rule })
}

/// A declaration of the given kind that carries nothing.
fn bare(kind: DeclarationKind) -> (declaration: Declaration)
    ensures
        declaration@ == bare_declaration(kind),
{
    Declaration {
        declaration_kind: kind,
        const_declaration: None,
        var_declaration: None,
        class_declaration: None,
        function_declaration: None,
        interface_declaration: None,
    }
}

/// What the scan for an expression finds is well formed.
pub proof fn lemma_expression_from_is_well_formed(children: Seq<ParseEventView>, before: int)
    ensures
        match expression_from(children, before) {
            Some(Ok(expression)) => expression.well_formed(),
            _ => true,
        },
    decreases children, before,
{
    if 0 < before <= children.len() {
        let child = children[before - 1];
        match child.rule {
            Rule::BinaryExpression => {
                lemma_binary_is_well_formed(child);
            },
            Rule::UnaryExpression => {
                lemma_unary_is_well_formed(child);
            },
            Rule::PrefixExpression => {},
            Rule::PostfixExpression => {},
            Rule::MemberAccess => {
                lemma_member_access_is_well_formed(child);
            },
            _ => {
                lemma_expression_from_is_well_formed(children, before - 1);
            },
        }
    }
}

/// A built expression has exactly one payload, the one its kind names, and
/// so has every expression inside it.
pub proof fn lemma_expression_is_well_formed(event: ParseEventView)
    ensures
        match expression_of(event) {
            Ok(expression) => expression.well_formed(),
            Err(_) => true,
        },
    decreases event,
{
    lemma_expression_from_is_well_formed(event.children, event.children.len() as int);
}

/// What the scan for a unary expression finds is well formed.
pub proof fn lemma_unary_from_is_well_formed(children: Seq<ParseEventView>, before: int)
    ensures
        match unary_from(children, before) {
            Some(Ok(unary)) => unary.well_formed(),
            _ => true,
        },
    decreases children, before,
{
    if 0 < before <= children.len() {
        let child = children[before - 1];
        match child.rule {
            Rule::Identifier => {},
            Rule::Literal => {},
            Rule::FunctionCall => {
                lemma_function_call_is_well_formed(child);
            },
            Rule::Expression => {
                lemma_expression_is_well_formed(child);
            },
            _ => {
                lemma_unary_from_is_well_formed(children, before - 1);
            },
        }
    }
}

/// A built unary expression has the payload that its kind names and no other.
pub proof fn lemma_unary_is_well_formed(event: ParseEventView)
    ensures
        match unary_of(event) {
            Ok(unary) => unary.well_formed(),
            Err(_) => true,
        },
    decreases event,
{
    lemma_unary_from_is_well_formed(event.children, event.children.len() as int);
}

/// The operands of a built binary expression are well formed.
pub proof fn lemma_binary_is_well_formed(event: ParseEventView)
    ensures
        match binary_of(event) {
            Ok(binary) => binary.well_formed(),
            Err(_) => true,
        },
    decreases event,
{
    let children = event.children;
    match first_with_rule_from(children, Rule::UnaryExpression, 0) {
        Some(left) => {
            if 0 <= left < children.len() {
                lemma_unary_is_well_formed(children[left]);
                match first_with_rule_from(children, Rule::UnaryExpression, left + 1) {
                    Some(right) => {
                        if 0 <= right < children.len() {
                            lemma_unary_is_well_formed(children[right]);
                        }
                    },
                    None => {},
                }
            }
        },
        None => {},
    }
}

/// The arguments built from the first `count` children are well formed.
pub proof fn lemma_args_from_is_well_formed(children: Seq<ParseEventView>, count: int)
    ensures
        match args_from(children, count) {
            Ok(arguments) => forall|i: int|
                0 <= i < arguments.len() ==> (#[trigger] arguments[i]).well_formed(),
            Err(_) => true,
        },
    decreases children, count,
{
    if 0 < count <= children.len() {
        lemma_args_from_is_well_formed(children, count - 1);
        if children[count - 1].rule == Rule::Expression {
            lemma_expression_is_well_formed(children[count - 1]);
        }
    }
}

/// The arguments of a built call are well formed.
pub proof fn lemma_function_call_is_well_formed(event: ParseEventView)
    ensures
        match function_call_of(event) {
            Ok(call) => call.well_formed(),
            Err(_) => true,
        },
    decreases event,
{
    let children = event.children;
    match last_with_rule(children, Rule::ArgList) {
        Some(found) => {
            if 0 <= found < children.len() {
                lemma_args_from_is_well_formed(
                    children[found].children,
                    children[found].children.len() as int,
                );
            }
        },
        None => {},
    }
}

/// The arguments of a built member access are well formed, and a property has
/// none.
pub proof fn lemma_member_access_is_well_formed(event: ParseEventView)
    ensures
        match member_access_of(event) {
            Ok(member) => member.well_formed(),
            Err(_) => true,
        },
    decreases event,
{
    let children = event.children;
    match last_with_rule(children, Rule::MethodCall) {
        Some(found) => {
            if 0 <= found < children.len() && children[found].children.len() > 0 {
                lemma_function_call_is_well_formed(children[found].children[0]);
            }
        },
        None => {},
    }
}

/// A built variable declaration is well formed.
pub proof fn lemma_var_declaration_is_well_formed(event: ParseEventView)
    ensures
        match var_declaration_of(event) {
            Ok(variable) => variable.well_formed(),
            Err(_) => true,
        },
{
    let children = event.children;
    lemma_last_with_rule_before(children, Rule::Definition, children.len() as int);
    match last_with_rule(children, Rule::Definition) {
        Some(found) => {
            if children[found].children.len() > 0 {
                lemma_expression_is_well_formed(children[found].children[0]);
            }
        },
        None => {},
    }
}

/// What the scan for a declaration finds is well formed.
pub proof fn lemma_declaration_from_is_well_formed(children: Seq<ParseEventView>, before: int)
    ensures
        match declaration_from(children, before) {
            Some(Ok(declaration)) => declaration.well_formed(),
            _ => true,
        },
    decreases before,
{
    if 0 < before <= children.len() {
        let child = children[before - 1];
        match child.rule {
            Rule::VarDeclaration => {
                lemma_var_declaration_is_well_formed(child);
            },
            Rule::ConstDeclaration => {},
            Rule::ClassDeclaration => {},
            Rule::FunctionDeclaration => {},
            Rule::InterfaceDeclaration => {},
            _ => {
                lemma_declaration_from_is_well_formed(children, before - 1);
            },
        }
    }
}

/// A built declaration carries a payload exactly where it declares a variable.
pub proof fn lemma_declaration_is_well_formed(event: ParseEventView)
    ensures
        match declaration_of(event) {
            Ok(declaration) => declaration.well_formed(),
            Err(_) => true,
        },
{
    lemma_declaration_from_is_well_formed(event.children, event.children.len() as int);
}

/// Building is repeatable. A builder whose contract gives its result as a
/// function of the event's view returns, for two events with the same view,
/// nodes with the same view, or the same violation. In particular, building
/// twice from one event gives structurally equal nodes. This holds of every
/// builder here: `of` stands for `expression_of`, `unary_of`, `binary_of`,
/// `function_call_of`, `method_call_of`, `member_access_of`, `type_of`,
/// `var_declaration_of`, `declaration_of` or `import_of`.
pub proof fn lemma_building_repeats<T: View>(
    of: spec_fn(ParseEventView) -> Result<T::V, GrammarViolation>,
    first_event: ParseEvent,
    second_event: ParseEvent,
    first: Result<T, GrammarViolation>,
    second: Result<T, GrammarViolation>,
)
    requires
        first_event@ == second_event@,
        built(first) == of(first_event@),
        built(second) == of(second_event@),
    ensures
        built(first) == built(second),
{
}

/// Building an expression twice from one event gives structurally equal
/// expressions, or the same violation twice.
pub proof fn lemma_expression_build_repeats(
    event: ParseEvent,
    first: Result<Expression, GrammarViolation>,
    second: Result<Expression, GrammarViolation>,
)
    requires
        built(first) == expression_of(event@),
        built(second) == expression_of(event@),
    ensures
        built(first) == built(second),
{
}

/// Building an argument list twice from one event gives structurally equal
/// lists, or the same violation twice.
pub proof fn lemma_args_list_build_repeats(
    event: ParseEvent,
    first: Result<Vec<Argument>, GrammarViolation>,
    second: Result<Vec<Argument>, GrammarViolation>,
)
    requires
        built_arguments(first) == args_list_of(event@),
        built_arguments(second) == args_list_of(event@),
    ensures
        built_arguments(first) == built_arguments(second),
{
}

/// An expression event whose one child is a unary expression whose one child
/// is an identifier builds the unary expression of that name: the kind is
/// `Identifier` and the string value is the identifier's source text.
pub proof fn lemma_expression_of_identifier(event: ParseEventView)
    requires
        event.children.len() == 1,
        event.children[0].rule == Rule::UnaryExpression,
        event.children[0].children.len() == 1,
        event.children[0].children[0].rule == Rule::Identifier,
    ensures
        expression_of(event) == Ok::<ExpressionView, GrammarViolation>(
            expression_unary(unary_identifier(event.children[0].children[0].text)),
        ),
{
    let unary = event.children[0];
    assert(unary_from(unary.children, 1) == Some(
        Ok::<UnaryExpressionView, GrammarViolation>(unary_identifier(unary.children[0].text)),
    ));
    assert(unary_of(unary) == Ok::<UnaryExpressionView, GrammarViolation>(
        unary_identifier(unary.children[0].text),
    ));
    assert(expression_from(event.children, 1) == Some(
        Ok::<ExpressionView, GrammarViolation>(
            expression_unary(unary_identifier(unary.children[0].text)),
        ),
    ));
}

/// An import of a path that starts with a segment and a `.` has that segment
/// as its parent: `import a.b.c.D;` has the parent `a`. The full path is the
/// path as written.
pub proof fn lemma_import_parent(event: ParseEventView, head: Seq<char>, rest: Seq<char>)
    requires
        event.children.len() > 0,
        dot_free(head),
        event.children[0].text == head + seq!['.'] + rest,
    ensures
        match import_of(event) {
            Ok(module) => module.parent == head && module.full_path == event.children[0].text,
            Err(_) => false,
        },
{
    lemma_first_segment_of_joined(head, rest);
}

/// An import of a path that ends with a `.` and a segment has that segment as
/// its name: `import a.b.c.D;` has the name `D`.
pub proof fn lemma_import_name(event: ParseEventView, rest: Seq<char>, tail: Seq<char>)
    requires
        event.children.len() > 0,
        dot_free(tail),
        event.children[0].text == rest + seq!['.'] + tail,
    ensures
        match import_of(event) {
            Ok(module) => module.name == tail,
            Err(_) => false,
        },
{
    lemma_last_segment_of_joined(rest, tail);
}

} // verus!
