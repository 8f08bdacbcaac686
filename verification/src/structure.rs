//! The syntax tree: one plain data type per kind of node, each with an empty
//! value to start from and a mathematical view that contracts speak of.
//!
//! A node owns its children. Several nodes are tagged: a kind field says which
//! of the optional payload fields is filled. The `well_formed` predicates of the
//! views state that pairing; the empty values are accumulators and need not
//! satisfy it.
use vstd::prelude::*;

verus! {

/// Takes the value out of its box.
pub fn unbox<T>(value: Box<T>) -> (inner: T)
    ensures
        inner == *value,
{
    *value
}

/// How a member is reached: read as a property or called as a method.
#[derive(Clone, Copy, Debug, PartialEq, Eq, Structural)]
pub enum MemberAccessKind {
    Property,
    Method,
}

impl Default for MemberAccessKind {
    fn default() -> (kind: MemberAccessKind)
        ensures
            kind == MemberAccessKind::Property,
    {
        MemberAccessKind::Property
    }
}

/// Which payload of an [`Argument`] is filled.
#[derive(Clone, Copy, Debug, PartialEq, Eq, Structural)]
pub enum ArgumentKind {
    Expression,
    Identifier,
}

impl Default for ArgumentKind {
    fn default() -> (kind: ArgumentKind)
        ensures
            kind == ArgumentKind::Expression,
    {
        ArgumentKind::Expression
    }
}

/// Which payload of an [`Expression`] is filled.
#[derive(Clone, Copy, Debug, PartialEq, Eq, Structural)]
pub enum ExpressionKind {
    Unary,
    Binary,
    Prefix,
    Postfix,
    MemberAccess,
}

impl Default for ExpressionKind {
    fn default() -> (kind: ExpressionKind)
        ensures
            kind == ExpressionKind::Unary,
    {
        ExpressionKind::Unary
    }
}

/// Which payload of a [`UnaryExpression`] is filled.
#[derive(Clone, Copy, Debug, PartialEq, Eq, Structural)]
pub enum UnaryExpressionKind {
    Identifier,
    Literal,
    FunctionCall,
    Expression,
}

impl Default for UnaryExpressionKind {
    fn default() -> (kind: UnaryExpressionKind)
        ensures
            kind == UnaryExpressionKind::Identifier,
    {
        UnaryExpressionKind::Identifier
    }
}

/// Visibility of a declared item.
#[derive(Clone, Copy, Debug, PartialEq, Eq, Structural)]
pub enum AccessModifier {
    Public,
    Private,
    Protected,
}

impl Default for AccessModifier {
    fn default() -> (modifier: AccessModifier)
        ensures
            modifier == AccessModifier::Private,
    {
        AccessModifier::Private
    }
}

/// The shape of a type expression.
#[derive(Clone, Copy, Debug, PartialEq, Eq, Structural)]
pub enum TypeKind {
    Builtin,
    Simple,
    Generic,
    TypeArray,
}

impl Default for TypeKind {
    fn default() -> (kind: TypeKind)
        ensures
            kind == TypeKind::Simple,
    {
        TypeKind::Simple
    }
}

/// Whether a `for` statement counts or walks a collection.
#[derive(Clone, Copy, Debug, PartialEq, Eq, Structural)]
pub enum ForStatementKind {
    Conditional,
    Iterator,
}

impl Default for ForStatementKind {
    fn default() -> (kind: ForStatementKind)
        ensures
            kind == ForStatementKind::Conditional,
    {
        ForStatementKind::Conditional
    }
}

/// Which payload of a [`Statement`] is filled.
#[derive(Clone, Copy, Debug, PartialEq, Eq, Structural)]
pub enum StatementKind {
    Expression,
    AsyncExpression,
    ConstDeclaration,
    VarDeclaration,
    Block,
    IfStmt,
    WhileStmt,
    ForStmt,
}

impl Default for StatementKind {
    fn default() -> (kind: StatementKind)
        ensures
            kind == StatementKind::Expression,
    {
        StatementKind::Expression
    }
}

/// Which branches an `if` statement has.
#[derive(Clone, Copy, Debug, PartialEq, Eq, Structural)]
pub enum IfStatementKind {
    Open,
    Closed,
    Double,
}

impl Default for IfStatementKind {
    fn default() -> (kind: IfStatementKind)
        ensures
            kind == IfStatementKind::Double,
    {
        IfStatementKind::Double
    }
}

/// What a scope belongs to.
#[derive(Clone, Copy, Debug, PartialEq, Eq, Structural)]
pub enum ScopeType {
    Global,
    ClassDeclaration,
    FunctionDeclaration,
}

impl Default for ScopeType {
    fn default() -> (scope: ScopeType)
        ensures
            scope == ScopeType::Global,
    {
        ScopeType::Global
    }
}

/// What a [`Declaration`] declares.
#[derive(Clone, Copy, Debug, PartialEq, Eq, Structural)]
pub enum DeclarationKind {
    Var,
    Const,
    Class,
    Interface,
    Function,
}

impl Default for DeclarationKind {
    fn default() -> (kind: DeclarationKind)
        ensures
            kind == DeclarationKind::Var,
    {
        DeclarationKind::Var
    }
}

/// The modules that a compilation unit has imported, in the order of their
/// `import` statements. Nothing is removed and nothing is merged.
#[derive(Debug, PartialEq, Eq)]
pub struct ImportedModules {
    pub modules: Vec<ImportedModule>,
}

/// One imported module: the dotted path as written, its first segment and its
/// last segment.
#[derive(Debug, PartialEq, Eq)]
pub struct ImportedModule {
    pub parent: String,
    pub name: String,
    pub full_path: String,
}

/// A member reached through a receiver: `receiver.member` or
/// `receiver.member(arguments)`.
#[derive(Debug, PartialEq, Eq)]
pub struct MemberAccess {
    pub parent: String,
    pub identifier: String,
    pub kind: MemberAccessKind,
    pub args_list: Vec<Argument>,
    pub type_arguments: Option<Vec<Type>>,
}

/// One argument of a call: an expression or a bare name.
#[derive(Debug, PartialEq, Eq)]
pub struct Argument {
    pub argument_kind: ArgumentKind,
    pub expression: Option<Expression>,
    pub identifier: Option<String>,
}

/// A call of a free function.
#[derive(Debug, PartialEq, Eq)]
pub struct FunctionCall {
    pub identifier: String,
    pub type_arguments: Vec<Type>,
    pub args_list: Vec<Argument>,
}

/// Two operands joined by one operator. One level only: an operand is never
/// itself a binary expression.
#[derive(Debug, PartialEq, Eq)]
pub struct BinaryExpression {
    pub first_term: UnaryExpression,
    pub operator: String,
    pub second_term: UnaryExpression,
}

/// An expression: exactly one of the payloads, named by `expression_kind`.
#[derive(Debug, PartialEq, Eq)]
pub struct Expression {
    pub expression_kind: ExpressionKind,
    pub binary_expression: Option<BinaryExpression>,
    pub unary_expression: Option<UnaryExpression>,
    pub prefix_expression: Option<AffixExpression>,
    pub postfix_expression: Option<AffixExpression>,
    pub member_access: Option<MemberAccess>,
}

/// An increment or decrement written before or after a name.
#[derive(Debug, PartialEq, Eq)]
pub struct AffixExpression {
    pub operator: String,
    pub identifier: String,
}

/// A single operand: a name, a literal in its source text, a call, or an
/// expression in parentheses. `kind` names the payload.
#[derive(Debug, PartialEq, Eq)]
pub struct UnaryExpression {
    pub kind: UnaryExpressionKind,
    pub string_value: Option<String>,
    pub function_call: Option<FunctionCall>,
    pub expression: Option<Box<Expression>>,
}

/// A variable with its type and, where given, its initial value.
#[derive(Debug, PartialEq, Eq)]
pub struct VarDeclaration {
    pub type_def: Type,
    pub identifier: String,
    pub definition: Option<Expression>,
}

/// A constant with its value.
#[derive(Debug, PartialEq, Eq)]
pub struct ConstDeclaration {
    pub access_modifier: AccessModifier,
    pub type_identifier: String,
    pub identifier: String,
    pub definition: Expression,
}

/// A function with its parameters, body and return type.
#[derive(Debug, PartialEq, Eq)]
pub struct FunctionDeclaration {
    pub access_modifier: AccessModifier,
    pub is_async: bool,
    pub identifier: String,
    pub type_arguments: Vec<Type>,
    pub parameter_list: Vec<Parameter>,
    pub block: Block,
    pub return_type: Type,
}

/// One parameter of a function, method or constructor.
#[derive(Debug, PartialEq, Eq)]
pub struct Parameter {
    pub identifier: String,
    pub type_identifier: String,
    pub type_class: ClassDeclaration,
}

/// A type expression: a plain name, a generic with its parameter names in
/// order, or an array of either.
#[derive(Debug, PartialEq, Eq)]
pub struct Type {
    pub type_kind: TypeKind,
    pub type_identifier: String,
    pub type_parameters: Vec<String>,
    pub type_class: Option<ClassDeclaration>,
    pub is_type_array: bool,
}

/// A sequence of statements between braces.
#[derive(Debug, PartialEq, Eq)]
pub struct Block {
    pub statements: Vec<Statement>,
}

/// A statement: one payload, named by `statement_kind`.
#[derive(Debug, PartialEq, Eq)]
pub struct Statement {
    pub statement_kind: StatementKind,
    pub expression: Option<Expression>,
    pub async_expression: Option<Expression>,
    pub const_declaration: Option<ConstDeclaration>,
    pub var_declaration: Option<VarDeclaration>,
    pub block: Option<Block>,
    pub if_statement: Option<IfStatement>,
    pub while_statement: Option<WhileStatement>,
    pub for_statement: Option<ForStatement>,
}

/// A loop that runs while its condition holds.
#[derive(Debug, PartialEq, Eq)]
pub struct WhileStatement {
    pub expression: Expression,
    pub block: Block,
}

/// A `for` loop.
#[derive(Debug, PartialEq, Eq)]
pub struct ForStatement {
    pub for_statement_kind: ForStatementKind,
    pub variable: VarDeclaration,
    pub binary_expression: BinaryExpression,
    pub postfix_expression: AffixExpression,
    pub block: Block,
}

/// An `if` with its optional `else` and `else if` parts.
#[derive(Debug, PartialEq, Eq)]
pub struct IfStatement {
    pub if_statement_kind: IfStatementKind,
    pub expression: Expression,
    pub block: Block,
    pub else_statement: Option<Block>,
    pub else_if_statement: Option<Box<IfStatement>>,
}

/// A class with its members.
#[derive(Debug, PartialEq, Eq)]
pub struct ClassDeclaration {
    pub access_modifier: AccessModifier,
    pub is_static: bool,
    pub identifier: String,
    pub properties: Vec<ClassProperty>,
    pub methods: Vec<ClassMethod>,
    pub constructor: Option<Constructor>,
}

/// The constructor of a class.
#[derive(Debug, PartialEq, Eq)]
pub struct Constructor {
    pub access_modifier: AccessModifier,
    pub identifier: String,
    pub type_arguments: Vec<Type>,
    pub constructor_parameter_list: ConstructorParameterList,
    pub block: Block,
}

/// What a constructor takes: properties it declares in place, and plain
/// parameters.
#[derive(Debug, PartialEq, Eq)]
pub struct ConstructorParameterList {
    pub properties: Vec<ClassProperty>,
    pub parameters: Vec<Parameter>,
}

/// A property of a class.
#[derive(Debug, PartialEq, Eq)]
pub struct ClassProperty {
    pub access_modifier: AccessModifier,
    pub is_static: bool,
    pub is_readonly: bool,
    pub identifier: String,
    pub definition: Option<Expression>,
}

/// A method of a class.
#[derive(Debug, PartialEq, Eq)]
pub struct ClassMethod {
    pub access_modifier: AccessModifier,
    pub is_static: bool,
    pub identifier: String,
    pub type_arguments: Vec<Type>,
    pub parameter_list: Vec<Parameter>,
    pub return_type: Type,
    pub block: Block,
}

/// An interface with the methods it asks for.
#[derive(Debug, PartialEq, Eq)]
pub struct InterfaceDeclaration {
    pub access_modifier: AccessModifier,
    pub identifier: String,
    pub methods: Vec<InterfaceMethodDeclaration>,
}

/// The signature of one interface method.
#[derive(Debug, PartialEq, Eq)]
pub struct InterfaceMethodDeclaration {
    pub access_modifier: AccessModifier,
    pub is_async: bool,
    pub identifier: String,
    pub parameters: Vec<Parameter>,
    pub return_type: Type,
}

/// A scope: what has been declared in one lexical region, in order of
/// declaration. Names are not checked for uniqueness.
#[derive(Debug, PartialEq, Eq)]
pub struct ExecutionContext {
    pub scope_name: String,
    pub scope_type: ScopeType,
    pub scoped_constants: Vec<ConstDeclaration>,
    pub scoped_variables: Vec<VarDeclaration>,
    pub scoped_classes: Vec<ClassDeclaration>,
    pub scoped_functions: Vec<FunctionDeclaration>,
    pub scoped_interfaces: Vec<InterfaceDeclaration>,
}

/// A declaration at the top of a program. Only a variable carries a payload;
/// the other kinds are recognised and left empty.
#[derive(Debug, PartialEq, Eq)]
pub struct Declaration {
    pub declaration_kind: DeclarationKind,
    pub const_declaration: Option<ConstDeclaration>,
    pub var_declaration: Option<VarDeclaration>,
    pub class_declaration: Option<ClassDeclaration>,
    pub function_declaration: Option<FunctionDeclaration>,
    pub interface_declaration: Option<InterfaceDeclaration>,
}

/// The texts of a list of strings, in order.
pub open spec fn strings_view(strings: Seq<String>) -> Seq<Seq<char>> {
    Seq::new(strings.len(), |i: int| strings[i]@)
}

/// The views of a list of [`ImportedModule`] values, in order.
pub open spec fn imported_modules_view(items: Seq<ImportedModule>) -> Seq<ImportedModuleView> {
    Seq::new(items.len(), |i: int| items[i]@)
}

/// The view of a list has the length of the list and holds, at each index, the
/// view of the item at that index.
pub proof fn lemma_imported_modules_view(items: Seq<ImportedModule>)
    ensures
        imported_modules_view(items).len() == items.len(),
        forall|i: int|
            0 <= i < items.len() ==> (#[trigger] imported_modules_view(items)[i]) == items[i]@,
{
}

/// The views of the first `count` items of a list of [`Argument`] values.
pub open spec fn arguments_view_upto(items: Seq<Argument>, count: int) -> Seq<ArgumentView>
    decreases items, count,
{
    if count <= 0 || count > items.len() {
        Seq::empty()
    } else {
        arguments_view_upto(items, count - 1).push(items[count - 1]@)
    }
}

/// The views of a list of [`Argument`] values, in order.
pub open spec fn arguments_view(items: Seq<Argument>) -> Seq<ArgumentView>
    decreases items, items.len() + 1,
{
    arguments_view_upto(items, items.len() as int)
}

/// A prefix of the views has the length of the prefix and holds, at each
/// index, the view of the item at that index.
pub proof fn lemma_arguments_view_upto(items: Seq<Argument>, count: int)
    requires
        0 <= count <= items.len(),
    ensures
        arguments_view_upto(items, count).len() == count,
        forall|i: int|
            0 <= i < count ==> (#[trigger] arguments_view_upto(items, count)[i])
                == items[i]@,
    decreases count,
{
    if count > 0 {
        lemma_arguments_view_upto(items, count - 1);
        let last = items[count - 1]@;
        let before = arguments_view_upto(items, count - 1);
        assert(arguments_view_upto(items, count) == before.push(last));
    }
}

/// The view of a list has the length of the list and holds, at each index, the
/// view of the item at that index.
pub proof fn lemma_arguments_view(items: Seq<Argument>)
    ensures
        arguments_view(items).len() == items.len(),
        forall|i: int|
            0 <= i < items.len() ==> (#[trigger] arguments_view(items)[i]) == items[i]@,
{
    lemma_arguments_view_upto(items, items.len() as int);
    assert(arguments_view(items) == arguments_view_upto(items, items.len() as int));
}

/// The views of the first `count` items of a list of [`VarDeclaration`] values.
pub open spec fn var_declarations_view_upto(
    items: Seq<VarDeclaration>,
    count: int,
) -> Seq<VarDeclarationView>
    decreases items, count,
{
    if count <= 0 || count > items.len() {
        Seq::empty()
    } else {
        var_declarations_view_upto(items, count - 1).push(items[count - 1]@)
    }
}

/// The views of a list of [`VarDeclaration`] values, in order.
pub open spec fn var_declarations_view(items: Seq<VarDeclaration>) -> Seq<VarDeclarationView>
    decreases items, items.len() + 1,
{
    var_declarations_view_upto(items, items.len() as int)
}

/// A prefix of the views has the length of the prefix and holds, at each
/// index, the view of the item at that index.
pub proof fn lemma_var_declarations_view_upto(items: Seq<VarDeclaration>, count: int)
    requires
        0 <= count <= items.len(),
    ensures
        var_declarations_view_upto(items, count).len() == count,
        forall|i: int|
            0 <= i < count ==> (#[trigger] var_declarations_view_upto(items, count)[i])
                == items[i]@,
    decreases count,
{
    if count > 0 {
        lemma_var_declarations_view_upto(items, count - 1);
        let last = items[count - 1]@;
        let before = var_declarations_view_upto(items, count - 1);
        assert(var_declarations_view_upto(items, count) == before.push(last));
    }
}

/// The view of a list has the length of the list and holds, at each index, the
/// view of the item at that index.
pub proof fn lemma_var_declarations_view(items: Seq<VarDeclaration>)
    ensures
        var_declarations_view(items).len() == items.len(),
        forall|i: int|
            0 <= i < items.len() ==> (#[trigger] var_declarations_view(items)[i]) == items[i]@,
{
    lemma_var_declarations_view_upto(items, items.len() as int);
    assert(var_declarations_view(items) == var_declarations_view_upto(items, items.len() as int));
}

/// The views of the first `count` items of a list of [`ConstDeclaration`] values.
pub open spec fn const_declarations_view_upto(
    items: Seq<ConstDeclaration>,
    count: int,
) -> Seq<ConstDeclarationView>
    decreases items, count,
{
    if count <= 0 || count > items.len() {
        Seq::empty()
    } else {
        const_declarations_view_upto(items, count - 1).push(items[count - 1]@)
    }
}

/// The views of a list of [`ConstDeclaration`] values, in order.
pub open spec fn const_declarations_view(items: Seq<ConstDeclaration>) -> Seq<ConstDeclarationView>
    decreases items, items.len() + 1,
{
    const_declarations_view_upto(items, items.len() as int)
}

/// A prefix of the views has the length of the prefix and holds, at each
/// index, the view of the item at that index.
pub proof fn lemma_const_declarations_view_upto(items: Seq<ConstDeclaration>, count: int)
    requires
        0 <= count <= items.len(),
    ensures
        const_declarations_view_upto(items, count).len() == count,
        forall|i: int|
            0 <= i < count ==> (#[trigger] const_declarations_view_upto(items, count)[i])
                == items[i]@,
    decreases count,
{
    if count > 0 {
        lemma_const_declarations_view_upto(items, count - 1);
        let last = items[count - 1]@;
        let before = const_declarations_view_upto(items, count - 1);
        assert(const_declarations_view_upto(items, count) == before.push(last));
    }
}

/// The view of a list has the length of the list and holds, at each index, the
/// view of the item at that index.
pub proof fn lemma_const_declarations_view(items: Seq<ConstDeclaration>)
    ensures
        const_declarations_view(items).len() == items.len(),
        forall|i: int|
            0 <= i < items.len() ==> (#[trigger] const_declarations_view(items)[i]) == items[i]@,
{
    lemma_const_declarations_view_upto(items, items.len() as int);
    assert(const_declarations_view(items)
        == const_declarations_view_upto(items, items.len() as int));
}

/// The views of a list of [`FunctionDeclaration`] values, in order.
pub open spec fn function_declarations_view(
    items: Seq<FunctionDeclaration>,
) -> Seq<FunctionDeclarationView> {
    Seq::new(items.len(), |i: int| items[i]@)
}

/// The view of a list has the length of the list and holds, at each index, the
/// view of the item at that index.
pub proof fn lemma_function_declarations_view(items: Seq<FunctionDeclaration>)
    ensures
        function_declarations_view(items).len() == items.len(),
        forall|i: int|
            0 <= i < items.len() ==> (#[trigger] function_declarations_view(items)[i]) == items[i]@,
{
}

/// The views of the first `count` items of a list of [`Parameter`] values.
pub open spec fn parameters_view_upto(items: Seq<Parameter>, count: int) -> Seq<ParameterView>
    decreases items, count,
{
    if count <= 0 || count > items.len() {
        Seq::empty()
    } else {
        parameters_view_upto(items, count - 1).push(items[count - 1]@)
    }
}

/// The views of a list of [`Parameter`] values, in order.
pub open spec fn parameters_view(items: Seq<Parameter>) -> Seq<ParameterView>
    decreases items, items.len() + 1,
{
    parameters_view_upto(items, items.len() as int)
}

/// A prefix of the views has the length of the prefix and holds, at each
/// index, the view of the item at that index.
pub proof fn lemma_parameters_view_upto(items: Seq<Parameter>, count: int)
    requires
        0 <= count <= items.len(),
    ensures
        parameters_view_upto(items, count).len() == count,
        forall|i: int|
            0 <= i < count ==> (#[trigger] parameters_view_upto(items, count)[i])
                == items[i]@,
    decreases count,
{
    if count > 0 {
        lemma_parameters_view_upto(items, count - 1);
        let last = items[count - 1]@;
        let before = parameters_view_upto(items, count - 1);
        assert(parameters_view_upto(items, count) == before.push(last));
    }
}

/// The view of a list has the length of the list and holds, at each index, the
/// view of the item at that index.
pub proof fn lemma_parameters_view(items: Seq<Parameter>)
    ensures
        parameters_view(items).len() == items.len(),
        forall|i: int|
            0 <= i < items.len() ==> (#[trigger] parameters_view(items)[i]) == items[i]@,
{
    lemma_parameters_view_upto(items, items.len() as int);
    assert(parameters_view(items) == parameters_view_upto(items, items.len() as int));
}

/// The views of the first `count` items of a list of [`Type`] values.
pub open spec fn types_view_upto(items: Seq<Type>, count: int) -> Seq<TypeView>
    decreases items, count,
{
    if count <= 0 || count > items.len() {
        Seq::empty()
    } else {
        types_view_upto(items, count - 1).push(items[count - 1]@)
    }
}

/// The views of a list of [`Type`] values, in order.
pub open spec fn types_view(items: Seq<Type>) -> Seq<TypeView>
    decreases items, items.len() + 1,
{
    types_view_upto(items, items.len() as int)
}

/// A prefix of the views has the length of the prefix and holds, at each
/// index, the view of the item at that index.
pub proof fn lemma_types_view_upto(items: Seq<Type>, count: int)
    requires
        0 <= count <= items.len(),
    ensures
        types_view_upto(items, count).len() == count,
        forall|i: int|
            0 <= i < count ==> (#[trigger] types_view_upto(items, count)[i])
                == items[i]@,
    decreases count,
{
    if count > 0 {
        lemma_types_view_upto(items, count - 1);
        let last = items[count - 1]@;
        let before = types_view_upto(items, count - 1);
        assert(types_view_upto(items, count) == before.push(last));
    }
}

/// The view of a list has the length of the list and holds, at each index, the
/// view of the item at that index.
pub proof fn lemma_types_view(items: Seq<Type>)
    ensures
        types_view(items).len() == items.len(),
        forall|i: int|
            0 <= i < items.len() ==> (#[trigger] types_view(items)[i]) == items[i]@,
{
    lemma_types_view_upto(items, items.len() as int);
    assert(types_view(items) == types_view_upto(items, items.len() as int));
}

/// The views of the first `count` items of a list of [`Statement`] values.
pub open spec fn statements_view_upto(items: Seq<Statement>, count: int) -> Seq<StatementView>
    decreases items, count,
{
    if count <= 0 || count > items.len() {
        Seq::empty()
    } else {
        statements_view_upto(items, count - 1).push(items[count - 1]@)
    }
}

/// The views of a list of [`Statement`] values, in order.
pub open spec fn statements_view(items: Seq<Statement>) -> Seq<StatementView>
    decreases items, items.len() + 1,
{
    statements_view_upto(items, items.len() as int)
}

/// A prefix of the views has the length of the prefix and holds, at each
/// index, the view of the item at that index.
pub proof fn lemma_statements_view_upto(items: Seq<Statement>, count: int)
    requires
        0 <= count <= items.len(),
    ensures
        statements_view_upto(items, count).len() == count,
        forall|i: int|
            0 <= i < count ==> (#[trigger] statements_view_upto(items, count)[i])
                == items[i]@,
    decreases count,
{
    if count > 0 {
        lemma_statements_view_upto(items, count - 1);
        let last = items[count - 1]@;
        let before = statements_view_upto(items, count - 1);
        assert(statements_view_upto(items, count) == before.push(last));
    }
}

/// The view of a list has the length of the list and holds, at each index, the
/// view of the item at that index.
pub proof fn lemma_statements_view(items: Seq<Statement>)
    ensures
        statements_view(items).len() == items.len(),
        forall|i: int|
            0 <= i < items.len() ==> (#[trigger] statements_view(items)[i]) == items[i]@,
{
    lemma_statements_view_upto(items, items.len() as int);
    assert(statements_view(items) == statements_view_upto(items, items.len() as int));
}

/// The views of the first `count` items of a list of [`ClassDeclaration`] values.
pub open spec fn class_declarations_view_upto(
    items: Seq<ClassDeclaration>,
    count: int,
) -> Seq<ClassDeclarationView>
    decreases items, count,
{
    if count <= 0 || count > items.len() {
        Seq::empty()
    } else {
        class_declarations_view_upto(items, count - 1).push(items[count - 1]@)
    }
}

/// The views of a list of [`ClassDeclaration`] values, in order.
pub open spec fn class_declarations_view(items: Seq<ClassDeclaration>) -> Seq<ClassDeclarationView>
    decreases items, items.len() + 1,
{
    class_declarations_view_upto(items, items.len() as int)
}

/// A prefix of the views has the length of the prefix and holds, at each
/// index, the view of the item at that index.
pub proof fn lemma_class_declarations_view_upto(items: Seq<ClassDeclaration>, count: int)
    requires
        0 <= count <= items.len(),
    ensures
        class_declarations_view_upto(items, count).len() == count,
        forall|i: int|
            0 <= i < count ==> (#[trigger] class_declarations_view_upto(items, count)[i])
                == items[i]@,
    decreases count,
{
    if count > 0 {
        lemma_class_declarations_view_upto(items, count - 1);
        let last = items[count - 1]@;
        let before = class_declarations_view_upto(items, count - 1);
        assert(class_declarations_view_upto(items, count) == before.push(last));
    }
}

/// The view of a list has the length of the list and holds, at each index, the
/// view of the item at that index.
pub proof fn lemma_class_declarations_view(items: Seq<ClassDeclaration>)
    ensures
        class_declarations_view(items).len() == items.len(),
        forall|i: int|
            0 <= i < items.len() ==> (#[trigger] class_declarations_view(items)[i]) == items[i]@,
{
    lemma_class_declarations_view_upto(items, items.len() as int);
    assert(class_declarations_view(items)
        == class_declarations_view_upto(items, items.len() as int));
}

/// The views of the first `count` items of a list of [`ClassProperty`] values.
pub open spec fn class_properties_view_upto(
    items: Seq<ClassProperty>,
    count: int,
) -> Seq<ClassPropertyView>
    decreases items, count,
{
    if count <= 0 || count > items.len() {
        Seq::empty()
    } else {
        class_properties_view_upto(items, count - 1).push(items[count - 1]@)
    }
}

/// The views of a list of [`ClassProperty`] values, in order.
pub open spec fn class_properties_view(items: Seq<ClassProperty>) -> Seq<ClassPropertyView>
    decreases items, items.len() + 1,
{
    class_properties_view_upto(items, items.len() as int)
}

/// A prefix of the views has the length of the prefix and holds, at each
/// index, the view of the item at that index.
pub proof fn lemma_class_properties_view_upto(items: Seq<ClassProperty>, count: int)
    requires
        0 <= count <= items.len(),
    ensures
        class_properties_view_upto(items, count).len() == count,
        forall|i: int|
            0 <= i < count ==> (#[trigger] class_properties_view_upto(items, count)[i])
                == items[i]@,
    decreases count,
{
    if count > 0 {
        lemma_class_properties_view_upto(items, count - 1);
        let last = items[count - 1]@;
        let before = class_properties_view_upto(items, count - 1);
        assert(class_properties_view_upto(items, count) == before.push(last));
    }
}

/// The view of a list has the length of the list and holds, at each index, the
/// view of the item at that index.
pub proof fn lemma_class_properties_view(items: Seq<ClassProperty>)
    ensures
        class_properties_view(items).len() == items.len(),
        forall|i: int|
            0 <= i < items.len() ==> (#[trigger] class_properties_view(items)[i]) == items[i]@,
{
    lemma_class_properties_view_upto(items, items.len() as int);
    assert(class_properties_view(items) == class_properties_view_upto(items, items.len() as int));
}

/// The views of the first `count` items of a list of [`ClassMethod`] values.
pub open spec fn class_methods_view_upto(
    items: Seq<ClassMethod>,
    count: int,
) -> Seq<ClassMethodView>
    decreases items, count,
{
    if count <= 0 || count > items.len() {
        Seq::empty()
    } else {
        class_methods_view_upto(items, count - 1).push(items[count - 1]@)
    }
}

/// The views of a list of [`ClassMethod`] values, in order.
pub open spec fn class_methods_view(items: Seq<ClassMethod>) -> Seq<ClassMethodView>
    decreases items, items.len() + 1,
{
    class_methods_view_upto(items, items.len() as int)
}

/// A prefix of the views has the length of the prefix and holds, at each
/// index, the view of the item at that index.
pub proof fn lemma_class_methods_view_upto(items: Seq<ClassMethod>, count: int)
    requires
        0 <= count <= items.len(),
    ensures
        class_methods_view_upto(items, count).len() == count,
        forall|i: int|
            0 <= i < count ==> (#[trigger] class_methods_view_upto(items, count)[i])
                == items[i]@,
    decreases count,
{
    if count > 0 {
        lemma_class_methods_view_upto(items, count - 1);
        let last = items[count - 1]@;
        let before = class_methods_view_upto(items, count - 1);
        assert(class_methods_view_upto(items, count) == before.push(last));
    }
}

/// The view of a list has the length of the list and holds, at each index, the
/// view of the item at that index.
pub proof fn lemma_class_methods_view(items: Seq<ClassMethod>)
    ensures
        class_methods_view(items).len() == items.len(),
        forall|i: int|
            0 <= i < items.len() ==> (#[trigger] class_methods_view(items)[i]) == items[i]@,
{
    lemma_class_methods_view_upto(items, items.len() as int);
    assert(class_methods_view(items) == class_methods_view_upto(items, items.len() as int));
}

/// The views of a list of [`InterfaceDeclaration`] values, in order.
pub open spec fn interface_declarations_view(
    items: Seq<InterfaceDeclaration>,
) -> Seq<InterfaceDeclarationView> {
    Seq::new(items.len(), |i: int| items[i]@)
}

/// The view of a list has the length of the list and holds, at each index, the
/// view of the item at that index.
pub proof fn lemma_interface_declarations_view(items: Seq<InterfaceDeclaration>)
    ensures
        interface_declarations_view(items).len() == items.len(),
        forall|i: int|
            0 <= i < items.len() ==> (#[trigger] interface_declarations_view(items)[i])
                == items[i]@,
{
}

/// The views of a list of [`InterfaceMethodDeclaration`] values, in order.
pub open spec fn interface_methods_view(
    items: Seq<InterfaceMethodDeclaration>,
) -> Seq<InterfaceMethodDeclarationView> {
    Seq::new(items.len(), |i: int| items[i]@)
}

/// The view of a list has the length of the list and holds, at each index, the
/// view of the item at that index.
pub proof fn lemma_interface_methods_view(items: Seq<InterfaceMethodDeclaration>)
    ensures
        interface_methods_view(items).len() == items.len(),
        forall|i: int|
            0 <= i < items.len() ==> (#[trigger] interface_methods_view(items)[i]) == items[i]@,
{
}

/// The view of [`ImportedModules`]: what it holds, as mathematical values.
pub struct ImportedModulesView {
    pub modules: Seq<ImportedModuleView>,
}

impl View for ImportedModules {
    type V = ImportedModulesView;

    open spec fn view(&self) -> ImportedModulesView
    {
        ImportedModulesView {
            modules: imported_modules_view(self.modules@),
        }
    }
}

impl ImportedModulesView {
    /// The view of the empty value.
    pub open spec fn empty() -> ImportedModulesView {
        ImportedModulesView {
            modules: Seq::empty(),
        }
    }
}

impl Default for ImportedModules {
    /// The empty value: no text, no children, every kind at its first choice.
    fn default() -> (empty: ImportedModules)
        ensures
            empty@ == ImportedModulesView::empty(),
    {
        let empty = ImportedModules {
            modules: Vec::new(),
        };
        assert(imported_modules_view(empty.modules@) =~= Seq::empty()) by {
            lemma_imported_modules_view(empty.modules@);
        }
        assert(empty@ =~~= ImportedModulesView::empty());
        empty
    }
}

/// The view of [`ImportedModule`]: what it holds, as mathematical values.
pub struct ImportedModuleView {
    pub parent: Seq<char>,
    pub name: Seq<char>,
    pub full_path: Seq<char>,
}

impl View for ImportedModule {
    type V = ImportedModuleView;

    open spec fn view(&self) -> ImportedModuleView
    {
        ImportedModuleView {
            parent: self.parent@,
            name: self.name@,
            full_path: self.full_path@,
        }
    }
}

impl ImportedModuleView {
    /// The view of the empty value.
    pub open spec fn empty() -> ImportedModuleView {
        ImportedModuleView {
            parent: Seq::empty(),
            name: Seq::empty(),
            full_path: Seq::empty(),
        }
    }
}

impl Default for ImportedModule {
    /// The empty value: no text, no children, every kind at its first choice.
    fn default() -> (empty: ImportedModule)
        ensures
            empty@ == ImportedModuleView::empty(),
    {
        let empty = ImportedModule {
            parent: String::new(),
            name: String::new(),
            full_path: String::new(),
        };
        assert(empty@ =~~= ImportedModuleView::empty());
        empty
    }
}

/// The view of [`MemberAccess`]: what it holds, as mathematical values.
pub struct MemberAccessView {
    pub parent: Seq<char>,
    pub identifier: Seq<char>,
    pub kind: MemberAccessKind,
    pub args_list: Seq<ArgumentView>,
    pub type_arguments: Option<Seq<TypeView>>,
}

impl View for MemberAccess {
    type V = MemberAccessView;

    open spec fn view(&self) -> MemberAccessView
        decreases self,
    {
        MemberAccessView {
            parent: self.parent@,
            identifier: self.identifier@,
            kind: self.kind,
            args_list: arguments_view(self.args_list@),
            type_arguments: match self.type_arguments {
                Some(inner) => Some(types_view(inner@)),
                None => None,
            },
        }
    }
}

impl MemberAccessView {
    /// The view of the empty value.
    pub open spec fn empty() -> MemberAccessView {
        MemberAccessView {
            parent: Seq::empty(),
            identifier: Seq::empty(),
            kind: MemberAccessKind::Property,
            args_list: Seq::empty(),
            type_arguments: None,
        }
    }
}

impl Default for MemberAccess {
    /// The empty value: no text, no children, every kind at its first choice.
    fn default() -> (empty: MemberAccess)
        ensures
            empty@ == MemberAccessView::empty(),
    {
        let empty = MemberAccess {
            parent: String::new(),
            identifier: String::new(),
            kind: MemberAccessKind::Property,
            args_list: Vec::new(),
            type_arguments: None,
        };
        assert(arguments_view(empty.args_list@) =~= Seq::empty()) by {
            lemma_arguments_view(empty.args_list@);
        }
        assert(empty@ =~~= MemberAccessView::empty());
        empty
    }
}

/// The view of [`Argument`]: what it holds, as mathematical values.
pub struct ArgumentView {
    pub argument_kind: ArgumentKind,
    pub expression: Option<ExpressionView>,
    pub identifier: Option<Seq<char>>,
}

impl View for Argument {
    type V = ArgumentView;

    open spec fn view(&self) -> ArgumentView
        decreases self,
    {
        ArgumentView {
            argument_kind: self.argument_kind,
            expression: match self.expression {
                Some(inner) => Some(inner@),
                None => None,
            },
            identifier: match self.identifier {
                Some(inner) => Some(inner@),
                None => None,
            },
        }
    }
}

impl ArgumentView {
    /// The view of the empty value.
    pub open spec fn empty() -> ArgumentView {
        ArgumentView {
            argument_kind: ArgumentKind::Expression,
            expression: None,
            identifier: None,
        }
    }
}

impl Default for Argument {
    /// The empty value: no text, no children, every kind at its first choice.
    fn default() -> (empty: Argument)
        ensures
            empty@ == ArgumentView::empty(),
    {
        let empty = Argument {
            argument_kind: ArgumentKind::Expression,
            expression: None,
            identifier: None,
        };
        assert(empty@ =~~= ArgumentView::empty());
        empty
    }
}

/// The view of [`FunctionCall`]: what it holds, as mathematical values.
pub struct FunctionCallView {
    pub identifier: Seq<char>,
    pub type_arguments: Seq<TypeView>,
    pub args_list: Seq<ArgumentView>,
}

impl View for FunctionCall {
    type V = FunctionCallView;

    open spec fn view(&self) -> FunctionCallView
        decreases self,
    {
        FunctionCallView {
            identifier: self.identifier@,
            type_arguments: types_view(self.type_arguments@),
            args_list: arguments_view(self.args_list@),
        }
    }
}

impl FunctionCallView {
    /// The view of the empty value.
    pub open spec fn empty() -> FunctionCallView {
        FunctionCallView {
            identifier: Seq::empty(),
            type_arguments: Seq::empty(),
            args_list: Seq::empty(),
        }
    }
}

impl Default for FunctionCall {
    /// The empty value: no text, no children, every kind at its first choice.
    fn default() -> (empty: FunctionCall)
        ensures
            empty@ == FunctionCallView::empty(),
    {
        let empty = FunctionCall {
            identifier: String::new(),
            type_arguments: Vec::new(),
            args_list: Vec::new(),
        };
        assert(types_view(empty.type_arguments@) =~= Seq::empty()) by {
            lemma_types_view(empty.type_arguments@);
        }
        assert(arguments_view(empty.args_list@) =~= Seq::empty()) by {
            lemma_arguments_view(empty.args_list@);
        }
        assert(empty@ =~~= FunctionCallView::empty());
        empty
    }
}

/// The view of [`BinaryExpression`]: what it holds, as mathematical values.
pub struct BinaryExpressionView {
    pub first_term: UnaryExpressionView,
    pub operator: Seq<char>,
    pub second_term: UnaryExpressionView,
}

impl View for BinaryExpression {
    type V = BinaryExpressionView;

    open spec fn view(&self) -> BinaryExpressionView
        decreases self,
    {
        BinaryExpressionView {
            first_term: self.first_term@,
            operator: self.operator@,
            second_term: self.second_term@,
        }
    }
}

impl BinaryExpressionView {
    /// The view of the empty value.
    pub open spec fn empty() -> BinaryExpressionView {
        BinaryExpressionView {
            first_term: UnaryExpressionView::empty(),
            operator: Seq::empty(),
            second_term: UnaryExpressionView::empty(),
        }
    }
}

impl Default for BinaryExpression {
    /// The empty value: no text, no children, every kind at its first choice.
    fn default() -> (empty: BinaryExpression)
        ensures
            empty@ == BinaryExpressionView::empty(),
    {
        let empty = BinaryExpression {
            first_term: UnaryExpression::default(),
            operator: String::new(),
            second_term: UnaryExpression::default(),
        };
        assert(empty@ =~~= BinaryExpressionView::empty());
        empty
    }
}

/// The view of [`Expression`]: what it holds, as mathematical values.
pub struct ExpressionView {
    pub expression_kind: ExpressionKind,
    pub binary_expression: Option<BinaryExpressionView>,
    pub unary_expression: Option<UnaryExpressionView>,
    pub prefix_expression: Option<AffixExpressionView>,
    pub postfix_expression: Option<AffixExpressionView>,
    pub member_access: Option<MemberAccessView>,
}

impl View for Expression {
    type V = ExpressionView;

    open spec fn view(&self) -> ExpressionView
        decreases self,
    {
        ExpressionView {
            expression_kind: self.expression_kind,
            binary_expression: match self.binary_expression {
                Some(inner) => Some(inner@),
                None => None,
            },
            unary_expression: match self.unary_expression {
                Some(inner) => Some(inner@),
                None => None,
            },
            prefix_expression: match self.prefix_expression {
                Some(inner) => Some(inner@),
                None => None,
            },
            postfix_expression: match self.postfix_expression {
                Some(inner) => Some(inner@),
                None => None,
            },
            member_access: match self.member_access {
                Some(inner) => Some(inner@),
                None => None,
            },
        }
    }
}

impl ExpressionView {
    /// The view of the empty value.
    pub open spec fn empty() -> ExpressionView {
        ExpressionView {
            expression_kind: ExpressionKind::Unary,
            binary_expression: None,
            unary_expression: None,
            prefix_expression: None,
            postfix_expression: None,
            member_access: None,
        }
    }
}

impl Default for Expression {
    /// The empty value: no text, no children, every kind at its first choice.
    fn default() -> (empty: Expression)
        ensures
            empty@ == ExpressionView::empty(),
    {
        let empty = Expression {
            expression_kind: ExpressionKind::Unary,
            binary_expression: None,
            unary_expression: None,
            prefix_expression: None,
            postfix_expression: None,
            member_access: None,
        };
        assert(empty@ =~~= ExpressionView::empty());
        empty
    }
}

/// The view of [`AffixExpression`]: what it holds, as mathematical values.
pub struct AffixExpressionView {
    pub operator: Seq<char>,
    pub identifier: Seq<char>,
}

impl View for AffixExpression {
    type V = AffixExpressionView;

    open spec fn view(&self) -> AffixExpressionView
    {
        AffixExpressionView {
            operator: self.operator@,
            identifier: self.identifier@,
        }
    }
}

impl AffixExpressionView {
    /// The view of the empty value.
    pub open spec fn empty() -> AffixExpressionView {
        AffixExpressionView {
            operator: Seq::empty(),
            identifier: Seq::empty(),
        }
    }
}

impl Default for AffixExpression {
    /// The empty value: no text, no children, every kind at its first choice.
    fn default() -> (empty: AffixExpression)
        ensures
            empty@ == AffixExpressionView::empty(),
    {
        let empty = AffixExpression {
            operator: String::new(),
            identifier: String::new(),
        };
        assert(empty@ =~~= AffixExpressionView::empty());
        empty
    }
}

/// The view of [`UnaryExpression`]: what it holds, as mathematical values.
pub struct UnaryExpressionView {
    pub kind: UnaryExpressionKind,
    pub string_value: Option<Seq<char>>,
    pub function_call: Option<FunctionCallView>,
    pub expression: Option<Box<ExpressionView>>,
}

impl View for UnaryExpression {
    type V = UnaryExpressionView;

    open spec fn view(&self) -> UnaryExpressionView
        decreases self,
    {
        UnaryExpressionView {
            kind: self.kind,
            string_value: match self.string_value {
                Some(inner) => Some(inner@),
                None => None,
            },
            function_call: match self.function_call {
                Some(inner) => Some(inner@),
                None => None,
            },
            expression: match self.expression {
                Some(inner) => Some(Box::new((*inner)@)),
                None => None,
            },
        }
    }
}

impl UnaryExpressionView {
    /// The view of the empty value.
    pub open spec fn empty() -> UnaryExpressionView {
        UnaryExpressionView {
            kind: UnaryExpressionKind::Identifier,
            string_value: None,
            function_call: None,
            expression: None,
        }
    }
}

impl Default for UnaryExpression {
    /// The empty value: no text, no children, every kind at its first choice.
    fn default() -> (empty: UnaryExpression)
        ensures
            empty@ == UnaryExpressionView::empty(),
    {
        let empty = UnaryExpression {
            kind: UnaryExpressionKind::Identifier,
            string_value: None,
            function_call: None,
            expression: None,
        };
        assert(empty@ =~~= UnaryExpressionView::empty());
        empty
    }
}

/// The view of [`VarDeclaration`]: what it holds, as mathematical values.
pub struct VarDeclarationView {
    pub type_def: TypeView,
    pub identifier: Seq<char>,
    pub definition: Option<ExpressionView>,
}

impl View for VarDeclaration {
    type V = VarDeclarationView;

    open spec fn view(&self) -> VarDeclarationView
        decreases self,
    {
        VarDeclarationView {
            type_def: self.type_def@,
            identifier: self.identifier@,
            definition: match self.definition {
                Some(inner) => Some(inner@),
                None => None,
            },
        }
    }
}

impl VarDeclarationView {
    /// The view of the empty value.
    pub open spec fn empty() -> VarDeclarationView {
        VarDeclarationView {
            type_def: TypeView::empty(),
            identifier: Seq::empty(),
            definition: None,
        }
    }
}

impl Default for VarDeclaration {
    /// The empty value: no text, no children, every kind at its first choice.
    fn default() -> (empty: VarDeclaration)
        ensures
            empty@ == VarDeclarationView::empty(),
    {
        let empty = VarDeclaration {
            type_def: Type::default(),
            identifier: String::new(),
            definition: None,
        };
        assert(empty@ =~~= VarDeclarationView::empty());
        empty
    }
}

/// The view of [`ConstDeclaration`]: what it holds, as mathematical values.
pub struct ConstDeclarationView {
    pub access_modifier: AccessModifier,
    pub type_identifier: Seq<char>,
    pub identifier: Seq<char>,
    pub definition: ExpressionView,
}

impl View for ConstDeclaration {
    type V = ConstDeclarationView;

    open spec fn view(&self) -> ConstDeclarationView
        decreases self,
    {
        ConstDeclarationView {
            access_modifier: self.access_modifier,
            type_identifier: self.type_identifier@,
            identifier: self.identifier@,
            definition: self.definition@,
        }
    }
}

impl ConstDeclarationView {
    /// The view of the empty value.
    pub open spec fn empty() -> ConstDeclarationView {
        ConstDeclarationView {
            access_modifier: AccessModifier::Private,
            type_identifier: Seq::empty(),
            identifier: Seq::empty(),
            definition: ExpressionView::empty(),
        }
    }
}

impl Default for ConstDeclaration {
    /// The empty value: no text, no children, every kind at its first choice.
    fn default() -> (empty: ConstDeclaration)
        ensures
            empty@ == ConstDeclarationView::empty(),
    {
        let empty = ConstDeclaration {
            access_modifier: AccessModifier::Private,
            type_identifier: String::new(),
            identifier: String::new(),
            definition: Expression::default(),
        };
        assert(empty@ =~~= ConstDeclarationView::empty());
        empty
    }
}

/// The view of [`FunctionDeclaration`]: what it holds, as mathematical values.
pub struct FunctionDeclarationView {
    pub access_modifier: AccessModifier,
    pub is_async: bool,
    pub identifier: Seq<char>,
    pub type_arguments: Seq<TypeView>,
    pub parameter_list: Seq<ParameterView>,
    pub block: BlockView,
    pub return_type: TypeView,
}

impl View for FunctionDeclaration {
    type V = FunctionDeclarationView;

    open spec fn view(&self) -> FunctionDeclarationView
    {
        FunctionDeclarationView {
            access_modifier: self.access_modifier,
            is_async: self.is_async,
            identifier: self.identifier@,
            type_arguments: types_view(self.type_arguments@),
            parameter_list: parameters_view(self.parameter_list@),
            block: self.block@,
            return_type: self.return_type@,
        }
    }
}

impl FunctionDeclarationView {
    /// The view of the empty value.
    pub open spec fn empty() -> FunctionDeclarationView {
        FunctionDeclarationView {
            access_modifier: AccessModifier::Private,
            is_async: false,
            identifier: Seq::empty(),
            type_arguments: Seq::empty(),
            parameter_list: Seq::empty(),
            block: BlockView::empty(),
            return_type: TypeView::empty(),
        }
    }
}

impl Default for FunctionDeclaration {
    /// The empty value: no text, no children, every kind at its first choice.
    fn default() -> (empty: FunctionDeclaration)
        ensures
            empty@ == FunctionDeclarationView::empty(),
    {
        let empty = FunctionDeclaration {
            access_modifier: AccessModifier::Private,
            is_async: false,
            identifier: String::new(),
            type_arguments: Vec::new(),
            parameter_list: Vec::new(),
            block: Block::default(),
            return_type: Type::default(),
        };
        assert(types_view(empty.type_arguments@) =~= Seq::empty()) by {
            lemma_types_view(empty.type_arguments@);
        }
        assert(parameters_view(empty.parameter_list@) =~= Seq::empty()) by {
            lemma_parameters_view(empty.parameter_list@);
        }
        assert(empty@ =~~= FunctionDeclarationView::empty());
        empty
    }
}

/// The view of [`Parameter`]: what it holds, as mathematical values.
pub struct ParameterView {
    pub identifier: Seq<char>,
    pub type_identifier: Seq<char>,
    pub type_class: ClassDeclarationView,
}

impl View for Parameter {
    type V = ParameterView;

    open spec fn view(&self) -> ParameterView
        decreases self,
    {
        ParameterView {
            identifier: self.identifier@,
            type_identifier: self.type_identifier@,
            type_class: self.type_class@,
        }
    }
}

impl ParameterView {
    /// The view of the empty value.
    pub open spec fn empty() -> ParameterView {
        ParameterView {
            identifier: Seq::empty(),
            type_identifier: Seq::empty(),
            type_class: ClassDeclarationView::empty(),
        }
    }
}

impl Default for Parameter {
    /// The empty value: no text, no children, every kind at its first choice.
    fn default() -> (empty: Parameter)
        ensures
            empty@ == ParameterView::empty(),
    {
        let empty = Parameter {
            identifier: String::new(),
            type_identifier: String::new(),
            type_class: ClassDeclaration::default(),
        };
        assert(empty@ =~~= ParameterView::empty());
        empty
    }
}

/// The view of [`Type`]: what it holds, as mathematical values.
pub struct TypeView {
    pub type_kind: TypeKind,
    pub type_identifier: Seq<char>,
    pub type_parameters: Seq<Seq<char>>,
    pub type_class: Option<ClassDeclarationView>,
    pub is_type_array: bool,
}

impl View for Type {
    type V = TypeView;

    open spec fn view(&self) -> TypeView
        decreases self,
    {
        TypeView {
            type_kind: self.type_kind,
            type_identifier: self.type_identifier@,
            type_parameters: strings_view(self.type_parameters@),
            type_class: match self.type_class {
                Some(inner) => Some(inner@),
                None => None,
            },
            is_type_array: self.is_type_array,
        }
    }
}

impl TypeView {
    /// The view of the empty value.
    pub open spec fn empty() -> TypeView {
        TypeView {
            type_kind: TypeKind::Simple,
            type_identifier: Seq::empty(),
            type_parameters: Seq::empty(),
            type_class: None,
            is_type_array: false,
        }
    }
}

impl Default for Type {
    /// The empty value: no text, no children, every kind at its first choice.
    fn default() -> (empty: Type)
        ensures
            empty@ == TypeView::empty(),
    {
        let empty = Type {
            type_kind: TypeKind::Simple,
            type_identifier: String::new(),
            type_parameters: Vec::new(),
            type_class: None,
            is_type_array: false,
        };
        assert(strings_view(empty.type_parameters@) =~= Seq::empty());
        assert(empty@ =~~= TypeView::empty());
        empty
    }
}

/// The view of [`Block`]: what it holds, as mathematical values.
pub struct BlockView {
    pub statements: Seq<StatementView>,
}

impl View for Block {
    type V = BlockView;

    open spec fn view(&self) -> BlockView
        decreases self,
    {
        BlockView {
            statements: statements_view(self.statements@),
        }
    }
}

impl BlockView {
    /// The view of the empty value.
    pub open spec fn empty() -> BlockView {
        BlockView {
            statements: Seq::empty(),
        }
    }
}

impl Default for Block {
    /// The empty value: no text, no children, every kind at its first choice.
    fn default() -> (empty: Block)
        ensures
            empty@ == BlockView::empty(),
    {
        let empty = Block {
            statements: Vec::new(),
        };
        assert(statements_view(empty.statements@) =~= Seq::empty()) by {
            lemma_statements_view(empty.statements@);
        }
        assert(empty@ =~~= BlockView::empty());
        empty
    }
}

/// The view of [`Statement`]: what it holds, as mathematical values.
pub struct StatementView {
    pub statement_kind: StatementKind,
    pub expression: Option<ExpressionView>,
    pub async_expression: Option<ExpressionView>,
    pub const_declaration: Option<ConstDeclarationView>,
    pub var_declaration: Option<VarDeclarationView>,
    pub block: Option<BlockView>,
    pub if_statement: Option<IfStatementView>,
    pub while_statement: Option<WhileStatementView>,
    pub for_statement: Option<ForStatementView>,
}

impl View for Statement {
    type V = StatementView;

    open spec fn view(&self) -> StatementView
        decreases self,
    {
        StatementView {
            statement_kind: self.statement_kind,
            expression: match self.expression {
                Some(inner) => Some(inner@),
                None => None,
            },
            async_expression: match self.async_expression {
                Some(inner) => Some(inner@),
                None => None,
            },
            const_declaration: match self.const_declaration {
                Some(inner) => Some(inner@),
                None => None,
            },
            var_declaration: match self.var_declaration {
                Some(inner) => Some(inner@),
                None => None,
            },
            block: match self.block {
                Some(inner) => Some(inner@),
                None => None,
            },
            if_statement: match self.if_statement {
                Some(inner) => Some(inner@),
                None => None,
            },
            while_statement: match self.while_statement {
                Some(inner) => Some(inner@),
                None => None,
            },
            for_statement: match self.for_statement {
                Some(inner) => Some(inner@),
                None => None,
            },
        }
    }
}

impl StatementView {
    /// The view of the empty value.
    pub open spec fn empty() -> StatementView {
        StatementView {
            statement_kind: StatementKind::Expression,
            expression: None,
            async_expression: None,
            const_declaration: None,
            var_declaration: None,
            block: None,
            if_statement: None,
            while_statement: None,
            for_statement: None,
        }
    }
}

impl Default for Statement {
    /// The empty value: no text, no children, every kind at its first choice.
    fn default() -> (empty: Statement)
        ensures
            empty@ == StatementView::empty(),
    {
        let empty = Statement {
            statement_kind: StatementKind::Expression,
            expression: None,
            async_expression: None,
            const_declaration: None,
            var_declaration: None,
            block: None,
            if_statement: None,
            while_statement: None,
            for_statement: None,
        };
        assert(empty@ =~~= StatementView::empty());
        empty
    }
}

/// The view of [`WhileStatement`]: what it holds, as mathematical values.
pub struct WhileStatementView {
    pub expression: ExpressionView,
    pub block: BlockView,
}

impl View for WhileStatement {
    type V = WhileStatementView;

    open spec fn view(&self) -> WhileStatementView
        decreases self,
    {
        WhileStatementView {
            expression: self.expression@,
            block: self.block@,
        }
    }
}

impl WhileStatementView {
    /// The view of the empty value.
    pub open spec fn empty() -> WhileStatementView {
        WhileStatementView {
            expression: ExpressionView::empty(),
            block: BlockView::empty(),
        }
    }
}

impl Default for WhileStatement {
    /// The empty value: no text, no children, every kind at its first choice.
    fn default() -> (empty: WhileStatement)
        ensures
            empty@ == WhileStatementView::empty(),
    {
        let empty = WhileStatement {
            expression: Expression::default(),
            block: Block::default(),
        };
        assert(empty@ =~~= WhileStatementView::empty());
        empty
    }
}

/// The view of [`ForStatement`]: what it holds, as mathematical values.
pub struct ForStatementView {
    pub for_statement_kind: ForStatementKind,
    pub variable: VarDeclarationView,
    pub binary_expression: BinaryExpressionView,
    pub postfix_expression: AffixExpressionView,
    pub block: BlockView,
}

impl View for ForStatement {
    type V = ForStatementView;

    open spec fn view(&self) -> ForStatementView
        decreases self,
    {
        ForStatementView {
            for_statement_kind: self.for_statement_kind,
            variable: self.variable@,
            binary_expression: self.binary_expression@,
            postfix_expression: self.postfix_expression@,
            block: self.block@,
        }
    }
}

impl ForStatementView {
    /// The view of the empty value.
    pub open spec fn empty() -> ForStatementView {
        ForStatementView {
            for_statement_kind: ForStatementKind::Conditional,
            variable: VarDeclarationView::empty(),
            binary_expression: BinaryExpressionView::empty(),
            postfix_expression: AffixExpressionView::empty(),
            block: BlockView::empty(),
        }
    }
}

impl Default for ForStatement {
    /// The empty value: no text, no children, every kind at its first choice.
    fn default() -> (empty: ForStatement)
        ensures
            empty@ == ForStatementView::empty(),
    {
        let empty = ForStatement {
            for_statement_kind: ForStatementKind::Conditional,
            variable: VarDeclaration::default(),
            binary_expression: BinaryExpression::default(),
            postfix_expression: AffixExpression::default(),
            block: Block::default(),
        };
        assert(empty@ =~~= ForStatementView::empty());
        empty
    }
}

/// The view of [`IfStatement`]: what it holds, as mathematical values.
pub struct IfStatementView {
    pub if_statement_kind: IfStatementKind,
    pub expression: ExpressionView,
    pub block: BlockView,
    pub else_statement: Option<BlockView>,
    pub else_if_statement: Option<Box<IfStatementView>>,
}

impl View for IfStatement {
    type V = IfStatementView;

    open spec fn view(&self) -> IfStatementView
        decreases self,
    {
        IfStatementView {
            if_statement_kind: self.if_statement_kind,
            expression: self.expression@,
            block: self.block@,
            else_statement: match self.else_statement {
                Some(inner) => Some(inner@),
                None => None,
            },
            else_if_statement: match self.else_if_statement {
                Some(inner) => Some(Box::new((*inner)@)),
                None => None,
            },
        }
    }
}

impl IfStatementView {
    /// The view of the empty value.
    pub open spec fn empty() -> IfStatementView {
        IfStatementView {
            if_statement_kind: IfStatementKind::Double,
            expression: ExpressionView::empty(),
            block: BlockView::empty(),
            else_statement: None,
            else_if_statement: None,
        }
    }
}

impl Default for IfStatement {
    /// The empty value: no text, no children, every kind at its first choice.
    fn default() -> (empty: IfStatement)
        ensures
            empty@ == IfStatementView::empty(),
    {
        let empty = IfStatement {
            if_statement_kind: IfStatementKind::Double,
            expression: Expression::default(),
            block: Block::default(),
            else_statement: None,
            else_if_statement: None,
        };
        assert(empty@ =~~= IfStatementView::empty());
        empty
    }
}

/// The view of [`ClassDeclaration`]: what it holds, as mathematical values.
pub struct ClassDeclarationView {
    pub access_modifier: AccessModifier,
    pub is_static: bool,
    pub identifier: Seq<char>,
    pub properties: Seq<ClassPropertyView>,
    pub methods: Seq<ClassMethodView>,
    pub constructor: Option<ConstructorView>,
}

impl View for ClassDeclaration {
    type V = ClassDeclarationView;

    open spec fn view(&self) -> ClassDeclarationView
        decreases self,
    {
        ClassDeclarationView {
            access_modifier: self.access_modifier,
            is_static: self.is_static,
            identifier: self.identifier@,
            properties: class_properties_view(self.properties@),
            methods: class_methods_view(self.methods@),
            constructor: match self.constructor {
                Some(inner) => Some(inner@),
                None => None,
            },
        }
    }
}

impl ClassDeclarationView {
    /// The view of the empty value.
    pub open spec fn empty() -> ClassDeclarationView {
        ClassDeclarationView {
            access_modifier: AccessModifier::Private,
            is_static: false,
            identifier: Seq::empty(),
            properties: Seq::empty(),
            methods: Seq::empty(),
            constructor: None,
        }
    }
}

impl Default for ClassDeclaration {
    /// The empty value: no text, no children, every kind at its first choice.
    fn default() -> (empty: ClassDeclaration)
        ensures
            empty@ == ClassDeclarationView::empty(),
    {
        let empty = ClassDeclaration {
            access_modifier: AccessModifier::Private,
            is_static: false,
            identifier: String::new(),
            properties: Vec::new(),
            methods: Vec::new(),
            constructor: None,
        };
        assert(class_properties_view(empty.properties@) =~= Seq::empty()) by {
            lemma_class_properties_view(empty.properties@);
        }
        assert(class_methods_view(empty.methods@) =~= Seq::empty()) by {
            lemma_class_methods_view(empty.methods@);
        }
        assert(empty@ =~~= ClassDeclarationView::empty());
        empty
    }
}

/// The view of [`Constructor`]: what it holds, as mathematical values.
pub struct ConstructorView {
    pub access_modifier: AccessModifier,
    pub identifier: Seq<char>,
    pub type_arguments: Seq<TypeView>,
    pub constructor_parameter_list: ConstructorParameterListView,
    pub block: BlockView,
}

impl View for Constructor {
    type V = ConstructorView;

    open spec fn view(&self) -> ConstructorView
        decreases self,
    {
        ConstructorView {
            access_modifier: self.access_modifier,
            identifier: self.identifier@,
            type_arguments: types_view(self.type_arguments@),
            constructor_parameter_list: self.constructor_parameter_list@,
            block: self.block@,
        }
    }
}

impl ConstructorView {
    /// The view of the empty value.
    pub open spec fn empty() -> ConstructorView {
        ConstructorView {
            access_modifier: AccessModifier::Private,
            identifier: Seq::empty(),
            type_arguments: Seq::empty(),
            constructor_parameter_list: ConstructorParameterListView::empty(),
            block: BlockView::empty(),
        }
    }
}

impl Default for Constructor {
    /// The empty value: no text, no children, every kind at its first choice.
    fn default() -> (empty: Constructor)
        ensures
            empty@ == ConstructorView::empty(),
    {
        let empty = Constructor {
            access_modifier: AccessModifier::Private,
            identifier: String::new(),
            type_arguments: Vec::new(),
            constructor_parameter_list: ConstructorParameterList::default(),
            block: Block::default(),
        };
        assert(types_view(empty.type_arguments@) =~= Seq::empty()) by {
            lemma_types_view(empty.type_arguments@);
        }
        assert(empty@ =~~= ConstructorView::empty());
        empty
    }
}

/// The view of [`ConstructorParameterList`]: what it holds, as mathematical values.
pub struct ConstructorParameterListView {
    pub properties: Seq<ClassPropertyView>,
    pub parameters: Seq<ParameterView>,
}

impl View for ConstructorParameterList {
    type V = ConstructorParameterListView;

    open spec fn view(&self) -> ConstructorParameterListView
        decreases self,
    {
        ConstructorParameterListView {
            properties: class_properties_view(self.properties@),
            parameters: parameters_view(self.parameters@),
        }
    }
}

impl ConstructorParameterListView {
    /// The view of the empty value.
    pub open spec fn empty() -> ConstructorParameterListView {
        ConstructorParameterListView {
            properties: Seq::empty(),
            parameters: Seq::empty(),
        }
    }
}

impl Default for ConstructorParameterList {
    /// The empty value: no text, no children, every kind at its first choice.
    fn default() -> (empty: ConstructorParameterList)
        ensures
            empty@ == ConstructorParameterListView::empty(),
    {
        let empty = ConstructorParameterList {
            properties: Vec::new(),
            parameters: Vec::new(),
        };
        assert(class_properties_view(empty.properties@) =~= Seq::empty()) by {
            lemma_class_properties_view(empty.properties@);
        }
        assert(parameters_view(empty.parameters@) =~= Seq::empty()) by {
            lemma_parameters_view(empty.parameters@);
        }
        assert(empty@ =~~= ConstructorParameterListView::empty());
        empty
    }
}

/// The view of [`ClassProperty`]: what it holds, as mathematical values.
pub struct ClassPropertyView {
    pub access_modifier: AccessModifier,
    pub is_static: bool,
    pub is_readonly: bool,
    pub identifier: Seq<char>,
    pub definition: Option<ExpressionView>,
}

impl View for ClassProperty {
    type V = ClassPropertyView;

    open spec fn view(&self) -> ClassPropertyView
        decreases self,
    {
        ClassPropertyView {
            access_modifier: self.access_modifier,
            is_static: self.is_static,
            is_readonly: self.is_readonly,
            identifier: self.identifier@,
            definition: match self.definition {
                Some(inner) => Some(inner@),
                None => None,
            },
        }
    }
}

impl ClassPropertyView {
    /// The view of the empty value.
    pub open spec fn empty() -> ClassPropertyView {
        ClassPropertyView {
            access_modifier: AccessModifier::Private,
            is_static: false,
            is_readonly: false,
            identifier: Seq::empty(),
            definition: None,
        }
    }
}

impl Default for ClassProperty {
    /// The empty value: no text, no children, every kind at its first choice.
    fn default() -> (empty: ClassProperty)
        ensures
            empty@ == ClassPropertyView::empty(),
    {
        let empty = ClassProperty {
            access_modifier: AccessModifier::Private,
            is_static: false,
            is_readonly: false,
            identifier: String::new(),
            definition: None,
        };
        assert(empty@ =~~= ClassPropertyView::empty());
        empty
    }
}

/// The view of [`ClassMethod`]: what it holds, as mathematical values.
pub struct ClassMethodView {
    pub access_modifier: AccessModifier,
    pub is_static: bool,
    pub identifier: Seq<char>,
    pub type_arguments: Seq<TypeView>,
    pub parameter_list: Seq<ParameterView>,
    pub return_type: TypeView,
    pub block: BlockView,
}

impl View for ClassMethod {
    type V = ClassMethodView;

    open spec fn view(&self) -> ClassMethodView
        decreases self,
    {
        ClassMethodView {
            access_modifier: self.access_modifier,
            is_static: self.is_static,
            identifier: self.identifier@,
            type_arguments: types_view(self.type_arguments@),
            parameter_list: parameters_view(self.parameter_list@),
            return_type: self.return_type@,
            block: self.block@,
        }
    }
}

impl ClassMethodView {
    /// The view of the empty value.
    pub open spec fn empty() -> ClassMethodView {
        ClassMethodView {
            access_modifier: AccessModifier::Private,
            is_static: false,
            identifier: Seq::empty(),
            type_arguments: Seq::empty(),
            parameter_list: Seq::empty(),
            return_type: TypeView::empty(),
            block: BlockView::empty(),
        }
    }
}

impl Default for ClassMethod {
    /// The empty value: no text, no children, every kind at its first choice.
    fn default() -> (empty: ClassMethod)
        ensures
            empty@ == ClassMethodView::empty(),
    {
        let empty = ClassMethod {
            access_modifier: AccessModifier::Private,
            is_static: false,
            identifier: String::new(),
            type_arguments: Vec::new(),
            parameter_list: Vec::new(),
            return_type: Type::default(),
            block: Block::default(),
        };
        assert(types_view(empty.type_arguments@) =~= Seq::empty()) by {
            lemma_types_view(empty.type_arguments@);
        }
        assert(parameters_view(empty.parameter_list@) =~= Seq::empty()) by {
            lemma_parameters_view(empty.parameter_list@);
        }
        assert(empty@ =~~= ClassMethodView::empty());
        empty
    }
}

/// The view of [`InterfaceDeclaration`]: what it holds, as mathematical values.
pub struct InterfaceDeclarationView {
    pub access_modifier: AccessModifier,
    pub identifier: Seq<char>,
    pub methods: Seq<InterfaceMethodDeclarationView>,
}

impl View for InterfaceDeclaration {
    type V = InterfaceDeclarationView;

    open spec fn view(&self) -> InterfaceDeclarationView
    {
        InterfaceDeclarationView {
            access_modifier: self.access_modifier,
            identifier: self.identifier@,
            methods: interface_methods_view(self.methods@),
        }
    }
}

impl InterfaceDeclarationView {
    /// The view of the empty value.
    pub open spec fn empty() -> InterfaceDeclarationView {
        InterfaceDeclarationView {
            access_modifier: AccessModifier::Private,
            identifier: Seq::empty(),
            methods: Seq::empty(),
        }
    }
}

impl Default for InterfaceDeclaration {
    /// The empty value: no text, no children, every kind at its first choice.
    fn default() -> (empty: InterfaceDeclaration)
        ensures
            empty@ == InterfaceDeclarationView::empty(),
    {
        let empty = InterfaceDeclaration {
            access_modifier: AccessModifier::Private,
            identifier: String::new(),
            methods: Vec::new(),
        };
        assert(interface_methods_view(empty.methods@) =~= Seq::empty()) by {
            lemma_interface_methods_view(empty.methods@);
        }
        assert(empty@ =~~= InterfaceDeclarationView::empty());
        empty
    }
}

/// The view of [`InterfaceMethodDeclaration`]: what it holds, as mathematical values.
pub struct InterfaceMethodDeclarationView {
    pub access_modifier: AccessModifier,
    pub is_async: bool,
    pub identifier: Seq<char>,
    pub parameters: Seq<ParameterView>,
    pub return_type: TypeView,
}

impl View for InterfaceMethodDeclaration {
    type V = InterfaceMethodDeclarationView;

    open spec fn view(&self) -> InterfaceMethodDeclarationView
    {
        InterfaceMethodDeclarationView {
            access_modifier: self.access_modifier,
            is_async: self.is_async,
            identifier: self.identifier@,
            parameters: parameters_view(self.parameters@),
            return_type: self.return_type@,
        }
    }
}

impl InterfaceMethodDeclarationView {
    /// The view of the empty value.
    pub open spec fn empty() -> InterfaceMethodDeclarationView {
        InterfaceMethodDeclarationView {
            access_modifier: AccessModifier::Private,
            is_async: false,
            identifier: Seq::empty(),
            parameters: Seq::empty(),
            return_type: TypeView::empty(),
        }
    }
}

impl Default for InterfaceMethodDeclaration {
    /// The empty value: no text, no children, every kind at its first choice.
    fn default() -> (empty: InterfaceMethodDeclaration)
        ensures
            empty@ == InterfaceMethodDeclarationView::empty(),
    {
        let empty = InterfaceMethodDeclaration {
            access_modifier: AccessModifier::Private,
            is_async: false,
            identifier: String::new(),
            parameters: Vec::new(),
            return_type: Type::default(),
        };
        assert(parameters_view(empty.parameters@) =~= Seq::empty()) by {
            lemma_parameters_view(empty.parameters@);
        }
        assert(empty@ =~~= InterfaceMethodDeclarationView::empty());
        empty
    }
}

/// The view of [`ExecutionContext`]: what it holds, as mathematical values.
pub struct ExecutionContextView {
    pub scope_name: Seq<char>,
    pub scope_type: ScopeType,
    pub scoped_constants: Seq<ConstDeclarationView>,
    pub scoped_variables: Seq<VarDeclarationView>,
    pub scoped_classes: Seq<ClassDeclarationView>,
    pub scoped_functions: Seq<FunctionDeclarationView>,
    pub scoped_interfaces: Seq<InterfaceDeclarationView>,
}

impl View for ExecutionContext {
    type V = ExecutionContextView;

    open spec fn view(&self) -> ExecutionContextView
    {
        ExecutionContextView {
            scope_name: self.scope_name@,
            scope_type: self.scope_type,
            scoped_constants: const_declarations_view(self.scoped_constants@),
            scoped_variables: var_declarations_view(self.scoped_variables@),
            scoped_classes: class_declarations_view(self.scoped_classes@),
            scoped_functions: function_declarations_view(self.scoped_functions@),
            scoped_interfaces: interface_declarations_view(self.scoped_interfaces@),
        }
    }
}

impl ExecutionContextView {
    /// The view of the empty value.
    pub open spec fn empty() -> ExecutionContextView {
        ExecutionContextView {
            scope_name: Seq::empty(),
            scope_type: ScopeType::Global,
            scoped_constants: Seq::empty(),
            scoped_variables: Seq::empty(),
            scoped_classes: Seq::empty(),
            scoped_functions: Seq::empty(),
            scoped_interfaces: Seq::empty(),
        }
    }
}

impl Default for ExecutionContext {
    /// The empty value: no text, no children, every kind at its first choice.
    fn default() -> (empty: ExecutionContext)
        ensures
            empty@ == ExecutionContextView::empty(),
    {
        let empty = ExecutionContext {
            scope_name: String::new(),
            scope_type: ScopeType::Global,
            scoped_constants: Vec::new(),
            scoped_variables: Vec::new(),
            scoped_classes: Vec::new(),
            scoped_functions: Vec::new(),
            scoped_interfaces: Vec::new(),
        };
        assert(const_declarations_view(empty.scoped_constants@) =~= Seq::empty()) by {
            lemma_const_declarations_view(empty.scoped_constants@);
        }
        assert(var_declarations_view(empty.scoped_variables@) =~= Seq::empty()) by {
            lemma_var_declarations_view(empty.scoped_variables@);
        }
        assert(class_declarations_view(empty.scoped_classes@) =~= Seq::empty()) by {
            lemma_class_declarations_view(empty.scoped_classes@);
        }
        assert(function_declarations_view(empty.scoped_functions@) =~= Seq::empty()) by {
            lemma_function_declarations_view(empty.scoped_functions@);
        }
        assert(interface_declarations_view(empty.scoped_interfaces@) =~= Seq::empty()) by {
            lemma_interface_declarations_view(empty.scoped_interfaces@);
        }
        assert(empty@ =~~= ExecutionContextView::empty());
        empty
    }
}

/// The view of [`Declaration`]: what it holds, as mathematical values.
pub struct DeclarationView {
    pub declaration_kind: DeclarationKind,
    pub const_declaration: Option<ConstDeclarationView>,
    pub var_declaration: Option<VarDeclarationView>,
    pub class_declaration: Option<ClassDeclarationView>,
    pub function_declaration: Option<FunctionDeclarationView>,
    pub interface_declaration: Option<InterfaceDeclarationView>,
}

impl View for Declaration {
    type V = DeclarationView;

    open spec fn view(&self) -> DeclarationView
    {
        DeclarationView {
            declaration_kind: self.declaration_kind,
            const_declaration: match self.const_declaration {
                Some(inner) => Some(inner@),
                None => None,
            },
            var_declaration: match self.var_declaration {
                Some(inner) => Some(inner@),
                None => None,
            },
            class_declaration: match self.class_declaration {
                Some(inner) => Some(inner@),
                None => None,
            },
            function_declaration: match self.function_declaration {
                Some(inner) => Some(inner@),
                None => None,
            },
            interface_declaration: match self.interface_declaration {
                Some(inner) => Some(inner@),
                None => None,
            },
        }
    }
}

impl DeclarationView {
    /// The view of the empty value.
    pub open spec fn empty() -> DeclarationView {
        DeclarationView {
            declaration_kind: DeclarationKind::Var,
            const_declaration: None,
            var_declaration: None,
            class_declaration: None,
            function_declaration: None,
            interface_declaration: None,
        }
    }
}

impl Default for Declaration {
    /// The empty value: no text, no children, every kind at its first choice.
    fn default() -> (empty: Declaration)
        ensures
            empty@ == DeclarationView::empty(),
    {
        let empty = Declaration {
            declaration_kind: DeclarationKind::Var,
            const_declaration: None,
            var_declaration: None,
            class_declaration: None,
            function_declaration: None,
            interface_declaration: None,
        };
        assert(empty@ =~~= DeclarationView::empty());
        empty
    }
}

impl ArgumentView {
    /// Whether the payload is the one that the kind names, and no other, and
    /// is itself well formed.
    pub open spec fn well_formed(self) -> bool
        decreases self,
    {
        match self.argument_kind {
            ArgumentKind::Expression => self.identifier.is_none() && match self.expression {
                Some(expression) => expression.well_formed(),
                None => false,
            },
            ArgumentKind::Identifier => self.identifier.is_some() && self.expression.is_none(),
        }
    }
}

impl FunctionCallView {
    /// Whether every argument is well formed.
    pub open spec fn well_formed(self) -> bool
        decreases self,
    {
        forall|i: int|
            0 <= i < self.args_list.len() ==> (#[trigger] self.args_list[i]).well_formed()
    }
}

impl MemberAccessView {
    /// Whether every argument is well formed, and a property has none.
    pub open spec fn well_formed(self) -> bool
        decreases self,
    {
        &&& self.kind == MemberAccessKind::Property ==> self.args_list.len() == 0
        &&& forall|i: int|
            0 <= i < self.args_list.len() ==> (#[trigger] self.args_list[i]).well_formed()
    }
}

impl UnaryExpressionView {
    /// Whether the payload is the one that the kind names, and no other, and
    /// is itself well formed.
    pub open spec fn well_formed(self) -> bool
        decreases self,
    {
        match self.kind {
            UnaryExpressionKind::Identifier | UnaryExpressionKind::Literal => {
                &&& self.string_value.is_some()
                &&& self.function_call.is_none()
                &&& self.expression.is_none()
            },
            UnaryExpressionKind::FunctionCall => {
                &&& self.string_value.is_none()
                &&& self.expression.is_none()
                &&& match self.function_call {
                    Some(call) => call.well_formed(),
                    None => false,
                }
            },
            UnaryExpressionKind::Expression => {
                &&& self.string_value.is_none()
                &&& self.function_call.is_none()
                &&& match self.expression {
                    Some(inner) => inner.well_formed(),
                    None => false,
                }
            },
        }
    }
}

impl BinaryExpressionView {
    /// Whether both operands are well formed.
    pub open spec fn well_formed(self) -> bool
        decreases self,
    {
        self.first_term.well_formed() && self.second_term.well_formed()
    }
}

impl ExpressionView {
    /// Whether exactly one payload is present, the one that the kind names,
    /// and is itself well formed.
    pub open spec fn well_formed(self) -> bool
        decreases self,
    {
        match self.expression_kind {
            ExpressionKind::Unary => {
                &&& self.binary_expression.is_none()
                &&& self.prefix_expression.is_none()
                &&& self.postfix_expression.is_none()
                &&& self.member_access.is_none()
                &&& match self.unary_expression {
                    Some(unary) => unary.well_formed(),
                    None => false,
                }
            },
            ExpressionKind::Binary => {
                &&& self.unary_expression.is_none()
                &&& self.prefix_expression.is_none()
                &&& self.postfix_expression.is_none()
                &&& self.member_access.is_none()
                &&& match self.binary_expression {
                    Some(binary) => binary.well_formed(),
                    None => false,
                }
            },
            ExpressionKind::Prefix => {
                &&& self.binary_expression.is_none()
                &&& self.unary_expression.is_none()
                &&& self.prefix_expression.is_some()
                &&& self.postfix_expression.is_none()
                &&& self.member_access.is_none()
            },
            ExpressionKind::Postfix => {
                &&& self.binary_expression.is_none()
                &&& self.unary_expression.is_none()
                &&& self.prefix_expression.is_none()
                &&& self.postfix_expression.is_some()
                &&& self.member_access.is_none()
            },
            ExpressionKind::MemberAccess => {
                &&& self.binary_expression.is_none()
                &&& self.unary_expression.is_none()
                &&& self.prefix_expression.is_none()
                &&& self.postfix_expression.is_none()
                &&& match self.member_access {
                    Some(member) => member.well_formed(),
                    None => false,
                }
            },
        }
    }
}

impl VarDeclarationView {
    /// Whether the initial value, where there is one, is well formed.
    pub open spec fn well_formed(self) -> bool {
        match self.definition {
            Some(definition) => definition.well_formed(),
            None => true,
        }
    }
}

impl DeclarationView {
    /// Whether a variable, and only a variable, carries its payload, and the
    /// payload is well formed.
    pub open spec fn well_formed(self) -> bool {
        &&& self.const_declaration.is_none()
        &&& self.class_declaration.is_none()
        &&& self.function_declaration.is_none()
        &&& self.interface_declaration.is_none()
        &&& match self.declaration_kind {
            DeclarationKind::Var => match self.var_declaration {
                Some(variable) => variable.well_formed(),
                None => false,
            },
            _ => self.var_declaration.is_none(),
        }
    }
}

/// A copy of a list of strings.
pub fn clone_strings(strings: &Vec<String>) -> (copy: Vec<String>)
    ensures
        strings_view(copy@) == strings_view(strings@),
{
    let mut copy: Vec<String> = Vec::new();
    let mut i: usize = 0;
    while i < strings.len()
        invariant
            i <= strings.len(),
            copy.len() == i,
            forall|j: int| 0 <= j < i ==> copy@[j]@ == strings@[j]@,
        decreases strings.len() - i,
    {
        copy.push(strings[i].clone());
        i += 1;
    }
    assert(strings_view(copy@) =~= strings_view(strings@));
    copy
}

/// A copy of a list of [`ImportedModule`] values.
pub fn clone_imported_modules(items: &Vec<ImportedModule>) -> (copy: Vec<ImportedModule>)
    ensures
        imported_modules_view(copy@) == imported_modules_view(items@),
{
    let mut copy: Vec<ImportedModule> = Vec::new();
    let mut i: usize = 0;
    while i < items.len()
        invariant
            i <= items.len(),
            copy.len() == i,
            forall|j: int| 0 <= j < i ==> copy@[j]@ == items@[j]@,
        decreases items.len() - i,
    {
        let item = items[i].clone();
        copy.push(item);
        i += 1;
    }
    proof {
        lemma_imported_modules_view(copy@);
        lemma_imported_modules_view(items@);
    }
    assert(imported_modules_view(copy@) =~= imported_modules_view(items@));
    copy
}

/// A copy of a list of [`Argument`] values.
pub fn clone_arguments(items: &Vec<Argument>) -> (copy: Vec<Argument>)
    ensures
        arguments_view(copy@) == arguments_view(items@),
    decreases items,
{
    let mut copy: Vec<Argument> = Vec::new();
    let mut i: usize = 0;
    while i < items.len()
        invariant
            i <= items.len(),
            copy.len() == i,
            forall|j: int| 0 <= j < i ==> copy@[j]@ == items@[j]@,
        decreases items.len() - i,
    {
        let item = items[i].clone();
        copy.push(item);
        i += 1;
    }
    proof {
        lemma_arguments_view(copy@);
        lemma_arguments_view(items@);
    }
    assert(arguments_view(copy@) =~= arguments_view(items@));
    copy
}

/// A copy of a list of [`VarDeclaration`] values.
pub fn clone_var_declarations(items: &Vec<VarDeclaration>) -> (copy: Vec<VarDeclaration>)
    ensures
        var_declarations_view(copy@) == var_declarations_view(items@),
    decreases items,
{
    let mut copy: Vec<VarDeclaration> = Vec::new();
    let mut i: usize = 0;
    while i < items.len()
        invariant
            i <= items.len(),
            copy.len() == i,
            forall|j: int| 0 <= j < i ==> copy@[j]@ == items@[j]@,
        decreases items.len() - i,
    {
        let item = items[i].clone();
        copy.push(item);
        i += 1;
    }
    proof {
        lemma_var_declarations_view(copy@);
        lemma_var_declarations_view(items@);
    }
    assert(var_declarations_view(copy@) =~= var_declarations_view(items@));
    copy
}

/// A copy of a list of [`ConstDeclaration`] values.
pub fn clone_const_declarations(items: &Vec<ConstDeclaration>) -> (copy: Vec<ConstDeclaration>)
    ensures
        const_declarations_view(copy@) == const_declarations_view(items@),
    decreases items,
{
    let mut copy: Vec<ConstDeclaration> = Vec::new();
    let mut i: usize = 0;
    while i < items.len()
        invariant
            i <= items.len(),
            copy.len() == i,
            forall|j: int| 0 <= j < i ==> copy@[j]@ == items@[j]@,
        decreases items.len() - i,
    {
        let item = items[i].clone();
        copy.push(item);
        i += 1;
    }
    proof {
        lemma_const_declarations_view(copy@);
        lemma_const_declarations_view(items@);
    }
    assert(const_declarations_view(copy@) =~= const_declarations_view(items@));
    copy
}

/// A copy of a list of [`FunctionDeclaration`] values.
pub fn clone_function_declarations(items: &Vec<FunctionDeclaration>) -> (copy: Vec<
    FunctionDeclaration,
>)
    ensures
        function_declarations_view(copy@) == function_declarations_view(items@),
{
    let mut copy: Vec<FunctionDeclaration> = Vec::new();
    let mut i: usize = 0;
    while i < items.len()
        invariant
            i <= items.len(),
            copy.len() == i,
            forall|j: int| 0 <= j < i ==> copy@[j]@ == items@[j]@,
        decreases items.len() - i,
    {
        let item = items[i].clone();
        copy.push(item);
        i += 1;
    }
    proof {
        lemma_function_declarations_view(copy@);
        lemma_function_declarations_view(items@);
    }
    assert(function_declarations_view(copy@) =~= function_declarations_view(items@));
    copy
}

/// A copy of a list of [`Parameter`] values.
pub fn clone_parameters(items: &Vec<Parameter>) -> (copy: Vec<Parameter>)
    ensures
        parameters_view(copy@) == parameters_view(items@),
    decreases items,
{
    let mut copy: Vec<Parameter> = Vec::new();
    let mut i: usize = 0;
    while i < items.len()
        invariant
            i <= items.len(),
            copy.len() == i,
            forall|j: int| 0 <= j < i ==> copy@[j]@ == items@[j]@,
        decreases items.len() - i,
    {
        let item = items[i].clone();
        copy.push(item);
        i += 1;
    }
    proof {
        lemma_parameters_view(copy@);
        lemma_parameters_view(items@);
    }
    assert(parameters_view(copy@) =~= parameters_view(items@));
    copy
}

/// A copy of a list of [`Type`] values.
pub fn clone_types(items: &Vec<Type>) -> (copy: Vec<Type>)
    ensures
        types_view(copy@) == types_view(items@),
    decreases items,
{
    let mut copy: Vec<Type> = Vec::new();
    let mut i: usize = 0;
    while i < items.len()
        invariant
            i <= items.len(),
            copy.len() == i,
            forall|j: int| 0 <= j < i ==> copy@[j]@ == items@[j]@,
        decreases items.len() - i,
    {
        let item = items[i].clone();
        copy.push(item);
        i += 1;
    }
    proof {
        lemma_types_view(copy@);
        lemma_types_view(items@);
    }
    assert(types_view(copy@) =~= types_view(items@));
    copy
}

/// A copy of a list of [`Statement`] values.
pub fn clone_statements(items: &Vec<Statement>) -> (copy: Vec<Statement>)
    ensures
        statements_view(copy@) == statements_view(items@),
    decreases items,
{
    let mut copy: Vec<Statement> = Vec::new();
    let mut i: usize = 0;
    while i < items.len()
        invariant
            i <= items.len(),
            copy.len() == i,
            forall|j: int| 0 <= j < i ==> copy@[j]@ == items@[j]@,
        decreases items.len() - i,
    {
        let item = items[i].clone();
        copy.push(item);
        i += 1;
    }
    proof {
        lemma_statements_view(copy@);
        lemma_statements_view(items@);
    }
    assert(statements_view(copy@) =~= statements_view(items@));
    copy
}

/// A copy of a list of [`ClassDeclaration`] values.
pub fn clone_class_declarations(items: &Vec<ClassDeclaration>) -> (copy: Vec<ClassDeclaration>)
    ensures
        class_declarations_view(copy@) == class_declarations_view(items@),
    decreases items,
{
    let mut copy: Vec<ClassDeclaration> = Vec::new();
    let mut i: usize = 0;
    while i < items.len()
        invariant
            i <= items.len(),
            copy.len() == i,
            forall|j: int| 0 <= j < i ==> copy@[j]@ == items@[j]@,
        decreases items.len() - i,
    {
        let item = items[i].clone();
        copy.push(item);
        i += 1;
    }
    proof {
        lemma_class_declarations_view(copy@);
        lemma_class_declarations_view(items@);
    }
    assert(class_declarations_view(copy@) =~= class_declarations_view(items@));
    copy
}

/// A copy of a list of [`ClassProperty`] values.
pub fn clone_class_properties(items: &Vec<ClassProperty>) -> (copy: Vec<ClassProperty>)
    ensures
        class_properties_view(copy@) == class_properties_view(items@),
    decreases items,
{
    let mut copy: Vec<ClassProperty> = Vec::new();
    let mut i: usize = 0;
    while i < items.len()
        invariant
            i <= items.len(),
            copy.len() == i,
            forall|j: int| 0 <= j < i ==> copy@[j]@ == items@[j]@,
        decreases items.len() - i,
    {
        let item = items[i].clone();
        copy.push(item);
        i += 1;
    }
    proof {
        lemma_class_properties_view(copy@);
        lemma_class_properties_view(items@);
    }
    assert(class_properties_view(copy@) =~= class_properties_view(items@));
    copy
}

/// A copy of a list of [`ClassMethod`] values.
pub fn clone_class_methods(items: &Vec<ClassMethod>) -> (copy: Vec<ClassMethod>)
    ensures
        class_methods_view(copy@) == class_methods_view(items@),
    decreases items,
{
    let mut copy: Vec<ClassMethod> = Vec::new();
    let mut i: usize = 0;
    while i < items.len()
        invariant
            i <= items.len(),
            copy.len() == i,
            forall|j: int| 0 <= j < i ==> copy@[j]@ == items@[j]@,
        decreases items.len() - i,
    {
        let item = items[i].clone();
        copy.push(item);
        i += 1;
    }
    proof {
        lemma_class_methods_view(copy@);
        lemma_class_methods_view(items@);
    }
    assert(class_methods_view(copy@) =~= class_methods_view(items@));
    copy
}

/// A copy of a list of [`InterfaceDeclaration`] values.
pub fn clone_interface_declarations(items: &Vec<InterfaceDeclaration>) -> (copy: Vec<
    InterfaceDeclaration,
>)
    ensures
        interface_declarations_view(copy@) == interface_declarations_view(items@),
{
    let mut copy: Vec<InterfaceDeclaration> = Vec::new();
    let mut i: usize = 0;
    while i < items.len()
        invariant
            i <= items.len(),
            copy.len() == i,
            forall|j: int| 0 <= j < i ==> copy@[j]@ == items@[j]@,
        decreases items.len() - i,
    {
        let item = items[i].clone();
        copy.push(item);
        i += 1;
    }
    proof {
        lemma_interface_declarations_view(copy@);
        lemma_interface_declarations_view(items@);
    }
    assert(interface_declarations_view(copy@) =~= interface_declarations_view(items@));
    copy
}

/// A copy of a list of [`InterfaceMethodDeclaration`] values.
pub fn clone_interface_methods(items: &Vec<InterfaceMethodDeclaration>) -> (copy: Vec<
    InterfaceMethodDeclaration,
>)
    ensures
        interface_methods_view(copy@) == interface_methods_view(items@),
{
    let mut copy: Vec<InterfaceMethodDeclaration> = Vec::new();
    let mut i: usize = 0;
    while i < items.len()
        invariant
            i <= items.len(),
            copy.len() == i,
            forall|j: int| 0 <= j < i ==> copy@[j]@ == items@[j]@,
        decreases items.len() - i,
    {
        let item = items[i].clone();
        copy.push(item);
        i += 1;
    }
    proof {
        lemma_interface_methods_view(copy@);
        lemma_interface_methods_view(items@);
    }
    assert(interface_methods_view(copy@) =~= interface_methods_view(items@));
    copy
}

impl Clone for ImportedModules {
    /// A copy with the same view.
    fn clone(&self) -> (copy: ImportedModules)
        ensures
            copy@ == self@,
    {
        ImportedModules {
            modules: clone_imported_modules(&self.modules),
        }
    }
}

impl Clone for ImportedModule {
    /// A copy with the same view.
    fn clone(&self) -> (copy: ImportedModule)
        ensures
            copy@ == self@,
    {
        ImportedModule {
            parent: self.parent.clone(),
            name: self.name.clone(),
            full_path: self.full_path.clone(),
        }
    }
}

impl Clone for MemberAccess {
    /// A copy with the same view.
    fn clone(&self) -> (copy: MemberAccess)
        ensures
            copy@ == self@,
        decreases self,
    {
        MemberAccess {
            parent: self.parent.clone(),
            identifier: self.identifier.clone(),
            kind: self.kind,
            args_list: clone_arguments(&self.args_list),
            type_arguments: match &self.type_arguments {
                Some(inner) => Some(clone_types(inner)),
                None => None,
            },
        }
    }
}

impl Clone for Argument {
    /// A copy with the same view.
    fn clone(&self) -> (copy: Argument)
        ensures
            copy@ == self@,
        decreases self,
    {
        Argument {
            argument_kind: self.argument_kind,
            expression: match &self.expression {
                Some(inner) => Some(inner.clone()),
                None => None,
            },
            identifier: match &self.identifier {
                Some(inner) => Some(inner.clone()),
                None => None,
            },
        }
    }
}

impl Clone for FunctionCall {
    /// A copy with the same view.
    fn clone(&self) -> (copy: FunctionCall)
        ensures
            copy@ == self@,
        decreases self,
    {
        FunctionCall {
            identifier: self.identifier.clone(),
            type_arguments: clone_types(&self.type_arguments),
            args_list: clone_arguments(&self.args_list),
        }
    }
}

impl Clone for BinaryExpression {
    /// A copy with the same view.
    fn clone(&self) -> (copy: BinaryExpression)
        ensures
            copy@ == self@,
        decreases self,
    {
        BinaryExpression {
            first_term: self.first_term.clone(),
            operator: self.operator.clone(),
            second_term: self.second_term.clone(),
        }
    }
}

impl Clone for Expression {
    /// A copy with the same view.
    fn clone(&self) -> (copy: Expression)
        ensures
            copy@ == self@,
        decreases self,
    {
        Expression {
            expression_kind: self.expression_kind,
            binary_expression: match &self.binary_expression {
                Some(inner) => Some(inner.clone()),
                None => None,
            },
            unary_expression: match &self.unary_expression {
                Some(inner) => Some(inner.clone()),
                None => None,
            },
            prefix_expression: match &self.prefix_expression {
                Some(inner) => Some(inner.clone()),
                None => None,
            },
            postfix_expression: match &self.postfix_expression {
                Some(inner) => Some(inner.clone()),
                None => None,
            },
            member_access: match &self.member_access {
                Some(inner) => Some(inner.clone()),
                None => None,
            },
        }
    }
}

impl Clone for AffixExpression {
    /// A copy with the same view.
    fn clone(&self) -> (copy: AffixExpression)
        ensures
            copy@ == self@,
    {
        AffixExpression {
            operator: self.operator.clone(),
            identifier: self.identifier.clone(),
        }
    }
}

impl Clone for UnaryExpression {
    /// A copy with the same view.
    fn clone(&self) -> (copy: UnaryExpression)
        ensures
            copy@ == self@,
        decreases self,
    {
        UnaryExpression {
            kind: self.kind,
            string_value: match &self.string_value {
                Some(inner) => Some(inner.clone()),
                None => None,
            },
            function_call: match &self.function_call {
                Some(inner) => Some(inner.clone()),
                None => None,
            },
            expression: match &self.expression {
                Some(inner) => Some(Box::new((&**inner).clone())),
                None => None,
            },
        }
    }
}

impl Clone for VarDeclaration {
    /// A copy with the same view.
    fn clone(&self) -> (copy: VarDeclaration)
        ensures
            copy@ == self@,
        decreases self,
    {
        VarDeclaration {
            type_def: self.type_def.clone(),
            identifier: self.identifier.clone(),
            definition: match &self.definition {
                Some(inner) => Some(inner.clone()),
                None => None,
            },
        }
    }
}

impl Clone for ConstDeclaration {
    /// A copy with the same view.
    fn clone(&self) -> (copy: ConstDeclaration)
        ensures
            copy@ == self@,
        decreases self,
    {
        ConstDeclaration {
            access_modifier: self.access_modifier,
            type_identifier: self.type_identifier.clone(),
            identifier: self.identifier.clone(),
            definition: self.definition.clone(),
        }
    }
}

impl Clone for FunctionDeclaration {
    /// A copy with the same view.
    fn clone(&self) -> (copy: FunctionDeclaration)
        ensures
            copy@ == self@,
    {
        FunctionDeclaration {
            access_modifier: self.access_modifier,
            is_async: self.is_async,
            identifier: self.identifier.clone(),
            type_arguments: clone_types(&self.type_arguments),
            parameter_list: clone_parameters(&self.parameter_list),
            block: self.block.clone(),
            return_type: self.return_type.clone(),
        }
    }
}

impl Clone for Parameter {
    /// A copy with the same view.
    fn clone(&self) -> (copy: Parameter)
        ensures
            copy@ == self@,
        decreases self,
    {
        Parameter {
            identifier: self.identifier.clone(),
            type_identifier: self.type_identifier.clone(),
            type_class: self.type_class.clone(),
        }
    }
}

impl Clone for Type {
    /// A copy with the same view.
    fn clone(&self) -> (copy: Type)
        ensures
            copy@ == self@,
        decreases self,
    {
        Type {
            type_kind: self.type_kind,
            type_identifier: self.type_identifier.clone(),
            type_parameters: clone_strings(&self.type_parameters),
            type_class: match &self.type_class {
                Some(inner) => Some(inner.clone()),
                None => None,
            },
            is_type_array: self.is_type_array,
        }
    }
}

impl Clone for Block {
    /// A copy with the same view.
    fn clone(&self) -> (copy: Block)
        ensures
            copy@ == self@,
        decreases self,
    {
        Block {
            statements: clone_statements(&self.statements),
        }
    }
}

impl Clone for Statement {
    /// A copy with the same view.
    fn clone(&self) -> (copy: Statement)
        ensures
            copy@ == self@,
        decreases self,
    {
        Statement {
            statement_kind: self.statement_kind,
            expression: match &self.expression {
                Some(inner) => Some(inner.clone()),
                None => None,
            },
            async_expression: match &self.async_expression {
                Some(inner) => Some(inner.clone()),
                None => None,
            },
            const_declaration: match &self.const_declaration {
                Some(inner) => Some(inner.clone()),
                None => None,
            },
            var_declaration: match &self.var_declaration {
                Some(inner) => Some(inner.clone()),
                None => None,
            },
            block: match &self.block {
                Some(inner) => Some(inner.clone()),
                None => None,
            },
            if_statement: match &self.if_statement {
                Some(inner) => Some(inner.clone()),
                None => None,
            },
            while_statement: match &self.while_statement {
                Some(inner) => Some(inner.clone()),
                None => None,
            },
            for_statement: match &self.for_statement {
                Some(inner) => Some(inner.clone()),
                None => None,
            },
        }
    }
}

impl Clone for WhileStatement {
    /// A copy with the same view.
    fn clone(&self) -> (copy: WhileStatement)
        ensures
            copy@ == self@,
        decreases self,
    {
        WhileStatement {
            expression: self.expression.clone(),
            block: self.block.clone(),
        }
    }
}

impl Clone for ForStatement {
    /// A copy with the same view.
    fn clone(&self) -> (copy: ForStatement)
        ensures
            copy@ == self@,
        decreases self,
    {
        ForStatement {
            for_statement_kind: self.for_statement_kind,
            variable: self.variable.clone(),
            binary_expression: self.binary_expression.clone(),
            postfix_expression: self.postfix_expression.clone(),
            block: self.block.clone(),
        }
    }
}

impl Clone for IfStatement {
    /// A copy with the same view.
    fn clone(&self) -> (copy: IfStatement)
        ensures
            copy@ == self@,
        decreases self,
    {
        IfStatement {
            if_statement_kind: self.if_statement_kind,
            expression: self.expression.clone(),
            block: self.block.clone(),
            else_statement: match &self.else_statement {
                Some(inner) => Some(inner.clone()),
                None => None,
            },
            else_if_statement: match &self.else_if_statement {
                Some(inner) => Some(Box::new((&**inner).clone())),
                None => None,
            },
        }
    }
}

impl Clone for ClassDeclaration {
    /// A copy with the same view.
    fn clone(&self) -> (copy: ClassDeclaration)
        ensures
            copy@ == self@,
        decreases self,
    {
        ClassDeclaration {
            access_modifier: self.access_modifier,
            is_static: self.is_static,
            identifier: self.identifier.clone(),
            properties: clone_class_properties(&self.properties),
            methods: clone_class_methods(&self.methods),
            constructor: match &self.constructor {
                Some(inner) => Some(inner.clone()),
                None => None,
            },
        }
    }
}

impl Clone for Constructor {
    /// A copy with the same view.
    fn clone(&self) -> (copy: Constructor)
        ensures
            copy@ == self@,
        decreases self,
    {
        Constructor {
            access_modifier: self.access_modifier,
            identifier: self.identifier.clone(),
            type_arguments: clone_types(&self.type_arguments),
            constructor_parameter_list: self.constructor_parameter_list.clone(),
            block: self.block.clone(),
        }
    }
}

impl Clone for ConstructorParameterList {
    /// A copy with the same view.
    fn clone(&self) -> (copy: ConstructorParameterList)
        ensures
            copy@ == self@,
        decreases self,
    {
        ConstructorParameterList {
            properties: clone_class_properties(&self.properties),
            parameters: clone_parameters(&self.parameters),
        }
    }
}

impl Clone for ClassProperty {
    /// A copy with the same view.
    fn clone(&self) -> (copy: ClassProperty)
        ensures
            copy@ == self@,
        decreases self,
    {
        ClassProperty {
            access_modifier: self.access_modifier,
            is_static: self.is_static,
            is_readonly: self.is_readonly,
            identifier: self.identifier.clone(),
            definition: match &self.definition {
                Some(inner) => Some(inner.clone()),
                None => None,
            },
        }
    }
}

impl Clone for ClassMethod {
    /// A copy with the same view.
    fn clone(&self) -> (copy: ClassMethod)
        ensures
            copy@ == self@,
        decreases self,
    {
        ClassMethod {
            access_modifier: self.access_modifier,
            is_static: self.is_static,
            identifier: self.identifier.clone(),
            type_arguments: clone_types(&self.type_arguments),
            parameter_list: clone_parameters(&self.parameter_list),
            return_type: self.return_type.clone(),
            block: self.block.clone(),
        }
    }
}

impl Clone for InterfaceDeclaration {
    /// A copy with the same view.
    fn clone(&self) -> (copy: InterfaceDeclaration)
        ensures
            copy@ == self@,
    {
        InterfaceDeclaration {
            access_modifier: self.access_modifier,
            identifier: self.identifier.clone(),
            methods: clone_interface_methods(&self.methods),
        }
    }
}

impl Clone for InterfaceMethodDeclaration {
    /// A copy with the same view.
    fn clone(&self) -> (copy: InterfaceMethodDeclaration)
        ensures
            copy@ == self@,
    {
        InterfaceMethodDeclaration {
            access_modifier: self.access_modifier,
            is_async: self.is_async,
            identifier: self.identifier.clone(),
            parameters: clone_parameters(&self.parameters),
            return_type: self.return_type.clone(),
        }
    }
}

impl Clone for ExecutionContext {
    /// A copy with the same view.
    fn clone(&self) -> (copy: ExecutionContext)
        ensures
            copy@ == self@,
    {
        ExecutionContext {
            scope_name: self.scope_name.clone(),
            scope_type: self.scope_type,
            scoped_constants: clone_const_declarations(&self.scoped_constants),
            scoped_variables: clone_var_declarations(&self.scoped_variables),
            scoped_classes: clone_class_declarations(&self.scoped_classes),
            scoped_functions: clone_function_declarations(&self.scoped_functions),
            scoped_interfaces: clone_interface_declarations(&self.scoped_interfaces),
        }
    }
}

impl Clone for Declaration {
    /// A copy with the same view.
    fn clone(&self) -> (copy: Declaration)
        ensures
            copy@ == self@,
    {
        Declaration {
            declaration_kind: self.declaration_kind,
            const_declaration: match &self.const_declaration {
                Some(inner) => Some(inner.clone()),
                None => None,
            },
            var_declaration: match &self.var_declaration {
                Some(inner) => Some(inner.clone()),
                None => None,
            },
            class_declaration: match &self.class_declaration {
                Some(inner) => Some(inner.clone()),
                None => None,
            },
            function_declaration: match &self.function_declaration {
                Some(inner) => Some(inner.clone()),
                None => None,
            },
            interface_declaration: match &self.interface_declaration {
                Some(inner) => Some(inner.clone()),
                None => None,
            },
        }
    }
}

} // verus!
