//! Parse events: what the grammar engine hands to the builders. An event is a
//! rule tag, the source text that the rule matched, and the events of the rules
//! matched inside it, in source order.
use vstd::prelude::*;
use vstd::string::*;

verus! {

/// The rules of the grammar. A builder looks only at the tags it knows and
/// passes over the others.
#[derive(Clone, Copy, Debug, PartialEq, Eq, Hash, PartialOrd, Ord, Structural)]
pub enum Rule {
    Program,
    ImportStmt,
    ModuleName,
    Declaration,
    Definition,
    VarDeclaration,
    ConstDeclaration,
    ClassDeclaration,
    InterfaceDeclaration,
    FunctionDeclaration,
    ParameterList,
    Parameter,
    PropertyDeclaration,
    MethodDeclaration,
    InterfaceMethodDeclaration,
    AccessModifier,
    Member,
    Stmt,
    Expression,
    UnaryExpression,
    BinaryExpression,
    PrefixExpression,
    PostfixExpression,
    Literal,
    NumberLiteral,
    StringLiteral,
    BooleanLiteral,
    IfStmt,
    WhileStmt,
    ForStmt,
    FunctionCall,
    MethodCall,
    ArgList,
    MemberAccessInfix,
    MemberAccess,
    Type,
    TypeArray,
    SimpleType,
    Void,
    GenericType,
    TypeArgument,
    Identifier,
    BinaryOperator,
    PrefixOperator,
    PostfixOperator,
    Whitespace,
    AsciiAlphanumeric,
    Block,
    NewLine,
    EndOfInput,
}

/// One node of the raw syntax tree.
#[derive(Debug, PartialEq, Eq)]
pub struct ParseEvent {
    pub rule: Rule,
    pub text: String,
    pub children: Vec<ParseEvent>,
}

/// What a [`ParseEvent`] holds, as mathematical values.
pub struct ParseEventView {
    pub rule: Rule,
    pub text: Seq<char>,
    pub children: Seq<ParseEventView>,
}

/// The views of a list of events, in order.
pub open spec fn events_view(events: Seq<ParseEvent>) -> Seq<ParseEventView>
    decreases events,
{
    Seq::new(
        events.len(),
        |i: int|
            if 0 <= i < events.len() {
                events[i]@
            } else {
                arbitrary()
            },
    )
}

impl View for ParseEvent {
    type V = ParseEventView;

    open spec fn view(&self) -> ParseEventView
        decreases self,
    {
        ParseEventView { rule: self.rule, text: self.text@, children: events_view(self.children@) }
    }
}

impl ParseEvent {
    /// An event with the given children.
    pub fn new(rule: Rule, text: &str, children: Vec<ParseEvent>) -> (event: ParseEvent)
        ensures
            event@ == (ParseEventView {
                rule,
                text: text@,
                children: events_view(children@),
            }),
    {
        ParseEvent { rule, text: text.to_owned(), children }
    }

    /// An event without children.
    pub fn leaf(rule: Rule, text: &str) -> (event: ParseEvent)
        ensures
            event@ == (ParseEventView { rule, text: text@, children: Seq::empty() }),
    {
        let event = ParseEvent { rule, text: text.to_owned(), children: Vec::new() };
        assert(events_view(event.children@) =~= Seq::empty());
        event
    }

    /// The view has as many children as the event.
    pub proof fn lemma_children(self)
        ensures
            self@.children.len() == self.children@.len(),
    {
        let views = events_view(self.children@);
        assert(self@.children == views);
        assert(views.len() == self.children@.len());
    }

    /// The `index`-th child seen through its view is the view's `index`-th
    /// child.
    pub proof fn child_view(self, index: int)
        requires
            0 <= index < self.children@.len(),
        ensures
            self@.children.len() == self.children@.len(),
            self@.children[index] == self.children@[index]@,
    {
        let views = events_view(self.children@);
        assert(self@.children == views);
        assert(views.len() == self.children@.len());
        assert(views[index] == self.children@[index]@);
    }
}

impl Clone for ParseEvent {
    /// A copy with the same view.
    fn clone(&self) -> (copy: ParseEvent)
        ensures
            copy@ == self@,
        decreases self,
    {
        let mut children: Vec<ParseEvent> = Vec::new();
        let mut i: usize = 0;
        while i < self.children.len()
            invariant
                i <= self.children.len(),
                children.len() == i,
                forall|j: int| 0 <= j < i ==> children@[j]@ == self.children@[j]@,
            decreases self.children.len() - i,
        {
            let child = self.children[i].clone();
            children.push(child);
            i += 1;
        }
        assert(events_view(children@) =~= events_view(self.children@));
        ParseEvent { rule: self.rule, text: self.text.clone(), children }
    }
}

} // verus!
