//! The syntax tree that the analysis walks.
//!
//! A tree is made of [`Node`]s. Each node carries the byte span it covers in
//! the source text, a tag that says what the rules need to know about it, and
//! its sub-nodes in the order in which a depth-first walk meets them.
//! For the node kinds that have a fixed shape the order of the children is
//! part of the tree's meaning:
//!
//! * `While`: the condition comes first, the body after it;
//! * `Call`: the callee comes first, the arguments after it;
//! * `BinaryOperator`: the left operand comes first, then the right one.

use vstd::prelude::*;

verus! {

/// A range of byte offsets into the analysed source text.
#[derive(Clone, Copy, Debug, PartialEq, Eq, Structural)]
pub struct Span {
    pub start: usize,
    pub end: usize,
}

/// What a type specifier names. The rules only tell `Void` from the rest.
#[derive(Clone, Copy, Debug, PartialEq, Eq, Structural)]
pub enum TypeSpecifier {
    Void,
    Char,
    Short,
    Int,
    Long,
    Float,
    Double,
    Signed,
    Unsigned,
    Bool,
    Complex,
    Other,
}

/// One specifier in front of a declaration, a function definition or a type
/// name: either a type specifier, or anything else (storage class,
/// qualifier, function specifier, alignment, extension).
#[derive(Clone, Copy, Debug, PartialEq, Eq, Structural)]
pub enum Specifier {
    Type(TypeSpecifier),
    Other,
}

/// One step of a declarator that derives a type from the declared name.
#[derive(Clone, Copy, Debug, PartialEq, Eq, Structural)]
pub enum DerivedDeclarator {
    Pointer,
    Array,
    /// A parameter list with types: `f(int, char)`.
    Function,
    /// An identifier list, possibly empty: `f()`, `f(a, b)`.
    KRFunction,
    Block,
}

/// The operators of a binary expression, as far as the rules tell them apart.
#[derive(Clone, Copy, Debug, PartialEq, Eq, Structural)]
pub enum BinaryOperator {
    Less,
    LessOrEqual,
    Greater,
    GreaterOrEqual,
    Equals,
    NotEquals,
    Other,
}

/// The part of a declarator that the rules read.
#[derive(Debug)]
pub struct Declarator {
    /// The declared name, if the declarator is a plain identifier.
    pub name: Option<String>,
    /// The derivations, outermost first.
    pub derived: Vec<DerivedDeclarator>,
}

/// The tag of a node.
#[derive(Debug)]
pub enum NodeKind {
    FunctionDefinition { specifiers: Vec<Specifier>, declarator: Declarator },
    Declaration { specifiers: Vec<Specifier>, declarators: Vec<Declarator> },
    /// A `goto` statement.
    Goto,
    /// A `while` loop.
    While,
    /// A call expression.
    Call,
    /// A cast expression, with the specifiers of the type it casts to.
    Cast { specifiers: Vec<Specifier> },
    /// A binary expression.
    BinaryOperator(BinaryOperator),
    /// An identifier used as an expression.
    Identifier(String),
    /// A literal constant.
    Constant,
    /// Every other statement or expression; it is walked, never examined.
    Other,
}

/// A node of the syntax tree.
#[derive(Debug)]
pub struct Node {
    pub kind: NodeKind,
    pub span: Span,
    pub children: Vec<Node>,
}

impl BinaryOperator {
    /// The comparisons that can bound a loop: `<`, `<=`, `>`, `>=`, `==`.
    pub open spec fn is_relational(self) -> bool {
        self == BinaryOperator::Less || self == BinaryOperator::LessOrEqual || self
            == BinaryOperator::Greater || self == BinaryOperator::GreaterOrEqual || self
            == BinaryOperator::Equals
    }

    pub fn relational(&self) -> (r: bool)
        ensures
            r == self.is_relational(),
    {
        match self {
            BinaryOperator::Less => true,
            BinaryOperator::LessOrEqual => true,
            BinaryOperator::Greater => true,
            BinaryOperator::GreaterOrEqual => true,
            BinaryOperator::Equals => true,
            BinaryOperator::NotEquals => false,
            BinaryOperator::Other => false,
        }
    }
}

impl Declarator {
    /// The declared name as a sequence of characters.
    pub open spec fn name_view(self) -> Option<Seq<char>> {
        match self.name {
            Some(n) => Some(n@),
            None => None,
        }
    }

    /// The first derivation makes the declared name a function.
    pub open spec fn declares_function(self) -> bool {
        self.derived@.len() > 0 && (self.derived@[0] == DerivedDeclarator::Function
            || self.derived@[0] == DerivedDeclarator::KRFunction)
    }

    pub fn is_function(&self) -> (r: bool)
        ensures
            r == self.declares_function(),
    {
        if self.derived.len() == 0 {
            false
        } else {
            match self.derived[0] {
                DerivedDeclarator::Function => true,
                DerivedDeclarator::KRFunction => true,
                _ => false,
            }
        }
    }
}

/// The type that a list of specifiers names for the rules: the single type
/// specifier if the list is exactly that, `Void` for an empty or a compound
/// list.
pub open spec fn leading_type(specifiers: Seq<Specifier>) -> TypeSpecifier {
    if specifiers.len() == 1 {
        match specifiers[0] {
            Specifier::Type(t) => t,
            Specifier::Other => TypeSpecifier::Void,
        }
    } else {
        TypeSpecifier::Void
    }
}

pub fn leading_type_of(specifiers: &Vec<Specifier>) -> (t: TypeSpecifier)
    ensures
        t == leading_type(specifiers@),
{
    if specifiers.len() == 1 {
        match specifiers[0] {
            Specifier::Type(t) => t,
            Specifier::Other => TypeSpecifier::Void,
        }
    } else {
        TypeSpecifier::Void
    }
}

/// The type that a cast is recorded under: its first specifier if that is a
/// type specifier, `Other` if the type name starts otherwise.
pub open spec fn cast_target(specifiers: Seq<Specifier>) -> TypeSpecifier {
    if specifiers.len() > 0 {
        match specifiers[0] {
            Specifier::Type(t) => t,
            Specifier::Other => TypeSpecifier::Other,
        }
    } else {
        TypeSpecifier::Other
    }
}

pub fn cast_target_of(specifiers: &Vec<Specifier>) -> (t: TypeSpecifier)
    ensures
        t == cast_target(specifiers@),
{
    if specifiers.len() > 0 {
        match specifiers[0] {
            Specifier::Type(t) => t,
            Specifier::Other => TypeSpecifier::Other,
        }
    } else {
        TypeSpecifier::Other
    }
}

impl Node {
    /// The name under which a call node calls, if its callee is a bare
    /// identifier.
    pub open spec fn callee(self) -> Option<Seq<char>> {
        if self.kind is Call && self.children@.len() > 0 {
            match self.children@[0].kind {
                NodeKind::Identifier(name) => Some(name@),
                _ => None,
            }
        } else {
            None
        }
    }

    /// A leaf of the given kind.
    pub fn leaf(kind: NodeKind, span: Span) -> (node: Node)
        ensures
            node.kind == kind,
            node.span == span,
            node.children@ == Seq::<Node>::empty(),
    {
        Node { kind, span, children: Vec::new() }
    }

    /// An inner node of the given kind.
    pub fn new(kind: NodeKind, span: Span, children: Vec<Node>) -> (node: Node)
        ensures
            node.kind == kind,
            node.span == span,
            node.children == children,
    {
        Node { kind, span, children }
    }

    /// The callee's name, for a call through a bare identifier.
    pub fn callee_name(&self) -> (name: Option<&String>)
        ensures
            match name {
                Some(n) => self.callee() == Some(n@),
                None => self.callee() is None,
            },
    {
        match self.kind {
            NodeKind::Call => {
                if self.children.len() > 0 {
                    match &self.children[0].kind {
                        NodeKind::Identifier(name) => Some(name),
                        _ => None,
                    }
                } else {
                    None
                }
            },
            _ => None,
        }
    }
}

} // verus!
