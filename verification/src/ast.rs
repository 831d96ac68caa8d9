//! The schema AST: the recursive value model of one declaration, the
//! top-level declaration forms, and the imports generation records.

use vstd::prelude::*;

verus! {

// ---------------------------------------------------------------------------
// Type-alias bodies.
// ---------------------------------------------------------------------------

/// A fixed single-string-value type.
#[derive(Debug)]
pub struct StringLiteralNode {
    pub value: String,
}

/// A fixed single-number-value type; the value keeps its textual rendering.
#[derive(Debug)]
pub struct NumberLiteralNode {
    pub value: String,
}

/// Primitive type references.
#[derive(Debug, Clone, Copy)]
pub enum Keywords {
    String,
    Number,
    Boolean,
    Any,
}

#[derive(Debug)]
pub struct KeywordNode {
    pub value: Keywords,
}

/// A homogeneous sequence; `items` is itself a full node.
#[derive(Debug)]
pub struct ArrayNode {
    pub items: Box<Node>,
}

/// One field of an object: its identifier and its shape.
#[derive(Debug)]
pub struct Property {
    pub identifier: String,
    pub body: Node,
}

/// A structured record; property order is significant.
#[derive(Debug)]
pub struct ObjectNode {
    pub values: Vec<Property>,
}

/// A reference to a type declared in another source file. `path` is empty
/// for same-file references, otherwise a root-absolute (`/...`) or relative
/// reference path understood relative to the referencing file's directory.
#[derive(Debug)]
pub struct RefNode {
    pub name: String,
    pub path: String,
}

/// A reference to a hand-written type supplied by the user at a
/// target-native module path `from`.
#[derive(Debug)]
pub struct DynNode {
    pub name: String,
    pub from: String,
}

/// A sum type; alternatives are ordered and duplicates are permitted.
#[derive(Debug)]
pub struct UnionNode {
    pub types: Vec<Node>,
}

/// A per-target override: the same declaration name renders a different
/// body per target; a missing entry renders nothing for that target.
#[derive(Debug)]
pub struct SplitNode {
    pub typescript: Option<Box<Node>>,
    pub go: Option<Box<Node>>,
}

/// The value shape of a declaration or sub-field.
#[derive(Debug)]
pub enum Node {
    StringLiteral(StringLiteralNode),
    NumberLiteral(NumberLiteralNode),
    Keyword(KeywordNode),
    Array(ArrayNode),
    Object(ObjectNode),
    Ref(RefNode),
    Dyn(DynNode),
    Union(UnionNode),
    Split(SplitNode),
    Empty,
}

impl Node {
    /// A fresh, still-unpopulated node.
    pub fn new() -> (r: Self)
        ensures
            r is Empty,
    {
        Self::Empty
    }
}

/// A named type alias declaration.
#[derive(Debug)]
pub struct TypeAliasAst {
    pub identifier: String,
    pub body: Node,
}

// ---------------------------------------------------------------------------
// Enum declarations.
// ---------------------------------------------------------------------------

/// The member kind of an enum declaration.
#[derive(Debug, Clone, Copy)]
pub enum MembersType {
    String,
    Number,
}

/// One enum member: its identifier and its literal value, kept textual.
#[derive(Debug)]
pub struct Member {
    pub identifier: String,
    pub value: String,
}

pub type Members = Vec<Member>;

/// A named enum declaration.
#[derive(Debug)]
pub struct EnumAst {
    pub identifier: String,
    pub members_type: MembersType,
    pub members: Members,
}

/// One top-level declaration.
#[derive(Debug)]
pub enum AST {
    TypeAlias(TypeAliasAst),
    Enum(EnumAst),
}

// ---------------------------------------------------------------------------
// Imports, recorded as a side effect of generation.
// ---------------------------------------------------------------------------

/// An import demanded by a `Ref` node: the rendered type name and the
/// reference path it comes from.
#[derive(Debug)]
pub struct RefImport {
    pub name: String,
    pub from: String,
}

/// An import demanded by a `Dyn` node: the symbol name and the target-native
/// module path it comes from.
#[derive(Debug)]
pub struct DynImport {
    pub name: String,
    pub from: String,
}

#[derive(Debug)]
pub enum Import {
    Ref(RefImport),
    Dyn(DynImport),
}

pub type Imports = Vec<Import>;

/// The mathematical content of one import record.
pub ghost struct ImportV {
    /// True for a `Dyn` import, false for a `Ref` import.
    pub dynamic: bool,
    pub name: Seq<char>,
    pub from: Seq<char>,
}

impl View for Import {
    type V = ImportV;

    open spec fn view(&self) -> ImportV {
        match self {
            Import::Ref(r) => ImportV { dynamic: false, name: r.name@, from: r.from@ },
            Import::Dyn(d) => ImportV { dynamic: true, name: d.name@, from: d.from@ },
        }
    }
}

/// The views of a sequence of imports, record by record.
pub open spec fn imports_of(s: Seq<Import>) -> Seq<ImportV> {
    Seq::new(s.len(), |i: int| s[i]@)
}

pub proof fn lemma_imports_of_push(s: Seq<Import>, x: Import)
    ensures
        imports_of(s.push(x)) =~= imports_of(s).push(x@),
{
}

pub proof fn lemma_imports_of_append(a: Seq<Import>, b: Seq<Import>)
    ensures
        imports_of(a + b) =~= imports_of(a) + imports_of(b),
{
}

// ---------------------------------------------------------------------------
// Formatting settings.
// ---------------------------------------------------------------------------

/// Indentation width per target, in spaces.
pub struct TabSize {
    pub go: usize,
    pub typescript: usize,
}

impl Default for TabSize {
    /// The indentation each target conventionally uses.
    fn default() -> (r: Self)
        ensures
            r.go == 4,
            r.typescript == 2,
    {
        TabSize { go: 4, typescript: 2 }
    }
}

} // verus!
