//! The TypeScript backend: renders one declaration into TypeScript source
//! and records every cross-file reference it encounters.

use crate::ast::{
    imports_of, lemma_imports_of_push, EnumAst, Import, ImportV, Imports, Member, MembersType,
    Node, Property, RefImport, DynImport, TypeAliasAst, AST,
};
use crate::error::{CompileError, ErrorKind};
use crate::generator::utils::{capitalize, spaces, spec_capitalize, spec_keyword, spec_spaces};
use crate::lang::SupportedLang;
use vstd::prelude::*;

verus! {

// ---------------------------------------------------------------------------
// What rendering a node produces, position by position.
// ---------------------------------------------------------------------------

/// The first defect in a node, in rendering order: an unpopulated node, or a
/// per-target split below declaration top level.
pub open spec fn ts_node_err(n: Node, top: bool) -> Option<ErrorKind>
    decreases n, 3int,
{
    match n {
        Node::StringLiteral(_) => None,
        Node::NumberLiteral(_) => None,
        Node::Keyword(_) => None,
        Node::Array(a) => ts_node_err(*a.items, false),
        Node::Object(o) => ts_props_err_from(o.values@, 0),
        Node::Ref(_) => None,
        Node::Dyn(_) => None,
        Node::Union(u) => ts_union_err_from(u.types@, 0),
        Node::Split(s) => if top {
            match s.typescript {
                Some(b) => ts_node_err(*b, true),
                None => None,
            }
        } else {
            Some(ErrorKind::SplitBelowTop)
        },
        Node::Empty => Some(ErrorKind::EmptyNode),
    }
}

pub open spec fn ts_props_err_from(vals: Seq<Property>, i: int) -> Option<ErrorKind>
    decreases vals, vals.len() - i,
{
    if i < 0 || i >= vals.len() {
        None
    } else {
        match ts_node_err(vals[i].body, false) {
            Some(e) => Some(e),
            None => ts_props_err_from(vals, i + 1),
        }
    }
}

pub open spec fn ts_union_err_from(types: Seq<Node>, i: int) -> Option<ErrorKind>
    decreases types, types.len() - i,
{
    if i < 0 || i >= types.len() {
        None
    } else {
        match ts_node_err(types[i], false) {
            Some(e) => Some(e),
            None => ts_union_err_from(types, i + 1),
        }
    }
}

/// The imports a node demands, in rendering order. A `Ref` with a non-empty
/// path demands its capitalized type name from that path; a `Dyn` demands
/// its symbol from its module path.
pub open spec fn ts_node_imports(n: Node) -> Seq<ImportV>
    decreases n, 3int,
{
    match n {
        Node::StringLiteral(_) => Seq::empty(),
        Node::NumberLiteral(_) => Seq::empty(),
        Node::Keyword(_) => Seq::empty(),
        Node::Array(a) => ts_node_imports(*a.items),
        Node::Object(o) => ts_props_imports_from(o.values@, 0),
        Node::Ref(r) => if r.path@.len() > 0 {
            seq![ImportV { dynamic: false, name: spec_capitalize(r.name@), from: r.path@ }]
        } else {
            Seq::empty()
        },
        Node::Dyn(d) => seq![ImportV { dynamic: true, name: d.name@, from: d.from@ }],
        Node::Union(u) => ts_union_imports_from(u.types@, 0),
        Node::Split(s) => match s.typescript {
            Some(b) => ts_node_imports(*b),
            None => Seq::empty(),
        },
        Node::Empty => Seq::empty(),
    }
}

pub open spec fn ts_props_imports_from(vals: Seq<Property>, i: int) -> Seq<ImportV>
    decreases vals, vals.len() - i,
{
    if i < 0 || i >= vals.len() {
        Seq::empty()
    } else {
        ts_node_imports(vals[i].body) + ts_props_imports_from(vals, i + 1)
    }
}

pub open spec fn ts_union_imports_from(types: Seq<Node>, i: int) -> Seq<ImportV>
    decreases types, types.len() - i,
{
    if i < 0 || i >= types.len() {
        Seq::empty()
    } else {
        ts_node_imports(types[i]) + ts_union_imports_from(types, i + 1)
    }
}

// ---------------------------------------------------------------------------
// The rendered text.
// ---------------------------------------------------------------------------

/// One whole type-alias declaration.
pub open spec fn ts_alias_text(id: Seq<char>, n: Node, tab: nat) -> Seq<char>
    decreases n, 3int,
{
    match n {
        Node::StringLiteral(sl) => "export type "@ + spec_capitalize(id) + " = "@ + "\""@
            + sl.value@ + "\";\n"@,
        Node::NumberLiteral(nl) => "export type "@ + spec_capitalize(id) + " = "@ + nl.value@
            + ";\n"@,
        Node::Keyword(k) => "export type "@ + spec_capitalize(id) + " = "@ + spec_keyword(
            k.value,
            SupportedLang::TypeScript,
        ) + ";\n"@,
        Node::Object(o) => "export type "@ + spec_capitalize(id) + " = {\n"@ + ts_props_text_from(
            o.values@,
            0,
            spec_spaces(tab),
            tab,
        ) + "\n};\n"@,
        Node::Array(a) => "export type "@ + spec_capitalize(id) + " = "@ + ts_inline_text(
            *a.items,
            tab,
        ) + "[];\n"@,
        Node::Ref(r) => "export type "@ + spec_capitalize(id) + " = "@ + spec_capitalize(r.name@)
            + ";\n"@,
        Node::Dyn(d) => "export type "@ + spec_capitalize(id) + " = "@ + spec_capitalize(d.name@)
            + "\n"@,
        Node::Union(u) => "export type "@ + spec_capitalize(id) + " = "@ + ts_union_text_from(
            u.types@,
            0,
            tab,
        ) + ";\n"@,
        Node::Split(s) => match s.typescript {
            Some(b) => ts_alias_text(id, *b, tab),
            None => Seq::empty(),
        },
        Node::Empty => Seq::empty(),
    }
}

/// One object property, indented by `ind`; every property but the last ends
/// with a newline.
pub open spec fn ts_prop_text(p: Property, ind: Seq<char>, tab: nat, is_last: bool) -> Seq<char>
    decreases p, 3int,
{
    let line = match p.body {
        Node::StringLiteral(sl) => ind + p.identifier@ + ": \""@ + sl.value@ + "\";"@,
        Node::NumberLiteral(nl) => ind + p.identifier@ + ": "@ + nl.value@ + ";"@,
        Node::Keyword(k) => ind + p.identifier@ + ": "@ + spec_keyword(
            k.value,
            SupportedLang::TypeScript,
        ) + ";"@,
        Node::Object(o) => ind + p.identifier@ + ": {\n"@ + ts_props_text_from(
            o.values@,
            0,
            ind + spec_spaces(tab),
            tab,
        ) + "\n"@ + ind + "};"@,
        Node::Array(a) => ind + p.identifier@ + ": "@ + ts_inline_text(*a.items, tab) + "[];"@,
        Node::Ref(r) => ind + p.identifier@ + ": "@ + spec_capitalize(r.name@) + ";"@,
        Node::Dyn(d) => ind + p.identifier@ + ": "@ + d.name@ + ";"@,
        Node::Union(u) => ind + p.identifier@ + ": "@ + ts_union_text_from(u.types@, 0, tab)
            + ";"@,
        Node::Split(_) => Seq::empty(),
        Node::Empty => Seq::empty(),
    };
    if is_last {
        line
    } else {
        line + "\n"@
    }
}

pub open spec fn ts_props_text_from(vals: Seq<Property>, i: int, ind: Seq<char>, tab: nat)
    -> Seq<char>
    decreases vals, vals.len() - i,
{
    if i < 0 || i >= vals.len() {
        Seq::empty()
    } else {
        ts_prop_text(vals[i], ind, tab, i == vals.len() - 1) + ts_props_text_from(
            vals,
            i + 1,
            ind,
            tab,
        )
    }
}

/// A node rendered as a bare type expression (an array's item, a union's
/// alternative).
pub open spec fn ts_inline_text(n: Node, tab: nat) -> Seq<char>
    decreases n, 3int,
{
    match n {
        Node::StringLiteral(sl) => "\""@ + sl.value@ + "\""@,
        Node::NumberLiteral(nl) => nl.value@,
        Node::Keyword(k) => spec_keyword(k.value, SupportedLang::TypeScript),
        Node::Object(o) => "{\n"@ + ts_props_text_from(o.values@, 0, spec_spaces(tab), tab)
            + "\n}"@,
        Node::Array(a) => ts_inline_text(*a.items, tab) + "[]"@,
        Node::Ref(r) => spec_capitalize(r.name@),
        Node::Dyn(d) => d.name@,
        Node::Union(u) => "("@ + ts_union_text_from(u.types@, 0, tab) + ")"@,
        Node::Split(_) => Seq::empty(),
        Node::Empty => Seq::empty(),
    }
}

/// Union alternatives joined by ` | `, in declaration order.
pub open spec fn ts_union_text_from(types: Seq<Node>, i: int, tab: nat) -> Seq<char>
    decreases types, types.len() - i,
{
    if i < 0 || i >= types.len() {
        Seq::empty()
    } else if i == types.len() - 1 {
        ts_inline_text(types[i], tab)
    } else {
        ts_inline_text(types[i], tab) + " | "@ + ts_union_text_from(types, i + 1, tab)
    }
}

/// Enum members, one per line, each `name = value,`; string members quote
/// their value.
pub open spec fn ts_members_text_from(
    ms: Seq<Member>,
    mt: MembersType,
    i: int,
    ind: Seq<char>,
) -> Seq<char>
    decreases ms.len() - i,
{
    if i < 0 || i >= ms.len() {
        Seq::empty()
    } else {
        let line = match mt {
            MembersType::String => ind + ms[i].identifier@ + " = \""@ + ms[i].value@ + "\","@,
            MembersType::Number => ind + ms[i].identifier@ + " = "@ + ms[i].value@ + ","@,
        };
        let sep: Seq<char> = if i == ms.len() - 1 {
            Seq::empty()
        } else {
            "\n"@
        };
        line + sep + ts_members_text_from(ms, mt, i + 1, ind)
    }
}

/// The whole rendered declaration.
pub open spec fn spec_generate_typescript(ast: AST, tab: nat) -> Seq<char> {
    match ast {
        AST::Enum(e) => "export enum "@ + spec_capitalize(e.identifier@) + " {\n"@
            + ts_members_text_from(e.members@, e.members_type, 0, spec_spaces(tab)) + "\n};\n"@,
        AST::TypeAlias(ta) => ts_alias_text(ta.identifier@, ta.body, tab),
    }
}

/// The first defect of a whole declaration; enums cannot fail.
pub open spec fn ts_ast_err(ast: AST) -> Option<ErrorKind> {
    match ast {
        AST::Enum(_) => None,
        AST::TypeAlias(ta) => ts_node_err(ta.body, true),
    }
}

/// The imports of a whole declaration; enums demand none.
pub open spec fn ts_ast_imports(ast: AST) -> Seq<ImportV> {
    match ast {
        AST::Enum(_) => Seq::empty(),
        AST::TypeAlias(ta) => ts_node_imports(ta.body),
    }
}

// ---------------------------------------------------------------------------
// The executable generator.
// ---------------------------------------------------------------------------

fn iterate_members(members: &Vec<Member>, m_type: &MembersType, i: usize, ind: &str) -> (r:
    String)
    requires
        i <= members@.len(),
    ensures
        r@ == ts_members_text_from(members@, *m_type, i as int, ind@),
    decreases members@.len() - i,
{
    if i >= members.len() {
        let r = String::new();
        proof {
            assert(r@ =~= ts_members_text_from(members@, *m_type, i as int, ind@));
        }
        r
    } else {
        let mut s = ind.to_owned();
        s.append(members[i].identifier.as_str());
        match m_type {
            MembersType::String => {
                s.append(" = \"");
                s.append(members[i].value.as_str());
                s.append("\",");
            }
            MembersType::Number => {
                s.append(" = ");
                s.append(members[i].value.as_str());
                s.append(",");
            }
        }
        if i < members.len() - 1 {
            s.append("\n");
        }
        let rest = iterate_members(members, m_type, i + 1, ind);
        s.append(rest.as_str());
        s
    }
}

/// Render one property at the given indentation.
fn iterate_properties(
    imports: &mut Imports,
    p: &Property,
    ind: &str,
    tabsize: usize,
    is_last: bool,
) -> (r: Result<String, CompileError>)
    ensures
        match r {
            Ok(s) => ts_node_err(p.body, false) is None && s@ == ts_prop_text(
                *p,
                ind@,
                tabsize as nat,
                is_last,
            ) && imports_of(final(imports)@) == imports_of(old(imports)@) + ts_node_imports(
                p.body,
            ),
            Err(e) => ts_node_err(p.body, false) == Some(e.kind) && e.subject@.len() == 0,
        },
    decreases *p, 3int,
{
    let ghost i0 = imports@;
    let mut s = ind.to_owned();
    s.append(p.identifier.as_str());
    match &p.body {
        Node::StringLiteral(sl) => {
            s.append(": \"");
            s.append(sl.value.as_str());
            s.append("\";");
            proof {
                assert(imports_of(imports@) =~= imports_of(i0) + ts_node_imports(p.body));
            }
        }
        Node::NumberLiteral(nl) => {
            s.append(": ");
            s.append(nl.value.as_str());
            s.append(";");
            proof {
                assert(imports_of(imports@) =~= imports_of(i0) + ts_node_imports(p.body));
            }
        }
        Node::Keyword(k) => {
            s.append(": ");
            let kw = k.value.to_string(SupportedLang::TypeScript);
            s.append(kw.as_str());
            s.append(";");
            proof {
                assert(imports_of(imports@) =~= imports_of(i0) + ts_node_imports(p.body));
            }
        }
        Node::Object(o) => {
            s.append(": {\n");
            let mut ind2 = ind.to_owned();
            let extra = spaces(tabsize);
            ind2.append(extra.as_str());
            let inner = properties_from(imports, &o.values, 0, ind2.as_str(), tabsize)?;
            s.append(inner.as_str());
            s.append("\n");
            s.append(ind);
            s.append("};");
        }
        Node::Array(a) => {
            s.append(": ");
            let item = iterate_array(imports, &a.items, tabsize)?;
            s.append(item.as_str());
            s.append("[];");
        }
        Node::Ref(r) => {
            s.append(": ");
            let cap = capitalize(r.name.as_str());
            s.append(cap.as_str());
            s.append(";");
            if r.path.unicode_len() > 0 {
                let imp = Import::Ref(RefImport { name: cap, from: r.path.clone() });
                let ghost x = imp;
                imports.push(imp);
                proof {
                    lemma_imports_of_push(i0, x);
                    assert(imports_of(imports@) =~= imports_of(i0) + ts_node_imports(p.body));
                }
            } else {
                proof {
                    assert(imports_of(imports@) =~= imports_of(i0) + ts_node_imports(p.body));
                }
            }
        }
        Node::Dyn(d) => {
            s.append(": ");
            s.append(d.name.as_str());
            s.append(";");
            let imp = Import::Dyn(DynImport { name: d.name.clone(), from: d.from.clone() });
            let ghost x = imp;
            imports.push(imp);
            proof {
                lemma_imports_of_push(i0, x);
                assert(imports_of(imports@) =~= imports_of(i0) + ts_node_imports(p.body));
            }
        }
        Node::Union(u) => {
            s.append(": ");
            let alts = union_from(imports, &u.types, 0, tabsize)?;
            s.append(alts.as_str());
            s.append(";");
        }
        Node::Split(_) => {
            return Err(CompileError::new(ErrorKind::SplitBelowTop, String::new()));
        }
        Node::Empty => {
            return Err(CompileError::new(ErrorKind::EmptyNode, String::new()));
        }
    }
    if !is_last {
        s.append("\n");
    }
    Ok(s)
}

/// Render the properties of an object from index `i` on.
fn properties_from(
    imports: &mut Imports,
    vals: &Vec<Property>,
    i: usize,
    ind: &str,
    tabsize: usize,
) -> (r: Result<String, CompileError>)
    requires
        i <= vals@.len(),
    ensures
        match r {
            Ok(s) => ts_props_err_from(vals@, i as int) is None && s@ == ts_props_text_from(
                vals@,
                i as int,
                ind@,
                tabsize as nat,
            ) && imports_of(final(imports)@) == imports_of(old(imports)@)
                + ts_props_imports_from(vals@, i as int),
            Err(e) => ts_props_err_from(vals@, i as int) == Some(e.kind) && e.subject@.len()
                == 0,
        },
    decreases vals@, vals@.len() - i,
{
    if i >= vals.len() {
        let r = String::new();
        proof {
            assert(r@ =~= ts_props_text_from(vals@, i as int, ind@, tabsize as nat));
            assert(imports_of(imports@) =~= imports_of(old(imports)@) + ts_props_imports_from(
                vals@,
                i as int,
            ));
        }
        Ok(r)
    } else {
        let is_last = i == vals.len() - 1;
        let mut s = iterate_properties(imports, &vals[i], ind, tabsize, is_last)?;
        let ghost mid = imports@;
        let rest = properties_from(imports, vals, i + 1, ind, tabsize)?;
        s.append(rest.as_str());
        proof {
            assert(imports_of(imports@) =~= imports_of(old(imports)@) + ts_props_imports_from(
                vals@,
                i as int,
            ));
        }
        Ok(s)
    }
}

/// Render a node as a bare type expression.
fn iterate_array(imports: &mut Imports, n: &Node, tabsize: usize) -> (r: Result<
    String,
    CompileError,
>)
    ensures
        match r {
            Ok(s) => ts_node_err(*n, false) is None && s@ == ts_inline_text(*n, tabsize as nat)
                && imports_of(final(imports)@) == imports_of(old(imports)@) + ts_node_imports(*n),
            Err(e) => ts_node_err(*n, false) == Some(e.kind) && e.subject@.len() == 0,
        },
    decreases *n, 3int,
{
    let ghost i0 = imports@;
    match n {
        Node::StringLiteral(sl) => {
            let mut s = String::from_str("\"");
            s.append(sl.value.as_str());
            s.append("\"");
            proof {
                assert(imports_of(imports@) =~= imports_of(i0) + ts_node_imports(*n));
            }
            Ok(s)
        }
        Node::NumberLiteral(nl) => {
            proof {
                assert(imports_of(imports@) =~= imports_of(i0) + ts_node_imports(*n));
            }
            Ok(nl.value.clone())
        }
        Node::Keyword(k) => {
            proof {
                assert(imports_of(imports@) =~= imports_of(i0) + ts_node_imports(*n));
            }
            Ok(k.value.to_string(SupportedLang::TypeScript))
        }
        Node::Object(o) => {
            let ind = spaces(tabsize);
            let inner = properties_from(imports, &o.values, 0, ind.as_str(), tabsize)?;
            let mut s = String::from_str("{\n");
            s.append(inner.as_str());
            s.append("\n}");
            Ok(s)
        }
        Node::Array(a) => {
            let item = iterate_array(imports, &a.items, tabsize)?;
            let mut s = item;
            s.append("[]");
            Ok(s)
        }
        Node::Ref(r) => {
            let cap = capitalize(r.name.as_str());
            if r.path.unicode_len() > 0 {
                let imp = Import::Ref(
                    RefImport { name: capitalize(r.name.as_str()), from: r.path.clone() },
                );
                let ghost x = imp;
                imports.push(imp);
                proof {
                    lemma_imports_of_push(i0, x);
                    assert(imports_of(imports@) =~= imports_of(i0) + ts_node_imports(*n));
                }
            } else {
                proof {
                    assert(imports_of(imports@) =~= imports_of(i0) + ts_node_imports(*n));
                }
            }
            Ok(cap)
        }
        Node::Dyn(d) => {
            let imp = Import::Dyn(DynImport { name: d.name.clone(), from: d.from.clone() });
            let ghost x = imp;
            imports.push(imp);
            proof {
                lemma_imports_of_push(i0, x);
                assert(imports_of(imports@) =~= imports_of(i0) + ts_node_imports(*n));
            }
            Ok(d.name.clone())
        }
        Node::Union(u) => {
            let alts = union_from(imports, &u.types, 0, tabsize)?;
            let mut s = String::from_str("(");
            s.append(alts.as_str());
            s.append(")");
            Ok(s)
        }
        Node::Split(_) => Err(CompileError::new(ErrorKind::SplitBelowTop, String::new())),
        Node::Empty => Err(CompileError::new(ErrorKind::EmptyNode, String::new())),
    }
}

/// Render union alternatives from index `i` on, joined by ` | `.
fn union_from(imports: &mut Imports, types: &Vec<Node>, i: usize, tabsize: usize) -> (r: Result<
    String,
    CompileError,
>)
    requires
        i <= types@.len(),
    ensures
        match r {
            Ok(s) => ts_union_err_from(types@, i as int) is None && s@ == ts_union_text_from(
                types@,
                i as int,
                tabsize as nat,
            ) && imports_of(final(imports)@) == imports_of(old(imports)@)
                + ts_union_imports_from(types@, i as int),
            Err(e) => ts_union_err_from(types@, i as int) == Some(e.kind) && e.subject@.len()
                == 0,
        },
    decreases types@, types@.len() - i,
{
    if i >= types.len() {
        let r = String::new();
        proof {
            assert(r@ =~= ts_union_text_from(types@, i as int, tabsize as nat));
            assert(imports_of(imports@) =~= imports_of(old(imports)@) + ts_union_imports_from(
                types@,
                i as int,
            ));
        }
        Ok(r)
    } else {
        let mut s = iterate_array(imports, &types[i], tabsize)?;
        if i == types.len() - 1 {
            proof {
                assert(ts_union_imports_from(types@, i as int + 1) =~= Seq::<ImportV>::empty());
                assert(imports_of(imports@) =~= imports_of(old(imports)@)
                    + ts_union_imports_from(types@, i as int));
            }
            Ok(s)
        } else {
            s.append(" | ");
            let rest = union_from(imports, types, i + 1, tabsize)?;
            s.append(rest.as_str());
            proof {
                assert(imports_of(imports@) =~= imports_of(old(imports)@)
                    + ts_union_imports_from(types@, i as int));
            }
            Ok(s)
        }
    }
}

/// Render one type-alias declaration.
fn typescript_alias(imports: &mut Imports, identifier: &String, body: &Node, tabsize: usize) -> (
    r: Result<String, CompileError>)
    ensures
        match r {
            Ok(s) => ts_node_err(*body, true) is None && s@ == ts_alias_text(
                identifier@,
                *body,
                tabsize as nat,
            ) && imports_of(final(imports)@) == imports_of(old(imports)@) + ts_node_imports(
                *body,
            ),
            Err(e) => ts_node_err(*body, true) == Some(e.kind) && e.subject@.len() == 0,
        },
    decreases *body, 4int,
{
    let ghost i0 = imports@;
    match body {
        Node::StringLiteral(sl) => {
            let mut s = alias_head(identifier);
            s.append("\"");
            s.append(sl.value.as_str());
            s.append("\";\n");
            proof {
                assert(s@ =~= ts_alias_text(identifier@, *body, tabsize as nat));
                assert(imports_of(imports@) =~= imports_of(i0) + ts_node_imports(*body));
            }
            Ok(s)
        }
        Node::NumberLiteral(nl) => {
            let mut s = alias_head(identifier);
            s.append(nl.value.as_str());
            s.append(";\n");
            proof {
                assert(s@ =~= ts_alias_text(identifier@, *body, tabsize as nat));
                assert(imports_of(imports@) =~= imports_of(i0) + ts_node_imports(*body));
            }
            Ok(s)
        }
        Node::Keyword(k) => {
            let mut s = alias_head(identifier);
            let kw = k.value.to_string(SupportedLang::TypeScript);
            s.append(kw.as_str());
            s.append(";\n");
            proof {
                assert(s@ =~= ts_alias_text(identifier@, *body, tabsize as nat));
                assert(imports_of(imports@) =~= imports_of(i0) + ts_node_imports(*body));
            }
            Ok(s)
        }
        Node::Object(o) => {
            let mut s = String::from_str("export type ");
            let cap = capitalize(identifier.as_str());
            s.append(cap.as_str());
            s.append(" = {\n");
            let ind = spaces(tabsize);
            let inner = properties_from(imports, &o.values, 0, ind.as_str(), tabsize)?;
            s.append(inner.as_str());
            s.append("\n};\n");
            proof {
                assert(s@ =~= ts_alias_text(identifier@, *body, tabsize as nat));
            }
            Ok(s)
        }
        Node::Array(a) => {
            let item = iterate_array(imports, &a.items, tabsize)?;
            let mut s = alias_head(identifier);
            s.append(item.as_str());
            s.append("[];\n");
            proof {
                assert(s@ =~= ts_alias_text(identifier@, *body, tabsize as nat));
            }
            Ok(s)
        }
        Node::Ref(rf) => {
            let mut s = alias_head(identifier);
            let cap_name = capitalize(rf.name.as_str());
            s.append(cap_name.as_str());
            s.append(";\n");
            proof {
                assert(s@ =~= ts_alias_text(identifier@, *body, tabsize as nat));
            }
            if rf.path.unicode_len() > 0 {
                let imp = Import::Ref(RefImport { name: cap_name, from: rf.path.clone() });
                let ghost x = imp;
                imports.push(imp);
                proof {
                    lemma_imports_of_push(i0, x);
                    assert(imports_of(imports@) =~= imports_of(i0) + ts_node_imports(*body));
                }
            } else {
                proof {
                    assert(imports_of(imports@) =~= imports_of(i0) + ts_node_imports(*body));
                }
            }
            Ok(s)
        }
        Node::Dyn(d) => {
            let mut s = alias_head(identifier);
            let cap_name = capitalize(d.name.as_str());
            s.append(cap_name.as_str());
            s.append("\n");
            let imp = Import::Dyn(DynImport { name: d.name.clone(), from: d.from.clone() });
            let ghost x = imp;
            imports.push(imp);
            proof {
                lemma_imports_of_push(i0, x);
                assert(imports_of(imports@) =~= imports_of(i0) + ts_node_imports(*body));
                assert(s@ =~= ts_alias_text(identifier@, *body, tabsize as nat));
            }
            Ok(s)
        }
        Node::Union(u) => {
            let alts = union_from(imports, &u.types, 0, tabsize)?;
            let mut s = alias_head(identifier);
            s.append(alts.as_str());
            s.append(";\n");
            proof {
                assert(s@ =~= ts_alias_text(identifier@, *body, tabsize as nat));
            }
            Ok(s)
        }
        Node::Split(sp) => {
            match &sp.typescript {
                Some(b) => {
                    let inner = typescript_alias(imports, identifier, b, tabsize)?;
                    Ok(inner)
                }
                None => {
                    let r = String::new();
                    proof {
                        assert(r@ =~= ts_alias_text(identifier@, *body, tabsize as nat));
                        assert(imports_of(imports@) =~= imports_of(i0) + ts_node_imports(*body));
                    }
                    Ok(r)
                }
            }
        }
        Node::Empty => Err(CompileError::new(ErrorKind::EmptyNode, String::new())),
    }
}

/// The `export type <Name> = ` opening shared by most alias forms.
fn alias_head(identifier: &String) -> (r: String)
    ensures
        r@ == "export type "@ + spec_capitalize(identifier@) + " = "@,
{
    let mut s = String::from_str("export type ");
    let cap = capitalize(identifier.as_str());
    s.append(cap.as_str());
    s.append(" = ");
    s
}


/// Render one declaration into TypeScript source, recording the imports it
/// demands at the end of `imports`. Succeeds exactly when the declaration
/// holds no unpopulated node and no `split` below top level.
pub fn generate_typescript(ast: &AST, imports: &mut Imports, tabsize: usize) -> (r: Result<
    String,
    CompileError,
>)
    ensures
        match r {
            Ok(s) => ts_ast_err(*ast) is None && s@ == spec_generate_typescript(
                *ast,
                tabsize as nat,
            ) && imports_of(final(imports)@) == imports_of(old(imports)@) + ts_ast_imports(*ast),
            Err(e) => ts_ast_err(*ast) == Some(e.kind) && e.subject@.len() == 0,
        },
{
    match ast {
        AST::Enum(e) => {
            let ind = spaces(tabsize);
            let members = iterate_members(&e.members, &e.members_type, 0, ind.as_str());
            let mut s = String::from_str("export enum ");
            let cap = capitalize(e.identifier.as_str());
            s.append(cap.as_str());
            s.append(" {\n");
            s.append(members.as_str());
            s.append("\n};\n");
            proof {
                assert(imports_of(imports@) =~= imports_of(old(imports)@) + ts_ast_imports(
                    *ast,
                ));
            }
            Ok(s)
        }
        AST::TypeAlias(ta) => typescript_alias(imports, &ta.identifier, &ta.body, tabsize),
    }
}

} // verus!
