//! The Go backend: renders one declaration into Go source and records every
//! cross-file reference it encounters.
//!
//! Go call sites must prefix referenced types with their defining package's
//! name, but that name is only known once every file's placement is decided.
//! So wherever a `Ref` with a path is rendered, this generator embeds a
//! deferred token — the raw reference path between two `[selien-ref]`
//! markers — which the placement pass later substitutes with the resolved
//! package qualifier.

use crate::ast::{
    imports_of, lemma_imports_of_push, DynImport, Import, ImportV, Imports, Member, MembersType,
    Node, Property, RefImport, AST,
};
use crate::error::{CompileError, ErrorKind};
use crate::generator::utils::{capitalize, spaces, spec_capitalize, spec_keyword, spec_spaces};
use crate::lang::SupportedLang;
use crate::path::{path_last_seg, spec_last_seg};
use vstd::prelude::*;

verus! {

/// The deferred reference token: the raw reference path between two
/// matching markers, substituted by the placement pass.
pub open spec fn ref_token(path: Seq<char>) -> Seq<char> {
    "[selien-ref]"@ + path + "[selien-ref]"@
}

/// The next indentation width: one wider, saturating at the machine limit.
pub open spec fn bump_tab(t: nat) -> nat {
    if t < usize::MAX as nat {
        t + 1
    } else {
        t
    }
}

// ---------------------------------------------------------------------------
// Defects and imports.
// ---------------------------------------------------------------------------

/// The first defect in a node, in rendering order. A union's alternatives
/// are never rendered for Go (the union degrades to the universal type), so
/// they are never inspected.
pub open spec fn go_node_err(n: Node, top: bool) -> Option<ErrorKind>
    decreases n, 3int,
{
    match n {
        Node::StringLiteral(_) => None,
        Node::NumberLiteral(_) => None,
        Node::Keyword(_) => None,
        Node::Array(a) => go_node_err(*a.items, false),
        Node::Object(o) => go_props_err_from(o.values@, 0),
        Node::Ref(_) => None,
        Node::Dyn(_) => None,
        Node::Union(_) => None,
        Node::Split(s) => if top {
            match s.go {
                Some(b) => go_node_err(*b, true),
                None => None,
            }
        } else {
            Some(ErrorKind::SplitBelowTop)
        },
        Node::Empty => Some(ErrorKind::EmptyNode),
    }
}

pub open spec fn go_props_err_from(vals: Seq<Property>, i: int) -> Option<ErrorKind>
    decreases vals, vals.len() - i,
{
    if i < 0 || i >= vals.len() {
        None
    } else {
        match go_node_err(vals[i].body, false) {
            Some(e) => Some(e),
            None => go_props_err_from(vals, i + 1),
        }
    }
}

/// The imports a node demands, in rendering order. A union demands none:
/// its alternatives are not rendered, and Go rejects unused imports.
pub open spec fn go_node_imports(n: Node) -> Seq<ImportV>
    decreases n, 3int,
{
    match n {
        Node::StringLiteral(_) => Seq::empty(),
        Node::NumberLiteral(_) => Seq::empty(),
        Node::Keyword(_) => Seq::empty(),
        Node::Array(a) => go_node_imports(*a.items),
        Node::Object(o) => go_props_imports_from(o.values@, 0),
        Node::Ref(r) => if r.path@.len() > 0 {
            seq![ImportV { dynamic: false, name: spec_capitalize(r.name@), from: r.path@ }]
        } else {
            Seq::empty()
        },
        Node::Dyn(d) => seq![ImportV { dynamic: true, name: d.name@, from: d.from@ }],
        Node::Union(_) => Seq::empty(),
        Node::Split(s) => match s.go {
            Some(b) => go_node_imports(*b),
            None => Seq::empty(),
        },
        Node::Empty => Seq::empty(),
    }
}

pub open spec fn go_props_imports_from(vals: Seq<Property>, i: int) -> Seq<ImportV>
    decreases vals, vals.len() - i,
{
    if i < 0 || i >= vals.len() {
        Seq::empty()
    } else {
        go_node_imports(vals[i].body) + go_props_imports_from(vals, i + 1)
    }
}

// ---------------------------------------------------------------------------
// The rendered text.
// ---------------------------------------------------------------------------

/// The serialization tag carrying a field's original identifier.
pub open spec fn go_json_tag(id: Seq<char>) -> Seq<char> {
    " `json:\""@ + id + "\"`"@
}

/// One whole type-alias declaration.
pub open spec fn go_alias_text(id: Seq<char>, n: Node, tab: nat) -> Seq<char>
    decreases n, 3int,
{
    match n {
        Node::StringLiteral(_) => "type "@ + spec_capitalize(id) + " string\n"@,
        Node::NumberLiteral(_) => "type "@ + spec_capitalize(id) + " int\n"@,
        Node::Keyword(k) => "type "@ + spec_capitalize(id) + " "@ + spec_keyword(
            k.value,
            SupportedLang::Go,
        ) + "\n"@,
        Node::Object(o) => "type "@ + spec_capitalize(id) + " struct {\n"@ + go_props_text_from(
            o.values@,
            0,
            spec_spaces(tab),
            tab,
        ) + "\n}\n"@,
        Node::Array(a) => "type "@ + spec_capitalize(id) + " []"@ + go_inline_text(*a.items, tab)
            + "\n"@,
        Node::Ref(r) => if r.path@.len() > 0 {
            "type "@ + spec_capitalize(id) + " "@ + ref_token(r.path@) + spec_capitalize(r.name@)
                + "\n"@
        } else {
            "type "@ + spec_capitalize(id) + " "@ + spec_capitalize(r.name@) + "\n"@
        },
        Node::Dyn(d) => "type "@ + spec_capitalize(id) + " "@ + spec_last_seg(d.from@) + "."@
            + spec_capitalize(d.name@) + "\n"@,
        Node::Union(_) => "type "@ + spec_capitalize(id) + " interface{}\n"@,
        Node::Split(s) => match s.go {
            Some(b) => go_alias_text(id, *b, tab),
            None => Seq::empty(),
        },
        Node::Empty => Seq::empty(),
    }
}

/// One struct field, indented by `ind`, capitalized, with its serialization
/// tag; every field but the last ends with a newline.
pub open spec fn go_prop_text(p: Property, ind: Seq<char>, tab: nat, is_last: bool) -> Seq<char>
    decreases p, 3int,
{
    let line = match p.body {
        Node::StringLiteral(_) => ind + spec_capitalize(p.identifier@) + " string"@ + go_json_tag(
            p.identifier@,
        ),
        Node::NumberLiteral(_) => ind + spec_capitalize(p.identifier@) + " int"@ + go_json_tag(
            p.identifier@,
        ),
        Node::Keyword(k) => ind + spec_capitalize(p.identifier@) + " "@ + spec_keyword(
            k.value,
            SupportedLang::Go,
        ) + go_json_tag(p.identifier@),
        Node::Object(o) => ind + spec_capitalize(p.identifier@) + " struct {\n"@
            + go_props_text_from(o.values@, 0, ind + spec_spaces(tab), tab) + "\n"@ + ind + "}"@
            + go_json_tag(p.identifier@),
        Node::Array(a) => ind + spec_capitalize(p.identifier@) + " []"@ + go_inline_text(
            *a.items,
            bump_tab(tab),
        ) + go_json_tag(p.identifier@),
        Node::Ref(r) => if r.path@.len() > 0 {
            ind + spec_capitalize(p.identifier@) + " "@ + ref_token(r.path@) + spec_capitalize(
                r.name@,
            ) + go_json_tag(p.identifier@)
        } else {
            ind + spec_capitalize(p.identifier@) + " "@ + spec_capitalize(r.name@) + go_json_tag(
                p.identifier@,
            )
        },
        Node::Dyn(d) => ind + spec_capitalize(p.identifier@) + " "@ + spec_last_seg(d.from@)
            + "."@ + spec_capitalize(d.name@) + go_json_tag(p.identifier@),
        Node::Union(_) => ind + spec_capitalize(p.identifier@) + " interface{}"@ + go_json_tag(
            p.identifier@,
        ),
        Node::Split(_) => Seq::empty(),
        Node::Empty => Seq::empty(),
    };
    if is_last {
        line
    } else {
        line + "\n"@
    }
}

pub open spec fn go_props_text_from(vals: Seq<Property>, i: int, ind: Seq<char>, tab: nat)
    -> Seq<char>
    decreases vals, vals.len() - i,
{
    if i < 0 || i >= vals.len() {
        Seq::empty()
    } else {
        go_prop_text(vals[i], ind, tab, i == vals.len() - 1) + go_props_text_from(
            vals,
            i + 1,
            ind,
            tab,
        )
    }
}

/// A node rendered as a bare type expression (an array's item).
pub open spec fn go_inline_text(n: Node, tab: nat) -> Seq<char>
    decreases n, 3int,
{
    match n {
        Node::StringLiteral(_) => "string"@,
        Node::NumberLiteral(_) => "int"@,
        Node::Keyword(k) => spec_keyword(k.value, SupportedLang::Go),
        Node::Object(o) => "struct {\n"@ + go_props_text_from(o.values@, 0, spec_spaces(tab), tab)
            + "\n}"@,
        Node::Array(a) => "[]"@ + go_inline_text(*a.items, tab),
        Node::Ref(r) => if r.path@.len() > 0 {
            ref_token(r.path@) + spec_capitalize(r.name@)
        } else {
            spec_capitalize(r.name@)
        },
        Node::Dyn(d) => spec_last_seg(d.from@) + "."@ + spec_capitalize(d.name@),
        Node::Union(_) => "interface{}"@,
        Node::Split(_) => Seq::empty(),
        Node::Empty => Seq::empty(),
    }
}

/// Enum members as typed constants, one per line. Each constant's name
/// concatenates the enum identifier and the member identifier, so that Go's
/// single top-level constant scope cannot collide.
pub open spec fn go_members_text_from(
    ms: Seq<Member>,
    mt: MembersType,
    tid: Seq<char>,
    i: int,
    ind: Seq<char>,
) -> Seq<char>
    decreases ms.len() - i,
{
    if i < 0 || i >= ms.len() {
        Seq::empty()
    } else {
        let line = match mt {
            MembersType::String => ind + spec_capitalize(tid) + spec_capitalize(
                ms[i].identifier@,
            ) + " "@ + spec_capitalize(tid) + " = \""@ + ms[i].value@ + "\""@,
            MembersType::Number => ind + spec_capitalize(tid) + spec_capitalize(ms[i].identifier@)
                + " "@ + spec_capitalize(tid) + " = "@ + ms[i].value@,
        };
        let sep: Seq<char> = if i == ms.len() - 1 {
            Seq::empty()
        } else {
            "\n"@
        };
        line + sep + go_members_text_from(ms, mt, tid, i + 1, ind)
    }
}

/// The whole rendered declaration.
pub open spec fn spec_generate_go(ast: AST, tab: nat) -> Seq<char> {
    match ast {
        AST::Enum(e) => {
            let head = match e.members_type {
                MembersType::String => "\n"@ + "type "@ + spec_capitalize(e.identifier@)
                    + " string\n"@,
                MembersType::Number => "\n"@ + "type "@ + spec_capitalize(e.identifier@)
                    + " int\n"@,
            };
            head + "const (\n"@ + go_members_text_from(
                e.members@,
                e.members_type,
                e.identifier@,
                0,
                spec_spaces(tab),
            ) + "\n)\n\n"@
        },
        AST::TypeAlias(ta) => go_alias_text(ta.identifier@, ta.body, tab),
    }
}

/// The first defect of a whole declaration; enums cannot fail.
pub open spec fn go_ast_err(ast: AST) -> Option<ErrorKind> {
    match ast {
        AST::Enum(_) => None,
        AST::TypeAlias(ta) => go_node_err(ta.body, true),
    }
}

/// The imports of a whole declaration; enums demand none.
pub open spec fn go_ast_imports(ast: AST) -> Seq<ImportV> {
    match ast {
        AST::Enum(_) => Seq::empty(),
        AST::TypeAlias(ta) => go_node_imports(ta.body),
    }
}

// ---------------------------------------------------------------------------
// The executable generator.
// ---------------------------------------------------------------------------

/// Append the deferred token for a reference path.
fn append_ref_token(s: &mut String, path: &String)
    ensures
        final(s)@ == old(s)@ + ref_token(path@),
{
    s.append("[selien-ref]");
    s.append(path.as_str());
    s.append("[selien-ref]");
    proof {
        assert(s@ =~= old(s)@ + ref_token(path@));
    }
}

fn iterate_members(
    members: &Vec<Member>,
    m_type: &MembersType,
    type_id: &String,
    i: usize,
    ind: &str,
) -> (r: String)
    requires
        i <= members@.len(),
    ensures
        r@ == go_members_text_from(members@, *m_type, type_id@, i as int, ind@),
    decreases members@.len() - i,
{
    if i >= members.len() {
        let r = String::new();
        proof {
            assert(r@ =~= go_members_text_from(members@, *m_type, type_id@, i as int, ind@));
        }
        r
    } else {
        let mut s = ind.to_owned();
        let cap_tid = capitalize(type_id.as_str());
        let cap_mid = capitalize(members[i].identifier.as_str());
        s.append(cap_tid.as_str());
        s.append(cap_mid.as_str());
        s.append(" ");
        s.append(cap_tid.as_str());
        match m_type {
            MembersType::String => {
                s.append(" = \"");
                s.append(members[i].value.as_str());
                s.append("\"");
            }
            MembersType::Number => {
                s.append(" = ");
                s.append(members[i].value.as_str());
            }
        }
        if i < members.len() - 1 {
            s.append("\n");
        }
        let rest = iterate_members(members, m_type, type_id, i + 1, ind);
        s.append(rest.as_str());
        s
    }
}

/// Render one struct field at the given indentation.
fn iterate_properties(
    imports: &mut Imports,
    p: &Property,
    ind: &str,
    tabsize: usize,
    is_last: bool,
) -> (r: Result<String, CompileError>)
    ensures
        match r {
            Ok(s) => go_node_err(p.body, false) is None && s@ == go_prop_text(
                *p,
                ind@,
                tabsize as nat,
                is_last,
            ) && imports_of(final(imports)@) == imports_of(old(imports)@) + go_node_imports(
                p.body,
            ),
            Err(e) => go_node_err(p.body, false) == Some(e.kind) && e.subject@.len() == 0,
        },
    decreases *p, 3int,
{
    let ghost i0 = imports@;
    let mut s = ind.to_owned();
    let cap_id = capitalize(p.identifier.as_str());
    s.append(cap_id.as_str());
    match &p.body {
        Node::StringLiteral(_) => {
            s.append(" string");
            proof {
                assert(imports_of(imports@) =~= imports_of(i0) + go_node_imports(p.body));
            }
        }
        Node::NumberLiteral(_) => {
            s.append(" int");
            proof {
                assert(imports_of(imports@) =~= imports_of(i0) + go_node_imports(p.body));
            }
        }
        Node::Keyword(k) => {
            s.append(" ");
            let kw = k.value.to_string(SupportedLang::Go);
            s.append(kw.as_str());
            proof {
                assert(imports_of(imports@) =~= imports_of(i0) + go_node_imports(p.body));
            }
        }
        Node::Object(o) => {
            s.append(" struct {\n");
            let mut ind2 = ind.to_owned();
            let extra = spaces(tabsize);
            ind2.append(extra.as_str());
            let inner = properties_from(imports, &o.values, 0, ind2.as_str(), tabsize)?;
            s.append(inner.as_str());
            s.append("\n");
            s.append(ind);
            s.append("}");
        }
        Node::Array(a) => {
            s.append(" []");
            let bumped = if tabsize < usize::MAX {
                tabsize + 1
            } else {
                tabsize
            };
            let item = iterate_array(imports, &a.items, bumped)?;
            s.append(item.as_str());
        }
        Node::Ref(r) => {
            s.append(" ");
            let cap = capitalize(r.name.as_str());
            if r.path.unicode_len() > 0 {
                append_ref_token(&mut s, &r.path);
                s.append(cap.as_str());
                let imp = Import::Ref(
                    RefImport { name: capitalize(r.name.as_str()), from: r.path.clone() },
                );
                let ghost x = imp;
                imports.push(imp);
                proof {
                    lemma_imports_of_push(i0, x);
                    assert(imports_of(imports@) =~= imports_of(i0) + go_node_imports(p.body));
                }
            } else {
                s.append(cap.as_str());
                proof {
                    assert(imports_of(imports@) =~= imports_of(i0) + go_node_imports(p.body));
                }
            }
        }
        Node::Dyn(d) => {
            s.append(" ");
            let pkg = path_last_seg(d.from.as_str());
            s.append(pkg.as_str());
            s.append(".");
            let cap = capitalize(d.name.as_str());
            s.append(cap.as_str());
            let imp = Import::Dyn(DynImport { name: d.name.clone(), from: d.from.clone() });
            let ghost x = imp;
            imports.push(imp);
            proof {
                lemma_imports_of_push(i0, x);
                assert(imports_of(imports@) =~= imports_of(i0) + go_node_imports(p.body));
            }
        }
        Node::Union(_) => {
            s.append(" interface{}");
            proof {
                assert(imports_of(imports@) =~= imports_of(i0) + go_node_imports(p.body));
            }
        }
        Node::Split(_) => {
            return Err(CompileError::new(ErrorKind::SplitBelowTop, String::new()));
        }
        Node::Empty => {
            return Err(CompileError::new(ErrorKind::EmptyNode, String::new()));
        }
    }
    s.append(" `json:\"");
    s.append(p.identifier.as_str());
    s.append("\"`");
    if !is_last {
        s.append("\n");
    }
    proof {
        assert(s@ =~= go_prop_text(*p, ind@, tabsize as nat, is_last));
    }
    Ok(s)
}

/// Render the fields of a struct from index `i` on.
fn properties_from(
    imports: &mut Imports,
    vals: &Vec<Property>,
    i: usize,
    ind: &str,
    tabsize: usize,
) -> (r: Result<String, CompileError>)
    requires
        i <= vals@.len(),
    ensures
        match r {
            Ok(s) => go_props_err_from(vals@, i as int) is None && s@ == go_props_text_from(
                vals@,
                i as int,
                ind@,
                tabsize as nat,
            ) && imports_of(final(imports)@) == imports_of(old(imports)@)
                + go_props_imports_from(vals@, i as int),
            Err(e) => go_props_err_from(vals@, i as int) == Some(e.kind) && e.subject@.len()
                == 0,
        },
    decreases vals@, vals@.len() - i,
{
    if i >= vals.len() {
        let r = String::new();
        proof {
            assert(r@ =~= go_props_text_from(vals@, i as int, ind@, tabsize as nat));
            assert(imports_of(imports@) =~= imports_of(old(imports)@) + go_props_imports_from(
                vals@,
                i as int,
            ));
        }
        Ok(r)
    } else {
        let is_last = i == vals.len() - 1;
        let mut s = iterate_properties(imports, &vals[i], ind, tabsize, is_last)?;
        let rest = properties_from(imports, vals, i + 1, ind, tabsize)?;
        s.append(rest.as_str());
        proof {
            assert(imports_of(imports@) =~= imports_of(old(imports)@) + go_props_imports_from(
                vals@,
                i as int,
            ));
        }
        Ok(s)
    }
}

/// Render a node as a bare type expression.
fn iterate_array(imports: &mut Imports, n: &Node, tabsize: usize) -> (r: Result<
    String,
    CompileError,
>)
    ensures
        match r {
            Ok(s) => go_node_err(*n, false) is None && s@ == go_inline_text(*n, tabsize as nat)
                && imports_of(final(imports)@) == imports_of(old(imports)@) + go_node_imports(*n),
            Err(e) => go_node_err(*n, false) == Some(e.kind) && e.subject@.len() == 0,
        },
    decreases *n, 3int,
{
    let ghost i0 = imports@;
    match n {
        Node::StringLiteral(_) => {
            proof {
                assert(imports_of(imports@) =~= imports_of(i0) + go_node_imports(*n));
            }
            Ok(String::from_str("string"))
        }
        Node::NumberLiteral(_) => {
            proof {
                assert(imports_of(imports@) =~= imports_of(i0) + go_node_imports(*n));
            }
            Ok(String::from_str("int"))
        }
        Node::Keyword(k) => {
            proof {
                assert(imports_of(imports@) =~= imports_of(i0) + go_node_imports(*n));
            }
            Ok(k.value.to_string(SupportedLang::Go))
        }
        Node::Object(o) => {
            let ind = spaces(tabsize);
            let inner = properties_from(imports, &o.values, 0, ind.as_str(), tabsize)?;
            let mut s = String::from_str("struct {\n");
            s.append(inner.as_str());
            s.append("\n}");
            Ok(s)
        }
        Node::Array(a) => {
            let item = iterate_array(imports, &a.items, tabsize)?;
            let mut s = String::from_str("[]");
            s.append(item.as_str());
            Ok(s)
        }
        Node::Ref(r) => {
            let cap = capitalize(r.name.as_str());
            if r.path.unicode_len() > 0 {
                let mut s = String::new();
                append_ref_token(&mut s, &r.path);
                s.append(cap.as_str());
                let imp = Import::Ref(
                    RefImport { name: capitalize(r.name.as_str()), from: r.path.clone() },
                );
                let ghost x = imp;
                imports.push(imp);
                proof {
                    lemma_imports_of_push(i0, x);
                    assert(imports_of(imports@) =~= imports_of(i0) + go_node_imports(*n));
                    assert(s@ =~= go_inline_text(*n, tabsize as nat));
                }
                Ok(s)
            } else {
                proof {
                    assert(imports_of(imports@) =~= imports_of(i0) + go_node_imports(*n));
                }
                Ok(cap)
            }
        }
        Node::Dyn(d) => {
            let mut s = path_last_seg(d.from.as_str());
            s.append(".");
            let cap = capitalize(d.name.as_str());
            s.append(cap.as_str());
            let imp = Import::Dyn(DynImport { name: d.name.clone(), from: d.from.clone() });
            let ghost x = imp;
            imports.push(imp);
            proof {
                lemma_imports_of_push(i0, x);
                assert(imports_of(imports@) =~= imports_of(i0) + go_node_imports(*n));
            }
            Ok(s)
        }
        Node::Union(_) => {
            proof {
                assert(imports_of(imports@) =~= imports_of(i0) + go_node_imports(*n));
            }
            Ok(String::from_str("interface{}"))
        }
        Node::Split(_) => Err(CompileError::new(ErrorKind::SplitBelowTop, String::new())),
        Node::Empty => Err(CompileError::new(ErrorKind::EmptyNode, String::new())),
    }
}

/// Render one type-alias declaration.
fn go_alias(imports: &mut Imports, identifier: &String, body: &Node, tabsize: usize) -> (r:
    Result<String, CompileError>)
    ensures
        match r {
            Ok(s) => go_node_err(*body, true) is None && s@ == go_alias_text(
                identifier@,
                *body,
                tabsize as nat,
            ) && imports_of(final(imports)@) == imports_of(old(imports)@) + go_node_imports(
                *body,
            ),
            Err(e) => go_node_err(*body, true) == Some(e.kind) && e.subject@.len() == 0,
        },
    decreases *body, 4int,
{
    let ghost i0 = imports@;
    match body {
        Node::StringLiteral(_) => {
            let mut s = alias_head(identifier);
            s.append(" string\n");
            proof {
                assert(s@ =~= go_alias_text(identifier@, *body, tabsize as nat));
                assert(imports_of(imports@) =~= imports_of(i0) + go_node_imports(*body));
            }
            Ok(s)
        }
        Node::NumberLiteral(_) => {
            let mut s = alias_head(identifier);
            s.append(" int\n");
            proof {
                assert(s@ =~= go_alias_text(identifier@, *body, tabsize as nat));
                assert(imports_of(imports@) =~= imports_of(i0) + go_node_imports(*body));
            }
            Ok(s)
        }
        Node::Keyword(k) => {
            let mut s = alias_head(identifier);
            s.append(" ");
            let kw = k.value.to_string(SupportedLang::Go);
            s.append(kw.as_str());
            s.append("\n");
            proof {
                assert(s@ =~= go_alias_text(identifier@, *body, tabsize as nat));
                assert(imports_of(imports@) =~= imports_of(i0) + go_node_imports(*body));
            }
            Ok(s)
        }
        Node::Object(o) => {
            let mut s = alias_head(identifier);
            s.append(" struct {\n");
            let ind = spaces(tabsize);
            let inner = properties_from(imports, &o.values, 0, ind.as_str(), tabsize)?;
            s.append(inner.as_str());
            s.append("\n}\n");
            proof {
                assert(s@ =~= go_alias_text(identifier@, *body, tabsize as nat));
            }
            Ok(s)
        }
        Node::Array(a) => {
            let mut s = alias_head(identifier);
            s.append(" []");
            let item = iterate_array(imports, &a.items, tabsize)?;
            s.append(item.as_str());
            s.append("\n");
            proof {
                assert(s@ =~= go_alias_text(identifier@, *body, tabsize as nat));
            }
            Ok(s)
        }
        Node::Ref(r) => {
            let mut s = alias_head(identifier);
            s.append(" ");
            let cap = capitalize(r.name.as_str());
            if r.path.unicode_len() > 0 {
                append_ref_token(&mut s, &r.path);
                s.append(cap.as_str());
                s.append("\n");
                let imp = Import::Ref(
                    RefImport { name: capitalize(r.name.as_str()), from: r.path.clone() },
                );
                let ghost x = imp;
                imports.push(imp);
                proof {
                    lemma_imports_of_push(i0, x);
                    assert(imports_of(imports@) =~= imports_of(i0) + go_node_imports(*body));
                    assert(s@ =~= go_alias_text(identifier@, *body, tabsize as nat));
                }
                Ok(s)
            } else {
                s.append(cap.as_str());
                s.append("\n");
                proof {
                    assert(imports_of(imports@) =~= imports_of(i0) + go_node_imports(*body));
                    assert(s@ =~= go_alias_text(identifier@, *body, tabsize as nat));
                }
                Ok(s)
            }
        }
        Node::Dyn(d) => {
            let mut s = alias_head(identifier);
            s.append(" ");
            let pkg = path_last_seg(d.from.as_str());
            s.append(pkg.as_str());
            s.append(".");
            let cap = capitalize(d.name.as_str());
            s.append(cap.as_str());
            s.append("\n");
            let imp = Import::Dyn(DynImport { name: d.name.clone(), from: d.from.clone() });
            let ghost x = imp;
            imports.push(imp);
            proof {
                lemma_imports_of_push(i0, x);
                assert(imports_of(imports@) =~= imports_of(i0) + go_node_imports(*body));
                assert(s@ =~= go_alias_text(identifier@, *body, tabsize as nat));
            }
            Ok(s)
        }
        Node::Union(_) => {
            let mut s = alias_head(identifier);
            s.append(" interface{}\n");
            proof {
                assert(s@ =~= go_alias_text(identifier@, *body, tabsize as nat));
                assert(imports_of(imports@) =~= imports_of(i0) + go_node_imports(*body));
            }
            Ok(s)
        }
        Node::Split(sp) => {
            match &sp.go {
                Some(b) => {
                    let inner = go_alias(imports, identifier, b, tabsize)?;
                    Ok(inner)
                }
                None => {
                    let r = String::new();
                    proof {
                        assert(r@ =~= go_alias_text(identifier@, *body, tabsize as nat));
                        assert(imports_of(imports@) =~= imports_of(i0) + go_node_imports(*body));
                    }
                    Ok(r)
                }
            }
        }
        Node::Empty => Err(CompileError::new(ErrorKind::EmptyNode, String::new())),
    }
}

/// The `type <Name>` opening shared by the alias forms.
fn alias_head(identifier: &String) -> (r: String)
    ensures
        r@ == "type "@ + spec_capitalize(identifier@),
{
    let mut s = String::from_str("type ");
    let cap = capitalize(identifier.as_str());
    s.append(cap.as_str());
    s
}

/// Render one declaration into Go source, recording the imports it demands
/// at the end of `imports`. Succeeds exactly when the declaration holds no
/// unpopulated node and no `split` below top level.
pub fn generate_go(ast: &AST, imports: &mut Imports, tabsize: usize) -> (r: Result<
    String,
    CompileError,
>)
    ensures
        match r {
            Ok(s) => go_ast_err(*ast) is None && s@ == spec_generate_go(*ast, tabsize as nat)
                && imports_of(final(imports)@) == imports_of(old(imports)@) + go_ast_imports(
                *ast,
            ),
            Err(e) => go_ast_err(*ast) == Some(e.kind) && e.subject@.len() == 0,
        },
{
    match ast {
        AST::Enum(e) => {
            let mut s = String::from_str("\n");
            s.append("type ");
            let cap = capitalize(e.identifier.as_str());
            s.append(cap.as_str());
            match &e.members_type {
                MembersType::String => s.append(" string\n"),
                MembersType::Number => s.append(" int\n"),
            }
            s.append("const (\n");
            let ind = spaces(tabsize);
            let members = iterate_members(&e.members, &e.members_type, &e.identifier, 0,
                ind.as_str());
            s.append(members.as_str());
            s.append("\n)\n\n");
            proof {
                assert(s@ =~= spec_generate_go(*ast, tabsize as nat));
                assert(imports_of(imports@) =~= imports_of(old(imports)@) + go_ast_imports(
                    *ast,
                ));
            }
            Ok(s)
        }
        AST::TypeAlias(ta) => go_alias(imports, &ta.identifier, &ta.body, tabsize),
    }
}

} // verus!
