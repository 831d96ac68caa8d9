//! The transformer: builds the flat, ordered list of AST declarations from
//! one source file's raw declarations, resolving the directive keywords
//! (`$ref`, `$dyn`, `split`, `union`, `literal`) into node variants.

use crate::ast::{
    ArrayNode, DynNode, EnumAst, KeywordNode, Keywords, Member, MembersType, Node, NumberLiteralNode,
    ObjectNode, Property, RefNode, SplitNode, StringLiteralNode, TypeAliasAst, UnionNode, AST,
};
use crate::definition::{Def, EnumDef, Spec, TypeAliasDef};
use crate::doc::{
    doc_get, entries_size, lemma_doc_get_size, lemma_entry_value_size, lemma_list_value_size,
    list_size, spec_doc_get, DocEntry, DocValue,
};
use crate::error::{CompileError, ErrorKind};
use crate::lang::SupportedLang;
use crate::path::{find_char, find_char_in, rfind_char, lemma_find_char, lemma_rfind_char_is};
use crate::str_eq;
use vstd::prelude::*;

verus! {

// ---------------------------------------------------------------------------
// Reference URIs.
// ---------------------------------------------------------------------------

/// The reference path of a `$ref` URI: everything before the first `#`.
pub open spec fn ref_path_of(u: Seq<char>) -> Seq<char> {
    u.take(find_char(u, '#') as int)
}

/// The type name of a `$ref` URI: the last `/`-segment of its path part,
/// independent of the fragment.
pub open spec fn ref_name_of(u: Seq<char>) -> Seq<char> {
    let p = ref_path_of(u);
    p.skip(rfind_char(p, '/') + 1)
}

/// Split a `$ref` URI into its type name and its reference path.
fn parse_ref_uri(u: &str) -> (r: (String, String))
    ensures
        r.0@ == ref_name_of(u@),
        r.1@ == ref_path_of(u@),
{
    let n = u.unicode_len();
    let h = find_char_in(u, '#');
    proof {
        lemma_find_char(u@, '#');
    }
    let path = u.substring_char(0, h);
    let pn = path.unicode_len();
    let mut last_slash: usize = 0;
    let mut found = false;
    let mut i: usize = 0;
    while i < pn
        invariant
            i <= pn,
            pn == ref_path_of(u@).len(),
            path@ == ref_path_of(u@),
            found ==> last_slash < i && path@[last_slash as int] == '/',
            forall|j: int| 0 <= j < i && path@[j] == '/' ==> found && j <= last_slash,
        decreases pn - i,
    {
        if path.get_char(i) == '/' {
            found = true;
            last_slash = i;
        }
        i += 1;
    }
    proof {
        if found {
            lemma_rfind_char_is(path@, '/', last_slash as int);
        } else {
            lemma_rfind_char_is(path@, '/', -1);
        }
    }
    let name = if found {
        let s = path.substring_char(last_slash + 1, pn);
        s.to_owned()
    } else {
        path.to_owned()
    };
    proof {
        if !found {
            assert(name@ =~= ref_path_of(u@).skip(0));
        }
    }
    (name, path.to_owned())
}

// ---------------------------------------------------------------------------
// What a built node must look like, value by value.
// ---------------------------------------------------------------------------

/// Does this node realize the body mapping? This is the non-top-level
/// dispatch: `split` never matches here.
pub open spec fn body_node_matches(es: Seq<DocEntry>, n: Node) -> bool
    decreases n, 0int,
{
    match spec_doc_get(es, "type"@) {
        Some(DocValue::Str(t)) => if t@ == "string"@ {
            n == Node::Keyword(KeywordNode { value: Keywords::String })
        } else if t@ == "number"@ {
            n == Node::Keyword(KeywordNode { value: Keywords::Number })
        } else if t@ == "boolean"@ {
            n == Node::Keyword(KeywordNode { value: Keywords::Boolean })
        } else if t@ == "any"@ {
            n == Node::Keyword(KeywordNode { value: Keywords::Any })
        } else if t@ == "object"@ {
            &&& spec_doc_get(es, "properties"@) matches Some(DocValue::Mapping(p))
            &&& n matches Node::Object(on)
            &&& props_match_from(p@, 0, on.values@)
        } else if t@ == "array"@ {
            &&& spec_doc_get(es, "items"@) matches Some(DocValue::Mapping(m))
            &&& n matches Node::Array(an)
            &&& body_node_matches(m@, *an.items)
        } else if t@ == "literal"@ {
            match spec_doc_get(es, "value"@) {
                Some(DocValue::Str(v)) => n matches Node::StringLiteral(sl) && sl.value@ == v@,
                Some(DocValue::Number(x)) => n matches Node::NumberLiteral(nl) && nl.value@
                    == x@,
                _ => false,
            }
        } else if t@ == "$ref"@ {
            &&& spec_doc_get(es, "uri"@) matches Some(DocValue::Str(u))
            &&& n matches Node::Ref(rn)
            &&& rn.name@ == ref_name_of(u@)
            &&& rn.path@ == ref_path_of(u@)
        } else if t@ == "$dyn"@ {
            &&& spec_doc_get(es, "name"@) matches Some(DocValue::Str(nv))
            &&& spec_doc_get(es, "from"@) matches Some(DocValue::Str(fv))
            &&& n matches Node::Dyn(dn)
            &&& dn.name@ == nv@
            &&& dn.from@ == fv@
        } else if t@ == "union"@ {
            &&& spec_doc_get(es, "types"@) matches Some(DocValue::List(ts))
            &&& ts@.len() > 0
            &&& n matches Node::Union(un)
            &&& union_match_from(ts@, 0, un.types@)
        } else {
            false
        },
        _ => false,
    }
}

/// Does this node realize a nested value (a property's or alternative's
/// body)? The value must itself be a mapping.
pub open spec fn value_node_matches(v: DocValue, n: Node) -> bool
    decreases n, 1int,
{
    v matches DocValue::Mapping(es) && body_node_matches(es@, n)
}

/// Do these properties realize the property mapping's entries from `i` on?
pub open spec fn props_match_from(p: Seq<DocEntry>, i: int, vals: Seq<Property>) -> bool
    decreases vals, 2int,
{
    vals.len() == p.len() - i && forall|j: int|
        0 <= j < vals.len() ==> (#[trigger] vals[j]).identifier@ == p[i + j].key@
            && value_node_matches(p[i + j].value, vals[j].body)
}

/// Do these alternatives realize the union's type list from `i` on?
pub open spec fn union_match_from(ts: Seq<DocValue>, i: int, alts: Seq<Node>) -> bool
    decreases alts, 2int,
{
    alts.len() == ts.len() - i && forall|j: int|
        0 <= j < alts.len() ==> value_node_matches(ts[i + j], #[trigger] alts[j])
}

// ---------------------------------------------------------------------------
// The first structural error of a body, in dispatch order.
// ---------------------------------------------------------------------------

pub open spec fn body_err(es: Seq<DocEntry>, id: Seq<char>) -> Option<(ErrorKind, Seq<char>)>
    decreases entries_size(es), 0int,
    via body_err_dec
{
    match spec_doc_get(es, "type"@) {
        None => Some((ErrorKind::MissingType, id)),
        Some(DocValue::Str(t)) => if t@ == "string"@ || t@ == "number"@ || t@ == "boolean"@ || t@
            == "any"@ {
            None
        } else if t@ == "object"@ {
            match spec_doc_get(es, "properties"@) {
                None => Some((ErrorKind::MissingProperties, id)),
                Some(DocValue::Mapping(p)) => props_err_from(p@, 0),
                Some(_) => Some((ErrorKind::InvalidProperties, id)),
            }
        } else if t@ == "array"@ {
            match spec_doc_get(es, "items"@) {
                None => Some((ErrorKind::MissingItems, id)),
                Some(DocValue::Mapping(m)) => body_err(m@, id),
                Some(_) => Some((ErrorKind::InvalidItems, id)),
            }
        } else if t@ == "literal"@ {
            match spec_doc_get(es, "value"@) {
                None => Some((ErrorKind::MissingValue, id)),
                Some(DocValue::Str(_)) => None,
                Some(DocValue::Number(_)) => None,
                Some(_) => Some((ErrorKind::InvalidValue, id)),
            }
        } else if t@ == "$ref"@ {
            match spec_doc_get(es, "uri"@) {
                None => Some((ErrorKind::MissingUri, id)),
                Some(DocValue::Str(_)) => None,
                Some(_) => Some((ErrorKind::InvalidUri, id)),
            }
        } else if t@ == "$dyn"@ {
            match (spec_doc_get(es, "name"@), spec_doc_get(es, "from"@)) {
                (None, _) => Some((ErrorKind::MissingName, id)),
                (_, None) => Some((ErrorKind::MissingFrom, id)),
                (Some(DocValue::Str(_)), Some(DocValue::Str(_))) => None,
                (Some(DocValue::Str(_)), Some(_)) => Some((ErrorKind::InvalidFrom, id)),
                (Some(_), _) => Some((ErrorKind::InvalidName, id)),
            }
        } else if t@ == "union"@ {
            match spec_doc_get(es, "types"@) {
                None => Some((ErrorKind::MissingTypes, id)),
                Some(DocValue::List(ts)) => if ts@.len() == 0 {
                    Some((ErrorKind::EmptyUnion, id))
                } else {
                    union_err_from(ts@, 0, id)
                },
                Some(_) => Some((ErrorKind::InvalidTypes, id)),
            }
        } else if t@ == "split"@ {
            Some((ErrorKind::SplitBelowTop, id))
        } else {
            Some((ErrorKind::InvalidType, id))
        },
        Some(_) => Some((ErrorKind::InvalidType, id)),
    }
}

#[via_fn]
proof fn body_err_dec(es: Seq<DocEntry>, id: Seq<char>) {
    lemma_doc_get_size(es, "properties"@);
    lemma_doc_get_size(es, "items"@);
    lemma_doc_get_size(es, "types"@);
}

pub open spec fn props_err_from(p: Seq<DocEntry>, i: int) -> Option<(ErrorKind, Seq<char>)>
    decreases entries_size(p), p.len() - i,
    via props_err_from_dec
{
    if i < 0 || i >= p.len() {
        None
    } else {
        let here = match p[i].value {
            DocValue::Mapping(es) => body_err(es@, p[i].key@),
            _ => Some((ErrorKind::MissingType, p[i].key@)),
        };
        match here {
            Some(err) => Some(err),
            None => props_err_from(p, i + 1),
        }
    }
}

#[via_fn]
proof fn props_err_from_dec(p: Seq<DocEntry>, i: int) {
    if 0 <= i < p.len() {
        lemma_entry_value_size(p, i);
    }
}

pub open spec fn union_err_from(ts: Seq<DocValue>, i: int, id: Seq<char>) -> Option<(
    ErrorKind,
    Seq<char>,
)>
    decreases list_size(ts), ts.len() - i,
    via union_err_from_dec
{
    if i < 0 || i >= ts.len() {
        None
    } else {
        let here = match ts[i] {
            DocValue::Mapping(es) => body_err(es@, id),
            _ => Some((ErrorKind::InvalidTypes, id)),
        };
        match here {
            Some(err) => Some(err),
            None => union_err_from(ts, i + 1, id),
        }
    }
}

#[via_fn]
proof fn union_err_from_dec(ts: Seq<DocValue>, i: int, id: Seq<char>) {
    if 0 <= i < ts.len() {
        lemma_list_value_size(ts, i);
    }
}

// ---------------------------------------------------------------------------
// Split declarations.
// ---------------------------------------------------------------------------

/// The failure of one split sub-body, if any: it must be a mapping with a
/// sound non-`split` body.
pub open spec fn slot_err(v: DocValue, id: Seq<char>) -> Option<(ErrorKind, Seq<char>)> {
    match v {
        DocValue::Mapping(m) => body_err(m@, id),
        _ => Some((ErrorKind::InvalidSplit, id)),
    }
}

/// The failure of the sub-body under one alias key; an absent key is fine.
pub open spec fn key_err(es: Seq<DocEntry>, key: Seq<char>, id: Seq<char>) -> Option<(
    ErrorKind,
    Seq<char>,
)> {
    match spec_doc_get(es, key) {
        Some(v) => slot_err(v, id),
        None => None,
    }
}

/// The first failure among a split's sub-bodies, alias by alias.
pub open spec fn split_err(es: Seq<DocEntry>, id: Seq<char>) -> Option<(ErrorKind, Seq<char>)> {
    if key_err(es, "ts"@, id) is Some {
        key_err(es, "ts"@, id)
    } else if key_err(es, "typescript"@, id) is Some {
        key_err(es, "typescript"@, id)
    } else if key_err(es, "go"@, id) is Some {
        key_err(es, "go"@, id)
    } else {
        key_err(es, "golang"@, id)
    }
}

/// One declaration per present alias key, none for an absent one.
pub open spec fn key_count(es: Seq<DocEntry>, key: Seq<char>) -> int {
    if spec_doc_get(es, key) is Some {
        1int
    } else {
        0int
    }
}

/// Does the declaration at position `at` realize the sub-body under this
/// alias key, whenever the key is present?
pub open spec fn key_slot_match(
    es: Seq<DocEntry>,
    key: Seq<char>,
    lang: SupportedLang,
    id: Seq<char>,
    asts: Seq<AST>,
    at: int,
) -> bool {
    match spec_doc_get(es, key) {
        Some(v) => 0 <= at < asts.len() && slot_matches((lang, v), asts[at], id),
        None => true,
    }
}

/// Do these declarations realize a split body: one per provided target
/// alias, in alias order?
pub open spec fn split_match(es: Seq<DocEntry>, id: Seq<char>, asts: Seq<AST>) -> bool {
    let c1 = key_count(es, "ts"@);
    let c2 = key_count(es, "typescript"@);
    let c3 = key_count(es, "go"@);
    let c4 = key_count(es, "golang"@);
    &&& asts.len() == c1 + c2 + c3 + c4
    &&& key_slot_match(es, "ts"@, SupportedLang::TypeScript, id, asts, 0)
    &&& key_slot_match(es, "typescript"@, SupportedLang::TypeScript, id, asts, c1)
    &&& key_slot_match(es, "go"@, SupportedLang::Go, id, asts, c1 + c2)
    &&& key_slot_match(es, "golang"@, SupportedLang::Go, id, asts, c1 + c2 + c3)
}

/// Does this declaration realize one split slot: the same name, a `Split`
/// body with only that target's side filled by the slot's sub-body?
pub open spec fn slot_matches(slot: (SupportedLang, DocValue), ast: AST, id: Seq<char>) -> bool {
    &&& slot.1 matches DocValue::Mapping(m)
    &&& ast matches AST::TypeAlias(ta)
    &&& ta.identifier@ == id
    &&& ta.body matches Node::Split(sp)
    &&& match slot.0 {
        SupportedLang::TypeScript => {
            &&& sp.go is None
            &&& sp.typescript matches Some(b)
            &&& body_node_matches(m@, *b)
        },
        SupportedLang::Go => {
            &&& sp.typescript is None
            &&& sp.go matches Some(b)
            &&& body_node_matches(m@, *b)
        },
    }
}

// ---------------------------------------------------------------------------
// One declaration's errors and produced declarations.
// ---------------------------------------------------------------------------

/// The first failure transforming one type-alias declaration at top level.
pub open spec fn alias_err(def: TypeAliasDef) -> Option<(ErrorKind, Seq<char>)> {
    match spec_doc_get(def.body@, "type"@) {
        Some(DocValue::Str(t)) => if t@ == "split"@ {
            split_err(def.body@, def.identifier@)
        } else {
            body_err(def.body@, def.identifier@)
        },
        _ => body_err(def.body@, def.identifier@),
    }
}

/// Do these declarations realize one top-level type alias? A `split` body
/// yields one declaration per provided target alias, in alias order; any
/// other body yields exactly one.
pub open spec fn alias_asts_match(def: TypeAliasDef, asts: Seq<AST>) -> bool {
    match spec_doc_get(def.body@, "type"@) {
        Some(DocValue::Str(t)) => if t@ == "split"@ {
            split_match(def.body@, def.identifier@, asts)
        } else {
            &&& asts.len() == 1
            &&& asts[0] matches AST::TypeAlias(ta)
            &&& ta.identifier@ == def.identifier@
            &&& body_node_matches(def.body@, ta.body)
        },
        _ => false,
    }
}

/// The first failure transforming one enum declaration.
pub open spec fn enum_err(e: EnumDef) -> Option<(ErrorKind, Seq<char>)> {
    if e.kind@ != "string"@ && e.kind@ != "number"@ {
        Some((ErrorKind::InvalidEnumType, e.identifier@))
    } else {
        members_err_from(e.members@, 0, e.kind@ == "string"@, e.identifier@)
    }
}

/// The first failure among an enum's members: each must be a single-entry
/// mapping whose value's kind matches the declared member kind.
pub open spec fn members_err_from(ms: Seq<DocValue>, i: int, string_kind: bool, id: Seq<char>)
    -> Option<(ErrorKind, Seq<char>)>
    decreases ms.len() - i,
{
    if i < 0 || i >= ms.len() {
        None
    } else {
        let ok = ms[i] matches DocValue::Mapping(m) && m@.len() == 1 && (if string_kind {
            m@[0].value is Str
        } else {
            m@[0].value is Number
        });
        if ok {
            members_err_from(ms, i + 1, string_kind, id)
        } else {
            Some((ErrorKind::InvalidEnumMember, id))
        }
    }
}

/// Do these members realize the raw member list?
pub open spec fn members_match(ms: Seq<DocValue>, out: Seq<Member>, string_kind: bool) -> bool {
    out.len() == ms.len() && forall|i: int|
        0 <= i < ms.len() ==> member_matches(ms[i], #[trigger] out[i], string_kind)
}

/// Does one member realize one raw member entry?
pub open spec fn member_matches(mv: DocValue, m: Member, string_kind: bool) -> bool {
    &&& mv matches DocValue::Mapping(e)
    &&& e@.len() == 1
    &&& m.identifier@ == e@[0].key@
    &&& if string_kind {
        e@[0].value matches DocValue::Str(s) && m.value@ == s@
    } else {
        e@[0].value matches DocValue::Number(x) && m.value@ == x@
    }
}

/// Does this declaration realize one enum?
pub open spec fn enum_one_matches(e: EnumDef, ast: AST) -> bool {
    &&& ast matches AST::Enum(ea)
    &&& ea.identifier@ == e.identifier@
    &&& match ea.members_type {
        MembersType::String => e.kind@ == "string"@,
        MembersType::Number => e.kind@ == "number"@,
    }
    &&& members_match(e.members@, ea.members@, e.kind@ == "string"@)
}

/// The first failure among the raw declarations from `i` on.
pub open spec fn transform_err_from(defs: Seq<Def>, i: int) -> Option<(ErrorKind, Seq<char>)>
    decreases defs.len() - i,
{
    if i < 0 || i >= defs.len() {
        None
    } else {
        let here = match defs[i] {
            Def::TypeAlias(t) => alias_err(t),
            Def::Enum(e) => enum_err(e),
        };
        match here {
            Some(err) => Some(err),
            None => transform_err_from(defs, i + 1),
        }
    }
}

/// Do these declarations realize the raw declarations from `i` on, in
/// order? Each raw declaration contributes its own block.
pub open spec fn transform_matches_from(defs: Seq<Def>, i: int, asts: Seq<AST>) -> bool
    decreases defs.len() - i,
{
    if i < 0 || i >= defs.len() {
        asts.len() == 0
    } else {
        match defs[i] {
            Def::TypeAlias(t) => exists|k: int|
                0 <= k <= asts.len() && #[trigger] alias_asts_match(t, asts.take(k))
                    && transform_matches_from(defs, i + 1, asts.skip(k)),
            Def::Enum(e) => asts.len() >= 1 && enum_one_matches(e, asts[0])
                && transform_matches_from(defs, i + 1, asts.skip(1)),
        }
    }
}

// ---------------------------------------------------------------------------
// The executable transformer.
// ---------------------------------------------------------------------------

/// Build the node a body mapping describes. `split` is rejected here: it is
/// legal only at declaration top level.
fn build_node(es: &Vec<DocEntry>, id: &String) -> (r: Result<Node, CompileError>)
    ensures
        match r {
            Ok(n) => body_err(es@, id@) is None && body_node_matches(es@, n),
            Err(e) => body_err(es@, id@) == Some((e.kind, e.subject@)),
        },
    decreases entries_size(es@), 0int,
{
    let tv = match doc_get(es, "type") {
        Some(v) => v,
        None => {
            return Err(CompileError::new(ErrorKind::MissingType, id.clone()));
        }
    };
    let t = match tv {
        DocValue::Str(t) => t,
        _ => {
            return Err(CompileError::new(ErrorKind::InvalidType, id.clone()));
        }
    };
    if str_eq(t.as_str(), "string") {
        Ok(Node::Keyword(KeywordNode { value: Keywords::String }))
    } else if str_eq(t.as_str(), "number") {
        Ok(Node::Keyword(KeywordNode { value: Keywords::Number }))
    } else if str_eq(t.as_str(), "boolean") {
        Ok(Node::Keyword(KeywordNode { value: Keywords::Boolean }))
    } else if str_eq(t.as_str(), "any") {
        Ok(Node::Keyword(KeywordNode { value: Keywords::Any }))
    } else if str_eq(t.as_str(), "object") {
        let p = match doc_get(es, "properties") {
            Some(DocValue::Mapping(p)) => p,
            Some(_) => {
                return Err(CompileError::new(ErrorKind::InvalidProperties, id.clone()));
            }
            None => {
                return Err(CompileError::new(ErrorKind::MissingProperties, id.clone()));
            }
        };
        let mut obj = ObjectNode { values: Vec::new() };
        proof {
            lemma_doc_get_size(es@, "properties"@);
        }
        visit_properties(p, 0, &mut obj)?;
        proof {
            assert(obj.values@.skip(0) =~= obj.values@);
        }
        Ok(Node::Object(obj))
    } else if str_eq(t.as_str(), "array") {
        let m = match doc_get(es, "items") {
            Some(DocValue::Mapping(m)) => m,
            Some(_) => {
                return Err(CompileError::new(ErrorKind::InvalidItems, id.clone()));
            }
            None => {
                return Err(CompileError::new(ErrorKind::MissingItems, id.clone()));
            }
        };
        proof {
            lemma_doc_get_size(es@, "items"@);
        }
        let inner = build_node(m, id)?;
        Ok(Node::Array(ArrayNode { items: Box::new(inner) }))
    } else if str_eq(t.as_str(), "literal") {
        match doc_get(es, "value") {
            Some(DocValue::Str(v)) => Ok(
                Node::StringLiteral(StringLiteralNode { value: v.clone() }),
            ),
            Some(DocValue::Number(x)) => Ok(
                Node::NumberLiteral(NumberLiteralNode { value: x.clone() }),
            ),
            Some(_) => Err(CompileError::new(ErrorKind::InvalidValue, id.clone())),
            None => Err(CompileError::new(ErrorKind::MissingValue, id.clone())),
        }
    } else if str_eq(t.as_str(), "$ref") {
        match doc_get(es, "uri") {
            Some(DocValue::Str(u)) => {
                let (name, path) = parse_ref_uri(u.as_str());
                Ok(Node::Ref(RefNode { name, path }))
            }
            Some(_) => Err(CompileError::new(ErrorKind::InvalidUri, id.clone())),
            None => Err(CompileError::new(ErrorKind::MissingUri, id.clone())),
        }
    } else if str_eq(t.as_str(), "$dyn") {
        let name = match doc_get(es, "name") {
            Some(DocValue::Str(nv)) => nv,
            Some(_) => {
                match doc_get(es, "from") {
                    Some(_) => {
                        return Err(CompileError::new(ErrorKind::InvalidName, id.clone()));
                    }
                    None => {
                        return Err(CompileError::new(ErrorKind::MissingFrom, id.clone()));
                    }
                }
            }
            None => {
                return Err(CompileError::new(ErrorKind::MissingName, id.clone()));
            }
        };
        let from = match doc_get(es, "from") {
            Some(DocValue::Str(fv)) => fv,
            Some(_) => {
                return Err(CompileError::new(ErrorKind::InvalidFrom, id.clone()));
            }
            None => {
                return Err(CompileError::new(ErrorKind::MissingFrom, id.clone()));
            }
        };
        Ok(Node::Dyn(DynNode { name: name.clone(), from: from.clone() }))
    } else if str_eq(t.as_str(), "union") {
        let ts = match doc_get(es, "types") {
            Some(DocValue::List(ts)) => ts,
            Some(_) => {
                return Err(CompileError::new(ErrorKind::InvalidTypes, id.clone()));
            }
            None => {
                return Err(CompileError::new(ErrorKind::MissingTypes, id.clone()));
            }
        };
        if ts.len() == 0 {
            return Err(CompileError::new(ErrorKind::EmptyUnion, id.clone()));
        }
        let mut un = UnionNode { types: Vec::new() };
        proof {
            lemma_doc_get_size(es@, "types"@);
        }
        build_union(ts, 0, id, &mut un)?;
        proof {
            assert(un.types@.skip(0) =~= un.types@);
        }
        Ok(Node::Union(un))
    } else if str_eq(t.as_str(), "split") {
        Err(CompileError::new(ErrorKind::SplitBelowTop, id.clone()))
    } else {
        Err(CompileError::new(ErrorKind::InvalidType, id.clone()))
    }
}

/// Build the properties of an object from entry `i` on, appending them to
/// the object under construction.
fn visit_properties(p: &Vec<DocEntry>, i: usize, node: &mut ObjectNode) -> (r: Result<
    (),
    CompileError,
>)
    requires
        i <= p@.len(),
    ensures
        match r {
            Ok(_) => props_err_from(p@, i as int) is None && final(node).values@.len() == old(
                node,
            ).values@.len() + p@.len() - i && final(node).values@.subrange(
                0,
                old(node).values@.len() as int,
            ) == old(node).values@ && props_match_from(
                p@,
                i as int,
                final(node).values@.skip(old(node).values@.len() as int),
            ),
            Err(e) => props_err_from(p@, i as int) == Some((e.kind, e.subject@)),
        },
    decreases entries_size(p@), p@.len() - i,
{
    if i >= p.len() {
        proof {
            assert(final(node).values@.subrange(0, old(node).values@.len() as int) =~= old(
                node,
            ).values@);
            assert(final(node).values@.skip(old(node).values@.len() as int)
                =~= Seq::<Property>::empty());
        }
        Ok(())
    } else {
        let m = match &p[i].value {
            DocValue::Mapping(m) => m,
            _ => {
                return Err(CompileError::new(ErrorKind::MissingType, p[i].key.clone()));
            }
        };
        proof {
            lemma_entry_value_size(p@, i as int);
        }
        let body = build_node(m, &p[i].key)?;
        let prop = Property { identifier: p[i].key.clone(), body };
        let ghost x = prop;
        let ghost pre = node.values@;
        node.values.push(prop);
        let ghost mid = node.values@;
        let r = visit_properties(p, i + 1, node);
        match r {
            Ok(_) => {
                proof {
                    let fin = node.values@;
                    let appended = fin.skip(pre.len() as int);
                    assert(fin.subrange(0, mid.len() as int) == mid);
                    assert(fin.subrange(0, pre.len() as int) =~= pre);
                    assert(appended.len() == p@.len() - i);
                    assert forall|j: int|
                        0 <= j < appended.len() implies (#[trigger] appended[j]).identifier@
                        == p@[i + j].key@ && value_node_matches(p@[i + j].value,
                        appended[j].body) by {
                        if j == 0 {
                            assert(fin[pre.len() as int] == mid[pre.len() as int]);
                            assert(appended[0] == x);
                        } else {
                            assert(appended[j] == fin.skip(mid.len() as int)[j - 1]);
                            assert(props_match_from(p@, i as int + 1, fin.skip(
                                mid.len() as int,
                            )));
                        }
                    }
                    assert(props_match_from(p@, i as int, appended));
                }
                Ok(())
            }
            Err(e) => Err(e),
        }
    }
}

/// Build the alternatives of a union from element `i` on, appending them.
fn build_union(ts: &Vec<DocValue>, i: usize, id: &String, node: &mut UnionNode) -> (r: Result<
    (),
    CompileError,
>)
    requires
        i <= ts@.len(),
    ensures
        match r {
            Ok(_) => union_err_from(ts@, i as int, id@) is None && final(node).types@.len()
                == old(node).types@.len() + ts@.len() - i && final(node).types@.subrange(
                0,
                old(node).types@.len() as int,
            ) == old(node).types@ && union_match_from(
                ts@,
                i as int,
                final(node).types@.skip(old(node).types@.len() as int),
            ),
            Err(e) => union_err_from(ts@, i as int, id@) == Some((e.kind, e.subject@)),
        },
    decreases list_size(ts@), ts@.len() - i,
{
    if i >= ts.len() {
        proof {
            assert(final(node).types@.subrange(0, old(node).types@.len() as int) =~= old(
                node,
            ).types@);
            assert(final(node).types@.skip(old(node).types@.len() as int)
                =~= Seq::<Node>::empty());
        }
        Ok(())
    } else {
        let m = match &ts[i] {
            DocValue::Mapping(m) => m,
            _ => {
                return Err(CompileError::new(ErrorKind::InvalidTypes, id.clone()));
            }
        };
        proof {
            lemma_list_value_size(ts@, i as int);
        }
        let alt = build_node(m, id)?;
        let ghost x = alt;
        let ghost pre = node.types@;
        node.types.push(alt);
        let ghost mid = node.types@;
        let r = build_union(ts, i + 1, id, node);
        match r {
            Ok(_) => {
                proof {
                    let fin = node.types@;
                    let appended = fin.skip(pre.len() as int);
                    assert(fin.subrange(0, mid.len() as int) == mid);
                    assert(fin.subrange(0, pre.len() as int) =~= pre);
                    assert(appended.len() == ts@.len() - i);
                    assert forall|j: int|
                        0 <= j < appended.len() implies value_node_matches(ts@[i + j],
                        #[trigger] appended[j]) by {
                        if j == 0 {
                            assert(fin[pre.len() as int] == mid[pre.len() as int]);
                            assert(appended[0] == x);
                        } else {
                            assert(appended[j] == fin.skip(mid.len() as int)[j - 1]);
                            assert(union_match_from(ts@, i as int + 1, fin.skip(
                                mid.len() as int,
                            )));
                        }
                    }
                    assert(union_match_from(ts@, i as int, appended));
                }
                Ok(())
            }
            Err(e) => Err(e),
        }
    }
}

/// Build an array's item node from its `items` mapping.
pub fn visit_items(its: &Vec<DocEntry>, id: &String, node: &mut ArrayNode) -> (r: Result<
    (),
    CompileError,
>)
    ensures
        match r {
            Ok(_) => body_err(its@, id@) is None && body_node_matches(its@, *final(node).items),
            Err(e) => body_err(its@, id@) == Some((e.kind, e.subject@)),
        },
{
    let inner = build_node(its, id)?;
    node.items = Box::new(inner);
    Ok(())
}

/// Build one union alternative from its mapping and append it.
pub fn visit_union_types(m: &Vec<DocEntry>, id: &String, node: &mut UnionNode) -> (r: Result<
    (),
    CompileError,
>)
    ensures
        match r {
            Ok(_) => body_err(m@, id@) is None && final(node).types@ == old(node).types@.push(
                final(node).types@.last(),
            ) && body_node_matches(m@, final(node).types@.last()),
            Err(e) => body_err(m@, id@) == Some((e.kind, e.subject@)),
        },
{
    let alt = build_node(m, id)?;
    node.types.push(alt);
    Ok(())
}

/// Wrap a built body into the requested target's `Split` slot, when the
/// declaration came from a `split` sub-body.
pub fn change_body_if_split(body: Node, split: Option<&SupportedLang>) -> (r: Node)
    ensures
        match split {
            None => r == body,
            Some(lang) => match lang {
                SupportedLang::TypeScript => {
                    &&& r matches Node::Split(sp)
                    &&& sp.go is None
                    &&& sp.typescript matches Some(b)
                    &&& *b == body
                },
                SupportedLang::Go => {
                    &&& r matches Node::Split(sp)
                    &&& sp.typescript is None
                    &&& sp.go matches Some(b)
                    &&& *b == body
                },
            },
        },
{
    match split {
        None => body,
        Some(SupportedLang::TypeScript) => Node::Split(
            SplitNode { typescript: Some(Box::new(body)), go: None },
        ),
        Some(SupportedLang::Go) => Node::Split(
            SplitNode { typescript: None, go: Some(Box::new(body)) },
        ),
    }
}

/// Expand one split slot into its per-target declaration.
fn expand_slot(v: &DocValue, lang: SupportedLang, identifier: &String, ast_list: &mut Vec<AST>)
    -> (r: Result<(), CompileError>)
    ensures
        match r {
            Ok(_) => slot_err(*v, identifier@) is None && final(ast_list)@ == old(
                ast_list,
            )@.push(final(ast_list)@.last()) && slot_matches(
                (lang, *v),
                final(ast_list)@.last(),
                identifier@,
            ),
            Err(e) => slot_err(*v, identifier@) == Some((e.kind, e.subject@)),
        },
{
    let m = match v {
        DocValue::Mapping(m) => m,
        _ => {
            return Err(CompileError::new(ErrorKind::InvalidSplit, identifier.clone()));
        }
    };
    let inner = build_node(m, identifier)?;
    let body = change_body_if_split(inner, Some(&lang));
    ast_list.push(AST::TypeAlias(TypeAliasAst { identifier: identifier.clone(), body }));
    Ok(())
}

/// Transform one top-level type-alias declaration, appending the
/// declarations it yields. A `split` body yields one declaration per
/// provided target alias; any other body yields exactly one.
pub fn transform_type_alias(def: &TypeAliasDef, ast_list: &mut Vec<AST>) -> (r: Result<
    (),
    CompileError,
>)
    ensures
        match r {
            Ok(_) => alias_err(*def) is None && final(ast_list)@.len() >= old(ast_list)@.len()
                && final(ast_list)@.subrange(0, old(ast_list)@.len() as int) == old(ast_list)@
                && alias_asts_match(*def, final(ast_list)@.skip(old(ast_list)@.len() as int)),
            Err(e) => alias_err(*def) == Some((e.kind, e.subject@)),
        },
{
    let is_split = match doc_get(&def.body, "type") {
        Some(DocValue::Str(t)) => str_eq(t.as_str(), "split"),
        _ => false,
    };
    if !is_split {
        let n = build_node(&def.body, &def.identifier)?;
        let ghost pre = ast_list@;
        ast_list.push(AST::TypeAlias(TypeAliasAst { identifier: def.identifier.clone(), body: n }));
        proof {
            assert(ast_list@.subrange(0, pre.len() as int) =~= pre);
            assert(ast_list@.skip(pre.len() as int) =~= seq![ast_list@[pre.len() as int]]);
        }
        Ok(())
    } else {
        expand_split(def, ast_list)
    }
}

/// Expand a `split` declaration: one wrapped declaration per provided
/// target alias, in alias order.
#[verifier::rlimit(100)]
fn expand_split(def: &TypeAliasDef, ast_list: &mut Vec<AST>) -> (r: Result<(), CompileError>)
    ensures
        match r {
            Ok(_) => split_err(def.body@, def.identifier@) is None && final(ast_list)@.len()
                >= old(ast_list)@.len() && final(ast_list)@.subrange(
                0,
                old(ast_list)@.len() as int,
            ) == old(ast_list)@ && split_match(
                def.body@,
                def.identifier@,
                final(ast_list)@.skip(old(ast_list)@.len() as int),
            ),
            Err(e) => split_err(def.body@, def.identifier@) == Some((e.kind, e.subject@)),
        },
{
    {
        let ghost es = def.body@;
        let ghost pre = ast_list@;
        let ghost id = def.identifier@;
        if let Some(v) = doc_get(&def.body, "ts") {
            match expand_slot(v, SupportedLang::TypeScript, &def.identifier, ast_list) {
                Ok(_) => {}
                Err(e) => {
                    proof {
                        assert(split_err(es, id) == Some((e.kind, e.subject@)));
                    }
                    return Err(e);
                }
            }
        }
        let ghost l1 = ast_list@;
        proof {
            assert(key_err(es, "ts"@, id) is None);
            assert(l1.len() - pre.len() == key_count(es, "ts"@));
        }
        if let Some(v) = doc_get(&def.body, "typescript") {
            match expand_slot(v, SupportedLang::TypeScript, &def.identifier, ast_list) {
                Ok(_) => {}
                Err(e) => {
                    proof {
                        assert(split_err(es, id) == Some((e.kind, e.subject@)));
                    }
                    return Err(e);
                }
            }
        }
        let ghost l2 = ast_list@;
        proof {
            assert(key_err(es, "typescript"@, id) is None);
            assert(l2.len() - l1.len() == key_count(es, "typescript"@));
        }
        if let Some(v) = doc_get(&def.body, "go") {
            match expand_slot(v, SupportedLang::Go, &def.identifier, ast_list) {
                Ok(_) => {}
                Err(e) => {
                    proof {
                        assert(split_err(es, id) == Some((e.kind, e.subject@)));
                    }
                    return Err(e);
                }
            }
        }
        let ghost l3 = ast_list@;
        proof {
            assert(key_err(es, "go"@, id) is None);
            assert(l3.len() - l2.len() == key_count(es, "go"@));
        }
        if let Some(v) = doc_get(&def.body, "golang") {
            match expand_slot(v, SupportedLang::Go, &def.identifier, ast_list) {
                Ok(_) => {}
                Err(e) => {
                    proof {
                        assert(split_err(es, id) == Some((e.kind, e.subject@)));
                    }
                    return Err(e);
                }
            }
        }
        proof {
            let fin = ast_list@;
            let appended = fin.skip(pre.len() as int);
            assert(key_err(es, "golang"@, id) is None);
            assert(fin.len() - l3.len() == key_count(es, "golang"@));
            if spec_doc_get(es, "ts"@) is Some {
                assert(appended[0] == l1.last());
            }
            if spec_doc_get(es, "typescript"@) is Some {
                assert(appended[l1.len() - pre.len()] == l2.last());
            }
            if spec_doc_get(es, "go"@) is Some {
                assert(appended[l2.len() - pre.len()] == l3.last());
            }
            if spec_doc_get(es, "golang"@) is Some {
                assert(appended[l3.len() - pre.len()] == fin.last());
            }
            assert(split_match(es, id, appended));
            assert(fin.subrange(0, pre.len() as int) =~= pre);
        }
        Ok(())
    }
}

/// Build the members of an enum from element `i` on.
fn build_members(ms: &Vec<DocValue>, i: usize, string_kind: bool, id: &String) -> (r: Result<
    Vec<Member>,
    CompileError,
>)
    requires
        i <= ms@.len(),
    ensures
        match r {
            Ok(out) => members_err_from(ms@, i as int, string_kind, id@) is None && out@.len()
                == ms@.len() - i && forall|j: int|
                0 <= j < out@.len() ==> member_matches(ms@[i + j], #[trigger] out@[j],
                    string_kind),
            Err(e) => members_err_from(ms@, i as int, string_kind, id@) == Some(
                (e.kind, e.subject@),
            ),
        },
    decreases ms@.len() - i,
{
    if i >= ms.len() {
        let out: Vec<Member> = Vec::new();
        Ok(out)
    } else {
        let m = match &ms[i] {
            DocValue::Mapping(m) => m,
            _ => {
                return Err(CompileError::new(ErrorKind::InvalidEnumMember, id.clone()));
            }
        };
        if m.len() != 1 {
            return Err(CompileError::new(ErrorKind::InvalidEnumMember, id.clone()));
        }
        let value: String = if string_kind {
            match &m[0].value {
                DocValue::Str(s) => s.clone(),
                _ => {
                    return Err(CompileError::new(ErrorKind::InvalidEnumMember, id.clone()));
                }
            }
        } else {
            match &m[0].value {
                DocValue::Number(x) => x.clone(),
                _ => {
                    return Err(CompileError::new(ErrorKind::InvalidEnumMember, id.clone()));
                }
            }
        };
        let member = Member { identifier: m[0].key.clone(), value };
        let rest = build_members(ms, i + 1, string_kind, id)?;
        let mut out: Vec<Member> = Vec::new();
        out.push(member);
        let mut rest = rest;
        out.append(&mut rest);
        Ok(out)
    }
}

/// Transform one enum declaration, appending the declaration it yields.
fn transform_enum(e: &EnumDef, ast_list: &mut Vec<AST>) -> (r: Result<(), CompileError>)
    ensures
        match r {
            Ok(_) => enum_err(*e) is None && final(ast_list)@ == old(ast_list)@.push(
                final(ast_list)@.last(),
            ) && enum_one_matches(*e, final(ast_list)@.last()),
            Err(err) => enum_err(*e) == Some((err.kind, err.subject@)),
        },
{
    let string_kind = if str_eq(e.kind.as_str(), "string") {
        true
    } else if str_eq(e.kind.as_str(), "number") {
        false
    } else {
        return Err(CompileError::new(ErrorKind::InvalidEnumType, e.identifier.clone()));
    };
    let members = build_members(&e.members, 0, string_kind, &e.identifier)?;
    proof {
        assert forall|j: int| 0 <= j < e.members@.len() implies member_matches(e.members@[j],
            #[trigger] members@[j], string_kind) by {
            assert(member_matches(e.members@[0 + j], members@[j], string_kind));
        }
        assert(members_match(e.members@, members@, string_kind));
    }
    let members_type = if string_kind {
        MembersType::String
    } else {
        MembersType::Number
    };
    let ast = AST::Enum(EnumAst { identifier: e.identifier.clone(), members_type, members });
    let ghost a = ast;
    ast_list.push(ast);
    proof {
        assert(ast_list@.last() == a);
        assert(enum_one_matches(*e, a));
    }
    Ok(())
}

/// Transform the raw declarations from index `i` on, appending what they
/// yield in order.
fn transform_from(sp: &Spec, i: usize, ast_list: &mut Vec<AST>) -> (r: Result<(), CompileError>)
    requires
        i <= sp.def@.len(),
    ensures
        match r {
            Ok(_) => transform_err_from(sp.def@, i as int) is None && final(ast_list)@.subrange(
                0,
                old(ast_list)@.len() as int,
            ) == old(ast_list)@ && final(ast_list)@.len() >= old(ast_list)@.len()
                && transform_matches_from(
                sp.def@,
                i as int,
                final(ast_list)@.skip(old(ast_list)@.len() as int),
            ),
            Err(e) => transform_err_from(sp.def@, i as int) == Some((e.kind, e.subject@)),
        },
    decreases sp.def@.len() - i,
{
    if i >= sp.def.len() {
        proof {
            assert(final(ast_list)@.subrange(0, old(ast_list)@.len() as int) =~= old(
                ast_list,
            )@);
            assert(final(ast_list)@.skip(old(ast_list)@.len() as int) =~= Seq::<AST>::empty());
        }
        Ok(())
    } else {
        let ghost pre = ast_list@;
        match &sp.def[i] {
            Def::TypeAlias(t) => {
                transform_type_alias(t, ast_list)?;
            }
            Def::Enum(e) => {
                transform_enum(e, ast_list)?;
            }
        }
        let ghost mid = ast_list@;
        let ghost k = (mid.len() - pre.len()) as int;
        let r = transform_from(sp, i + 1, ast_list);
        match r {
            Ok(_) => {
                proof {
                    let fin = final(ast_list)@;
                    let appended = fin.skip(pre.len() as int);
                    assert(fin.subrange(0, mid.len() as int) == mid);
                    assert(fin.subrange(0, pre.len() as int) =~= pre);
                    assert(appended.take(k) =~= mid.skip(pre.len() as int));
                    assert(appended.skip(k) =~= fin.skip(mid.len() as int));
                    match sp.def@[i as int] {
                        Def::TypeAlias(t) => {
                            assert(alias_asts_match(t, appended.take(k)));
                            assert(transform_matches_from(sp.def@, i as int + 1, appended.skip(
                                k,
                            )));
                            assert(transform_matches_from(sp.def@, i as int, appended));
                        }
                        Def::Enum(e) => {
                            assert(appended.len() >= 1);
                            assert(appended[0] == mid.last());
                            assert(enum_one_matches(e, appended[0]));
                            assert(appended.skip(1) =~= fin.skip(mid.len() as int));
                            assert(transform_matches_from(sp.def@, i as int, appended));
                        }
                    }
                }
                Ok(())
            }
            Err(e) => Err(e),
        }
    }
}

/// Transform a whole source file into its flat, ordered declaration list.
pub fn transformer(sp: &Spec) -> (r: Result<Vec<AST>, CompileError>)
    ensures
        match r {
            Ok(asts) => transform_err_from(sp.def@, 0) is None && transform_matches_from(
                sp.def@,
                0,
                asts@,
            ),
            Err(e) => transform_err_from(sp.def@, 0) == Some((e.kind, e.subject@)),
        },
{
    let mut result: Vec<AST> = Vec::new();
    transform_from(sp, 0, &mut result)?;
    proof {
        assert(result@.skip(0) =~= result@);
    }
    Ok(result)
}

} // verus!
