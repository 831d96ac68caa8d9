//! The laws the library keeps, stated and proved once over the same spec
//! functions the executable contracts use.

use crate::ast::{ImportV, Member, MembersType, Node, Property, TabSize, AST};
use crate::compiler::importer::{
    go_abs_import_segs, go_rel_dir, pkg_for_dir, spec_current_pkg, spec_go_from_abs,
    spec_go_from_rel,
};
use crate::compiler::special::spec_qual_for;
use crate::compiler::utils::{dedup_from, join_sep_from, names_for_key, reduce_from,
    spec_dedup, spec_reduce_imports};
use crate::config::OutputGo;
use crate::config::Config;
use crate::generator::go::{
    bump_tab, go_alias_text, go_ast_imports, go_inline_text, go_members_text_from,
    go_node_imports, go_prop_text, go_props_imports_from, go_props_text_from,
};
use crate::generator::utils::spec_spaces;
use crate::generator::{generator_imports, spec_generator};
use crate::generator::typescript::{
    ts_alias_text, ts_ast_imports, ts_inline_text, ts_members_text_from, ts_node_imports,
    ts_prop_text, ts_props_imports_from, ts_props_text_from, ts_union_imports_from,
    ts_union_text_from,
};
use crate::compiler::types::OutputFile;
use crate::compiler::{
    concat_imports, concat_rendered, file_ok, lang_ext, lang_outdir, spec_assemble,
    spec_output_path,
};
use crate::definition::{Def, EnumDef, Spec, TypeAliasDef};
use crate::doc::{spec_doc_get, DocEntry, DocValue};
use crate::lang::SupportedLang;
use crate::path::{dir_segs, path_is_absolute};
use crate::transformer::{
    alias_asts_match, body_node_matches, enum_one_matches, key_count, key_slot_match,
    member_matches, props_match_from, transform_err_from, transform_matches_from,
    union_match_from, value_node_matches,
};
use vstd::prelude::*;

verus! {

broadcast use vstd::string::group_string_axioms;

// ---------------------------------------------------------------------------
// No references, no imports.
// ---------------------------------------------------------------------------

/// Does a node contain a `Ref` or `Dyn` anywhere?
pub open spec fn node_has_refs(n: Node) -> bool
    decreases n, 0int,
{
    match n {
        Node::Ref(_) => true,
        Node::Dyn(_) => true,
        Node::Array(a) => node_has_refs(*a.items),
        Node::Object(o) => props_have_refs(o.values@, 0),
        Node::Union(u) => alts_have_refs(u.types@, 0),
        Node::Split(s) => (match s.typescript {
            Some(b) => node_has_refs(*b),
            None => false,
        }) || (match s.go {
            Some(b) => node_has_refs(*b),
            None => false,
        }),
        _ => false,
    }
}

pub open spec fn props_have_refs(vals: Seq<Property>, i: int) -> bool
    decreases vals, vals.len() - i,
{
    if i < 0 || i >= vals.len() {
        false
    } else {
        node_has_refs(vals[i].body) || props_have_refs(vals, i + 1)
    }
}

pub open spec fn alts_have_refs(types: Seq<Node>, i: int) -> bool
    decreases types, types.len() - i,
{
    if i < 0 || i >= types.len() {
        false
    } else {
        node_has_refs(types[i]) || alts_have_refs(types, i + 1)
    }
}

/// Does a declaration contain a `Ref` or `Dyn` anywhere?
pub open spec fn ast_has_refs(ast: AST) -> bool {
    match ast {
        AST::TypeAlias(ta) => node_has_refs(ta.body),
        AST::Enum(_) => false,
    }
}

proof fn lemma_node_no_refs(n: Node)
    requires
        !node_has_refs(n),
    ensures
        ts_node_imports(n) =~= Seq::<ImportV>::empty(),
        go_node_imports(n) =~= Seq::<ImportV>::empty(),
    decreases n, 0int,
{
    match n {
        Node::Array(a) => lemma_node_no_refs(*a.items),
        Node::Object(o) => lemma_props_no_refs(o.values@, 0),
        Node::Union(u) => lemma_alts_no_refs(u.types@, 0),
        Node::Split(s) => {
            match s.typescript {
                Some(b) => lemma_node_no_refs(*b),
                None => {}
            }
            match s.go {
                Some(b) => lemma_node_no_refs(*b),
                None => {}
            }
        }
        _ => {}
    }
}

proof fn lemma_props_no_refs(vals: Seq<Property>, i: int)
    requires
        !props_have_refs(vals, i),
    ensures
        ts_props_imports_from(vals, i) =~= Seq::<ImportV>::empty(),
        go_props_imports_from(vals, i) =~= Seq::<ImportV>::empty(),
    decreases vals, vals.len() - i,
{
    if 0 <= i < vals.len() {
        lemma_node_no_refs(vals[i].body);
        lemma_props_no_refs(vals, i + 1);
    }
}

proof fn lemma_alts_no_refs(types: Seq<Node>, i: int)
    requires
        !alts_have_refs(types, i),
    ensures
        ts_union_imports_from(types, i) =~= Seq::<ImportV>::empty(),
    decreases types, types.len() - i,
{
    if 0 <= i < types.len() {
        lemma_node_no_refs(types[i]);
        lemma_alts_no_refs(types, i + 1);
    }
}

/// For every declaration containing no `Ref` and no `Dyn`, generation
/// demands no imports, for either target.
pub proof fn lemma_no_refs_no_imports(ast: AST)
    requires
        !ast_has_refs(ast),
    ensures
        ts_ast_imports(ast) =~= Seq::<ImportV>::empty(),
        go_ast_imports(ast) =~= Seq::<ImportV>::empty(),
{
    match ast {
        AST::TypeAlias(ta) => lemma_node_no_refs(ta.body),
        AST::Enum(_) => {}
    }
}

// ---------------------------------------------------------------------------
// Round-trip of the Go import path.
// ---------------------------------------------------------------------------

/// Resolving a root-absolute reference path under the Go target and then
/// stripping the module-name/offset prefix yields back the reference's
/// spec-root-relative directory.
pub proof fn lemma_go_import_roundtrip(from: Seq<char>, o: OutputGo)
    ensures
        go_abs_import_segs(from, o).skip(crate::compiler::utils::go_head_segs(o).len() as int)
            =~= dir_segs(from),
{
}

// ---------------------------------------------------------------------------
// Self-reference elision.
// ---------------------------------------------------------------------------

/// When a root-absolute reference's resolved package equals the current
/// file's package, its import line is omitted entirely and the package
/// qualifier substituted for its deferred token is empty.
pub proof fn lemma_self_reference_elision(from: Seq<char>, current: Seq<char>, root: Seq<char>,
    o: OutputGo)
    requires
        path_is_absolute(from),
        pkg_for_dir(dir_segs(from), o) == spec_current_pkg(current, root, o),
    ensures
        spec_go_from_abs(from, current, root, o) == Seq::<char>::empty(),
        spec_qual_for(from, current, root, o, spec_current_pkg(current, root, o)) == Seq::<
            char,
        >::empty(),
{
}

/// The same elision for a relative reference that resolves into the current
/// file's own package.
pub proof fn lemma_self_reference_elision_rel(from: Seq<char>, current: Seq<char>,
    root: Seq<char>, o: OutputGo)
    requires
        !path_is_absolute(from),
        pkg_for_dir(go_rel_dir(from, current, root), o) == spec_current_pkg(current, root, o),
    ensures
        spec_go_from_rel(from, current, root, o) == Seq::<char>::empty(),
{
}

// ---------------------------------------------------------------------------
// Import merging.
// ---------------------------------------------------------------------------

/// Two imports of the same kind from the same module but with different
/// names collapse to exactly one merged record that carries both names.
pub proof fn lemma_import_merging(l: Seq<ImportV>)
    requires
        l.len() == 2,
        l[0].dynamic == l[1].dynamic,
        l[0].from == l[1].from,
        l[0].name != l[1].name,
    ensures
        spec_reduce_imports(l).len() == 1,
        spec_reduce_imports(l)[0].dynamic == l[0].dynamic,
        spec_reduce_imports(l)[0].from == l[0].from,
        spec_reduce_imports(l)[0].name == l[0].name + ", "@ + l[1].name,
{
    let d = l[0].dynamic;
    let f = l[0].from;
    let names = names_for_key(l, 0, d, f);
    assert(names_for_key(l, 2, d, f) =~= Seq::<Seq<char>>::empty());
    assert(names_for_key(l, 1, d, f) =~= seq![l[1].name]);
    assert(names =~= seq![l[0].name, l[1].name]);
    let seen1 = Seq::<Seq<char>>::empty().push(l[0].name);
    assert(!Seq::<Seq<char>>::empty().contains(names[0]));
    assert(seen1[0] == l[0].name);
    assert(!seen1.contains(names[1]));
    assert(dedup_from(names, 2, seen1.push(names[1])) =~= seen1.push(names[1]));
    assert(dedup_from(names, 1, seen1) =~= seen1.push(names[1]));
    assert(spec_dedup(names) =~= seq![l[0].name, l[1].name]);
    assert(join_sep_from(spec_dedup(names), 1, ", "@) == l[1].name);
    assert(join_sep_from(spec_dedup(names), 0, ", "@) == l[0].name + ", "@ + l[1].name);
    let done1 = Seq::<(bool, Seq<char>)>::empty().push((d, f));
    assert(done1[0] == (d, f));
    assert(done1.contains((l[1].dynamic, l[1].from)));
    assert(reduce_from(l, 2, done1) =~= Seq::<ImportV>::empty());
    assert(reduce_from(l, 1, done1) =~= Seq::<ImportV>::empty());
    assert(!Seq::<(bool, Seq<char>)>::empty().contains((d, f)));
    assert(spec_reduce_imports(l) =~= seq![
        ImportV { dynamic: d, name: join_sep_from(spec_dedup(names), 0, ", "@), from: f },
    ]);
}

/// A duplicated import line is kept only once by the line dedup.
pub proof fn lemma_go_line_dedup(x: Seq<char>)
    ensures
        spec_dedup(seq![x, x]) =~= seq![x],
{
    let l = seq![x, x];
    assert(!Seq::<Seq<char>>::empty().contains(l[0]));
    let seen1 = Seq::<Seq<char>>::empty().push(x);
    assert(seen1[0] == x);
    assert(seen1.contains(l[1]));
    assert(dedup_from(l, 2, seen1) =~= seq![x]);
    assert(dedup_from(l, 1, seen1) =~= seq![x]);
    assert(spec_dedup(l) =~= seq![x]);
}


// ---------------------------------------------------------------------------
// Idempotence: the pipeline decides its output up to the byte.
//
// The transformer's contract pins every built declaration by the views of
// its strings and its shape; rendering depends on nothing else. So any two
// declaration lists realizing the same source assemble to the same text, and
// two runs on unchanged input write byte-identical files.
// ---------------------------------------------------------------------------

/// Do two nodes agree in shape and in every string's view?
pub open spec fn node_eqv(a: Node, b: Node) -> bool
    decreases a, 0int, 0int,
{
    match (a, b) {
        (Node::StringLiteral(x), Node::StringLiteral(y)) => x.value@ == y.value@,
        (Node::NumberLiteral(x), Node::NumberLiteral(y)) => x.value@ == y.value@,
        (Node::Keyword(x), Node::Keyword(y)) => x.value == y.value,
        (Node::Array(x), Node::Array(y)) => node_eqv(*x.items, *y.items),
        (Node::Object(x), Node::Object(y)) => props_eqv(x.values@, y.values@),
        (Node::Ref(x), Node::Ref(y)) => x.name@ == y.name@ && x.path@ == y.path@,
        (Node::Dyn(x), Node::Dyn(y)) => x.name@ == y.name@ && x.from@ == y.from@,
        (Node::Union(x), Node::Union(y)) => alts_eqv(x.types@, y.types@),
        (Node::Split(x), Node::Split(y)) => (match (x.typescript, y.typescript) {
            (Some(xb), Some(yb)) => node_eqv(*xb, *yb),
            (None, None) => true,
            _ => false,
        }) && (match (x.go, y.go) {
            (Some(xb), Some(yb)) => node_eqv(*xb, *yb),
            (None, None) => true,
            _ => false,
        }),
        (Node::Empty, Node::Empty) => true,
        _ => false,
    }
}

pub open spec fn props_eqv(x: Seq<Property>, y: Seq<Property>) -> bool
    decreases x, 1int, 0int,
{
    x.len() == y.len() && forall|i: int|
        0 <= i < x.len() ==> (#[trigger] x[i]).identifier@ == y[i].identifier@ && node_eqv(
            x[i].body,
            y[i].body,
        )
}

pub open spec fn alts_eqv(x: Seq<Node>, y: Seq<Node>) -> bool
    decreases x, 1int, 0int,
{
    x.len() == y.len() && forall|i: int| 0 <= i < x.len() ==> node_eqv(#[trigger] x[i], y[i])
}

/// Do two members agree in every string's view?
pub open spec fn members_eqv(x: Seq<Member>, y: Seq<Member>) -> bool {
    x.len() == y.len() && forall|i: int|
        0 <= i < x.len() ==> (#[trigger] x[i]).identifier@ == y[i].identifier@ && x[i].value@
            == y[i].value@
}

/// Do two declarations agree in shape and in every string's view?
pub open spec fn ast_eqv(a: AST, b: AST) -> bool {
    match (a, b) {
        (AST::TypeAlias(x), AST::TypeAlias(y)) => x.identifier@ == y.identifier@ && node_eqv(
            x.body,
            y.body,
        ),
        (AST::Enum(x), AST::Enum(y)) => x.identifier@ == y.identifier@ && x.members_type
            == y.members_type && members_eqv(x.members@, y.members@),
        _ => false,
    }
}

pub open spec fn asts_eqv(x: Seq<AST>, y: Seq<AST>) -> bool {
    x.len() == y.len() && forall|i: int| 0 <= i < x.len() ==> ast_eqv(#[trigger] x[i], y[i])
}

/// The transformer relation is functional up to string views: two nodes
/// realizing the same body agree.
proof fn lemma_matches_node_eqv(es: Seq<DocEntry>, n1: Node, n2: Node)
    requires
        body_node_matches(es, n1),
        body_node_matches(es, n2),
    ensures
        node_eqv(n1, n2),
    decreases n1, 0int, 0int,
{
    match spec_doc_get(es, "type"@) {
        Some(DocValue::Str(t)) => {
            if t@ == "object"@ {
                match spec_doc_get(es, "properties"@) {
                    Some(DocValue::Mapping(p)) => {
                        match (n1, n2) {
                            (Node::Object(o1), Node::Object(o2)) => {
                                lemma_matches_props_eqv(p@, o1.values@, o2.values@);
                            }
                            _ => {}
                        }
                    }
                    _ => {}
                }
            } else if t@ == "array"@ {
                match spec_doc_get(es, "items"@) {
                    Some(DocValue::Mapping(m)) => {
                        match (n1, n2) {
                            (Node::Array(a1), Node::Array(a2)) => {
                                lemma_matches_node_eqv(m@, *a1.items, *a2.items);
                            }
                            _ => {}
                        }
                    }
                    _ => {}
                }
            } else if t@ == "union"@ {
                match spec_doc_get(es, "types"@) {
                    Some(DocValue::List(ts)) => {
                        match (n1, n2) {
                            (Node::Union(u1), Node::Union(u2)) => {
                                lemma_matches_alts_eqv(ts@, u1.types@, u2.types@);
                            }
                            _ => {}
                        }
                    }
                    _ => {}
                }
            }
        }
        _ => {}
    }
}

proof fn lemma_matches_props_eqv(p: Seq<DocEntry>, v1: Seq<Property>, v2: Seq<Property>)
    requires
        props_match_from(p, 0, v1),
        props_match_from(p, 0, v2),
    ensures
        props_eqv(v1, v2),
    decreases v1, 1int, 0int,
{
    assert forall|i: int|
        0 <= i < v1.len() implies (#[trigger] v1[i]).identifier@ == v2[i].identifier@
        && node_eqv(v1[i].body, v2[i].body) by {
        assert(value_node_matches(p[i].value, v1[i].body));
        assert(value_node_matches(p[i].value, v2[i].body));
        match p[i].value {
            DocValue::Mapping(es) => {
                lemma_matches_node_eqv(es@, v1[i].body, v2[i].body);
            }
            _ => {}
        }
    }
}

proof fn lemma_matches_alts_eqv(ts: Seq<DocValue>, a1: Seq<Node>, a2: Seq<Node>)
    requires
        union_match_from(ts, 0, a1),
        union_match_from(ts, 0, a2),
    ensures
        alts_eqv(a1, a2),
    decreases a1, 1int, 0int,
{
    assert forall|i: int| 0 <= i < a1.len() implies node_eqv(#[trigger] a1[i], a2[i]) by {
        assert(value_node_matches(ts[i], a1[i]));
        assert(value_node_matches(ts[i], a2[i]));
        match ts[i] {
            DocValue::Mapping(es) => {
                lemma_matches_node_eqv(es@, a1[i], a2[i]);
            }
            _ => {}
        }
    }
}

/// The per-declaration relation is functional up to string views.
proof fn lemma_matches_alias_eqv(t: TypeAliasDef, a1: Seq<AST>, a2: Seq<AST>)
    requires
        alias_asts_match(t, a1),
        alias_asts_match(t, a2),
    ensures
        asts_eqv(a1, a2),
{
    match spec_doc_get(t.body@, "type"@) {
        Some(DocValue::Str(tt)) => {
            if tt@ == "split"@ {
                assert forall|j: int| 0 <= j < a1.len() implies ast_eqv(#[trigger] a1[j],
                    a2[j]) by {
                    lemma_split_slot_eqv(t, a1, a2, j);
                }
            } else {
                match (a1[0], a2[0]) {
                    (AST::TypeAlias(x), AST::TypeAlias(y)) => {
                        lemma_matches_node_eqv(t.body@, x.body, y.body);
                    }
                    _ => {}
                }
            }
        }
        _ => {}
    }
}

/// In a split expansion, the declarations at each occupied position realize
/// the same sub-body.
proof fn lemma_split_slot_eqv(t: TypeAliasDef, a1: Seq<AST>, a2: Seq<AST>, j: int)
    requires
        alias_asts_match(t, a1),
        alias_asts_match(t, a2),
        spec_doc_get(t.body@, "type"@) matches Some(v) && v matches DocValue::Str(tt) && tt@
            == "split"@,
        0 <= j < a1.len(),
    ensures
        ast_eqv(a1[j], a2[j]),
{
    let es = t.body@;
    let id = t.identifier@;
    let c1 = key_count(es, "ts"@);
    let c2 = key_count(es, "typescript"@);
    let c3 = key_count(es, "go"@);
    let c4 = key_count(es, "golang"@);
    if j < c1 {
        lemma_slot_pair_eqv(es, "ts"@, SupportedLang::TypeScript, id, a1, a2, j);
    } else if j < c1 + c2 {
        lemma_slot_pair_eqv(es, "typescript"@, SupportedLang::TypeScript, id, a1, a2, j);
    } else if j < c1 + c2 + c3 {
        lemma_slot_pair_eqv(es, "go"@, SupportedLang::Go, id, a1, a2, j);
    } else {
        lemma_slot_pair_eqv(es, "golang"@, SupportedLang::Go, id, a1, a2, j);
    }
}

/// Two declarations realizing the same split slot agree.
proof fn lemma_slot_pair_eqv(es: Seq<DocEntry>, key: Seq<char>, lang: SupportedLang,
    id: Seq<char>, a1: Seq<AST>, a2: Seq<AST>, j: int)
    requires
        spec_doc_get(es, key) is Some,
        key_slot_match(es, key, lang, id, a1, j),
        key_slot_match(es, key, lang, id, a2, j),
    ensures
        ast_eqv(a1[j], a2[j]),
{
    let v = spec_doc_get(es, key)->0;
    match v {
        DocValue::Mapping(m) => {
            match (a1[j], a2[j]) {
                (AST::TypeAlias(x), AST::TypeAlias(y)) => {
                    match (x.body, y.body) {
                        (Node::Split(s1), Node::Split(s2)) => {
                            match lang {
                                SupportedLang::TypeScript => {
                                    match (s1.typescript, s2.typescript) {
                                        (Some(b1), Some(b2)) => {
                                            lemma_matches_node_eqv(m@, *b1, *b2);
                                        }
                                        _ => {}
                                    }
                                }
                                SupportedLang::Go => {
                                    match (s1.go, s2.go) {
                                        (Some(b1), Some(b2)) => {
                                            lemma_matches_node_eqv(m@, *b1, *b2);
                                        }
                                        _ => {}
                                    }
                                }
                            }
                        }
                        _ => {}
                    }
                }
                _ => {}
            }
        }
        _ => {}
    }
}

/// How many declarations one type alias yields.
pub open spec fn alias_count(t: TypeAliasDef) -> int {
    match spec_doc_get(t.body@, "type"@) {
        Some(DocValue::Str(tt)) => if tt@ == "split"@ {
            key_count(t.body@, "ts"@) + key_count(t.body@, "typescript"@) + key_count(
                t.body@,
                "go"@,
            ) + key_count(t.body@, "golang"@)
        } else {
            1
        },
        _ => 0,
    }
}

proof fn lemma_alias_count(t: TypeAliasDef, a: Seq<AST>)
    requires
        alias_asts_match(t, a),
    ensures
        a.len() == alias_count(t),
{
}

/// The whole transformation is functional up to string views.
proof fn lemma_transform_eqv(defs: Seq<Def>, i: int, a1: Seq<AST>, a2: Seq<AST>)
    requires
        transform_matches_from(defs, i, a1),
        transform_matches_from(defs, i, a2),
    ensures
        asts_eqv(a1, a2),
    decreases defs.len() - i,
{
    if i < 0 || i >= defs.len() {
    } else {
        match defs[i] {
            Def::TypeAlias(t) => {
                let k1 = choose|k: int|
                    0 <= k <= a1.len() && #[trigger] alias_asts_match(t, a1.take(k))
                        && transform_matches_from(defs, i + 1, a1.skip(k));
                let k2 = choose|k: int|
                    0 <= k <= a2.len() && #[trigger] alias_asts_match(t, a2.take(k))
                        && transform_matches_from(defs, i + 1, a2.skip(k));
                lemma_alias_count(t, a1.take(k1));
                lemma_alias_count(t, a2.take(k2));
                assert(k1 == k2);
                lemma_matches_alias_eqv(t, a1.take(k1), a2.take(k2));
                lemma_transform_eqv(defs, i + 1, a1.skip(k1), a2.skip(k2));
                assert forall|j: int| 0 <= j < a1.len() implies ast_eqv(#[trigger] a1[j],
                    a2[j]) by {
                    if j < k1 {
                        assert(a1.take(k1)[j] == a1[j]);
                        assert(a2.take(k2)[j] == a2[j]);
                    } else {
                        assert(a1.skip(k1)[j - k1] == a1[j]);
                        assert(a2.skip(k2)[j - k2] == a2[j]);
                    }
                }
            }
            Def::Enum(e) => {
                lemma_transform_eqv(defs, i + 1, a1.skip(1), a2.skip(1));
                assert forall|j: int| 0 <= j < a1.len() implies ast_eqv(#[trigger] a1[j],
                    a2[j]) by {
                    if j >= 1 {
                        assert(a1.skip(1)[j - 1] == a1[j]);
                        assert(a2.skip(1)[j - 1] == a2[j]);
                    } else {
                        lemma_enum_pair_eqv(e, a1[0], a2[0]);
                    }
                }
            }
        }
    }
}

/// Two declarations realizing the same enum agree.
proof fn lemma_enum_pair_eqv(e: EnumDef, x: AST, y: AST)
    requires
        enum_one_matches(e, x),
        enum_one_matches(e, y),
    ensures
        ast_eqv(x, y),
{
    reveal_strlit("string");
    reveal_strlit("number");
    assert("string"@[0] == 's');
    assert("number"@[0] == 'n');
    match (x, y) {
        (AST::Enum(ex), AST::Enum(ey)) => {
            assert(ex.members_type == ey.members_type);
            assert forall|i: int|
                0 <= i < ex.members@.len() implies (#[trigger] ex.members@[i]).identifier@
                == ey.members@[i].identifier@ && ex.members@[i].value@
                == ey.members@[i].value@ by {
                assert(member_matches(e.members@[i], ex.members@[i], e.kind@ == "string"@));
                assert(member_matches(e.members@[i], ey.members@[i], e.kind@ == "string"@));
            }
        }
        _ => {}
    }
}

/// TypeScript rendering depends only on a node's shape and string views.
proof fn lemma_ts_eqv(n1: Node, n2: Node, id: Seq<char>, tab: nat)
    requires
        node_eqv(n1, n2),
    ensures
        ts_alias_text(id, n1, tab) == ts_alias_text(id, n2, tab),
        ts_inline_text(n1, tab) == ts_inline_text(n2, tab),
        ts_node_imports(n1) == ts_node_imports(n2),
    decreases n1, 0int, 0int,
{
    match (n1, n2) {
        (Node::Array(x), Node::Array(y)) => {
            lemma_ts_eqv(*x.items, *y.items, id, tab);
        }
        (Node::Object(x), Node::Object(y)) => {
            lemma_ts_props_eqv(x.values@, y.values@, 0, spec_spaces(tab), tab);
        }
        (Node::Union(x), Node::Union(y)) => {
            lemma_ts_union_eqv(x.types@, y.types@, 0, tab);
        }
        (Node::Split(x), Node::Split(y)) => {
            match (x.typescript, y.typescript) {
                (Some(a), Some(b)) => {
                    lemma_ts_eqv(*a, *b, id, tab);
                }
                _ => {}
            }
        }
        _ => {}
    }
}

proof fn lemma_ts_props_eqv(v1: Seq<Property>, v2: Seq<Property>, i: int, ind: Seq<char>,
    tab: nat)
    requires
        props_eqv(v1, v2),
    ensures
        ts_props_text_from(v1, i, ind, tab) == ts_props_text_from(v2, i, ind, tab),
        ts_props_imports_from(v1, i) == ts_props_imports_from(v2, i),
    decreases v1, 1int, v1.len() - i,
{
    if 0 <= i < v1.len() {
        lemma_ts_prop_eqv(v1[i], v2[i], ind, tab, i == v1.len() - 1);
        lemma_ts_props_eqv(v1, v2, i + 1, ind, tab);
    }
}

proof fn lemma_ts_prop_eqv(p1: Property, p2: Property, ind: Seq<char>, tab: nat, last: bool)
    requires
        p1.identifier@ == p2.identifier@,
        node_eqv(p1.body, p2.body),
    ensures
        ts_prop_text(p1, ind, tab, last) == ts_prop_text(p2, ind, tab, last),
        ts_node_imports(p1.body) == ts_node_imports(p2.body),
    decreases p1, 0int, 0int,
{
    match (p1.body, p2.body) {
        (Node::Object(x), Node::Object(y)) => {
            lemma_ts_props_eqv(x.values@, y.values@, 0, ind + spec_spaces(tab), tab);
        }
        (Node::Array(x), Node::Array(y)) => {
            lemma_ts_eqv(*x.items, *y.items, Seq::empty(), tab);
        }
        (Node::Union(x), Node::Union(y)) => {
            lemma_ts_union_eqv(x.types@, y.types@, 0, tab);
        }
        (Node::Split(x), Node::Split(y)) => {
            match (x.typescript, y.typescript) {
                (Some(a), Some(b)) => {
                    lemma_ts_eqv(*a, *b, Seq::empty(), tab);
                }
                _ => {}
            }
        }
        _ => {}
    }
}

proof fn lemma_ts_union_eqv(t1: Seq<Node>, t2: Seq<Node>, i: int, tab: nat)
    requires
        alts_eqv(t1, t2),
    ensures
        ts_union_text_from(t1, i, tab) == ts_union_text_from(t2, i, tab),
        ts_union_imports_from(t1, i) == ts_union_imports_from(t2, i),
    decreases t1, 1int, t1.len() - i,
{
    if 0 <= i < t1.len() {
        lemma_ts_eqv(t1[i], t2[i], Seq::empty(), tab);
        lemma_ts_union_eqv(t1, t2, i + 1, tab);
    }
}

/// Go rendering depends only on a node's shape and string views.
proof fn lemma_go_eqv(n1: Node, n2: Node, id: Seq<char>, tab: nat)
    requires
        node_eqv(n1, n2),
    ensures
        go_alias_text(id, n1, tab) == go_alias_text(id, n2, tab),
        go_inline_text(n1, tab) == go_inline_text(n2, tab),
        go_node_imports(n1) == go_node_imports(n2),
    decreases n1, 0int, 0int,
{
    match (n1, n2) {
        (Node::Array(x), Node::Array(y)) => {
            lemma_go_eqv(*x.items, *y.items, id, tab);
        }
        (Node::Object(x), Node::Object(y)) => {
            lemma_go_props_eqv(x.values@, y.values@, 0, spec_spaces(tab), tab);
        }
        (Node::Split(x), Node::Split(y)) => {
            match (x.go, y.go) {
                (Some(a), Some(b)) => {
                    lemma_go_eqv(*a, *b, id, tab);
                }
                _ => {}
            }
        }
        _ => {}
    }
}

proof fn lemma_go_props_eqv(v1: Seq<Property>, v2: Seq<Property>, i: int, ind: Seq<char>,
    tab: nat)
    requires
        props_eqv(v1, v2),
    ensures
        go_props_text_from(v1, i, ind, tab) == go_props_text_from(v2, i, ind, tab),
        go_props_imports_from(v1, i) == go_props_imports_from(v2, i),
    decreases v1, 1int, v1.len() - i,
{
    if 0 <= i < v1.len() {
        lemma_go_prop_eqv(v1[i], v2[i], ind, tab, i == v1.len() - 1);
        lemma_go_props_eqv(v1, v2, i + 1, ind, tab);
    }
}

proof fn lemma_go_prop_eqv(p1: Property, p2: Property, ind: Seq<char>, tab: nat, last: bool)
    requires
        p1.identifier@ == p2.identifier@,
        node_eqv(p1.body, p2.body),
    ensures
        go_prop_text(p1, ind, tab, last) == go_prop_text(p2, ind, tab, last),
        go_node_imports(p1.body) == go_node_imports(p2.body),
    decreases p1, 0int, 0int,
{
    match (p1.body, p2.body) {
        (Node::Object(x), Node::Object(y)) => {
            lemma_go_props_eqv(x.values@, y.values@, 0, ind + spec_spaces(tab), tab);
        }
        (Node::Array(x), Node::Array(y)) => {
            lemma_go_eqv(*x.items, *y.items, Seq::empty(), bump_tab(tab));
        }
        (Node::Split(x), Node::Split(y)) => {
            match (x.go, y.go) {
                (Some(a), Some(b)) => {
                    lemma_go_eqv(*a, *b, Seq::empty(), tab);
                }
                _ => {}
            }
        }
        _ => {}
    }
}

proof fn lemma_ts_members_eqv(m1: Seq<Member>, m2: Seq<Member>, mt: MembersType, i: int,
    ind: Seq<char>)
    requires
        members_eqv(m1, m2),
    ensures
        ts_members_text_from(m1, mt, i, ind) == ts_members_text_from(m2, mt, i, ind),
    decreases m1.len() - i,
{
    if 0 <= i < m1.len() {
        lemma_ts_members_eqv(m1, m2, mt, i + 1, ind);
    }
}

proof fn lemma_go_members_eqv(m1: Seq<Member>, m2: Seq<Member>, mt: MembersType,
    tid: Seq<char>, i: int, ind: Seq<char>)
    requires
        members_eqv(m1, m2),
    ensures
        go_members_text_from(m1, mt, tid, i, ind) == go_members_text_from(m2, mt, tid, i, ind),
    decreases m1.len() - i,
{
    if 0 <= i < m1.len() {
        lemma_go_members_eqv(m1, m2, mt, tid, i + 1, ind);
    }
}

/// Generation depends only on a declaration's shape and string views.
proof fn lemma_ast_eqv_generator(a: AST, b: AST, lang: SupportedLang, tabs: TabSize)
    requires
        ast_eqv(a, b),
    ensures
        spec_generator(a, lang, tabs) == spec_generator(b, lang, tabs),
        generator_imports(a, lang) == generator_imports(b, lang),
{
    match (a, b) {
        (AST::TypeAlias(x), AST::TypeAlias(y)) => {
            match lang {
                SupportedLang::TypeScript => {
                    lemma_ts_eqv(x.body, y.body, x.identifier@, tabs.typescript as nat);
                }
                SupportedLang::Go => {
                    lemma_go_eqv(x.body, y.body, x.identifier@, tabs.go as nat);
                }
            }
        }
        (AST::Enum(x), AST::Enum(y)) => {
            match lang {
                SupportedLang::TypeScript => {
                    lemma_ts_members_eqv(x.members@, y.members@, x.members_type, 0,
                        spec_spaces(tabs.typescript as nat));
                }
                SupportedLang::Go => {
                    lemma_go_members_eqv(x.members@, y.members@, x.members_type,
                        x.identifier@, 0, spec_spaces(tabs.go as nat));
                }
            }
        }
        _ => {}
    }
}

proof fn lemma_concat_eqv(x: Seq<AST>, y: Seq<AST>, i: int, lang: SupportedLang, tabs: TabSize)
    requires
        asts_eqv(x, y),
    ensures
        concat_rendered(x, i, lang, tabs) == concat_rendered(y, i, lang, tabs),
        concat_imports(x, i, lang) == concat_imports(y, i, lang),
    decreases x.len() - i,
{
    if 0 <= i < x.len() {
        lemma_ast_eqv_generator(x[i], y[i], lang, tabs);
        lemma_concat_eqv(x, y, i + 1, lang, tabs);
    }
}

/// Idempotence: the pipeline's output is a function of the source file and
/// the configuration alone — any two sound outputs for the same file under
/// the same configuration agree byte for byte, so a second run writes
/// byte-identical files.
pub proof fn lemma_pipeline_idempotent(lang: SupportedLang, sp: Spec, cfg: Config,
    tabs: TabSize, f1: OutputFile, f2: OutputFile)
    requires
        file_ok(lang, sp, cfg, tabs, f1),
        file_ok(lang, sp, cfg, tabs, f2),
    ensures
        f1.path@ == f2.path@,
        f1.content@ == f2.content@,
{
    let a1 = choose|asts: Seq<AST>|
        {
            &&& #[trigger] transform_matches_from(sp.def@, 0, asts)
            &&& transform_err_from(sp.def@, 0) is None
            &&& f1.content@ == spec_assemble(lang, sp.path@, asts, tabs, cfg)
            &&& spec_output_path(sp.path@, cfg.spec.root@, lang_outdir(lang, cfg),
                lang_ext(lang)) == Some(f1.path@)
        };
    let a2 = choose|asts: Seq<AST>|
        {
            &&& #[trigger] transform_matches_from(sp.def@, 0, asts)
            &&& transform_err_from(sp.def@, 0) is None
            &&& f2.content@ == spec_assemble(lang, sp.path@, asts, tabs, cfg)
            &&& spec_output_path(sp.path@, cfg.spec.root@, lang_outdir(lang, cfg),
                lang_ext(lang)) == Some(f2.path@)
        };
    lemma_transform_eqv(sp.def@, 0, a1, a2);
    lemma_concat_eqv(a1, a2, 0, lang, tabs);
}
} // verus!
