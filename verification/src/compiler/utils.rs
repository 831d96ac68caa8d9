//! Deduplication and merging of imports, and the Go package-name helpers.
//!
//! Every deduplication here preserves first-seen, input-derived order, so
//! that the same input always renders byte-identical output.

use crate::ast::{imports_of, DynImport, Import, ImportV, Imports, RefImport};
use crate::config::{Config, OutputGo};
use crate::error::{CompileError, ErrorKind};
use crate::path::{
    find_char, lemma_find_char, parse_segments, path_is_absolute, render_path,
    spec_diff_paths, spec_last_seg, diff_paths, join_path, path_is_abs, path_last_seg, split_path,
    find_char_in,
};
use crate::{str_eq, views_of};
use vstd::prelude::*;

verus! {

// ---------------------------------------------------------------------------
// Lines: splitting, first-seen dedup, joining.
// ---------------------------------------------------------------------------

/// The lines of a string: pieces between newlines, the final piece dropped
/// when the string ends with a newline.
pub open spec fn split_lines(s: Seq<char>) -> Seq<Seq<char>>
    decreases s.len(),
{
    if s.len() == 0 {
        Seq::empty()
    } else {
        let i = find_char(s, '\n');
        if i >= s.len() {
            seq![s]
        } else {
            seq![s.take(i as int)] + split_lines(s.skip(i as int + 1))
        }
    }
}

/// First-seen-order dedup: keep each piece's first occurrence, drop the rest.
pub open spec fn dedup_from(pieces: Seq<Seq<char>>, i: int, kept: Seq<Seq<char>>) -> Seq<Seq<
    char,
>>
    decreases pieces.len() - i,
{
    if i < 0 || i >= pieces.len() {
        kept
    } else if kept.contains(pieces[i]) {
        dedup_from(pieces, i + 1, kept)
    } else {
        dedup_from(pieces, i + 1, kept.push(pieces[i]))
    }
}

pub open spec fn spec_dedup(pieces: Seq<Seq<char>>) -> Seq<Seq<char>> {
    dedup_from(pieces, 0, Seq::empty())
}

/// Pieces joined with the given separator.
pub open spec fn join_sep_from(pieces: Seq<Seq<char>>, i: int, sep: Seq<char>) -> Seq<char>
    decreases pieces.len() - i,
{
    if i < 0 || i >= pieces.len() {
        Seq::empty()
    } else if i == pieces.len() - 1 {
        pieces[i]
    } else {
        pieces[i] + sep + join_sep_from(pieces, i + 1, sep)
    }
}

/// Does a list of strings contain one with this view?
fn contains_str(v: &Vec<String>, x: &String) -> (r: bool)
    ensures
        r == views_of(v@).contains(x@),
{
    let mut i: usize = 0;
    while i < v.len()
        invariant
            i <= v@.len(),
            forall|j: int| 0 <= j < i ==> views_of(v@)[j] != x@,
        decreases v@.len() - i,
    {
        if str_eq(v[i].as_str(), x.as_str()) {
            proof {
                assert(views_of(v@)[i as int] == x@);
            }
            return true;
        }
        i += 1;
    }
    false
}

/// Split a string into its lines.
fn split_lines_exec(s: &str) -> (v: Vec<String>)
    ensures
        views_of(v@) == split_lines(s@),
    decreases s@.len(),
{
    let n = s.unicode_len();
    if n == 0 {
        let v: Vec<String> = Vec::new();
        proof {
            assert(views_of(v@) =~= split_lines(s@));
        }
        v
    } else {
        let i = find_char_in(s, '\n');
        proof {
            lemma_find_char(s@, '\n');
        }
        if i == n {
            let mut v: Vec<String> = Vec::new();
            v.push(s.to_owned());
            proof {
                assert(views_of(v@) =~= split_lines(s@));
            }
            v
        } else {
            let head = s.substring_char(0, i);
            let tail = s.substring_char(i + 1, n);
            let mut v: Vec<String> = Vec::new();
            v.push(head.to_owned());
            let ghost hv = views_of(v@);
            proof {
                assert(hv =~= seq![s@.take(i as int)]);
            }
            let mut rest = split_lines_exec(tail);
            v.append(&mut rest);
            proof {
                assert(views_of(v@) =~= hv + split_lines(s@.skip(i as int + 1)));
            }
            v
        }
    }
}

/// Keep the first occurrence of each piece, in order.
fn dedup_exec(pieces: &Vec<String>) -> (r: Vec<String>)
    ensures
        views_of(r@) == spec_dedup(views_of(pieces@)),
{
    let ghost all = views_of(pieces@);
    let mut kept: Vec<String> = Vec::new();
    let mut i: usize = 0;
    proof {
        assert(views_of(kept@) =~= Seq::<Seq<char>>::empty());
    }
    while i < pieces.len()
        invariant
            i <= pieces@.len(),
            all == views_of(pieces@),
            dedup_from(all, 0, Seq::empty()) == dedup_from(all, i as int, views_of(kept@)),
        decreases pieces@.len() - i,
    {
        let ghost k0 = views_of(kept@);
        if !contains_str(&kept, &pieces[i]) {
            let ghost pre = kept@;
            let piece = pieces[i].clone();
            let ghost x = piece;
            kept.push(piece);
            proof {
                crate::lemma_views_of_push(pre, x);
                assert(views_of(kept@) =~= k0.push(all[i as int]));
            }
        }
        i += 1;
    }
    kept
}

/// Join pieces with a separator, from index `i` on.
fn join_sep_exec(pieces: &Vec<String>, i: usize, sep: &str) -> (r: String)
    requires
        i <= pieces@.len(),
    ensures
        r@ == join_sep_from(views_of(pieces@), i as int, sep@),
    decreases pieces@.len() - i,
{
    if i >= pieces.len() {
        let r = String::new();
        proof {
            assert(r@ =~= join_sep_from(views_of(pieces@), i as int, sep@));
        }
        r
    } else if i == pieces.len() - 1 {
        pieces[i].clone()
    } else {
        let mut r = pieces[i].clone();
        r.append(sep);
        let rest = join_sep_exec(pieces, i + 1, sep);
        r.append(rest.as_str());
        r
    }
}

/// What `remove_duplicate_import` returns: the lines, first occurrence of
/// each kept in order, joined back with newlines.
pub open spec fn spec_remove_duplicate_import(s: Seq<char>) -> Seq<char> {
    join_sep_from(spec_dedup(split_lines(s)), 0, "\n"@)
}

/// Drop duplicate lines from a rendered import block, keeping the first
/// occurrence of each line, in input order.
pub fn remove_duplicate_import(s: &str) -> (r: String)
    ensures
        r@ == spec_remove_duplicate_import(s@),
{
    let lines = split_lines_exec(s);
    let deduped = dedup_exec(&lines);
    join_sep_exec(&deduped, 0, "\n")
}

// ---------------------------------------------------------------------------
// Import merging, first-seen order.
// ---------------------------------------------------------------------------

/// The names of all imports from index `i` on whose kind and module equal
/// the given key, in order.
pub open spec fn names_for_key(l: Seq<ImportV>, i: int, dynamic: bool, from: Seq<char>) -> Seq<
    Seq<char>,
>
    decreases l.len() - i,
{
    if i < 0 || i >= l.len() {
        Seq::empty()
    } else if l[i].dynamic == dynamic && l[i].from == from {
        seq![l[i].name] + names_for_key(l, i + 1, dynamic, from)
    } else {
        names_for_key(l, i + 1, dynamic, from)
    }
}

/// Merge imports targeting the same module into one record each: modules in
/// first-seen order, each record's name the deduplicated, comma-joined union
/// of the names requested from that module, in first-seen order.
pub open spec fn reduce_from(l: Seq<ImportV>, i: int, done: Seq<(bool, Seq<char>)>) -> Seq<
    ImportV,
>
    decreases l.len() - i,
{
    if i < 0 || i >= l.len() {
        Seq::empty()
    } else if done.contains((l[i].dynamic, l[i].from)) {
        reduce_from(l, i + 1, done)
    } else {
        seq![
            ImportV {
                dynamic: l[i].dynamic,
                name: join_sep_from(
                    spec_dedup(names_for_key(l, i, l[i].dynamic, l[i].from)),
                    0,
                    ", "@,
                ),
                from: l[i].from,
            },
        ] + reduce_from(l, i + 1, done.push((l[i].dynamic, l[i].from)))
    }
}

pub open spec fn spec_reduce_imports(l: Seq<ImportV>) -> Seq<ImportV> {
    reduce_from(l, 0, Seq::empty())
}

/// The keys (kind, module) of a list of imports.
pub open spec fn keys_of(l: Seq<Import>) -> Seq<(bool, Seq<char>)> {
    Seq::new(l.len(), |i: int| (l[i]@.dynamic, l[i]@.from))
}

fn import_is_dyn(imp: &Import) -> (r: bool)
    ensures
        r == imp@.dynamic,
{
    match imp {
        Import::Ref(_) => false,
        Import::Dyn(_) => true,
    }
}

fn import_from<'a>(imp: &'a Import) -> (r: &'a String)
    ensures
        r@ == imp@.from,
{
    match imp {
        Import::Ref(ri) => &ri.from,
        Import::Dyn(di) => &di.from,
    }
}

fn import_name<'a>(imp: &'a Import) -> (r: &'a String)
    ensures
        r@ == imp@.name,
{
    match imp {
        Import::Ref(ri) => &ri.name,
        Import::Dyn(di) => &di.name,
    }
}

/// Collect, from index `i` on, the names of the imports with the given key.
fn collect_names(ipts: &Imports, i: usize, dynamic: bool, from: &String) -> (r: Vec<String>)
    requires
        i <= ipts@.len(),
    ensures
        views_of(r@) == names_for_key(imports_of(ipts@), i as int, dynamic, from@),
    decreases ipts@.len() - i,
{
    let ghost l = imports_of(ipts@);
    let mut out: Vec<String> = Vec::new();
    let mut j = i;
    proof {
        assert(views_of(out@) =~= Seq::<Seq<char>>::empty());
    }
    while j < ipts.len()
        invariant
            i <= j <= ipts@.len(),
            l == imports_of(ipts@),
            names_for_key(l, i as int, dynamic, from@) =~= views_of(out@) + names_for_key(
                l,
                j as int,
                dynamic,
                from@,
            ),
        decreases ipts@.len() - j,
    {
        let ghost o0 = views_of(out@);
        if import_is_dyn(&ipts[j]) == dynamic && str_eq(import_from(&ipts[j]).as_str(),
            from.as_str()) {
            let ghost pre = out@;
            let name = import_name(&ipts[j]).clone();
            let ghost x = name;
            out.push(name);
            proof {
                crate::lemma_views_of_push(pre, x);
                assert(views_of(out@) =~= o0.push(l[j as int].name));
            }
        }
        j += 1;
    }
    out
}

/// Is this key among the already-merged ones?
fn key_seen(done_dyn: &Vec<bool>, done_from: &Vec<String>, dynamic: bool, from: &String) -> (r:
    bool)
    requires
        done_dyn@.len() == done_from@.len(),
    ensures
        r == Seq::new(done_dyn@.len(), |k: int| (done_dyn@[k], done_from@[k]@)).contains(
            (dynamic, from@),
        ),
{
    let ghost keys = Seq::new(done_dyn@.len(), |k: int| (done_dyn@[k], done_from@[k]@));
    let mut i: usize = 0;
    while i < done_dyn.len()
        invariant
            i <= done_dyn@.len(),
            done_dyn@.len() == done_from@.len(),
            keys == Seq::new(done_dyn@.len(), |k: int| (done_dyn@[k], done_from@[k]@)),
            forall|k: int| 0 <= k < i ==> keys[k] != (dynamic, from@),
        decreases done_dyn@.len() - i,
    {
        if done_dyn[i] == dynamic && str_eq(done_from[i].as_str(), from.as_str()) {
            proof {
                assert(keys[i as int] == (dynamic, from@));
            }
            return true;
        }
        i += 1;
    }
    false
}

/// Merge imports that target the same module: one record per (kind, module)
/// key, keys in first-seen order, names deduplicated and comma-joined in
/// first-seen order.
pub fn reduce_imports(ipts: &Imports) -> (r: Imports)
    ensures
        imports_of(r@) == spec_reduce_imports(imports_of(ipts@)),
{
    let ghost l = imports_of(ipts@);
    let mut out: Imports = Vec::new();
    let mut done_dyn: Vec<bool> = Vec::new();
    let mut done_from: Vec<String> = Vec::new();
    let mut i: usize = 0;
    proof {
        assert(imports_of(out@) =~= Seq::<ImportV>::empty());
        assert(Seq::new(done_dyn@.len(), |k: int| (done_dyn@[k], done_from@[k]@)) =~= Seq::<(
            bool,
            Seq<char>,
        )>::empty());
    }
    while i < ipts.len()
        invariant
            i <= ipts@.len(),
            l == imports_of(ipts@),
            done_dyn@.len() == done_from@.len(),
            spec_reduce_imports(l) =~= imports_of(out@) + reduce_from(
                l,
                i as int,
                Seq::new(done_dyn@.len(), |k: int| (done_dyn@[k], done_from@[k]@)),
            ),
        decreases ipts@.len() - i,
    {
        let ghost done0 = Seq::new(done_dyn@.len(), |k: int| (done_dyn@[k], done_from@[k]@));
        let ghost o0 = imports_of(out@);
        let dynamic = import_is_dyn(&ipts[i]);
        let from = import_from(&ipts[i]).clone();
        if !key_seen(&done_dyn, &done_from, dynamic, &from) {
            let names = collect_names(ipts, i, dynamic, &from);
            let deduped = dedup_exec(&names);
            let joined = join_sep_exec(&deduped, 0, ", ");
            let imp = if dynamic {
                Import::Dyn(DynImport { name: joined, from: from.clone() })
            } else {
                Import::Ref(RefImport { name: joined, from: from.clone() })
            };
            let ghost x = imp;
            let ghost pre = out@;
            out.push(imp);
            proof {
                crate::ast::lemma_imports_of_push(pre, x);
                assert(imports_of(out@) =~= o0.push(x@));
                assert(x@ == ImportV {
                    dynamic: l[i as int].dynamic,
                    name: join_sep_from(
                        spec_dedup(names_for_key(l, i as int, l[i as int].dynamic, l[i as int].from)),
                        0,
                        ", "@,
                    ),
                    from: l[i as int].from,
                });
            }
            let ghost predyn = done_dyn@;
            let ghost prefrom = done_from@;
            let ghost xf = from;
            done_dyn.push(dynamic);
            done_from.push(from);
            proof {
                assert(Seq::new(done_dyn@.len(), |k: int| (done_dyn@[k], done_from@[k]@))
                    =~= done0.push((l[i as int].dynamic, l[i as int].from)));
                assert(spec_reduce_imports(l) =~= imports_of(out@) + reduce_from(
                    l,
                    i as int + 1,
                    done0.push((l[i as int].dynamic, l[i as int].from)),
                ));
            }
        } else {
            proof {
                assert(done0.contains((l[i as int].dynamic, l[i as int].from)));
            }
        }
        i += 1;
    }
    proof {
        assert(reduce_from(l, ipts@.len() as int, Seq::new(done_dyn@.len(), |k: int| (
            done_dyn@[k],
            done_from@[k]@,
        ))) =~= Seq::<ImportV>::empty());
        assert(imports_of(out@) =~= spec_reduce_imports(l));
    }
    out
}

// ---------------------------------------------------------------------------
// Go package-name helpers.
// ---------------------------------------------------------------------------

/// The package name of files placed directly in the spec root: the last
/// segment of the Go output directory.
pub open spec fn spec_root_pkg_name(o: OutputGo) -> Seq<char> {
    spec_last_seg(o.output@)
}

/// The package name files in the spec root expose.
pub fn get_root_pkg_name(config: &Config) -> (r: String)
    requires
        config.output.go is Some,
    ensures
        r@ == spec_root_pkg_name(config.output.go->0),
{
    match &config.output.go {
        Some(o) => path_last_seg(o.output.as_str()),
        None => String::new(),
    }
}

/// Does the Go offset from the module root to the output directory exist?
pub open spec fn go_diff_ok(o: OutputGo) -> bool {
    spec_diff_paths(o.output@, o.root@) is Some
}

/// The segments every Go import path starts with: the module name, then the
/// offset from the module root to the output directory.
pub open spec fn go_head_segs(o: OutputGo) -> Seq<Seq<char>> {
    parse_segments(o.mod_name@) + parse_segments(spec_diff_paths(o.output@, o.root@)->0)
}

/// Is `pre` a prefix of `s`, segment by segment?
pub open spec fn segs_prefix(pre: Seq<Seq<char>>, s: Seq<Seq<char>>) -> bool {
    pre.len() <= s.len() && s.subrange(0, pre.len() as int) == pre
}

pub fn segs_prefix_exec(pre: &Vec<String>, s: &Vec<String>) -> (r: bool)
    ensures
        r == segs_prefix(views_of(pre@), views_of(s@)),
{
    if pre.len() > s.len() {
        proof {
            assert(!segs_prefix(views_of(pre@), views_of(s@)));
        }
        return false;
    }
    let mut i: usize = 0;
    while i < pre.len()
        invariant
            i <= pre@.len() <= s@.len(),
            forall|j: int| 0 <= j < i ==> views_of(pre@)[j] == views_of(s@)[j],
        decreases pre@.len() - i,
    {
        if !str_eq(pre[i].as_str(), s[i].as_str()) {
            proof {
                assert(views_of(s@).subrange(0, pre@.len() as int)[i as int] != views_of(
                    pre@,
                )[i as int]);
            }
            return false;
        }
        i += 1;
    }
    proof {
        assert(views_of(s@).subrange(0, pre@.len() as int) =~= views_of(pre@));
    }
    true
}

/// What replacing the spec root yields: the Go import head followed by the
/// path's root-relative segments, rendered; `None` stands for a path that is
/// not under the spec root.
pub open spec fn spec_replace_selien_root(p: Seq<char>, root: Seq<char>, o: OutputGo) -> Option<
    Seq<char>,
> {
    if path_is_absolute(p) == path_is_absolute(root) && segs_prefix(
        parse_segments(root),
        parse_segments(p),
    ) {
        Some(
            render_path(
                path_is_absolute(o.mod_name@),
                go_head_segs(o) + parse_segments(p).skip(parse_segments(root).len() as int),
            ),
        )
    } else {
        None
    }
}

/// Rewrite a path under the spec root into its Go import path: the module
/// name, the offset from the Go module root to the output directory, then
/// the path's root-relative segments. A path that is not under the spec root
/// is rejected.
pub fn replace_selien_root(p: &str, config: &Config) -> (r: Result<String, CompileError>)
    requires
        config.output.go is Some,
    ensures
        match r {
            Ok(s) => go_diff_ok(config.output.go->0) && spec_replace_selien_root(
                p@,
                config.spec.root@,
                config.output.go->0,
            ) == Some(s@),
            Err(e) => {
                ||| (e.kind == ErrorKind::PathDiff && !go_diff_ok(config.output.go->0))
                ||| (e.kind == ErrorKind::OutOfRoot && spec_replace_selien_root(
                    p@,
                    config.spec.root@,
                    config.output.go->0,
                ) is None)
            },
        },
{
    let o = match &config.output.go {
        Some(o) => o,
        None => {
            return Err(CompileError::new(ErrorKind::TargetNotConfigured, String::new()));
        }
    };
    let offset = match diff_paths(o.output.as_str(), o.root.as_str()) {
        Some(d) => d,
        None => {
            return Err(CompileError::new(ErrorKind::PathDiff, o.output.clone()));
        }
    };
    let proot = split_path(config.spec.root.as_str());
    let psegs = split_path(p);
    if path_is_abs(p) != path_is_abs(config.spec.root.as_str()) || !segs_prefix_exec(
        &proot,
        &psegs,
    ) {
        return Err(CompileError::new(ErrorKind::OutOfRoot, p.to_owned()));
    }
    let mut segs = split_path(o.mod_name.as_str());
    let mut off_segs = split_path(offset.as_str());
    let ghost segs0 = views_of(segs@);
    let ghost off0 = views_of(off_segs@);
    segs.append(&mut off_segs);
    proof {
        assert(views_of(segs@) =~= segs0 + off0);
    }
    let mut k = proot.len();
    let ghost head = views_of(segs@);
    while k < psegs.len()
        invariant
            proot@.len() <= k <= psegs@.len(),
            views_of(segs@) =~= head + views_of(psegs@).subrange(proot@.len() as int, k as int),
        decreases psegs@.len() - k,
    {
        let ghost pre = segs@;
        let seg = psegs[k].clone();
        let ghost x = seg;
        segs.push(seg);
        proof {
            crate::lemma_views_of_push(pre, x);
            assert(views_of(segs@) =~= head + views_of(psegs@).subrange(
                proot@.len() as int,
                k as int + 1,
            ));
        }
        k += 1;
    }
    let abs = path_is_abs(o.mod_name.as_str());
    let rendered = join_path(abs, &segs);
    proof {
        let ghost ospec = config.output.go->0;
        assert(views_of(psegs@).subrange(proot@.len() as int, psegs@.len() as int)
            =~= parse_segments(p@).skip(parse_segments(config.spec.root@).len() as int));
        assert(spec_diff_paths(ospec.output@, ospec.root@) == Some(offset@));
        assert(views_of(segs@) =~= go_head_segs(ospec) + parse_segments(p@).skip(
            parse_segments(config.spec.root@).len() as int,
        ));
    }
    Ok(rendered)
}

} // verus!
