//! The reference resolver: turns the imports a file's generation demanded
//! into the rendered import block, translating the path-based reference
//! model into each target's module semantics.
//!
//! - TypeScript imports are directory-relative module specifiers with an
//!   explicit `./` prefix and no file extension.
//! - Go imports are package-qualified module paths; a reference whose
//!   resolved package equals the current file's own package is a
//!   self-reference and is omitted, since Go forbids importing one's own
//!   package.

use crate::ast::{imports_of, Import, ImportV, Imports};
use crate::compiler::utils::{
    get_root_pkg_name, go_diff_ok, go_head_segs, reduce_imports, remove_duplicate_import,
    segs_prefix, segs_prefix_exec, spec_reduce_imports, spec_remove_duplicate_import,
    spec_root_pkg_name,
};
use crate::config::{Config, OutputGo};
use crate::error::{CompileError, ErrorKind};
use crate::generator::utils::{spaces, spec_spaces};
use crate::lang::SupportedLang;
use crate::path::{
    diff_paths, diff_segs, diff_segs_exec, dir_segs, dir_segs_exec, file_stem, join_path,
    join_segs, norm_segs, normalize_segs, parse_segments, path_is_abs, path_is_absolute,
    render_path, seg_parent, spec_last_seg, split_path, stem_of,
};
use crate::{str_eq, views_of};
use vstd::prelude::*;

verus! {

// ---------------------------------------------------------------------------
// Package names.
// ---------------------------------------------------------------------------

/// The package name a spec-root-relative directory exposes: its last
/// segment, except that the root itself exposes the root-package override.
pub open spec fn pkg_for_dir(dir_rel: Seq<Seq<char>>, o: OutputGo) -> Seq<char> {
    if dir_rel.len() == 0 {
        spec_root_pkg_name(o)
    } else {
        dir_rel.last()
    }
}

/// The package name of the file at `current`: its directory's last segment,
/// except that a file directly in the spec root belongs to the root package.
pub open spec fn spec_current_pkg(current: Seq<char>, root: Seq<char>, o: OutputGo) -> Seq<char> {
    let cd = dir_segs(current);
    if (path_is_absolute(current) == path_is_absolute(root) && cd == parse_segments(root))
        || cd.len() == 0 {
        spec_root_pkg_name(o)
    } else {
        cd.last()
    }
}

/// The package name of the current file.
pub fn current_pkg(current: &str, config: &Config) -> (r: String)
    requires
        config.output.go is Some,
    ensures
        r@ == spec_current_pkg(current@, config.spec.root@, config.output.go->0),
{
    let cd = dir_segs_exec(current);
    let rootsegs = split_path(config.spec.root.as_str());
    let absmatch = path_is_abs(current) == path_is_abs(config.spec.root.as_str());
    let same = absmatch && seg_lists_eq(&cd, &rootsegs);
    if same || cd.len() == 0 {
        get_root_pkg_name(config)
    } else {
        cd[cd.len() - 1].clone()
    }
}

/// Are two segment lists equal, segment by segment?
pub fn seg_lists_eq(a: &Vec<String>, b: &Vec<String>) -> (r: bool)
    ensures
        r == (views_of(a@) == views_of(b@)),
{
    if a.len() != b.len() {
        proof {
            assert(views_of(a@).len() != views_of(b@).len());
        }
        return false;
    }
    let mut i: usize = 0;
    while i < a.len()
        invariant
            i <= a@.len(),
            a@.len() == b@.len(),
            forall|j: int| 0 <= j < i ==> views_of(a@)[j] == views_of(b@)[j],
        decreases a@.len() - i,
    {
        if !str_eq(a[i].as_str(), b[i].as_str()) {
            proof {
                assert(views_of(a@)[i as int] != views_of(b@)[i as int]);
            }
            return false;
        }
        i += 1;
    }
    proof {
        assert(views_of(a@) =~= views_of(b@));
    }
    true
}

// ---------------------------------------------------------------------------
// Resolving one reference path, per target.
// ---------------------------------------------------------------------------

/// A root-absolute reference's Go import path, as segments.
pub open spec fn go_abs_import_segs(from: Seq<char>, o: OutputGo) -> Seq<Seq<char>> {
    go_head_segs(o) + dir_segs(from)
}

/// One rendered Go import line (indent and quotes), for an import path.
pub open spec fn go_import_line(segs: Seq<Seq<char>>, o: OutputGo) -> Seq<char> {
    spec_spaces(o.tabsize as nat) + "\""@ + render_path(path_is_absolute(o.mod_name@), segs)
        + "\""@
}

/// What a root-absolute Go reference resolves to: nothing for a
/// self-reference, else its quoted, indented import line.
pub open spec fn spec_go_from_abs(from: Seq<char>, current: Seq<char>, root: Seq<char>,
    o: OutputGo) -> Seq<char> {
    if pkg_for_dir(dir_segs(from), o) == spec_current_pkg(current, root, o) {
        Seq::empty()
    } else {
        go_import_line(go_abs_import_segs(from, o), o)
    }
}

/// A relative reference resolved against the current file's directory.
pub open spec fn go_rel_norm(from: Seq<char>, current: Seq<char>) -> Seq<Seq<char>> {
    norm_segs(dir_segs(current) + parse_segments(from))
}

/// Does a relative reference stay under the spec root?
pub open spec fn go_rel_ok(from: Seq<char>, current: Seq<char>, root: Seq<char>) -> bool {
    path_is_absolute(current) == path_is_absolute(root) && segs_prefix(
        parse_segments(root),
        go_rel_norm(from, current),
    )
}

/// The root-relative directory a relative Go reference points into.
pub open spec fn go_rel_dir(from: Seq<char>, current: Seq<char>, root: Seq<char>) -> Seq<Seq<
    char,
>> {
    seg_parent(go_rel_norm(from, current).skip(parse_segments(root).len() as int))
}

/// What a relative Go reference resolves to, when it stays under the root.
pub open spec fn spec_go_from_rel(from: Seq<char>, current: Seq<char>, root: Seq<char>,
    o: OutputGo) -> Seq<char> {
    let dirr = go_rel_dir(from, current, root);
    if pkg_for_dir(dirr, o) == spec_current_pkg(current, root, o) {
        Seq::empty()
    } else {
        go_import_line(go_head_segs(o) + dirr, o)
    }
}

/// The target of a root-absolute TypeScript reference: the spec root joined
/// with the reference's directory.
pub open spec fn ts_abs_target(from: Seq<char>, root: Seq<char>) -> Seq<Seq<char>> {
    parse_segments(root) + dir_segs(from)
}

/// Can a root-absolute TypeScript reference be expressed relative to the
/// current file's directory?
pub open spec fn ts_abs_ok(from: Seq<char>, current: Seq<char>, root: Seq<char>) -> bool {
    path_is_absolute(root) == path_is_absolute(current) && diff_segs(
        ts_abs_target(from, root),
        dir_segs(current),
    ) is Some
}

/// What a root-absolute TypeScript reference resolves to: the diff from the
/// current file's directory, the referenced file's stem, and an explicit
/// current-directory prefix.
pub open spec fn spec_ts_from_abs(from: Seq<char>, current: Seq<char>, root: Seq<char>) -> Seq<
    char,
> {
    let d = diff_segs(ts_abs_target(from, root), dir_segs(current))->0;
    "./"@ + join_segs(d.push(stem_of(spec_last_seg(from))))
}

/// What one reference path resolves to for a target, when it resolves.
pub open spec fn spec_process_from(lang: SupportedLang, current: Seq<char>, from: Seq<char>,
    root: Seq<char>, o: OutputGo) -> Seq<char> {
    match lang {
        SupportedLang::Go => if path_is_absolute(from) {
            spec_go_from_abs(from, current, root, o)
        } else {
            spec_go_from_rel(from, current, root, o)
        },
        SupportedLang::TypeScript => if path_is_absolute(from) {
            spec_ts_from_abs(from, current, root)
        } else {
            from
        },
    }
}

/// The failure resolving one reference path runs into, if any, with its
/// subject.
pub open spec fn process_from_err(lang: SupportedLang, current: Seq<char>, from: Seq<char>,
    root: Seq<char>, o: OutputGo) -> Option<(ErrorKind, Seq<char>)> {
    match lang {
        SupportedLang::Go => if !go_diff_ok(o) {
            Some((ErrorKind::PathDiff, o.output@))
        } else if !path_is_absolute(from) && !go_rel_ok(from, current, root) {
            Some((ErrorKind::OutOfRoot, from))
        } else {
            None
        },
        SupportedLang::TypeScript => if path_is_absolute(from) && !ts_abs_ok(
            from,
            current,
            root,
        ) {
            Some((ErrorKind::PathDiff, from))
        } else {
            None
        },
    }
}

/// Resolve one reference path into its target-native import specifier.
///
/// For Go, a self-reference resolves to the empty string; any other yields
/// the indented, quoted import line. For TypeScript, a root-absolute path
/// yields the `./`-prefixed relative module specifier without extension, and
/// a relative path is used verbatim.
pub fn process_from(lang: &SupportedLang, current: &String, from: &String, config: &Config) -> (
    r: Result<String, CompileError>)
    requires
        lang is Go ==> config.output.go is Some,
    ensures
        ({
            let o = config.output.go->0;
            let root = config.spec.root@;
            match r {
                Ok(s) => process_from_err(*lang, current@, from@, root, o) is None && s@
                    == spec_process_from(*lang, current@, from@, root, o),
                Err(e) => process_from_err(*lang, current@, from@, root, o) == Some(
                    (e.kind, e.subject@),
                ),
            }
        }),
{
    match lang {
        SupportedLang::Go => {
            let o = match &config.output.go {
                Some(o) => o,
                None => {
                    return Err(CompileError::new(ErrorKind::TargetNotConfigured, String::new()));
                }
            };
            let offset = match diff_paths(o.output.as_str(), o.root.as_str()) {
                Some(d) => d,
                None => {
                    return Err(CompileError::new(ErrorKind::PathDiff, o.output.clone()));
                }
            };
            let cur = current_pkg(current.as_str(), config);
            let mut head = split_path(o.mod_name.as_str());
            let mut off_segs = split_path(offset.as_str());
            let ghost h0 = views_of(head@);
            let ghost f0 = views_of(off_segs@);
            head.append(&mut off_segs);
            proof {
                assert(views_of(head@) =~= h0 + f0);
                assert(views_of(head@) =~= go_head_segs(config.output.go->0));
            }
            if path_is_abs(from.as_str()) {
                let mut fdir = dir_segs_exec(from.as_str());
                let ref_pkg = if fdir.len() == 0 {
                    get_root_pkg_name(config)
                } else {
                    fdir[fdir.len() - 1].clone()
                };
                if str_eq(ref_pkg.as_str(), cur.as_str()) {
                    let r = String::new();
                    proof {
                        assert(r@ =~= spec_process_from(
                            *lang,
                            current@,
                            from@,
                            config.spec.root@,
                            config.output.go->0,
                        ));
                    }
                    Ok(r)
                } else {
                    let ghost hsegs = views_of(head@);
                    let ghost fsegs = views_of(fdir@);
                    head.append(&mut fdir);
                    proof {
                        assert(views_of(head@) =~= hsegs + fsegs);
                    }
                    Ok(render_go_line(&head, o))
                }
            } else {
                let mut joined = dir_segs_exec(current.as_str());
                let mut fsegs = split_path(from.as_str());
                let ghost j0 = views_of(joined@);
                let ghost fs0 = views_of(fsegs@);
                joined.append(&mut fsegs);
                proof {
                    assert(views_of(joined@) =~= j0 + fs0);
                }
                let nd = normalize_segs(&joined);
                let rootsegs = split_path(config.spec.root.as_str());
                if path_is_abs(current.as_str()) != path_is_abs(config.spec.root.as_str())
                    || !segs_prefix_exec(&rootsegs, &nd) {
                    return Err(CompileError::new(ErrorKind::OutOfRoot, from.clone()));
                }
                let end = if nd.len() > rootsegs.len() {
                    nd.len() - 1
                } else {
                    nd.len()
                };
                let mut dirr: Vec<String> = Vec::new();
                let mut k = rootsegs.len();
                proof {
                    assert(views_of(dirr@) =~= views_of(nd@).subrange(
                        rootsegs@.len() as int,
                        rootsegs@.len() as int,
                    ));
                }
                while k < end
                    invariant
                        rootsegs@.len() <= k <= end <= nd@.len(),
                        views_of(dirr@) =~= views_of(nd@).subrange(rootsegs@.len() as int,
                            k as int),
                    decreases end - k,
                {
                    let ghost pre = dirr@;
                    let seg = nd[k].clone();
                    let ghost x = seg;
                    dirr.push(seg);
                    proof {
                        crate::lemma_views_of_push(pre, x);
                        assert(views_of(dirr@) =~= views_of(nd@).subrange(
                            rootsegs@.len() as int,
                            k as int + 1,
                        ));
                    }
                    k += 1;
                }
                proof {
                    let stripped = go_rel_norm(from@, current@).skip(parse_segments(
                        config.spec.root@,
                    ).len() as int);
                    assert(views_of(dirr@) =~= seg_parent(stripped));
                }
                let ref_pkg = if dirr.len() == 0 {
                    get_root_pkg_name(config)
                } else {
                    dirr[dirr.len() - 1].clone()
                };
                if str_eq(ref_pkg.as_str(), cur.as_str()) {
                    let r = String::new();
                    proof {
                        assert(r@ =~= spec_process_from(
                            *lang,
                            current@,
                            from@,
                            config.spec.root@,
                            config.output.go->0,
                        ));
                    }
                    Ok(r)
                } else {
                    let ghost hsegs = views_of(head@);
                    let ghost dsegs = views_of(dirr@);
                    head.append(&mut dirr);
                    proof {
                        assert(views_of(head@) =~= hsegs + dsegs);
                    }
                    Ok(render_go_line(&head, o))
                }
            }
        }
        SupportedLang::TypeScript => {
            if path_is_abs(from.as_str()) {
                let mut target = split_path(config.spec.root.as_str());
                let mut fdir = dir_segs_exec(from.as_str());
                let ghost t0 = views_of(target@);
                let ghost fd0 = views_of(fdir@);
                target.append(&mut fdir);
                proof {
                    assert(views_of(target@) =~= t0 + fd0);
                }
                let base = dir_segs_exec(current.as_str());
                if path_is_abs(config.spec.root.as_str()) != path_is_abs(current.as_str()) {
                    return Err(CompileError::new(ErrorKind::PathDiff, from.clone()));
                }
                proof {
                    assert(views_of(target@).skip(0) =~= views_of(target@));
                    assert(views_of(base@).skip(0) =~= views_of(base@));
                }
                match diff_segs_exec(&target, &base, 0, 0) {
                    None => Err(CompileError::new(ErrorKind::PathDiff, from.clone())),
                    Some(d) => {
                        let lastseg = crate::path::path_last_seg(from.as_str());
                        let st = file_stem(lastseg.as_str());
                        let mut d2 = d;
                        let ghost d0 = views_of(d2@);
                        let ghost xst = st;
                        let ghost pre = d2@;
                        d2.push(st);
                        proof {
                            crate::lemma_views_of_push(pre, xst);
                        }
                        let joined = join_path(false, &d2);
                        let mut s = String::from_str("./");
                        s.append(joined.as_str());
                        proof {
                            assert(views_of(d2@) =~= d0.push(stem_of(spec_last_seg(from@))));
                        }
                        Ok(s)
                    }
                }
            } else {
                Ok(from.clone())
            }
        }
    }
}

/// Render one Go import line from its path segments.
fn render_go_line(segs: &Vec<String>, o: &OutputGo) -> (r: String)
    ensures
        r@ == go_import_line(views_of(segs@), *o),
{
    let p = join_path(path_is_abs(o.mod_name.as_str()), segs);
    let mut s = spaces(o.tabsize);
    s.append("\"");
    s.append(p.as_str());
    s.append("\"");
    s
}

// ---------------------------------------------------------------------------
// The rendered import block.
// ---------------------------------------------------------------------------

/// The Go import lines, concatenated in input order; every line but the one
/// at the last index ends with a newline, and elided self-references
/// contribute nothing at all.
pub open spec fn go_pieces_from(l: Seq<ImportV>, i: int, current: Seq<char>, root: Seq<char>,
    o: OutputGo) -> Seq<char>
    decreases l.len() - i,
{
    if i < 0 || i >= l.len() {
        Seq::empty()
    } else {
        let piece = if l[i].dynamic {
            spec_spaces(o.tabsize as nat) + "\""@ + l[i].from + "\""@
        } else {
            spec_process_from(SupportedLang::Go, current, l[i].from, root, o)
        };
        let with_nl = if piece.len() == 0 {
            piece
        } else if i == l.len() - 1 {
            piece
        } else {
            piece + "\n"@
        };
        with_nl + go_pieces_from(l, i + 1, current, root, o)
    }
}

/// The first failure among the Go import lines, if any.
pub open spec fn go_pieces_err_from(l: Seq<ImportV>, i: int, current: Seq<char>,
    root: Seq<char>, o: OutputGo) -> Option<(ErrorKind, Seq<char>)>
    decreases l.len() - i,
{
    if i < 0 || i >= l.len() {
        None
    } else {
        let e = if l[i].dynamic {
            None
        } else {
            process_from_err(SupportedLang::Go, current, l[i].from, root, o)
        };
        match e {
            Some(err) => Some(err),
            None => go_pieces_err_from(l, i + 1, current, root, o),
        }
    }
}

/// The TypeScript import statements for the already-merged imports; the one
/// at the last index is followed by a blank line.
pub open spec fn ts_pieces_from(l: Seq<ImportV>, i: int, current: Seq<char>, root: Seq<char>,
    o: OutputGo) -> Seq<char>
    decreases l.len() - i,
{
    if i < 0 || i >= l.len() {
        Seq::empty()
    } else {
        let from = if l[i].dynamic {
            l[i].from
        } else {
            spec_process_from(SupportedLang::TypeScript, current, l[i].from, root, o)
        };
        let piece = "import { "@ + l[i].name + " } from \""@ + from + "\";\n"@;
        let with_blank = if i == l.len() - 1 {
            piece + "\n"@
        } else {
            piece
        };
        with_blank + ts_pieces_from(l, i + 1, current, root, o)
    }
}

/// The first failure among the TypeScript import statements, if any.
pub open spec fn ts_pieces_err_from(l: Seq<ImportV>, i: int, current: Seq<char>,
    root: Seq<char>, o: OutputGo) -> Option<(ErrorKind, Seq<char>)>
    decreases l.len() - i,
{
    if i < 0 || i >= l.len() {
        None
    } else {
        let e = if l[i].dynamic {
            None
        } else {
            process_from_err(SupportedLang::TypeScript, current, l[i].from, root, o)
        };
        match e {
            Some(err) => Some(err),
            None => ts_pieces_err_from(l, i + 1, current, root, o),
        }
    }
}

/// The rendered import block followed by the file body.
pub open spec fn spec_with_import(lang: SupportedLang, current: Seq<char>, content: Seq<char>,
    l: Seq<ImportV>, root: Seq<char>, o: OutputGo) -> Seq<char> {
    match lang {
        SupportedLang::Go => "import (\n"@ + spec_remove_duplicate_import(
            go_pieces_from(l, 0, current, root, o),
        ) + "\n)\n\n"@ + content,
        SupportedLang::TypeScript => ts_pieces_from(
            spec_reduce_imports(l),
            0,
            current,
            root,
            o,
        ) + content,
    }
}

/// The first failure rendering the import block, if any.
pub open spec fn with_import_err(lang: SupportedLang, current: Seq<char>, l: Seq<ImportV>,
    root: Seq<char>, o: OutputGo) -> Option<(ErrorKind, Seq<char>)> {
    match lang {
        SupportedLang::Go => go_pieces_err_from(l, 0, current, root, o),
        SupportedLang::TypeScript => ts_pieces_err_from(
            spec_reduce_imports(l),
            0,
            current,
            root,
            o,
        ),
    }
}

fn go_pieces(imports: &Imports, i: usize, current: &String, config: &Config) -> (r: Result<
    String,
    CompileError,
>)
    requires
        config.output.go is Some,
        i <= imports@.len(),
    ensures
        ({
            let l = imports_of(imports@);
            let root = config.spec.root@;
            let o = config.output.go->0;
            match r {
                Ok(s) => go_pieces_err_from(l, i as int, current@, root, o) is None && s@
                    == go_pieces_from(l, i as int, current@, root, o),
                Err(e) => go_pieces_err_from(l, i as int, current@, root, o) == Some(
                    (e.kind, e.subject@),
                ),
            }
        }),
    decreases imports@.len() - i,
{
    if i >= imports.len() {
        let r = String::new();
        proof {
            assert(r@ =~= go_pieces_from(
                imports_of(imports@),
                i as int,
                current@,
                config.spec.root@,
                config.output.go->0,
            ));
        }
        Ok(r)
    } else {
        let o = match &config.output.go {
            Some(o) => o,
            None => {
                return Err(CompileError::new(ErrorKind::TargetNotConfigured, String::new()));
            }
        };
        let mut piece = match &imports[i] {
            Import::Dyn(di) => {
                let mut s = spaces(o.tabsize);
                s.append("\"");
                s.append(di.from.as_str());
                s.append("\"");
                s
            }
            Import::Ref(ri) => process_from(&SupportedLang::Go, current, &ri.from, config)?,
        };
        if piece.unicode_len() > 0 && i < imports.len() - 1 {
            piece.append("\n");
        }
        let rest = go_pieces(imports, i + 1, current, config)?;
        piece.append(rest.as_str());
        Ok(piece)
    }
}

fn ts_pieces(reduced: &Imports, i: usize, current: &String, config: &Config) -> (r: Result<
    String,
    CompileError,
>)
    requires
        i <= reduced@.len(),
    ensures
        ({
            let l = imports_of(reduced@);
            let root = config.spec.root@;
            let o = config.output.go->0;
            match r {
                Ok(s) => ts_pieces_err_from(l, i as int, current@, root, o) is None && s@
                    == ts_pieces_from(l, i as int, current@, root, o),
                Err(e) => ts_pieces_err_from(l, i as int, current@, root, o) == Some(
                    (e.kind, e.subject@),
                ),
            }
        }),
    decreases reduced@.len() - i,
{
    if i >= reduced.len() {
        let r = String::new();
        proof {
            assert(r@ =~= ts_pieces_from(
                imports_of(reduced@),
                i as int,
                current@,
                config.spec.root@,
                config.output.go->0,
            ));
        }
        Ok(r)
    } else {
        let (name, fromstr) = match &reduced[i] {
            Import::Dyn(di) => (di.name.clone(), di.from.clone()),
            Import::Ref(ri) => (
                ri.name.clone(),
                process_from(&SupportedLang::TypeScript, current, &ri.from, config)?,
            ),
        };
        let mut s = String::from_str("import { ");
        s.append(name.as_str());
        s.append(" } from \"");
        s.append(fromstr.as_str());
        s.append("\";\n");
        if i == reduced.len() - 1 {
            s.append("\n");
        }
        let rest = ts_pieces(reduced, i + 1, current, config)?;
        s.append(rest.as_str());
        Ok(s)
    }
}

/// Render the import block for the accumulated imports and prepend it to the
/// file body. Go blocks deduplicate their lines; TypeScript imports are
/// merged per module before rendering.
pub fn with_import(lang: &SupportedLang, current: &String, content: &String, imports: &Imports,
    config: &Config) -> (r: Result<String, CompileError>)
    requires
        lang is Go ==> config.output.go is Some,
    ensures
        ({
            let l = imports_of(imports@);
            let root = config.spec.root@;
            let o = config.output.go->0;
            match r {
                Ok(s) => with_import_err(*lang, current@, l, root, o) is None && s@
                    == spec_with_import(*lang, current@, content@, l, root, o),
                Err(e) => with_import_err(*lang, current@, l, root, o) == Some(
                    (e.kind, e.subject@),
                ),
            }
        }),
{
    match lang {
        SupportedLang::Go => {
            let froms = go_pieces(imports, 0, current, config)?;
            let deduped = remove_duplicate_import(froms.as_str());
            let mut s = String::from_str("import (\n");
            s.append(deduped.as_str());
            s.append("\n)\n\n");
            s.append(content.as_str());
            Ok(s)
        }
        SupportedLang::TypeScript => {
            let reduced = reduce_imports(imports);
            let pieces = ts_pieces(&reduced, 0, current, config)?;
            let mut s = pieces;
            s.append(content.as_str());
            Ok(s)
        }
    }
}

} // verus!
