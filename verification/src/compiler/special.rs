//! The Go placement pass: decide each file's package name, prepend the
//! `package` declaration, and substitute every deferred reference token with
//! the resolved package qualifier — the empty string for a self-reference,
//! since Go forbids importing one's own package.

use crate::compiler::utils::get_root_pkg_name;
use crate::compiler::importer::{pkg_for_dir, spec_current_pkg, current_pkg};
use crate::config::{Config, OutputGo};
use crate::definition::Spec;
use crate::error::{CompileError, ErrorKind};
use crate::lang::SupportedLang;
use crate::path::{
    dir_segs, dir_segs_exec, norm_segs, normalize_segs, parse_segments, path_is_abs,
    path_is_absolute, seg_parent, split_path,
};
use crate::str_eq;
use vstd::prelude::*;

verus! {

// ---------------------------------------------------------------------------
// Finding the deferred tokens.
// ---------------------------------------------------------------------------

/// Index of the first occurrence of `pat` in `s`, or `s.len()` when no
/// occurrence fits.
pub open spec fn find_pat(s: Seq<char>, pat: Seq<char>) -> nat
    decreases s.len(),
{
    if pat.len() == 0 {
        0
    } else if s.len() < pat.len() {
        s.len() as nat
    } else if s.take(pat.len() as int) == pat {
        0
    } else {
        (1 + find_pat(s.skip(1), pat)) as nat
    }
}

pub proof fn lemma_find_pat(s: Seq<char>, pat: Seq<char>)
    requires
        pat.len() > 0,
    ensures
        find_pat(s, pat) <= s.len(),
        find_pat(s, pat) + pat.len() <= s.len() ==> s.subrange(
            find_pat(s, pat) as int,
            find_pat(s, pat) + pat.len() as int,
        ) == pat,
        forall|j: int|
            0 <= j < find_pat(s, pat) && j + pat.len() <= s.len() ==> #[trigger] s.subrange(
                j,
                j + pat.len(),
            ) != pat,
        find_pat(s, pat) + pat.len() > s.len() ==> find_pat(s, pat) == s.len(),
    decreases s.len(),
{
    if s.len() < pat.len() {
    } else if s.take(pat.len() as int) == pat {
        assert(s.subrange(0, pat.len() as int) =~= s.take(pat.len() as int));
    } else {
        lemma_find_pat(s.skip(1), pat);
        let f = find_pat(s, pat) as int;
        if f + pat.len() <= s.len() {
            assert(s.skip(1).subrange(f - 1, f - 1 + pat.len()) =~= s.subrange(
                f,
                f + pat.len(),
            ));
        }
        assert forall|j: int|
            0 <= j < f && j + pat.len() <= s.len() implies #[trigger] s.subrange(
            j,
            j + pat.len(),
        ) != pat by {
            if j == 0 {
                assert(s.subrange(0, pat.len() as int) =~= s.take(pat.len() as int));
            } else {
                assert(s.skip(1).subrange(j - 1, j - 1 + pat.len()) =~= s.subrange(
                    j,
                    j + pat.len(),
                ));
            }
        }
    }
}

/// `find_pat` is the unique index with the "first occurrence" property.
pub proof fn lemma_find_pat_is(s: Seq<char>, pat: Seq<char>, k: int)
    requires
        pat.len() > 0,
        0 <= k <= s.len(),
        k + pat.len() <= s.len() ==> s.subrange(k, k + pat.len()) == pat,
        k + pat.len() > s.len() ==> k == s.len(),
        forall|j: int| 0 <= j < k && j + pat.len() <= s.len() ==> #[trigger] s.subrange(
            j,
            j + pat.len(),
        ) != pat,
    ensures
        find_pat(s, pat) == k,
{
    lemma_find_pat(s, pat);
    let f = find_pat(s, pat) as int;
    if f < k {
        if f + pat.len() <= s.len() {
            assert(s.subrange(f, f + pat.len()) != pat);
        } else {
            assert(f == s.len());
        }
    }
    if k < f {
        assert(s.subrange(k, k + pat.len()) != pat);
    }
}

/// First index where `pat` occurs in `s`, or the length of `s`.
pub fn find_pat_in(s: &str, pat: &str) -> (i: usize)
    requires
        pat@.len() > 0,
    ensures
        i == find_pat(s@, pat@),
{
    let n = s.unicode_len();
    let m = pat.unicode_len();
    if m > n {
        proof {
            lemma_find_pat_is(s@, pat@, n as int);
        }
        return n;
    }
    let mut i: usize = 0;
    while i <= n - m
        invariant
            m <= n,
            i <= n - m + 1,
            n == s@.len(),
            m == pat@.len(),
            m > 0,
            forall|j: int| 0 <= j < i && j + pat@.len() <= s@.len() ==> #[trigger] s@.subrange(
                j,
                j + pat@.len(),
            ) != pat@,
        decreases n - m - i + 1,
    {
        let piece = s.substring_char(i, i + m);
        if str_eq(piece, pat) {
            proof {
                lemma_find_pat_is(s@, pat@, i as int);
            }
            return i;
        }
        i += 1;
    }
    proof {
        lemma_find_pat_is(s@, pat@, n as int);
    }
    n
}

// ---------------------------------------------------------------------------
// Resolving one token's package qualifier.
// ---------------------------------------------------------------------------

/// The package a reference path resolves to: for a root-absolute path, its
/// directory's last segment (the root-package override at the root itself);
/// for a relative path, the same after resolving it against the current
/// file's directory.
pub open spec fn spec_ref_pkg_name(path: Seq<char>, current: Seq<char>, root: Seq<char>,
    o: OutputGo) -> Seq<char> {
    if path_is_absolute(path) {
        pkg_for_dir(dir_segs(path), o)
    } else {
        let dirn = seg_parent(norm_segs(dir_segs(current) + parse_segments(path)));
        if (path_is_absolute(current) == path_is_absolute(root) && dirn == parse_segments(root))
            || dirn.len() == 0 {
            crate::compiler::utils::spec_root_pkg_name(o)
        } else {
            dirn.last()
        }
    }
}

/// The package name a reference path inside a deferred token resolves to.
pub fn get_ref_pkg_name(path: &str, current: &String, config: &Config) -> (r: String)
    requires
        config.output.go is Some,
    ensures
        r@ == spec_ref_pkg_name(path@, current@, config.spec.root@, config.output.go->0),
{
    if path_is_abs(path) {
        let fdir = dir_segs_exec(path);
        if fdir.len() == 0 {
            get_root_pkg_name(config)
        } else {
            fdir[fdir.len() - 1].clone()
        }
    } else {
        let mut joined = dir_segs_exec(current.as_str());
        let mut psegs = split_path(path);
        let ghost j0 = crate::views_of(joined@);
        let ghost p0 = crate::views_of(psegs@);
        joined.append(&mut psegs);
        proof {
            assert(crate::views_of(joined@) =~= j0 + p0);
        }
        let mut nd = normalize_segs(&joined);
        if nd.len() > 0 {
            let ghost ndpre = nd@;
            nd.pop();
            proof {
                assert(nd@ =~= ndpre.drop_last());
                crate::lemma_views_of_drop_last(ndpre);
            }
        }
        let rootsegs = split_path(config.spec.root.as_str());
        let absmatch = path_is_abs(current.as_str()) == path_is_abs(config.spec.root.as_str());
        let same = absmatch && crate::compiler::importer::seg_lists_eq(&nd, &rootsegs);
        if same || nd.len() == 0 {
            get_root_pkg_name(config)
        } else {
            nd[nd.len() - 1].clone()
        }
    }
}

/// The text a deferred token is replaced with: nothing for a self-reference,
/// else the resolved package name and a dot.
pub open spec fn spec_qual_for(path: Seq<char>, current: Seq<char>, root: Seq<char>,
    o: OutputGo, curpkg: Seq<char>) -> Seq<char> {
    let pkg = spec_ref_pkg_name(path, current, root, o);
    if pkg == curpkg {
        Seq::empty()
    } else {
        pkg + "."@
    }
}

fn qual_for(path: &str, current: &String, config: &Config, curpkg: &String) -> (r: String)
    requires
        config.output.go is Some,
    ensures
        r@ == spec_qual_for(path@, current@, config.spec.root@, config.output.go->0, curpkg@),
{
    let pkg = get_ref_pkg_name(path, current, config);
    if str_eq(pkg.as_str(), curpkg.as_str()) {
        let r = String::new();
        proof {
            assert(r@ =~= Seq::<char>::empty());
        }
        r
    } else {
        let mut r = pkg;
        r.append(".");
        r
    }
}

// ---------------------------------------------------------------------------
// Substituting every token.
// ---------------------------------------------------------------------------

/// The body text with every complete deferred token replaced by its package
/// qualifier; text after an unpaired marker is left untouched.
pub open spec fn spec_subst(s: Seq<char>, current: Seq<char>, root: Seq<char>, o: OutputGo,
    curpkg: Seq<char>) -> Seq<char>
    decreases s.len(),
    via spec_subst_dec
{
    let m = "[selien-ref]"@;
    let i = find_pat(s, m) as int;
    if i + m.len() > s.len() {
        s
    } else {
        let rest = s.skip(i + m.len());
        let j = find_pat(rest, m) as int;
        if j + m.len() > rest.len() {
            s
        } else {
            let path = rest.take(j);
            let after = rest.skip(j + m.len());
            s.take(i) + spec_qual_for(path, current, root, o, curpkg) + spec_subst(
                after,
                current,
                root,
                o,
                curpkg,
            )
        }
    }
}

#[via_fn]
proof fn spec_subst_dec(s: Seq<char>, current: Seq<char>, root: Seq<char>, o: OutputGo,
    curpkg: Seq<char>) {
    reveal_strlit("[selien-ref]");
}

/// Replace every deferred token in the body with its package qualifier.
fn subst_tokens(s: &str, current: &String, config: &Config, curpkg: &String) -> (r: String)
    requires
        config.output.go is Some,
    ensures
        r@ == spec_subst(s@, current@, config.spec.root@, config.output.go->0, curpkg@),
    decreases s@.len(),
{
    let marker = "[selien-ref]";
    let n = s.unicode_len();
    let ml = marker.unicode_len();
    proof {
        reveal_strlit("[selien-ref]");
    }
    let i = find_pat_in(s, marker);
    if i >= n || ml > n - i {
        return s.to_owned();
    }
    let rest = s.substring_char(i + ml, n);
    let rn = rest.unicode_len();
    let j = find_pat_in(rest, marker);
    if j >= rn || ml > rn - j {
        return s.to_owned();
    }
    let path = rest.substring_char(0, j);
    let after = rest.substring_char(j + ml, rn);
    let qual = qual_for(path, current, config, curpkg);
    let head = s.substring_char(0, i);
    let mut out = head.to_owned();
    out.append(qual.as_str());
    let tail = subst_tokens(after, current, config, curpkg);
    out.append(tail.as_str());
    out
}

// ---------------------------------------------------------------------------
// The header-and-substitution pass.
// ---------------------------------------------------------------------------

/// Can the file's package name be decided at all?
pub open spec fn file_pkg_ok(path: Seq<char>, root: Seq<char>) -> bool {
    (path_is_absolute(path) == path_is_absolute(root) && dir_segs(path) == parse_segments(root))
        || dir_segs(path).len() > 0
}

/// What the Go pass yields for one file: the package header, then the body
/// with every deferred token substituted.
pub open spec fn spec_with_special_go(content: Seq<char>, path: Seq<char>, root: Seq<char>,
    o: OutputGo) -> Seq<char> {
    let pkg = spec_current_pkg(path, root, o);
    "package "@ + pkg + "\n\n"@ + spec_subst(content, path, root, o, pkg)
}

/// Apply the per-target finishing pass. TypeScript needs none; Go takes its
/// package header and has its deferred tokens substituted with package
/// qualifiers (empty for self-references).
pub fn with_special(lang: &SupportedLang, content: &str, sp: &Spec, config: &Config) -> (r:
    Result<String, CompileError>)
    requires
        lang is Go ==> config.output.go is Some,
    ensures
        match r {
            Ok(s) => match lang {
                SupportedLang::TypeScript => s@ == content@,
                SupportedLang::Go => file_pkg_ok(sp.path@, config.spec.root@) && s@
                    == spec_with_special_go(
                    content@,
                    sp.path@,
                    config.spec.root@,
                    config.output.go->0,
                ),
            },
            Err(e) => lang is Go && !file_pkg_ok(sp.path@, config.spec.root@) && e.kind
                == ErrorKind::NoPackageName && e.subject@ == sp.path@,
        },
{
    match lang {
        SupportedLang::TypeScript => Ok(content.to_owned()),
        SupportedLang::Go => {
            let cd = dir_segs_exec(sp.path.as_str());
            let rootsegs = split_path(config.spec.root.as_str());
            let absmatch = path_is_abs(sp.path.as_str()) == path_is_abs(
                config.spec.root.as_str(),
            );
            let same = absmatch && crate::compiler::importer::seg_lists_eq(&cd, &rootsegs);
            if !same && cd.len() == 0 {
                return Err(CompileError::new(ErrorKind::NoPackageName, sp.path.clone()));
            }
            let pkg = current_pkg(sp.path.as_str(), config);
            let mut out = String::from_str("package ");
            out.append(pkg.as_str());
            out.append("\n\n");
            let body = subst_tokens(content, &sp.path, config, &pkg);
            out.append(body.as_str());
            Ok(out)
        }
    }
}

} // verus!
