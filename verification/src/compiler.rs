//! The compilation driver and placement pass: transform, generate, resolve
//! imports, substitute deferred tokens, prepend headers, and decide each
//! output file's final path.

pub mod importer;
pub mod special;
pub mod types;
pub mod utils;

use crate::ast::{imports_of, ImportV, Imports, TabSize, AST};
use crate::compiler::importer::{spec_with_import, with_import, with_import_err};
use crate::compiler::special::{file_pkg_ok, spec_with_special_go, with_special};
use crate::compiler::types::{Output, OutputFile};
use crate::compiler::utils::segs_prefix;
use crate::config::Config;
use crate::definition::{Spec, SpecList};
use crate::error::{CompileError, ErrorKind};
use crate::generator::{generator_err, generator_imports, spec_generator};
use crate::lang::SupportedLang;
use crate::path::{
    parse_segments, path_is_abs, path_is_absolute, render_path, split_path, stem_of, file_stem,
    join_path,
};
use crate::transformer::{transform_err_from, transform_matches_from, transformer};
use crate::views_of;
use vstd::prelude::*;

verus! {

// ---------------------------------------------------------------------------
// The generated-file notice.
// ---------------------------------------------------------------------------

/// The fixed notice every generated file opens with.
pub open spec fn spec_with_notice(content: Seq<char>) -> Seq<char> {
    "// This file is created automatically by Selien.\n// Do NOT edit.\n\n"@ + content
}

/// Prepend the fixed notice to a finished file body.
pub fn with_notice(content: &String) -> (r: String)
    ensures
        r@ == spec_with_notice(content@),
{
    let mut s = String::from_str(
        "// This file is created automatically by Selien.\n// Do NOT edit.\n\n",
    );
    s.append(content.as_str());
    s
}

// ---------------------------------------------------------------------------
// Placement: each output file's final path.
// ---------------------------------------------------------------------------

/// The last segment's extension swapped for the target's native one.
pub open spec fn swap_ext(segs: Seq<Seq<char>>, ext: Seq<char>) -> Seq<Seq<char>> {
    if segs.len() > 0 {
        segs.drop_last().push(stem_of(segs.last()) + "."@ + ext)
    } else {
        segs
    }
}

/// A source file's output path: its spec-root-relative path re-rooted under
/// the target's output directory, with the target's file extension; `None`
/// stands for a path that does not start with the spec root.
pub open spec fn spec_output_path(path: Seq<char>, root: Seq<char>, outdir: Seq<char>,
    ext: Seq<char>) -> Option<Seq<char>> {
    if path_is_absolute(path) == path_is_absolute(root) && segs_prefix(
        parse_segments(root),
        parse_segments(path),
    ) {
        let stripped = parse_segments(path).skip(parse_segments(root).len() as int);
        Some(
            render_path(
                path_is_absolute(outdir),
                swap_ext(parse_segments(outdir) + stripped, ext),
            ),
        )
    } else {
        None
    }
}

/// Decide one output file's final path.
pub fn process_output(path: &str, root: &str, outdir: &str, ext: &str) -> (r: Result<
    String,
    CompileError,
>)
    ensures
        match r {
            Ok(s) => spec_output_path(path@, root@, outdir@, ext@) == Some(s@),
            Err(e) => spec_output_path(path@, root@, outdir@, ext@) is None && e.kind
                == ErrorKind::NotUnderRoot && e.subject@ == path@,
        },
{
    let rootsegs = split_path(root);
    let psegs = split_path(path);
    if path_is_abs(path) != path_is_abs(root) || !crate::compiler::utils::segs_prefix_exec(
        &rootsegs,
        &psegs,
    ) {
        return Err(CompileError::new(ErrorKind::NotUnderRoot, path.to_owned()));
    }
    let mut segs = split_path(outdir);
    let ghost o0 = views_of(segs@);
    let mut k = rootsegs.len();
    while k < psegs.len()
        invariant
            rootsegs@.len() <= k <= psegs@.len(),
            views_of(segs@) =~= o0 + views_of(psegs@).subrange(rootsegs@.len() as int, k as int),
        decreases psegs@.len() - k,
    {
        let ghost pre = segs@;
        let seg = psegs[k].clone();
        let ghost x = seg;
        segs.push(seg);
        proof {
            crate::lemma_views_of_push(pre, x);
            assert(views_of(segs@) =~= o0 + views_of(psegs@).subrange(
                rootsegs@.len() as int,
                k as int + 1,
            ));
        }
        k += 1;
    }
    let ghost joined = views_of(segs@);
    proof {
        assert(views_of(psegs@).subrange(rootsegs@.len() as int, psegs@.len() as int)
            =~= parse_segments(path@).skip(parse_segments(root@).len() as int));
    }
    if segs.len() > 0 {
        let last = segs[segs.len() - 1].clone();
        let stem = file_stem(last.as_str());
        let mut name = stem;
        name.append(".");
        name.append(ext);
        let ghost pre = segs@;
        segs.pop();
        proof {
            assert(segs@ =~= pre.drop_last());
            crate::lemma_views_of_drop_last(pre);
        }
        let ghost mid = segs@;
        let ghost x = name;
        segs.push(name);
        proof {
            crate::lemma_views_of_push(mid, x);
            assert(views_of(segs@) =~= swap_ext(joined, ext@));
        }
    }
    let abs = path_is_abs(outdir);
    Ok(join_path(abs, &segs))
}

// ---------------------------------------------------------------------------
// Assembling one file.
// ---------------------------------------------------------------------------

/// Every declaration rendered in order, from index `i` on.
pub open spec fn concat_rendered(asts: Seq<AST>, i: int, lang: SupportedLang, tabs: TabSize)
    -> Seq<char>
    decreases asts.len() - i,
{
    if i < 0 || i >= asts.len() {
        Seq::empty()
    } else {
        spec_generator(asts[i], lang, tabs) + concat_rendered(asts, i + 1, lang, tabs)
    }
}

/// Every declaration's imports in order, from index `i` on.
pub open spec fn concat_imports(asts: Seq<AST>, i: int, lang: SupportedLang) -> Seq<ImportV>
    decreases asts.len() - i,
{
    if i < 0 || i >= asts.len() {
        Seq::empty()
    } else {
        generator_imports(asts[i], lang) + concat_imports(asts, i + 1, lang)
    }
}

/// The first generation defect among the declarations, from index `i` on.
pub open spec fn gen_err_from(asts: Seq<AST>, i: int, lang: SupportedLang) -> Option<ErrorKind>
    decreases asts.len() - i,
{
    if i < 0 || i >= asts.len() {
        None
    } else {
        match generator_err(asts[i], lang) {
            Some(e) => Some(e),
            None => gen_err_from(asts, i + 1, lang),
        }
    }
}

/// What finishing one file yields from its rendered body and imports: the
/// import block when any import is demanded, the Go package header and token
/// substitution, and the fixed notice.
pub open spec fn spec_finish_file(lang: SupportedLang, current: Seq<char>, content: Seq<char>,
    imports: Seq<ImportV>, cfg: Config) -> Seq<char> {
    let with_imp = if imports.len() > 0 {
        spec_with_import(lang, current, content, imports, cfg.spec.root@, cfg.output.go->0)
    } else {
        content
    };
    let finished = match lang {
        SupportedLang::Go => spec_with_special_go(
            with_imp,
            current,
            cfg.spec.root@,
            cfg.output.go->0,
        ),
        SupportedLang::TypeScript => with_imp,
    };
    spec_with_notice(finished)
}

/// The full text of one output file, given the declarations its source
/// transformed into.
pub open spec fn spec_assemble(lang: SupportedLang, current: Seq<char>, asts: Seq<AST>,
    tabs: TabSize, cfg: Config) -> Seq<char> {
    spec_finish_file(
        lang,
        current,
        concat_rendered(asts, 0, lang, tabs),
        concat_imports(asts, 0, lang),
        cfg,
    )
}

/// The target's configured output directory.
pub open spec fn lang_outdir(lang: SupportedLang, cfg: Config) -> Seq<char> {
    match lang {
        SupportedLang::Go => cfg.output.go->0.output@,
        SupportedLang::TypeScript => cfg.output.typescript->0.output@,
    }
}

/// The target's native file extension.
pub open spec fn lang_ext(lang: SupportedLang) -> Seq<char> {
    match lang {
        SupportedLang::Go => "go"@,
        SupportedLang::TypeScript => "ts"@,
    }
}

/// The indentation widths a run uses: the configured ones, or each target's
/// conventional default.
pub open spec fn spec_tabs(cfg: Config) -> TabSize {
    TabSize {
        go: match cfg.output.go {
            Some(o) => o.tabsize,
            None => 4,
        },
        typescript: match cfg.output.typescript {
            Some(t) => t.tabsize,
            None => 2,
        },
    }
}

/// Is this a sound output file for the source file: its content assembled
/// from declarations that realize the source, its path the placement pass's
/// answer? Any two files this predicate admits for the same source and
/// configuration agree byte for byte; see
/// [`crate::laws::lemma_pipeline_idempotent`].
pub open spec fn file_ok(lang: SupportedLang, sp: Spec, cfg: Config, tabs: TabSize,
    f: OutputFile) -> bool {
    exists|asts: Seq<AST>|
        {
            &&& #[trigger] transform_matches_from(sp.def@, 0, asts)
            &&& transform_err_from(sp.def@, 0) is None
            &&& f.content@ == spec_assemble(lang, sp.path@, asts, tabs, cfg)
            &&& spec_output_path(sp.path@, cfg.spec.root@, lang_outdir(lang, cfg),
                lang_ext(lang)) == Some(f.path@)
        }
}

/// Does this error belong to compiling that source file?
pub open spec fn file_fails_with(lang: SupportedLang, sp: Spec, cfg: Config, k: ErrorKind,
    subj: Seq<char>) -> bool {
    ||| transform_err_from(sp.def@, 0) == Some((k, subj))
    ||| exists|asts: Seq<AST>|
        {
            &&& #[trigger] transform_matches_from(sp.def@, 0, asts)
            &&& {
                ||| (gen_err_from(asts, 0, lang) == Some(k) && subj.len() == 0)
                ||| (concat_imports(asts, 0, lang).len() > 0 && with_import_err(
                    lang,
                    sp.path@,
                    concat_imports(asts, 0, lang),
                    cfg.spec.root@,
                    cfg.output.go->0,
                ) == Some((k, subj)))
                ||| (lang is Go && !file_pkg_ok(sp.path@, cfg.spec.root@) && k
                    == ErrorKind::NoPackageName && subj == sp.path@)
                ||| (k == ErrorKind::NotUnderRoot && spec_output_path(
                    sp.path@,
                    cfg.spec.root@,
                    lang_outdir(lang, cfg),
                    lang_ext(lang),
                ) is None && subj == sp.path@)
            }
        }
}

/// Render every declaration in order, collecting every import.
fn generate_all(asts: &Vec<AST>, i: usize, lang: &SupportedLang, imports: &mut Imports,
    tabsize: &TabSize) -> (r: Result<String, CompileError>)
    requires
        i <= asts@.len(),
    ensures
        match r {
            Ok(s) => gen_err_from(asts@, i as int, *lang) is None && s@ == concat_rendered(
                asts@,
                i as int,
                *lang,
                *tabsize,
            ) && imports_of(final(imports)@) == imports_of(old(imports)@) + concat_imports(
                asts@,
                i as int,
                *lang,
            ),
            Err(e) => gen_err_from(asts@, i as int, *lang) == Some(e.kind) && e.subject@.len()
                == 0,
        },
    decreases asts@.len() - i,
{
    if i >= asts.len() {
        let r = String::new();
        proof {
            assert(r@ =~= concat_rendered(asts@, i as int, *lang, *tabsize));
            assert(imports_of(imports@) =~= imports_of(old(imports)@) + concat_imports(
                asts@,
                i as int,
                *lang,
            ));
        }
        Ok(r)
    } else {
        let mut s = asts[i].generator(lang, imports, tabsize)?;
        let rest = generate_all(asts, i + 1, lang, imports, tabsize)?;
        s.append(rest.as_str());
        proof {
            assert(imports_of(imports@) =~= imports_of(old(imports)@) + concat_imports(
                asts@,
                i as int,
                *lang,
            ));
        }
        Ok(s)
    }
}

/// Compile one source file for one target.
fn compile_file(lang: &SupportedLang, sp: &Spec, config: &Config, tabsize: &TabSize) -> (r:
    Result<OutputFile, CompileError>)
    requires
        lang is Go ==> config.output.go is Some,
        lang is TypeScript ==> config.output.typescript is Some,
    ensures
        match r {
            Ok(f) => file_ok(*lang, *sp, *config, *tabsize, f),
            Err(e) => file_fails_with(*lang, *sp, *config, e.kind, e.subject@),
        },
{
    let asts = match transformer(sp) {
        Ok(a) => a,
        Err(e) => {
            return Err(e);
        }
    };
    let ghost gasts = asts@;
    let mut imports: Imports = Vec::new();
    let content = match generate_all(&asts, 0, lang, &mut imports, tabsize) {
        Ok(c) => c,
        Err(e) => {
            proof {
                assert(transform_matches_from(sp.def@, 0, gasts));
            }
            return Err(e);
        }
    };
    proof {
        assert(imports_of(imports@) =~= concat_imports(gasts, 0, *lang));
    }
    let content = if imports.len() > 0 {
        match with_import(lang, &sp.path, &content, &imports, config) {
            Ok(c) => c,
            Err(e) => {
                proof {
                    assert(transform_matches_from(sp.def@, 0, gasts));
                }
                return Err(e);
            }
        }
    } else {
        content
    };
    let content = match with_special(lang, content.as_str(), sp, config) {
        Ok(c) => c,
        Err(e) => {
            proof {
                assert(transform_matches_from(sp.def@, 0, gasts));
            }
            return Err(e);
        }
    };
    let content = with_notice(&content);
    let (outdir, ext): (&String, &str) = match lang {
        SupportedLang::Go => {
            match &config.output.go {
                Some(o) => (&o.output, "go"),
                None => {
                    return Err(
                        CompileError::new(ErrorKind::TargetNotConfigured, String::new()),
                    );
                }
            }
        }
        SupportedLang::TypeScript => {
            match &config.output.typescript {
                Some(t) => (&t.output, "ts"),
                None => {
                    return Err(
                        CompileError::new(ErrorKind::TargetNotConfigured, String::new()),
                    );
                }
            }
        }
    };
    let path = match process_output(sp.path.as_str(), config.spec.root.as_str(),
        outdir.as_str(), ext) {
        Ok(p) => p,
        Err(e) => {
            proof {
                assert(transform_matches_from(sp.def@, 0, gasts));
            }
            return Err(e);
        }
    };
    let f = OutputFile { path, content };
    proof {
        assert(transform_matches_from(sp.def@, 0, gasts));
        assert(f.content@ == spec_assemble(*lang, sp.path@, gasts, *tabsize, *config));
    }
    Ok(f)
}

impl SupportedLang {
    /// Compile every source file for this target, in input order. The
    /// target must be enabled in the configuration; each file's text is
    /// assembled from its transformed declarations, and its path comes from
    /// the placement pass.
    pub fn compiler(&self, config: &Config, spec_list: &SpecList) -> (r: Result<
        Output,
        CompileError,
    >)
        ensures
            match r {
                Ok(out) => {
                    &&& (self is Go ==> config.output.go is Some)
                    &&& (self is TypeScript ==> config.output.typescript is Some)
                    &&& out.files@.len() == spec_list@.len()
                    &&& forall|i: int|
                        0 <= i < spec_list@.len() ==> file_ok(*self, spec_list@[i], *config,
                            spec_tabs(*config), #[trigger] out.files@[i])
                },
                Err(e) => {
                    ||| (e.kind == ErrorKind::TargetNotConfigured && match self {
                        SupportedLang::Go => config.output.go is None,
                        SupportedLang::TypeScript => config.output.typescript is None,
                    })
                    ||| exists|i: int|
                        0 <= i < spec_list@.len() && #[trigger] file_fails_with(
                            *self,
                            spec_list@[i],
                            *config,
                            e.kind,
                            e.subject@,
                        )
                },
            },
    {
        let configured = self.is_defined_in_config(config);
        if !configured {
            return Err(CompileError::new(ErrorKind::TargetNotConfigured, String::new()));
        }
        let tabsize = TabSize {
            go: match &config.output.go {
                Some(o) => o.tabsize,
                None => 4,
            },
            typescript: match &config.output.typescript {
                Some(t) => t.tabsize,
                None => 2,
            },
        };
        let mut files: Vec<OutputFile> = Vec::new();
        let mut i: usize = 0;
        while i < spec_list.len()
            invariant
                i <= spec_list@.len(),
                files@.len() == i,
                self is Go ==> config.output.go is Some,
                self is TypeScript ==> config.output.typescript is Some,
                tabsize == spec_tabs(*config),
                forall|j: int|
                    0 <= j < i ==> file_ok(*self, spec_list@[j], *config, spec_tabs(*config),
                        #[trigger] files@[j]),
            decreases spec_list@.len() - i,
        {
            match compile_file(self, &spec_list[i], config, &tabsize) {
                Ok(f) => {
                    files.push(f);
                }
                Err(e) => {
                    return Err(e);
                }
            }
            i += 1;
        }
        Ok(Output { files })
    }
}

} // verus!
