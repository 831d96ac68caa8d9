//! Path algebra, helpers, and import bookkeeping, checked on concrete values.

use selien::ast::{DynImport, Import, Keywords, Node, RefImport, TabSize};
use selien::compiler::process_output;
use selien::compiler::utils::{get_root_pkg_name, reduce_imports, remove_duplicate_import,
    replace_selien_root};
use selien::config::{Config, Output, OutputGo, OutputTypescript};
use selien::generator::utils::capitalize;
use selien::lang::SupportedLang;
use selien::path::{
    add_dot, diff_paths, file_stem, normalize_path, path_last_seg, to_relative,
};

fn go_config() -> Config {
    Config {
        spec: selien::config::Spec { root: String::from("selien-spec") },
        output: Output {
            go: Some(OutputGo {
                mod_name: String::from("selien"),
                root: String::from("packages/server"),
                output: String::from("packages/server/api/selien_spec"),
                tabsize: 4,
            }),
            typescript: Some(OutputTypescript { output: String::from("web"), tabsize: 2 }),
        },
    }
}

#[test]
fn normalize_resolves_dots() {
    assert_eq!(normalize_path("a/b/../c"), "a/c");
    assert_eq!(normalize_path("/a/./b/"), "/a/b");
    assert_eq!(normalize_path("a/../.."), "");
    assert_eq!(normalize_path("../a"), "a");
    assert_eq!(normalize_path("/"), "/");
}

#[test]
fn to_relative_strips_one_root() {
    assert_eq!(to_relative("/rest/user"), "rest/user");
    assert_eq!(to_relative("rest/user"), "rest/user");
    assert_eq!(to_relative("/"), "");
}

#[test]
fn add_dot_prefixes() {
    assert_eq!(add_dot("home/user/selien"), "./home/user/selien");
    assert_eq!(add_dot(""), "./");
}

#[test]
fn diff_walks_to_target() {
    assert_eq!(diff_paths("a/b/c", "a/d"), Some(String::from("../b/c")));
    assert_eq!(diff_paths("a/b", "a"), Some(String::from("b")));
    assert_eq!(diff_paths("a", "a/b/c"), Some(String::from("../..")));
    assert_eq!(diff_paths("/x", "rel"), Some(String::from("/x")));
    assert_eq!(diff_paths("rel", "/x"), None);
    assert_eq!(diff_paths("a/b", "../c"), None);
}

#[test]
fn stems_and_last_segments() {
    assert_eq!(file_stem("circle.yaml"), "circle");
    assert_eq!(file_stem("circle"), "circle");
    assert_eq!(file_stem(".hidden"), ".hidden");
    assert_eq!(file_stem("a.b.c"), "a.b");
    assert_eq!(path_last_seg("github.com/x/pkg"), "pkg");
    assert_eq!(path_last_seg(""), "");
}

#[test]
fn capitalize_uses_uppercase_mapping() {
    assert_eq!(capitalize("hello"), "Hello");
    assert_eq!(capitalize(""), "");
    assert_eq!(capitalize("Already"), "Already");
    // one character may uppercase into several
    assert_eq!(capitalize("\u{00df}eta"), "SSeta");
}

#[test]
fn keywords_render_per_target() {
    assert_eq!(Keywords::Any.to_string(SupportedLang::TypeScript), "any");
    assert_eq!(Keywords::Any.to_string(SupportedLang::Go), "interface{}");
    assert_eq!(Keywords::Number.to_string(SupportedLang::Go), "int");
    assert_eq!(Keywords::Boolean.to_string(SupportedLang::TypeScript), "boolean");
}

#[test]
fn duplicate_lines_keep_first_occurrence() {
    assert_eq!(remove_duplicate_import("x\ny\nx"), "x\ny");
    assert_eq!(remove_duplicate_import("b\na\nb\na"), "b\na");
    assert_eq!(remove_duplicate_import(""), "");
}

#[test]
fn imports_merge_in_first_seen_order() {
    // two requests of different symbols from one module collapse to one
    let imports = vec![
        Import::Dyn(DynImport { name: String::from("a"), from: String::from("lib/shared") }),
        Import::Dyn(DynImport { name: String::from("b"), from: String::from("lib/shared") }),
        Import::Ref(RefImport { name: String::from("C"), from: String::from("/c/c") }),
    ];
    let reduced = reduce_imports(&imports);
    assert_eq!(reduced.len(), 2);
    match &reduced[0] {
        Import::Dyn(d) => {
            assert_eq!(d.name, "a, b");
            assert_eq!(d.from, "lib/shared");
        }
        _ => panic!("first merged import must stay dynamic"),
    }
    match &reduced[1] {
        Import::Ref(r) => assert_eq!(r.from, "/c/c"),
        _ => panic!("second merged import must stay a reference"),
    }
}

#[test]
fn duplicate_names_collapse_too() {
    let imports = vec![
        Import::Dyn(DynImport { name: String::from("a"), from: String::from("m") }),
        Import::Dyn(DynImport { name: String::from("a"), from: String::from("m") }),
    ];
    let reduced = reduce_imports(&imports);
    assert_eq!(reduced.len(), 1);
    match &reduced[0] {
        Import::Dyn(d) => assert_eq!(d.name, "a"),
        _ => panic!("merged import must stay dynamic"),
    }
}

#[test]
fn root_package_name_is_output_dirs_last_segment() {
    let config = go_config();
    assert_eq!(get_root_pkg_name(&config), "selien_spec");
}

#[test]
fn replace_root_builds_import_path() {
    let config = go_config();
    let r = replace_selien_root("selien-spec/foo/bar", &config).unwrap();
    assert_eq!(r, "selien/api/selien_spec/foo/bar");
    assert!(replace_selien_root("elsewhere/foo", &config).is_err());
}

#[test]
fn output_paths_are_rerooted_with_native_extension() {
    let p = process_output("selien-spec/rest/user.yaml", "selien-spec", "web/types", "ts")
        .unwrap();
    assert_eq!(p, "web/types/rest/user.ts");
    let g = process_output("selien-spec/user.yaml", "selien-spec", "out", "go").unwrap();
    assert_eq!(g, "out/user.go");
    assert!(process_output("other/user.yaml", "selien-spec", "out", "go").is_err());
}

#[test]
fn fresh_nodes_are_unpopulated() {
    assert!(matches!(Node::new(), Node::Empty));
    let tabs = TabSize::default();
    assert_eq!(tabs.go, 4);
    assert_eq!(tabs.typescript, 2);
}

#[test]
fn language_aliases_resolve() {
    assert!(matches!(SupportedLang::from("ts"), Some(SupportedLang::TypeScript)));
    assert!(matches!(SupportedLang::from("golang"), Some(SupportedLang::Go)));
    assert!(SupportedLang::from("rust").is_none());
    assert_eq!(SupportedLang::all().len(), 2);
    let aliases = SupportedLang::get_alias(&SupportedLang::Go);
    assert_eq!(aliases, vec!["go", "golang"]);
    let config = go_config();
    assert!(SupportedLang::Go.is_defined_in_config(&config));
}
