//! End-to-end pipeline scenarios: whole source files compiled for one
//! target, checked against the exact generated text and placement.

use selien::config::{Config, Output, OutputGo, OutputTypescript};
use selien::definition::{Def, Spec, TypeAliasDef, EnumDef};
use selien::doc::{DocEntry, DocValue};
use selien::lang::SupportedLang;

fn entry(key: &str, value: DocValue) -> DocEntry {
    DocEntry { key: String::from(key), value }
}

fn s(v: &str) -> DocValue {
    DocValue::Str(String::from(v))
}

fn full_config() -> Config {
    Config {
        spec: selien::config::Spec { root: String::from("spec") },
        output: Output {
            go: Some(OutputGo {
                mod_name: String::from("app"),
                root: String::from("pkg"),
                output: String::from("pkg/spec"),
                tabsize: 4,
            }),
            typescript: Some(OutputTypescript { output: String::from("web/types"), tabsize: 2 }),
        },
    }
}

const NOTICE: &str = "// This file is created automatically by Selien.\n// Do NOT edit.\n\n";

#[test]
fn matrix_renders_in_both_targets() {
    // {type: array, items: {type: array, items: {type: number}}} named matrix
    let body = vec![
        entry("type", s("array")),
        entry(
            "items",
            DocValue::Mapping(vec![
                entry("type", s("array")),
                entry("items", DocValue::Mapping(vec![entry("type", s("number"))])),
            ]),
        ),
    ];
    let sp = Spec {
        version: String::from("1"),
        path: String::from("spec/matrix.yaml"),
        def: vec![Def::TypeAlias(TypeAliasDef { identifier: String::from("matrix"), body })],
    };
    let config = full_config();
    let ts = SupportedLang::TypeScript.compiler(&config, &vec![sp]).unwrap();
    assert_eq!(ts.files.len(), 1);
    assert_eq!(ts.files[0].path, "web/types/matrix.ts");
    assert_eq!(
        ts.files[0].content,
        format!("{}export type Matrix = number[][];\n", NOTICE)
    );
    // no imports demanded: no import block at all
    assert!(!ts.files[0].content.contains("import"));

    let body2 = vec![
        entry("type", s("array")),
        entry(
            "items",
            DocValue::Mapping(vec![
                entry("type", s("array")),
                entry("items", DocValue::Mapping(vec![entry("type", s("number"))])),
            ]),
        ),
    ];
    let sp2 = Spec {
        version: String::from("1"),
        path: String::from("spec/matrix.yaml"),
        def: vec![Def::TypeAlias(TypeAliasDef { identifier: String::from("matrix"), body: body2 })],
    };
    let go = SupportedLang::Go.compiler(&config, &vec![sp2]).unwrap();
    assert_eq!(go.files[0].path, "pkg/spec/matrix.go");
    assert_eq!(
        go.files[0].content,
        format!("{}package spec\n\ntype Matrix [][]int\n", NOTICE)
    );
    assert!(!go.files[0].content.contains("import"));
}

fn ref_spec(path: &str) -> Spec {
    let body = vec![entry("type", s("$ref")), entry("uri", s("/circle/thing#Thing"))];
    Spec {
        version: String::from("1"),
        path: String::from(path),
        def: vec![Def::TypeAlias(TypeAliasDef { identifier: String::from("derived"), body })],
    }
}

#[test]
fn go_ref_resolves_to_package() {
    let config = full_config();
    let go = SupportedLang::Go.compiler(&config, &vec![ref_spec("spec/shapes/derived.yaml")])
        .unwrap();
    assert_eq!(go.files[0].path, "pkg/spec/shapes/derived.go");
    assert_eq!(
        go.files[0].content,
        format!(
            "{}package shapes\n\nimport (\n    \"app/spec/circle\"\n)\n\ntype Derived circle.Thing\n",
            NOTICE
        )
    );
}

#[test]
fn go_self_reference_elided() {
    // The referencing file sits in the referenced package's own directory:
    // the import is omitted and the type name carries no qualifier.
    let config = full_config();
    let go = SupportedLang::Go.compiler(&config, &vec![ref_spec("spec/circle/derived.yaml")])
        .unwrap();
    assert_eq!(
        go.files[0].content,
        format!("{}package circle\n\nimport (\n\n)\n\ntype Derived Thing\n", NOTICE)
    );
}

#[test]
fn typescript_ref_becomes_relative_import() {
    let config = full_config();
    let ts = SupportedLang::TypeScript.compiler(
        &config,
        &vec![ref_spec("spec/shapes/derived.yaml")],
    ).unwrap();
    assert_eq!(ts.files[0].path, "web/types/shapes/derived.ts");
    assert_eq!(
        ts.files[0].content,
        format!(
            "{}import {{ Thing }} from \"./../circle/thing\";\n\nexport type Derived = Thing;\n",
            NOTICE
        )
    );
}

#[test]
fn status_enum_constants() {
    // {type: string, members: [{ok: "OK"}, {fail: "FAIL"}]} named Status
    let sp = Spec {
        version: String::from("1"),
        path: String::from("spec/status.yaml"),
        def: vec![Def::Enum(EnumDef {
            identifier: String::from("status"),
            kind: String::from("string"),
            members: vec![
                DocValue::Mapping(vec![entry("ok", s("OK"))]),
                DocValue::Mapping(vec![entry("fail", s("FAIL"))]),
            ],
        })],
    };
    let config = full_config();
    let go = SupportedLang::Go.compiler(&config, &vec![sp]).unwrap();
    assert_eq!(
        go.files[0].content,
        format!(
            "{}package spec\n\n\ntype Status string\nconst (\n    StatusOk Status = \"OK\"\n    StatusFail Status = \"FAIL\"\n)\n\n",
            NOTICE
        )
    );
}

fn split_spec() -> Spec {
    // a split declaration providing only a Go body
    let body = vec![
        entry("type", s("split")),
        entry("go", DocValue::Mapping(vec![entry("type", s("string"))])),
    ];
    Spec {
        version: String::from("1"),
        path: String::from("spec/only.yaml"),
        def: vec![Def::TypeAlias(TypeAliasDef { identifier: String::from("only"), body })],
    }
}

#[test]
fn split_without_typescript_renders_nothing() {
    let config = full_config();
    let ts = SupportedLang::TypeScript.compiler(&config, &vec![split_spec()]).unwrap();
    assert_eq!(ts.files[0].content, String::from(NOTICE));
    let go = SupportedLang::Go.compiler(&config, &vec![split_spec()]).unwrap();
    assert_eq!(
        go.files[0].content,
        format!("{}package spec\n\ntype Only string\n", NOTICE)
    );
}

fn dyn_pair_spec() -> Spec {
    // two declarations pulling different symbols from the same module
    let first = vec![
        entry("type", s("$dyn")),
        entry("name", s("a")),
        entry("from", s("lib/shared")),
    ];
    let second = vec![
        entry("type", s("$dyn")),
        entry("name", s("b")),
        entry("from", s("lib/shared")),
    ];
    Spec {
        version: String::from("1"),
        path: String::from("spec/pair.yaml"),
        def: vec![
            Def::TypeAlias(TypeAliasDef { identifier: String::from("first"), body: first }),
            Def::TypeAlias(TypeAliasDef { identifier: String::from("second"), body: second }),
        ],
    }
}

#[test]
fn typescript_imports_merge_per_module() {
    let config = full_config();
    let ts = SupportedLang::TypeScript.compiler(&config, &vec![dyn_pair_spec()]).unwrap();
    assert_eq!(
        ts.files[0].content,
        format!(
            "{}import {{ a, b }} from \"lib/shared\";\n\nexport type First = A\nexport type Second = B\n",
            NOTICE
        )
    );
}

#[test]
fn go_duplicate_imports_collapse() {
    // two references into the same package produce one import line
    let one = vec![entry("type", s("$ref")), entry("uri", s("/circle/one#One"))];
    let two = vec![entry("type", s("$ref")), entry("uri", s("/circle/two#Two"))];
    let sp = Spec {
        version: String::from("1"),
        path: String::from("spec/shapes/both.yaml"),
        def: vec![
            Def::TypeAlias(TypeAliasDef { identifier: String::from("one"), body: one }),
            Def::TypeAlias(TypeAliasDef { identifier: String::from("two"), body: two }),
        ],
    };
    let config = full_config();
    let go = SupportedLang::Go.compiler(&config, &vec![sp]).unwrap();
    assert_eq!(
        go.files[0].content,
        format!(
            "{}package shapes\n\nimport (\n    \"app/spec/circle\"\n)\n\ntype One circle.One\ntype Two circle.Two\n",
            NOTICE
        )
    );
}

#[test]
fn pipeline_is_byte_identical_across_runs() {
    // the same input and configuration yield byte-identical output files
    let config = full_config();
    let a = SupportedLang::Go.compiler(&config, &vec![ref_spec("spec/shapes/derived.yaml")])
        .unwrap();
    let b = SupportedLang::Go.compiler(&config, &vec![ref_spec("spec/shapes/derived.yaml")])
        .unwrap();
    assert_eq!(a.files.len(), b.files.len());
    assert_eq!(a.files[0].path, b.files[0].path);
    assert_eq!(a.files[0].content, b.files[0].content);
    let c = SupportedLang::TypeScript.compiler(
        &config,
        &vec![ref_spec("spec/shapes/derived.yaml")],
    ).unwrap();
    let d = SupportedLang::TypeScript.compiler(
        &config,
        &vec![ref_spec("spec/shapes/derived.yaml")],
    ).unwrap();
    assert_eq!(c.files[0].content, d.files[0].content);
}

#[test]
fn union_renders_natively_in_typescript_only() {
    let body = vec![
        entry("type", s("union")),
        entry(
            "types",
            DocValue::List(vec![
                DocValue::Mapping(vec![entry("type", s("string"))]),
                DocValue::Mapping(vec![entry("type", s("number"))]),
            ]),
        ),
    ];
    let sp = Spec {
        version: String::from("1"),
        path: String::from("spec/either.yaml"),
        def: vec![Def::TypeAlias(TypeAliasDef { identifier: String::from("either"), body })],
    };
    let config = full_config();
    let ts = SupportedLang::TypeScript.compiler(&config, &vec![sp]).unwrap();
    assert_eq!(
        ts.files[0].content,
        format!("{}export type Either = string | number;\n", NOTICE)
    );
    let body2 = vec![
        entry("type", s("union")),
        entry(
            "types",
            DocValue::List(vec![
                DocValue::Mapping(vec![entry("type", s("string"))]),
                DocValue::Mapping(vec![entry("type", s("number"))]),
            ]),
        ),
    ];
    let sp2 = Spec {
        version: String::from("1"),
        path: String::from("spec/either.yaml"),
        def: vec![Def::TypeAlias(TypeAliasDef { identifier: String::from("either"), body: body2 })],
    };
    let go = SupportedLang::Go.compiler(&config, &vec![sp2]).unwrap();
    assert_eq!(
        go.files[0].content,
        format!("{}package spec\n\ntype Either interface{{}}\n", NOTICE)
    );
}

#[test]
fn literal_declarations_render() {
    let body = vec![entry("type", s("literal")), entry("value", s("fixed"))];
    let num = vec![
        entry("type", s("literal")),
        entry("value", DocValue::Number(String::from("42"))),
    ];
    let sp = Spec {
        version: String::from("1"),
        path: String::from("spec/lit.yaml"),
        def: vec![
            Def::TypeAlias(TypeAliasDef { identifier: String::from("tag"), body }),
            Def::TypeAlias(TypeAliasDef { identifier: String::from("answer"), body: num }),
        ],
    };
    let config = full_config();
    let ts = SupportedLang::TypeScript.compiler(&config, &vec![sp]).unwrap();
    assert_eq!(
        ts.files[0].content,
        format!(
            "{}export type Tag = \"fixed\";\nexport type Answer = 42;\n",
            NOTICE
        )
    );
}

#[test]
fn number_enum_renders_in_both_targets() {
    let make = || Spec {
        version: String::from("1"),
        path: String::from("spec/level.yaml"),
        def: vec![Def::Enum(EnumDef {
            identifier: String::from("level"),
            kind: String::from("number"),
            members: vec![
                DocValue::Mapping(vec![entry("low", DocValue::Number(String::from("1")))]),
                DocValue::Mapping(vec![entry("high", DocValue::Number(String::from("2")))]),
            ],
        })],
    };
    let config = full_config();
    let ts = SupportedLang::TypeScript.compiler(&config, &vec![make()]).unwrap();
    assert_eq!(
        ts.files[0].content,
        format!("{}export enum Level {{\n  low = 1,\n  high = 2,\n}};\n", NOTICE)
    );
    let go = SupportedLang::Go.compiler(&config, &vec![make()]).unwrap();
    assert_eq!(
        go.files[0].content,
        format!(
            "{}package spec\n\n\ntype Level int\nconst (\n    LevelLow Level = 1\n    LevelHigh Level = 2\n)\n\n",
            NOTICE
        )
    );
}

#[test]
fn go_dyn_references_users_package() {
    let body = vec![
        entry("type", s("$dyn")),
        entry("name", s("decimal")),
        entry("from", s("github.com/x/dec")),
    ];
    let sp = Spec {
        version: String::from("1"),
        path: String::from("spec/money.yaml"),
        def: vec![Def::TypeAlias(TypeAliasDef { identifier: String::from("money"), body })],
    };
    let config = full_config();
    let go = SupportedLang::Go.compiler(&config, &vec![sp]).unwrap();
    assert_eq!(
        go.files[0].content,
        format!(
            "{}package spec\n\nimport (\n    \"github.com/x/dec\"\n)\n\ntype Money dec.Decimal\n",
            NOTICE
        )
    );
}

#[test]
fn typescript_relative_reference_is_used_verbatim() {
    let body = vec![entry("type", s("$ref")), entry("uri", s("sibling#Thing"))];
    let sp = Spec {
        version: String::from("1"),
        path: String::from("spec/here.yaml"),
        def: vec![Def::TypeAlias(TypeAliasDef { identifier: String::from("neighbor"), body })],
    };
    let config = full_config();
    let ts = SupportedLang::TypeScript.compiler(&config, &vec![sp]).unwrap();
    assert_eq!(
        ts.files[0].content,
        format!(
            "{}import {{ Sibling }} from \"sibling\";\n\nexport type Neighbor = Sibling;\n",
            NOTICE
        )
    );
}

#[test]
fn split_with_both_targets_renders_each_side_once() {
    let make = || Spec {
        version: String::from("1"),
        path: String::from("spec/both.yaml"),
        def: vec![Def::TypeAlias(TypeAliasDef {
            identifier: String::from("both"),
            body: vec![
                entry("type", s("split")),
                entry("ts", DocValue::Mapping(vec![entry("type", s("number"))])),
                entry("go", DocValue::Mapping(vec![entry("type", s("string"))])),
            ],
        })],
    };
    let config = full_config();
    let ts = SupportedLang::TypeScript.compiler(&config, &vec![make()]).unwrap();
    assert_eq!(
        ts.files[0].content,
        format!("{}export type Both = number;\n", NOTICE)
    );
    let go = SupportedLang::Go.compiler(&config, &vec![make()]).unwrap();
    assert_eq!(
        go.files[0].content,
        format!("{}package spec\n\ntype Both string\n", NOTICE)
    );
}

#[test]
fn union_inside_array_is_parenthesized() {
    let body = vec![
        entry("type", s("array")),
        entry(
            "items",
            DocValue::Mapping(vec![
                entry("type", s("union")),
                entry(
                    "types",
                    DocValue::List(vec![
                        DocValue::Mapping(vec![entry("type", s("string"))]),
                        DocValue::Mapping(vec![entry("type", s("number"))]),
                    ]),
                ),
            ]),
        ),
    ];
    let sp = Spec {
        version: String::from("1"),
        path: String::from("spec/grid.yaml"),
        def: vec![Def::TypeAlias(TypeAliasDef { identifier: String::from("grid"), body })],
    };
    let config = full_config();
    let ts = SupportedLang::TypeScript.compiler(&config, &vec![sp]).unwrap();
    assert_eq!(
        ts.files[0].content,
        format!("{}export type Grid = (string | number)[];\n", NOTICE)
    );
}

#[test]
fn every_source_file_yields_one_output_file() {
    let one = Spec {
        version: String::from("1"),
        path: String::from("spec/a.yaml"),
        def: vec![Def::TypeAlias(TypeAliasDef {
            identifier: String::from("a"),
            body: vec![entry("type", s("string"))],
        })],
    };
    let two = Spec {
        version: String::from("1"),
        path: String::from("spec/sub/b.yaml"),
        def: vec![Def::TypeAlias(TypeAliasDef {
            identifier: String::from("b"),
            body: vec![entry("type", s("boolean"))],
        })],
    };
    let config = full_config();
    let ts = SupportedLang::TypeScript.compiler(&config, &vec![one, two]).unwrap();
    assert_eq!(ts.files.len(), 2);
    assert_eq!(ts.files[0].path, "web/types/a.ts");
    assert_eq!(ts.files[1].path, "web/types/sub/b.ts");
    assert_eq!(ts.files[0].content, format!("{}export type A = string;\n", NOTICE));
    assert_eq!(ts.files[1].content, format!("{}export type B = boolean;\n", NOTICE));
}
