//! Every failure class, provoked by a smallest input that causes it.

use selien::ast::{ArrayNode, Import, Node, ObjectNode, Property, SplitNode, TabSize,
    TypeAliasAst, UnionNode, AST};
use selien::config::{Config, Output, OutputGo, OutputTypescript};
use selien::definition::{parse_def, Def, EnumDef, Spec, TypeAliasDef};
use selien::doc::{DocEntry, DocValue};
use selien::error::{CompileError, ErrorKind};
use selien::lang::SupportedLang;
use selien::transformer::{change_body_if_split, transform_type_alias, transformer,
    visit_items, visit_union_types};

fn entry(key: &str, value: DocValue) -> DocEntry {
    DocEntry { key: String::from(key), value }
}

fn s(v: &str) -> DocValue {
    DocValue::Str(String::from(v))
}

fn alias_spec(body: Vec<DocEntry>) -> Spec {
    Spec {
        version: String::from("1"),
        path: String::from("spec/a.yaml"),
        def: vec![Def::TypeAlias(TypeAliasDef { identifier: String::from("bad"), body })],
    }
}

fn alias_kind(body: Vec<DocEntry>) -> ErrorKind {
    transformer(&alias_spec(body)).unwrap_err().kind
}

#[test]
fn structural_errors_in_alias_bodies() {
    assert_eq!(alias_kind(vec![]), ErrorKind::MissingType);
    assert_eq!(
        alias_kind(vec![entry("type", DocValue::Number(String::from("3")))]),
        ErrorKind::InvalidType
    );
    assert_eq!(alias_kind(vec![entry("type", s("frob"))]), ErrorKind::InvalidType);
    assert_eq!(alias_kind(vec![entry("type", s("object"))]), ErrorKind::MissingProperties);
    assert_eq!(
        alias_kind(vec![entry("type", s("object")), entry("properties", s("x"))]),
        ErrorKind::InvalidProperties
    );
    assert_eq!(alias_kind(vec![entry("type", s("array"))]), ErrorKind::MissingItems);
    assert_eq!(
        alias_kind(vec![entry("type", s("array")), entry("items", DocValue::List(vec![]))]),
        ErrorKind::InvalidItems
    );
    assert_eq!(alias_kind(vec![entry("type", s("literal"))]), ErrorKind::MissingValue);
    assert_eq!(
        alias_kind(vec![entry("type", s("literal")), entry("value", DocValue::Bool(true))]),
        ErrorKind::InvalidValue
    );
    assert_eq!(alias_kind(vec![entry("type", s("$ref"))]), ErrorKind::MissingUri);
    assert_eq!(
        alias_kind(vec![entry("type", s("$ref")), entry("uri", DocValue::Null)]),
        ErrorKind::InvalidUri
    );
    assert_eq!(
        alias_kind(vec![entry("type", s("$dyn")), entry("from", s("m"))]),
        ErrorKind::MissingName
    );
    assert_eq!(
        alias_kind(vec![entry("type", s("$dyn")), entry("name", s("n"))]),
        ErrorKind::MissingFrom
    );
    assert_eq!(
        alias_kind(vec![
            entry("type", s("$dyn")),
            entry("name", DocValue::Bool(false)),
            entry("from", s("m")),
        ]),
        ErrorKind::InvalidName
    );
    assert_eq!(
        alias_kind(vec![
            entry("type", s("$dyn")),
            entry("name", s("n")),
            entry("from", DocValue::Bool(false)),
        ]),
        ErrorKind::InvalidFrom
    );
    assert_eq!(alias_kind(vec![entry("type", s("union"))]), ErrorKind::MissingTypes);
    assert_eq!(
        alias_kind(vec![entry("type", s("union")), entry("types", s("x"))]),
        ErrorKind::InvalidTypes
    );
    assert_eq!(
        alias_kind(vec![entry("type", s("union")), entry("types", DocValue::List(vec![]))]),
        ErrorKind::EmptyUnion
    );
    assert_eq!(
        alias_kind(vec![
            entry("type", s("union")),
            entry("types", DocValue::List(vec![s("oops")])),
        ]),
        ErrorKind::InvalidTypes
    );
}

#[test]
fn split_below_top_level_is_refused() {
    let body = vec![
        entry("type", s("object")),
        entry(
            "properties",
            DocValue::Mapping(vec![entry(
                "p",
                DocValue::Mapping(vec![entry("type", s("split"))]),
            )]),
        ),
    ];
    assert_eq!(alias_kind(body), ErrorKind::SplitBelowTop);
    // a split nested directly inside a split sub-body is refused too
    let nested = vec![
        entry("type", s("split")),
        entry("go", DocValue::Mapping(vec![entry("type", s("split"))])),
    ];
    assert_eq!(alias_kind(nested), ErrorKind::SplitBelowTop);
}

#[test]
fn split_sub_body_must_be_a_mapping() {
    let body = vec![entry("type", s("split")), entry("go", s("oops"))];
    assert_eq!(alias_kind(body), ErrorKind::InvalidSplit);
}

#[test]
fn enum_errors() {
    let bad_kind = Spec {
        version: String::from("1"),
        path: String::from("spec/a.yaml"),
        def: vec![Def::Enum(EnumDef {
            identifier: String::from("e"),
            kind: String::from("float"),
            members: vec![],
        })],
    };
    assert_eq!(transformer(&bad_kind).unwrap_err().kind, ErrorKind::InvalidEnumType);

    let bad_member = Spec {
        version: String::from("1"),
        path: String::from("spec/a.yaml"),
        def: vec![Def::Enum(EnumDef {
            identifier: String::from("e"),
            kind: String::from("string"),
            members: vec![s("loose")],
        })],
    };
    assert_eq!(transformer(&bad_member).unwrap_err().kind, ErrorKind::InvalidEnumMember);

    let wrong_value = Spec {
        version: String::from("1"),
        path: String::from("spec/a.yaml"),
        def: vec![Def::Enum(EnumDef {
            identifier: String::from("e"),
            kind: String::from("number"),
            members: vec![DocValue::Mapping(vec![entry("one", s("not-a-number"))])],
        })],
    };
    assert_eq!(transformer(&wrong_value).unwrap_err().kind, ErrorKind::InvalidEnumMember);
}

#[test]
fn parse_def_errors() {
    assert_eq!(parse_def(s("oops")).unwrap_err().kind, ErrorKind::InvalidDefinition);
    let no_decl = DocValue::Mapping(vec![entry("thing", DocValue::Mapping(vec![]))]);
    assert_eq!(parse_def(no_decl).unwrap_err().kind, ErrorKind::MissingDeclaration);
    let bad_decl = DocValue::Mapping(vec![entry(
        "thing",
        DocValue::Mapping(vec![entry("declaration", s("other"))]),
    )]);
    assert_eq!(parse_def(bad_decl).unwrap_err().kind, ErrorKind::InvalidDeclaration);
    let no_body = DocValue::Mapping(vec![entry(
        "thing",
        DocValue::Mapping(vec![entry("declaration", s("type-alias"))]),
    )]);
    assert_eq!(parse_def(no_body).unwrap_err().kind, ErrorKind::MissingBody);
    let bad_body = DocValue::Mapping(vec![entry(
        "thing",
        DocValue::Mapping(vec![
            entry("declaration", s("type-alias")),
            entry("body", s("oops")),
        ]),
    )]);
    assert_eq!(parse_def(bad_body).unwrap_err().kind, ErrorKind::InvalidBody);
    let no_type = DocValue::Mapping(vec![entry(
        "thing",
        DocValue::Mapping(vec![entry("declaration", s("enum"))]),
    )]);
    assert_eq!(parse_def(no_type).unwrap_err().kind, ErrorKind::MissingType);
    let no_members = DocValue::Mapping(vec![entry(
        "thing",
        DocValue::Mapping(vec![
            entry("declaration", s("enum")),
            entry("type", s("string")),
        ]),
    )]);
    assert_eq!(parse_def(no_members).unwrap_err().kind, ErrorKind::MissingMembers);
    let bad_members = DocValue::Mapping(vec![entry(
        "thing",
        DocValue::Mapping(vec![
            entry("declaration", s("enum")),
            entry("type", s("string")),
            entry("members", s("oops")),
        ]),
    )]);
    assert_eq!(parse_def(bad_members).unwrap_err().kind, ErrorKind::InvalidMembers);
}

#[test]
fn parse_def_accepts_sound_definitions() {
    let doc = DocValue::Mapping(vec![
        entry(
            "name",
            DocValue::Mapping(vec![
                entry("declaration", s("type-alias")),
                entry("body", DocValue::Mapping(vec![entry("type", s("string"))])),
            ]),
        ),
        entry(
            "status",
            DocValue::Mapping(vec![
                entry("declaration", s("enum")),
                entry("type", s("string")),
                entry(
                    "members",
                    DocValue::List(vec![DocValue::Mapping(vec![entry("ok", s("OK"))])]),
                ),
            ]),
        ),
    ]);
    let defs = parse_def(doc).unwrap();
    assert_eq!(defs.len(), 2);
    assert!(matches!(&defs[0], Def::TypeAlias(t) if t.identifier == "name"));
    assert!(matches!(&defs[1], Def::Enum(e) if e.kind == "string"));
}

#[test]
fn unconfigured_target_is_refused() {
    let config = Config {
        spec: selien::config::Spec { root: String::from("spec") },
        output: Output {
            go: None,
            typescript: Some(OutputTypescript { output: String::from("web"), tabsize: 2 }),
        },
    };
    let e = SupportedLang::Go.compiler(&config, &vec![]).unwrap_err();
    assert_eq!(e.kind, ErrorKind::TargetNotConfigured);
}

#[test]
fn relative_reference_escaping_the_root_is_refused() {
    let config = Config {
        spec: selien::config::Spec { root: String::from("spec") },
        output: Output {
            go: Some(OutputGo {
                mod_name: String::from("app"),
                root: String::from("pkg"),
                output: String::from("pkg/spec"),
                tabsize: 4,
            }),
            typescript: None,
        },
    };
    let body = vec![entry("type", s("$ref")), entry("uri", s("../../out/b#B"))];
    let sp = Spec {
        version: String::from("1"),
        path: String::from("spec/a.yaml"),
        def: vec![Def::TypeAlias(TypeAliasDef { identifier: String::from("esc"), body })],
    };
    let e = SupportedLang::Go.compiler(&config, &vec![sp]).unwrap_err();
    assert_eq!(e.kind, ErrorKind::OutOfRoot);
}

#[test]
fn incomparable_module_offset_is_refused() {
    // the Go module root is absolute while the output directory is not:
    // the offset between them does not exist
    let config = Config {
        spec: selien::config::Spec { root: String::from("spec") },
        output: Output {
            go: Some(OutputGo {
                mod_name: String::from("app"),
                root: String::from("/pkg"),
                output: String::from("out"),
                tabsize: 4,
            }),
            typescript: None,
        },
    };
    let body = vec![entry("type", s("$ref")), entry("uri", s("/c/thing#Thing"))];
    let sp = Spec {
        version: String::from("1"),
        path: String::from("spec/a.yaml"),
        def: vec![Def::TypeAlias(TypeAliasDef { identifier: String::from("r"), body })],
    };
    let e = SupportedLang::Go.compiler(&config, &vec![sp]).unwrap_err();
    assert_eq!(e.kind, ErrorKind::PathDiff);
}

#[test]
fn file_without_directory_has_no_package() {
    let config = Config {
        spec: selien::config::Spec { root: String::from("spec") },
        output: Output {
            go: Some(OutputGo {
                mod_name: String::from("app"),
                root: String::from("pkg"),
                output: String::from("pkg/spec"),
                tabsize: 4,
            }),
            typescript: None,
        },
    };
    let sp = Spec {
        version: String::from("1"),
        path: String::from("a.yaml"),
        def: vec![Def::TypeAlias(TypeAliasDef {
            identifier: String::from("t"),
            body: vec![entry("type", s("string"))],
        })],
    };
    let e = SupportedLang::Go.compiler(&config, &vec![sp]).unwrap_err();
    assert_eq!(e.kind, ErrorKind::NoPackageName);
}

#[test]
fn generators_refuse_defective_nodes() {
    let tabs = TabSize::default();
    let mut imports: Vec<Import> = Vec::new();
    let empty = AST::TypeAlias(TypeAliasAst {
        identifier: String::from("x"),
        body: Node::Empty,
    });
    let e = empty.generator(&SupportedLang::Go, &mut imports, &tabs).unwrap_err();
    assert_eq!(e.kind, ErrorKind::EmptyNode);

    let nested_split = AST::TypeAlias(TypeAliasAst {
        identifier: String::from("x"),
        body: Node::Object(ObjectNode {
            values: vec![Property {
                identifier: String::from("p"),
                body: Node::Split(SplitNode { typescript: None, go: None }),
            }],
        }),
    });
    let e2 = nested_split.generator(&SupportedLang::TypeScript, &mut imports, &tabs)
        .unwrap_err();
    assert_eq!(e2.kind, ErrorKind::SplitBelowTop);
}

#[test]
fn messages_name_the_subject() {
    let e = CompileError::new(ErrorKind::MissingType, String::from("order"));
    assert_eq!(e.message(), "Syntax error: missing type in definition: order");
}

#[test]
fn transformer_building_blocks() {
    // a split wrap keeps the body in the requested target's slot only
    let wrapped = change_body_if_split(
        Node::Empty,
        Some(&SupportedLang::Go),
    );
    assert!(matches!(
        wrapped,
        Node::Split(SplitNode { typescript: None, go: Some(_) })
    ));
    assert!(matches!(change_body_if_split(Node::Empty, None), Node::Empty));

    // an items mapping becomes the array's item node
    let mut arr = ArrayNode { items: Box::new(Node::new()) };
    let its = vec![entry("type", s("boolean"))];
    visit_items(&its, &String::from("xs"), &mut arr).unwrap();
    assert!(matches!(*arr.items, Node::Keyword(_)));

    // a union alternative is appended in order
    let mut un = UnionNode { types: vec![] };
    let alt = vec![entry("type", s("string"))];
    visit_union_types(&alt, &String::from("u"), &mut un).unwrap();
    assert_eq!(un.types.len(), 1);

    // a top-level alias appends exactly one declaration
    let def = TypeAliasDef {
        identifier: String::from("plain"),
        body: vec![entry("type", s("any"))],
    };
    let mut asts: Vec<AST> = Vec::new();
    transform_type_alias(&def, &mut asts).unwrap();
    assert_eq!(asts.len(), 1);
}
