//! Generator tests: each builds a declaration by hand and checks the exact
//! text each backend renders.

use selien::ast::{
    ArrayNode, EnumAst, Import, KeywordNode, Keywords, Member, MembersType, Node, ObjectNode,
    Property, StringLiteralNode, TabSize, TypeAliasAst, AST,
};
use selien::lang::SupportedLang;

fn nested_object_ast() -> AST {
    let head = Property {
        identifier: String::from("head"),
        body: Node::Object(ObjectNode {
            values: vec![Property {
                identifier: String::from("cmd"),
                body: Node::StringLiteral(StringLiteralNode { value: String::from("hello") }),
            }],
        }),
    };
    let body = Property {
        identifier: String::from("body"),
        body: Node::Keyword(KeywordNode { value: Keywords::Boolean }),
    };
    AST::TypeAlias(TypeAliasAst {
        identifier: String::from("testAst"),
        body: Node::Object(ObjectNode { values: vec![head, body] }),
    })
}

fn array_ast() -> AST {
    AST::TypeAlias(TypeAliasAst {
        identifier: String::from("testArray"),
        body: Node::Array(ArrayNode {
            items: Box::new(Node::Keyword(KeywordNode { value: Keywords::Number })),
        }),
    })
}

fn nested_array_ast() -> AST {
    AST::TypeAlias(TypeAliasAst {
        identifier: String::from("nestedArray"),
        body: Node::Array(ArrayNode {
            items: Box::new(Node::Array(ArrayNode {
                items: Box::new(Node::Keyword(KeywordNode { value: Keywords::Number })),
            })),
        }),
    })
}

fn object_array_ast() -> AST {
    let head = Property {
        identifier: String::from("head"),
        body: Node::Object(ObjectNode {
            values: vec![Property {
                identifier: String::from("cmd"),
                body: Node::StringLiteral(StringLiteralNode { value: String::from("hello") }),
            }],
        }),
    };
    let body = Property {
        identifier: String::from("body"),
        body: Node::Object(ObjectNode {
            values: vec![Property {
                identifier: String::from("count"),
                body: Node::Keyword(KeywordNode { value: Keywords::Number }),
            }],
        }),
    };
    AST::TypeAlias(TypeAliasAst {
        identifier: String::from("objectArray"),
        body: Node::Array(ArrayNode {
            items: Box::new(Node::Object(ObjectNode { values: vec![head, body] })),
        }),
    })
}

fn string_enum_ast() -> AST {
    AST::Enum(EnumAst {
        identifier: String::from("stringEnum"),
        members_type: MembersType::String,
        members: vec![
            Member { identifier: String::from("hello"), value: String::from("hello") },
            Member { identifier: String::from("world"), value: String::from("world") },
        ],
    })
}

fn render(ast: &AST, lang: SupportedLang) -> String {
    let mut imports: Vec<Import> = Vec::new();
    let tabs = TabSize::default();
    ast.generator(&lang, &mut imports, &tabs).unwrap()
}

#[test]
fn go_nested_object() {
    let result = render(&nested_object_ast(), SupportedLang::Go);
    assert_eq!(
        result,
        "type TestAst struct {\n    Head struct {\n        Cmd string `json:\"cmd\"`\n    } `json:\"head\"`\n    Body bool `json:\"body\"`\n}\n"
    );
}

#[test]
fn go_nested_array() {
    let result = render(&nested_array_ast(), SupportedLang::Go);
    assert_eq!(result, "type NestedArray [][]int\n");
}

#[test]
fn go_object_array() {
    let result = render(&object_array_ast(), SupportedLang::Go);
    assert_eq!(
        result,
        "type ObjectArray []struct {\n    Head struct {\n        Cmd string `json:\"cmd\"`\n    } `json:\"head\"`\n    Body struct {\n        Count int `json:\"count\"`\n    } `json:\"body\"`\n}\n"
    );
}

#[test]
fn go_string_enum() {
    let result = render(&string_enum_ast(), SupportedLang::Go);
    assert_eq!(
        result,
        "\ntype StringEnum string\nconst (\n    StringEnumHello StringEnum = \"hello\"\n    StringEnumWorld StringEnum = \"world\"\n)\n\n"
    );
}

#[test]
fn typescript_nested_object() {
    let result = render(&nested_object_ast(), SupportedLang::TypeScript);
    assert_eq!(
        result,
        "export type TestAst = {\n  head: {\n    cmd: \"hello\";\n  };\n  body: boolean;\n};\n"
    );
}

#[test]
fn array() {
    let result = render(&array_ast(), SupportedLang::TypeScript);
    assert_eq!(result, "export type TestArray = number[];\n");
}

#[test]
fn typescript_nested_array() {
    let result = render(&nested_array_ast(), SupportedLang::TypeScript);
    assert_eq!(result, "export type NestedArray = number[][];\n");
}

#[test]
fn typescript_object_array() {
    let result = render(&object_array_ast(), SupportedLang::TypeScript);
    assert_eq!(
        result,
        "export type ObjectArray = {\n  head: {\n    cmd: \"hello\";\n  };\n  body: {\n    count: number;\n  };\n}[];\n"
    );
}

#[test]
fn typescript_string_enum() {
    let result = render(&string_enum_ast(), SupportedLang::TypeScript);
    assert_eq!(
        result,
        "export enum StringEnum {\n  hello = \"hello\",\n  world = \"world\",\n};\n"
    );
}
