//! One source file's parsed content: its format version, its path, and its
//! raw declarations, in document order.

use crate::doc::{doc_get, spec_doc_get, take_field, DocEntry, DocValue};
use crate::error::{CompileError, ErrorKind};
use crate::str_eq;
use vstd::prelude::*;

verus! {

/// A raw type-alias declaration: its name and its body mapping.
#[derive(Debug)]
pub struct TypeAliasDef {
    pub identifier: String,
    pub body: Vec<DocEntry>,
}

/// A raw enum declaration: its name, its member kind, and its members.
#[derive(Debug)]
pub struct EnumDef {
    pub identifier: String,
    pub kind: String,
    pub members: Vec<DocValue>,
}

/// One raw declaration.
#[derive(Debug)]
pub enum Def {
    TypeAlias(TypeAliasDef),
    Enum(EnumDef),
}

/// One source file: format version, file path, and declarations in order.
#[derive(Debug)]
pub struct Spec {
    pub version: String,
    pub path: String,
    pub def: Vec<Def>,
}

pub type SpecList = Vec<Spec>;

impl Spec {
    pub fn new() -> (r: Self)
        ensures
            r.version@.len() == 0,
            r.path@.len() == 0,
            r.def@.len() == 0,
    {
        Self { version: String::new(), path: String::new(), def: Vec::new() }
    }
}

// ---------------------------------------------------------------------------
// Parsing the definition mapping into raw declarations.
// ---------------------------------------------------------------------------

/// A lookup through a value that may not be a mapping at all.
pub open spec fn spec_doc_get_value(v: DocValue, key: Seq<char>) -> Option<DocValue> {
    match v {
        DocValue::Mapping(es) => spec_doc_get(es@, key),
        _ => None,
    }
}

/// Does one definition entry carry this raw declaration?
pub open spec fn def_matches(e: DocEntry, d: Def) -> bool {
    match spec_doc_get_value(e.value, "declaration"@) {
        Some(DocValue::Str(decl)) => if decl@ == "type-alias"@ {
            &&& d matches Def::TypeAlias(t)
            &&& t.identifier == e.key
            &&& spec_doc_get_value(e.value, "body"@) == Some(DocValue::Mapping(t.body))
        } else if decl@ == "enum"@ {
            &&& d matches Def::Enum(en)
            &&& en.identifier == e.key
            &&& spec_doc_get_value(e.value, "type"@) == Some(DocValue::Str(en.kind))
            &&& spec_doc_get_value(e.value, "members"@) == Some(DocValue::List(en.members))
        } else {
            false
        },
        _ => false,
    }
}

/// The structural failure of one definition entry, if any.
pub open spec fn entry_err(e: DocEntry) -> Option<(ErrorKind, Seq<char>)> {
    match spec_doc_get_value(e.value, "declaration"@) {
        None => Some((ErrorKind::MissingDeclaration, e.key@)),
        Some(DocValue::Str(decl)) => if decl@ == "type-alias"@ {
            match spec_doc_get_value(e.value, "body"@) {
                None => Some((ErrorKind::MissingBody, e.key@)),
                Some(DocValue::Mapping(_)) => None,
                Some(_) => Some((ErrorKind::InvalidBody, e.key@)),
            }
        } else if decl@ == "enum"@ {
            match spec_doc_get_value(e.value, "type"@) {
                None => Some((ErrorKind::MissingType, e.key@)),
                Some(DocValue::Str(_)) => match spec_doc_get_value(e.value, "members"@) {
                    None => Some((ErrorKind::MissingMembers, e.key@)),
                    Some(DocValue::List(_)) => None,
                    Some(_) => Some((ErrorKind::InvalidMembers, e.key@)),
                },
                Some(_) => Some((ErrorKind::InvalidType, e.key@)),
            }
        } else {
            Some((ErrorKind::InvalidDeclaration, e.key@))
        },
        Some(_) => Some((ErrorKind::InvalidDeclaration, e.key@)),
    }
}

/// The first structural failure among the definition entries, if any.
pub open spec fn entries_err(es: Seq<DocEntry>, i: int) -> Option<(ErrorKind, Seq<char>)>
    decreases es.len() - i,
{
    if i < 0 || i >= es.len() {
        None
    } else {
        match entry_err(es[i]) {
            Some(err) => Some(err),
            None => entries_err(es, i + 1),
        }
    }
}

/// Do the entries produce exactly these raw declarations, in order?
pub open spec fn defs_match(es: Seq<DocEntry>, defs: Seq<Def>) -> bool {
    defs.len() == es.len() && forall|i: int|
        0 <= i < es.len() ==> def_matches(es[i], #[trigger] defs[i])
}

/// The first structural failure parsing a whole definition value, if any.
pub open spec fn parse_def_err(d: DocValue) -> Option<(ErrorKind, Seq<char>)> {
    match d {
        DocValue::Mapping(es) => entries_err(es@, 0),
        _ => Some((ErrorKind::InvalidDefinition, Seq::empty())),
    }
}

/// Parse one definition entry into its raw declaration.
fn parse_one(e: DocEntry) -> (r: Result<Def, CompileError>)
    ensures
        match r {
            Ok(d) => entry_err(e) is None && def_matches(e, d),
            Err(err) => entry_err(e) == Some((err.kind, err.subject@)),
        },
{
    let ghost e0 = e;
    let key = e.key;
    let mut fields = match e.value {
        DocValue::Mapping(fs) => fs,
        _ => {
            return Err(CompileError::new(ErrorKind::MissingDeclaration, key));
        }
    };
    // 0: type-alias, 1: enum, 2: unknown kind, 3: not a string, 4: absent
    let sel: usize = match doc_get(&fields, "declaration") {
        Some(DocValue::Str(s)) => if str_eq(s.as_str(), "type-alias") {
            0
        } else if str_eq(s.as_str(), "enum") {
            1
        } else {
            2
        },
        Some(_) => 3,
        None => 4,
    };
    if sel == 4 {
        return Err(CompileError::new(ErrorKind::MissingDeclaration, key));
    }
    if sel == 2 || sel == 3 {
        return Err(CompileError::new(ErrorKind::InvalidDeclaration, key));
    }
    if sel == 0 {
        match take_field(&mut fields, "body") {
            Some(DocValue::Mapping(b)) => Ok(
                Def::TypeAlias(TypeAliasDef { identifier: key, body: b }),
            ),
            Some(_) => Err(CompileError::new(ErrorKind::InvalidBody, key)),
            None => Err(CompileError::new(ErrorKind::MissingBody, key)),
        }
    } else {
        let kind = match doc_get(&fields, "type") {
            Some(DocValue::Str(k)) => k.clone(),
            Some(_) => {
                return Err(CompileError::new(ErrorKind::InvalidType, key));
            }
            None => {
                return Err(CompileError::new(ErrorKind::MissingType, key));
            }
        };
        match take_field(&mut fields, "members") {
            Some(DocValue::List(ms)) => Ok(
                Def::Enum(EnumDef { identifier: key, kind, members: ms }),
            ),
            Some(_) => Err(CompileError::new(ErrorKind::InvalidMembers, key)),
            None => Err(CompileError::new(ErrorKind::MissingMembers, key)),
        }
    }
}

/// Parse the definition mapping into the ordered raw declarations: each
/// entry names one declaration; its `declaration` field selects the kind, a
/// type alias takes its `body` mapping, an enum its `type` and its `members`
/// list. Every structural violation stops the parse.
pub fn parse_def(def: DocValue) -> (r: Result<Vec<Def>, CompileError>)
    ensures
        match r {
            Ok(defs) => parse_def_err(def) is None && (def matches DocValue::Mapping(es)
                && defs_match(es@, defs@)),
            Err(e) => parse_def_err(def) == Some((e.kind, e.subject@)),
        },
{
    let ghost def0 = def;
    let mut entries = match def {
        DocValue::Mapping(es) => es,
        _ => {
            return Err(CompileError::new(ErrorKind::InvalidDefinition, String::new()));
        }
    };
    let ghost all = entries@;
    proof {
        assert(def0 == DocValue::Mapping(entries));
        assert(parse_def_err(def0) == entries_err(all, 0));
    }
    let mut result: Vec<Def> = Vec::new();
    while entries.len() > 0
        invariant
            result@.len() + entries@.len() == all.len(),
            entries@ =~= all.skip(result@.len() as int),
            def0 == def,
            def matches DocValue::Mapping(es0) && es0@ == all,
            parse_def_err(def0) == entries_err(all, 0),
            entries_err(all, 0) == entries_err(all, result@.len() as int),
            forall|j: int| 0 <= j < result@.len() ==> def_matches(all[j], #[trigger] result@[j]),
        decreases entries@.len(),
    {
        let ghost k = result@.len() as int;
        let e = entries.remove(0);
        proof {
            assert(e == all[k]);
            assert(entries@ =~= all.skip(k + 1));
        }
        match parse_one(e) {
            Ok(d) => {
                result.push(d);
            }
            Err(err) => {
                proof {
                    assert(entries_err(all, k) == Some((err.kind, err.subject@)));
                }
                return Err(err);
            }
        }
    }
    proof {
        assert(entries_err(all, result@.len() as int) is None);
        assert(defs_match(all, result@));
    }
    Ok(result)
}

} // verus!
