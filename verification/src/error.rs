//! The failure taxonomy: structural errors in the declarative input,
//! path-resolution errors, and configuration errors. Every one is
//! unrecoverable; the caller is expected to report the message and stop.

use vstd::prelude::*;

verus! {

/// What went wrong.
#[derive(Debug, Clone, Copy, PartialEq, Eq, Structural)]
pub enum ErrorKind {
    /// A generator reached a node that was never populated.
    EmptyNode,
    /// A `split` body appeared below declaration top level.
    SplitBelowTop,
    MissingType,
    InvalidType,
    MissingProperties,
    InvalidProperties,
    MissingItems,
    InvalidItems,
    MissingValue,
    InvalidValue,
    MissingUri,
    InvalidUri,
    MissingName,
    InvalidName,
    MissingFrom,
    InvalidFrom,
    MissingTypes,
    InvalidTypes,
    EmptyUnion,
    InvalidSplit,
    InvalidEnumType,
    InvalidEnumMember,
    MissingDeclaration,
    InvalidDeclaration,
    InvalidDefinition,
    InvalidIdentifier,
    MissingBody,
    InvalidBody,
    MissingMembers,
    InvalidMembers,
    /// A target was requested that the configuration does not define.
    TargetNotConfigured,
    /// A reference path could not be expressed relative to the current file.
    PathDiff,
    /// A relative reference path escapes the spec root.
    OutOfRoot,
    /// A file path too short to carry a package directory.
    NoPackageName,
    /// A source file path does not start with the configured spec root.
    NotUnderRoot,
}

/// One fatal failure: its kind, and the identifier or path it is about
/// (empty when the kind speaks for itself).
#[derive(Debug)]
pub struct CompileError {
    pub kind: ErrorKind,
    pub subject: String,
}

/// The fixed text each error kind carries before its subject.
pub open spec fn kind_text(k: ErrorKind) -> Seq<char> {
    match k {
        ErrorKind::EmptyNode => "Empty node"@,
        ErrorKind::SplitBelowTop => "Syntax error: split can only be used at top level"@,
        ErrorKind::MissingType => "Syntax error: missing type in definition: "@,
        ErrorKind::InvalidType => "Syntax error: invalid type in definition: "@,
        ErrorKind::MissingProperties => "Syntax error: missing properties in definition: "@,
        ErrorKind::InvalidProperties => "Syntax error: invalid properties in definition: "@,
        ErrorKind::MissingItems => "Syntax error: missing items in array definition: "@,
        ErrorKind::InvalidItems => "Syntax error: invalid array items in definition: "@,
        ErrorKind::MissingValue => "Syntax error: missing value in definition: "@,
        ErrorKind::InvalidValue => "Syntax error: invalid value in definition: "@,
        ErrorKind::MissingUri => "Syntax error: missing uri in ref definition: "@,
        ErrorKind::InvalidUri => "Syntax error: invalid uri in definition: "@,
        ErrorKind::MissingName => "Syntax error: missing name in dyn definition: "@,
        ErrorKind::InvalidName => "Syntax error: invalid name in dyn definition: "@,
        ErrorKind::MissingFrom => "Syntax error: missing from in dyn definition: "@,
        ErrorKind::InvalidFrom => "Syntax error: invalid from in dyn definition: "@,
        ErrorKind::MissingTypes => "Syntax error: missing types in union definition: "@,
        ErrorKind::InvalidTypes => "Syntax error: invalid types in union definition: "@,
        ErrorKind::EmptyUnion => "Syntax error: empty types in union definition: "@,
        ErrorKind::InvalidSplit => "Syntax error: invalid split in definition: "@,
        ErrorKind::InvalidEnumType => "Syntax error: invalid type in enum definition: "@,
        ErrorKind::InvalidEnumMember => "Syntax error: invalid member in enum definition: "@,
        ErrorKind::MissingDeclaration => "Syntax error: declaration not found in: "@,
        ErrorKind::InvalidDeclaration => "Syntax error: invalid declaration in: "@,
        ErrorKind::InvalidDefinition => "Syntax error: the definition must be a mapping: "@,
        ErrorKind::InvalidIdentifier => "Syntax error: identifier is not a string near: "@,
        ErrorKind::MissingBody => "Syntax error: body not found in: "@,
        ErrorKind::InvalidBody => "Syntax error: type-alias body must be a mapping: "@,
        ErrorKind::MissingMembers => "Syntax error: members not found in: "@,
        ErrorKind::InvalidMembers => "Syntax error: enum members must be a list: "@,
        ErrorKind::TargetNotConfigured => "Target is not defined in the config file: "@,
        ErrorKind::PathDiff => "Can not diff path for reference: "@,
        ErrorKind::OutOfRoot => "Relative reference path escapes the spec root: "@,
        ErrorKind::NoPackageName => "Can not get a package directory from path: "@,
        ErrorKind::NotUnderRoot => "File path does not start with the spec root: "@,
    }
}

impl CompileError {
    pub fn new(kind: ErrorKind, subject: String) -> (r: CompileError)
        ensures
            r.kind == kind,
            r.subject == subject,
    {
        CompileError { kind, subject }
    }

    /// The descriptive text to report before aborting the run.
    pub fn message(&self) -> (r: String)
        ensures
            r@ == kind_text(self.kind) + self.subject@,
    {
        let mut r = match self.kind {
            ErrorKind::EmptyNode => String::from_str("Empty node"),
            ErrorKind::SplitBelowTop => String::from_str(
                "Syntax error: split can only be used at top level",
            ),
            ErrorKind::MissingType => String::from_str(
                "Syntax error: missing type in definition: ",
            ),
            ErrorKind::InvalidType => String::from_str(
                "Syntax error: invalid type in definition: ",
            ),
            ErrorKind::MissingProperties => String::from_str(
                "Syntax error: missing properties in definition: ",
            ),
            ErrorKind::InvalidProperties => String::from_str(
                "Syntax error: invalid properties in definition: ",
            ),
            ErrorKind::MissingItems => String::from_str(
                "Syntax error: missing items in array definition: ",
            ),
            ErrorKind::InvalidItems => String::from_str(
                "Syntax error: invalid array items in definition: ",
            ),
            ErrorKind::MissingValue => String::from_str(
                "Syntax error: missing value in definition: ",
            ),
            ErrorKind::InvalidValue => String::from_str(
                "Syntax error: invalid value in definition: ",
            ),
            ErrorKind::MissingUri => String::from_str(
                "Syntax error: missing uri in ref definition: ",
            ),
            ErrorKind::InvalidUri => String::from_str(
                "Syntax error: invalid uri in definition: ",
            ),
            ErrorKind::MissingName => String::from_str(
                "Syntax error: missing name in dyn definition: ",
            ),
            ErrorKind::InvalidName => String::from_str(
                "Syntax error: invalid name in dyn definition: ",
            ),
            ErrorKind::MissingFrom => String::from_str(
                "Syntax error: missing from in dyn definition: ",
            ),
            ErrorKind::InvalidFrom => String::from_str(
                "Syntax error: invalid from in dyn definition: ",
            ),
            ErrorKind::MissingTypes => String::from_str(
                "Syntax error: missing types in union definition: ",
            ),
            ErrorKind::InvalidTypes => String::from_str(
                "Syntax error: invalid types in union definition: ",
            ),
            ErrorKind::EmptyUnion => String::from_str(
                "Syntax error: empty types in union definition: ",
            ),
            ErrorKind::InvalidSplit => String::from_str(
                "Syntax error: invalid split in definition: ",
            ),
            ErrorKind::InvalidEnumType => String::from_str(
                "Syntax error: invalid type in enum definition: ",
            ),
            ErrorKind::InvalidEnumMember => String::from_str(
                "Syntax error: invalid member in enum definition: ",
            ),
            ErrorKind::MissingDeclaration => String::from_str(
                "Syntax error: declaration not found in: ",
            ),
            ErrorKind::InvalidDeclaration => String::from_str(
                "Syntax error: invalid declaration in: ",
            ),
            ErrorKind::InvalidDefinition => String::from_str(
                "Syntax error: the definition must be a mapping: ",
            ),
            ErrorKind::InvalidIdentifier => String::from_str(
                "Syntax error: identifier is not a string near: ",
            ),
            ErrorKind::MissingBody => String::from_str("Syntax error: body not found in: "),
            ErrorKind::InvalidBody => String::from_str(
                "Syntax error: type-alias body must be a mapping: ",
            ),
            ErrorKind::MissingMembers => String::from_str(
                "Syntax error: members not found in: ",
            ),
            ErrorKind::InvalidMembers => String::from_str(
                "Syntax error: enum members must be a list: ",
            ),
            ErrorKind::TargetNotConfigured => String::from_str(
                "Target is not defined in the config file: ",
            ),
            ErrorKind::PathDiff => String::from_str("Can not diff path for reference: "),
            ErrorKind::OutOfRoot => String::from_str(
                "Relative reference path escapes the spec root: ",
            ),
            ErrorKind::NoPackageName => String::from_str(
                "Can not get a package directory from path: ",
            ),
            ErrorKind::NotUnderRoot => String::from_str(
                "File path does not start with the spec root: ",
            ),
        };
        r.append(self.subject.as_str());
        r
    }
}

} // verus!
