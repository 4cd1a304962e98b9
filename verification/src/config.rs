//! The package manifest: its data model, its parser and its serializer.
//!
//! A manifest is a TOML document with one `[package]` table holding the
//! fields `name`, `type`, `version` and `standard`, all strings. Parsing
//! goes through the `toml` crate for the grammar; every decision made on the
//! parsed document (which table, which field, which error) is verified here.

use vstd::prelude::*;
use vstd::string::StringExecFns;

use crate::text::str_eq;

verus! {

/// The type of a package.
#[derive(Clone, Copy, Debug, PartialEq, Eq, Structural)]
pub enum PackageKind {
    /// An executable package.
    Application,
    /// A library package.
    Library,
}

/// The manifest spelling of a package kind.
pub open spec fn kind_str(k: PackageKind) -> Seq<char> {
    match k {
        PackageKind::Application => "application"@,
        PackageKind::Library => "library"@,
    }
}

/// The package kind a manifest string denotes, if any.
pub open spec fn kind_of_str(s: Seq<char>) -> Option<PackageKind> {
    if s == "application"@ {
        Some(PackageKind::Application)
    } else if s == "library"@ {
        Some(PackageKind::Library)
    } else {
        None
    }
}

impl PackageKind {
    /// Parse the manifest spelling of a package kind.
    pub fn from_str(s: &str) -> (r: Result<PackageKind, ()>)
        ensures
            match kind_of_str(s@) {
                Some(k) => r == Ok::<PackageKind, ()>(k),
                None => r is Err,
            },
    {
        if str_eq(s, "application") {
            Ok(PackageKind::Application)
        } else if str_eq(s, "library") {
            Ok(PackageKind::Library)
        } else {
            Err(())
        }
    }

    /// The manifest spelling of this package kind.
    pub fn as_str(&self) -> (r: &str)
        ensures
            r@ == kind_str(*self),
    {
        match self {
            PackageKind::Application => "application",
            PackageKind::Library => "library",
        }
    }
}

/// The C standard as published by ISO, with optional GNU extensions.
///
/// All variants correspond to an -std= flag for GCC and Clang.
#[derive(Clone, Copy, Debug, PartialEq, Eq, Structural)]
pub enum Standard {
    /// The C89 standard, published as ISO/IEC 9899:1990.
    C89,
    /// The C99 standard, published as ISO/IEC 9899:1999.
    C99,
    /// The C11 standard, published as ISO/IEC 9899:2011.
    C11,
    /// The C17 standard, published as ISO/IEC 9899:2018.
    C17,
    /// The C23 standard, published as ISO/IEC 9899:2024.
    C23,
    /// The C89 standard with GNU extensions.
    Gnu89,
    /// The C99 standard with GNU extensions.
    Gnu99,
    /// The C11 standard with GNU extensions.
    Gnu11,
    /// The C17 standard with GNU extensions.
    Gnu17,
    /// The C23 standard with GNU extensions.
    Gnu23,
}

/// The manifest spelling of a C standard.
pub open spec fn standard_str(s: Standard) -> Seq<char> {
    match s {
        Standard::C89 => "c89"@,
        Standard::C99 => "c99"@,
        Standard::C11 => "c11"@,
        Standard::C17 => "c17"@,
        Standard::C23 => "c23"@,
        Standard::Gnu89 => "gnu89"@,
        Standard::Gnu99 => "gnu99"@,
        Standard::Gnu11 => "gnu11"@,
        Standard::Gnu17 => "gnu17"@,
        Standard::Gnu23 => "gnu23"@,
    }
}

/// The C standard a manifest string denotes, if any.
pub open spec fn standard_of_str(s: Seq<char>) -> Option<Standard> {
    if s == "c89"@ {
        Some(Standard::C89)
    } else if s == "c99"@ {
        Some(Standard::C99)
    } else if s == "c11"@ {
        Some(Standard::C11)
    } else if s == "c17"@ {
        Some(Standard::C17)
    } else if s == "c23"@ {
        Some(Standard::C23)
    } else if s == "gnu89"@ {
        Some(Standard::Gnu89)
    } else if s == "gnu99"@ {
        Some(Standard::Gnu99)
    } else if s == "gnu11"@ {
        Some(Standard::Gnu11)
    } else if s == "gnu17"@ {
        Some(Standard::Gnu17)
    } else if s == "gnu23"@ {
        Some(Standard::Gnu23)
    } else {
        None
    }
}

impl Standard {
    /// Parse the manifest spelling of a C standard.
    pub fn from_str(s: &str) -> (r: Result<Standard, ()>)
        ensures
            match standard_of_str(s@) {
                Some(k) => r == Ok::<Standard, ()>(k),
                None => r is Err,
            },
    {
        if str_eq(s, "c89") {
            Ok(Standard::C89)
        } else if str_eq(s, "c99") {
            Ok(Standard::C99)
        } else if str_eq(s, "c11") {
            Ok(Standard::C11)
        } else if str_eq(s, "c17") {
            Ok(Standard::C17)
        } else if str_eq(s, "c23") {
            Ok(Standard::C23)
        } else if str_eq(s, "gnu89") {
            Ok(Standard::Gnu89)
        } else if str_eq(s, "gnu99") {
            Ok(Standard::Gnu99)
        } else if str_eq(s, "gnu11") {
            Ok(Standard::Gnu11)
        } else if str_eq(s, "gnu17") {
            Ok(Standard::Gnu17)
        } else if str_eq(s, "gnu23") {
            Ok(Standard::Gnu23)
        } else {
            Err(())
        }
    }

    /// The manifest spelling of this C standard.
    pub fn as_str(&self) -> (r: &str)
        ensures
            r@ == standard_str(*self),
    {
        match self {
            Standard::C89 => "c89",
            Standard::C99 => "c99",
            Standard::C11 => "c11",
            Standard::C17 => "c17",
            Standard::C23 => "c23",
            Standard::Gnu89 => "gnu89",
            Standard::Gnu99 => "gnu99",
            Standard::Gnu11 => "gnu11",
            Standard::Gnu17 => "gnu17",
            Standard::Gnu23 => "gnu23",
        }
    }
}

/// The metadata of a package.
#[derive(Clone, Debug, PartialEq)]
pub struct Package {
    /// The name of the package.
    pub name: String,
    /// The type of the package.
    pub kind: PackageKind,
    /// The version of the package.
    pub version: String,
    /// The C standard this package is written in.
    pub standard: Standard,
}

/// The mathematical content of a package manifest.
pub struct PackageData {
    pub name: Seq<char>,
    pub kind: PackageKind,
    pub version: Seq<char>,
    pub standard: Standard,
}

impl View for Package {
    type V = PackageData;

    open spec fn view(&self) -> PackageData {
        PackageData {
            name: self.name@,
            kind: self.kind,
            version: self.version@,
            standard: self.standard,
        }
    }
}

/// Why a manifest was rejected. Each variant names the field or shape that
/// was missing or malformed; `Syntax` carries the TOML grammar error.
#[derive(Clone, Debug, PartialEq, Eq)]
pub enum ParseError {
    /// The text is not a well-formed TOML document.
    Syntax(String),
    /// The document has no `package` key.
    MissingPackageTable,
    /// The `package` key does not hold a table.
    PackageNotTable,
    /// The package table has no `name` key.
    MissingName,
    /// The `name` field is not a string.
    NameNotString,
    /// The package table has no `type` key.
    MissingKind,
    /// The `type` field is not a string.
    KindNotString,
    /// The `type` field names no known package kind.
    UnknownKind,
    /// The package table has no `version` key.
    MissingVersion,
    /// The `version` field is not a string.
    VersionNotString,
    /// The package table has no `standard` key.
    MissingStandard,
    /// The `standard` field is not a string.
    StandardNotString,
    /// The `standard` field names no known C standard.
    UnknownStandard,
}

/// The description of each rejection, as `ParseError::message` words it.
pub open spec fn parse_error_message(e: ParseError) -> Seq<char> {
    match e {
        ParseError::Syntax(m) => m@,
        ParseError::MissingPackageTable => "missing package table"@,
        ParseError::PackageNotTable => "package is not a table"@,
        ParseError::MissingName => "missing name field"@,
        ParseError::NameNotString => "name is not a string"@,
        ParseError::MissingKind => "missing type field"@,
        ParseError::KindNotString => "type is not a string"@,
        ParseError::UnknownKind => "unknown package type"@,
        ParseError::MissingVersion => "missing version field"@,
        ParseError::VersionNotString => "version is not a string"@,
        ParseError::MissingStandard => "missing standard field"@,
        ParseError::StandardNotString => "standard is not a string"@,
        ParseError::UnknownStandard => "unknown standard"@,
    }
}

impl ParseError {
    /// A human-readable description of the rejection.
    pub fn message(&self) -> (r: String)
        ensures
            r@ == parse_error_message(*self),
    {
        match self {
            ParseError::Syntax(m) => m.clone(),
            ParseError::MissingPackageTable => "missing package table".to_owned(),
            ParseError::PackageNotTable => "package is not a table".to_owned(),
            ParseError::MissingName => "missing name field".to_owned(),
            ParseError::NameNotString => "name is not a string".to_owned(),
            ParseError::MissingKind => "missing type field".to_owned(),
            ParseError::KindNotString => "type is not a string".to_owned(),
            ParseError::UnknownKind => "unknown package type".to_owned(),
            ParseError::MissingVersion => "missing version field".to_owned(),
            ParseError::VersionNotString => "version is not a string".to_owned(),
            ParseError::MissingStandard => "missing standard field".to_owned(),
            ParseError::StandardNotString => "standard is not a string".to_owned(),
            ParseError::UnknownStandard => "unknown standard".to_owned(),
        }
    }
}

/// One key of a parsed TOML table, holding a string value, or `None` for a
/// value of any other TOML type (this crate reads only string fields).
pub struct RawEntry {
    pub key: String,
    pub value: Option<String>,
}

impl View for RawEntry {
    type V = (Seq<char>, Option<Seq<char>>);

    open spec fn view(&self) -> Self::V {
        (self.key@, self.value.deep_view())
    }
}

impl DeepView for RawEntry {
    type V = (Seq<char>, Option<Seq<char>>);

    open spec fn deep_view(&self) -> Self::V {
        self.view()
    }
}

/// One top-level key of a parsed TOML document, holding a table of string
/// fields, or `None` for a value that is not a table.
pub struct RawTable {
    pub key: String,
    pub table: Option<Vec<RawEntry>>,
}

impl View for RawTable {
    type V = (Seq<char>, Option<Seq<(Seq<char>, Option<Seq<char>>)>>);

    open spec fn view(&self) -> Self::V {
        (self.key@, self.table.deep_view())
    }
}

impl DeepView for RawTable {
    type V = (Seq<char>, Option<Seq<(Seq<char>, Option<Seq<char>>)>>);

    open spec fn deep_view(&self) -> Self::V {
        self.view()
    }
}

/// What the TOML grammar makes of a document: `None` when the text is not
/// well-formed TOML, otherwise the top-level keys in lexicographic order,
/// each holding either a table of fields (string-valued fields kept, others
/// opaque) or `None` when the key's value is not a table.
pub uninterp spec fn toml_doc_of(s: Seq<char>) -> Option<
    Seq<(Seq<char>, Option<Seq<(Seq<char>, Option<Seq<char>>)>>)>,
>;

/// Relies on toml::from_str::<toml::Table>: parses the text as a TOML
/// document into its top-level table, keys in lexicographic order; the
/// result is a function of the text alone. String values are kept; a value
/// of any other type is mapped to `None` at its level.
#[verifier::external_body]
fn parse_toml_tables(s: &str) -> (r: Result<Vec<RawTable>, String>)
    ensures
        r is Ok <==> toml_doc_of(s@) is Some,
        r is Ok ==> r->Ok_0.deep_view() == toml_doc_of(s@)->Some_0,
{
    match toml::from_str::<toml::Table>(s) {
        Err(e) => Err(e.to_string()),
        Ok(t) => Ok(t.into_iter().map(|(key, value)| RawTable {
            key,
            table: match value {
                toml::Value::Table(m) => Some(m.into_iter().map(|(k, v)| RawEntry {
                    key: k,
                    value: if let toml::Value::String(x) = v { Some(x) } else { None },
                }).collect()),
                _ => None,
            },
        }).collect()),
    }
}

/// The value under the first occurrence of `key`, if any.
pub open spec fn find_key<V>(entries: Seq<(Seq<char>, V)>, key: Seq<char>) -> Option<V>
    decreases entries.len(),
{
    if entries.len() == 0 {
        None
    } else if entries[0].0 == key {
        Some(entries[0].1)
    } else {
        find_key(entries.drop_first(), key)
    }
}

proof fn lemma_find_key_hit<V>(entries: Seq<(Seq<char>, V)>, key: Seq<char>, i: int)
    requires
        0 <= i < entries.len(),
        entries[i].0 == key,
        forall|j: int| 0 <= j < i ==> entries[j].0 != key,
    ensures
        find_key(entries, key) == Some(entries[i].1),
    decreases i,
{
    if i > 0 {
        lemma_find_key_hit(entries.drop_first(), key, i - 1);
    }
}

proof fn lemma_find_key_miss<V>(entries: Seq<(Seq<char>, V)>, key: Seq<char>)
    requires
        forall|j: int| 0 <= j < entries.len() ==> entries[j].0 != key,
    ensures
        find_key(entries, key) is None,
    decreases entries.len(),
{
    if entries.len() > 0 {
        lemma_find_key_miss(entries.drop_first(), key);
    }
}

/// The index of the first top-level key equal to `key`, if any.
fn find_table_index(doc: &Vec<RawTable>, key: &str) -> (r: Option<usize>)
    ensures
        match r {
            Some(i) => {
                &&& i < doc.len()
                &&& doc@[i as int].key@ == key@
                &&& forall|j: int| 0 <= j < i ==> doc@[j].key@ != key@
            },
            None => forall|j: int| 0 <= j < doc@.len() ==> doc@[j].key@ != key@,
        },
{
    let mut i: usize = 0;
    while i < doc.len()
        invariant
            i <= doc.len(),
            forall|j: int| 0 <= j < i ==> doc@[j].key@ != key@,
        decreases doc.len() - i,
    {
        if str_eq(doc[i].key.as_str(), key) {
            return Some(i);
        }
        i += 1;
    }
    None
}

/// The index of the first field named `key` in a table, if any.
fn find_entry_index(table: &Vec<RawEntry>, key: &str) -> (r: Option<usize>)
    ensures
        match r {
            Some(i) => {
                &&& i < table.len()
                &&& table@[i as int].key@ == key@
                &&& forall|j: int| 0 <= j < i ==> table@[j].key@ != key@
            },
            None => forall|j: int| 0 <= j < table@.len() ==> table@[j].key@ != key@,
        },
{
    let mut i: usize = 0;
    while i < table.len()
        invariant
            i <= table.len(),
            forall|j: int| 0 <= j < i ==> table@[j].key@ != key@,
        decreases table.len() - i,
    {
        if str_eq(table[i].key.as_str(), key) {
            return Some(i);
        }
        i += 1;
    }
    None
}

/// What a parsed TOML document yields as a package manifest: the `package`
/// table's `name`, `type`, `version` and `standard` fields, or the first
/// error in that order of inspection.
pub open spec fn package_of_doc(
    doc: Seq<(Seq<char>, Option<Seq<(Seq<char>, Option<Seq<char>>)>>)>,
) -> Result<PackageData, ParseError> {
    match find_key(doc, "package"@) {
        None => Err(ParseError::MissingPackageTable),
        Some(None) => Err(ParseError::PackageNotTable),
        Some(Some(t)) => match find_key(t, "name"@) {
            None => Err(ParseError::MissingName),
            Some(None) => Err(ParseError::NameNotString),
            Some(Some(name)) => match find_key(t, "type"@) {
                None => Err(ParseError::MissingKind),
                Some(None) => Err(ParseError::KindNotString),
                Some(Some(ks)) => match kind_of_str(ks) {
                    None => Err(ParseError::UnknownKind),
                    Some(kind) => match find_key(t, "version"@) {
                        None => Err(ParseError::MissingVersion),
                        Some(None) => Err(ParseError::VersionNotString),
                        Some(Some(version)) => match find_key(t, "standard"@) {
                            None => Err(ParseError::MissingStandard),
                            Some(None) => Err(ParseError::StandardNotString),
                            Some(Some(ss)) => match standard_of_str(ss) {
                                None => Err(ParseError::UnknownStandard),
                                Some(standard) => Ok(
                                    PackageData { name, kind, version, standard },
                                ),
                            },
                        },
                    },
                },
            },
        },
    }
}

/// A string field of a table, as `package_of_doc` reads it: the field's
/// characters, or the error for a missing or non-string field.
fn string_field(
    table: &Vec<RawEntry>,
    key: &str,
    missing: ParseError,
    not_string: ParseError,
) -> (r: Result<String, ParseError>)
    ensures
        match find_key(table.deep_view(), key@) {
            None => r == Err::<String, ParseError>(missing),
            Some(None) => r == Err::<String, ParseError>(not_string),
            Some(Some(s)) => r is Ok && r->Ok_0@ == s,
        },
{
    match find_entry_index(table, key) {
        None => {
            proof {
                lemma_find_key_miss(table.deep_view(), key@);
            }
            Err(missing)
        },
        Some(i) => {
            proof {
                lemma_find_key_hit(table.deep_view(), key@, i as int);
            }
            match &table[i].value {
                None => Err(not_string),
                Some(s) => Ok(s.clone()),
            }
        },
    }
}

impl Package {
    /// Parse the package metadata from a TOML document.
    pub fn parse(text: &str) -> (r: Result<Package, ParseError>)
        ensures
            toml_doc_of(text@) is None ==> r is Err && r->Err_0 is Syntax,
            toml_doc_of(text@) matches Some(doc) ==> match package_of_doc(doc) {
                Ok(p) => r is Ok && r->Ok_0@ == p,
                Err(e) => r == Err::<Package, ParseError>(e),
            },
    {
        let doc = match parse_toml_tables(text) {
            Err(m) => {
                return Err(ParseError::Syntax(m));
            },
            Ok(d) => d,
        };
        let table = match find_table_index(&doc, "package") {
            None => {
                proof {
                    lemma_find_key_miss(doc.deep_view(), "package"@);
                }
                return Err(ParseError::MissingPackageTable);
            },
            Some(i) => {
                proof {
                    lemma_find_key_hit(doc.deep_view(), "package"@, i as int);
                }
                match &doc[i].table {
                    None => {
                        return Err(ParseError::PackageNotTable);
                    },
                    Some(t) => t,
                }
            },
        };
        let name = match string_field(
            table,
            "name",
            ParseError::MissingName,
            ParseError::NameNotString,
        ) {
            Err(e) => {
                return Err(e);
            },
            Ok(s) => s,
        };
        let kind_text = match string_field(
            table,
            "type",
            ParseError::MissingKind,
            ParseError::KindNotString,
        ) {
            Err(e) => {
                return Err(e);
            },
            Ok(s) => s,
        };
        let kind = match PackageKind::from_str(kind_text.as_str()) {
            Err(_) => {
                return Err(ParseError::UnknownKind);
            },
            Ok(k) => k,
        };
        let version = match string_field(
            table,
            "version",
            ParseError::MissingVersion,
            ParseError::VersionNotString,
        ) {
            Err(e) => {
                return Err(e);
            },
            Ok(s) => s,
        };
        let standard_text = match string_field(
            table,
            "standard",
            ParseError::MissingStandard,
            ParseError::StandardNotString,
        ) {
            Err(e) => {
                return Err(e);
            },
            Ok(s) => s,
        };
        let standard = match Standard::from_str(standard_text.as_str()) {
            Err(_) => {
                return Err(ParseError::UnknownStandard);
            },
            Ok(s) => s,
        };
        Ok(Package { name, kind, version, standard })
    }

    /// The manifest text of a package: one `[package]` table with the four
    /// fields, each on its own line, in quotes.
    pub fn serialize(&self) -> (r: String)
        ensures
            r@ == serialize_spec(self@),
    {
        let mut out = "[package]\nname     = \"".to_owned();
        out.append(self.name.as_str());
        out.append("\"\ntype     = \"");
        out.append(self.kind.as_str());
        out.append("\"\nversion  = \"");
        out.append(self.version.as_str());
        out.append("\"\nstandard = \"");
        out.append(self.standard.as_str());
        out.append("\"\n");
        proof {
            assert(out@ =~= serialize_spec(self@));
        }
        out
    }
}

/// The manifest text `Package::serialize` produces for given metadata.
pub open spec fn serialize_spec(p: PackageData) -> Seq<char> {
    "[package]\nname     = \""@ + p.name + "\"\ntype     = \""@ + kind_str(p.kind)
        + "\"\nversion  = \""@ + p.version + "\"\nstandard = \""@ + standard_str(p.standard)
        + "\"\n"@
}

} // verus!
