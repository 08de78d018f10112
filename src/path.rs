//! Hierarchical namespace paths and segment validation.
use vstd::prelude::*;
use crate::error::EngineError;
use crate::text::has_char;
use vstd::string::*;

verus! {

/// The delimiter between segments of a path.
pub const DELIMITER: char = '/';

/// The path of the root of the namespace.
pub const ROOT_PATH: &'static str = "_";

/// The raw text of the object-store path parsed from `s`: split on the
/// delimiter, each segment percent-encoded, empty segments dropped.
pub uninterp spec fn path_raw_of(s: Seq<char>) -> Seq<char>;

/// The raw text of `s` taken as one object-store path segment, with the
/// characters that a segment may not hold percent-encoded.
pub uninterp spec fn part_raw_of(s: Seq<char>) -> Seq<char>;

/// A segment is valid when it is non-empty, holds no delimiter, and needs no
/// encoding to stand as a path segment.
pub open spec fn valid_part(s: Seq<char>) -> bool {
    s.len() > 0 && !s.contains(DELIMITER) && part_raw_of(s) == s
}

/// An immutable namespace path; its text is what the object store keeps.
#[derive(Debug)]
pub struct Path {
    raw: String,
}

impl View for Path {
    type V = Seq<char>;

    closed spec fn view(&self) -> Seq<char> {
        self.raw@
    }
}

/// Relies on `object_store::path::Path::from(&str)` and its `AsRef<str>`.
#[verifier::external_body]
fn object_path_raw(s: &str) -> (r: String)
    ensures
        r@ == path_raw_of(s@),
{
    let p = object_store::path::Path::from(s);
    p.as_ref().to_string()
}

/// Whether a character stands in a path segment as it is: printable
/// ASCII, and none of the characters that object stores reserve.
pub open spec fn plain_part_char(c: char) -> bool {
    &&& ' ' <= c && c <= '~'
    &&& c != '/' && c != '\\' && c != '{' && c != '^' && c != '}' && c != '%'
    &&& c != '`' && c != ']' && c != '"' && c != '>' && c != '[' && c != '~'
    &&& c != '<' && c != '#' && c != '|' && c != '*' && c != '?'
}

/// A segment that needs no encoding: plain characters, and neither `.`
/// nor `..`.
pub open spec fn plain_part(s: Seq<char>) -> bool {
    &&& forall|i: int| 0 <= i < s.len() ==> plain_part_char(#[trigger] s[i])
    &&& s != seq!['.']
    &&& s != seq!['.', '.']
}

/// Relies on `object_store::path::PathPart::from(&str)` and its `AsRef<str>`:
/// `.` and `..` are encoded whole, and otherwise each control, non-ASCII or
/// reserved byte is percent-encoded while every other byte is kept.
#[verifier::external_body]
fn object_part_raw(s: &str) -> (r: String)
    ensures
        r@ == part_raw_of(s@),
        plain_part(s@) ==> r@ == s@,
{
    let p = object_store::path::PathPart::from(s);
    p.as_ref().to_string()
}

impl Path {
    /// Parses `s` as a path.
    pub fn parse(s: &str) -> (r: Path)
        ensures
            r@ == path_raw_of(s@),
    {
        Path { raw: object_path_raw(s) }
    }

    /// The root path.
    pub fn root() -> (r: Path)
        ensures
            r@ == path_raw_of(ROOT_PATH@),
    {
        Path::parse(ROOT_PATH)
    }

    /// The text of the path.
    pub fn as_str(&self) -> (r: &str)
        ensures
            r@ == self@,
    {
        self.raw.as_str()
    }

    /// Whether two paths are the same position in the namespace.
    pub fn same(&self, other: &Path) -> (r: bool)
        ensures
            r == (self@ == other@),
    {
        self.raw == other.raw
    }

    /// A copy of the path.
    pub fn duplicate(&self) -> (r: Path)
        ensures
            r@ == self@,
    {
        Path { raw: self.raw.clone() }
    }
}

/// Checks that `part` can stand as one segment of a path.
pub fn validate_path_part(part: &str) -> (r: Result<(), EngineError>)
    ensures
        r is Ok <==> valid_part(part@),
        part@.len() > 0 && plain_part(part@) ==> r is Ok,
        r matches Err(e) ==> e is InvalidPath,
{
    if part.is_empty() || has_char(part, DELIMITER) {
        return Err(EngineError::InvalidPath(part.to_string()));
    }
    let encoded = object_part_raw(part);
    if encoded == part.to_owned() {
        Ok(())
    } else {
        Err(EngineError::InvalidPath(part.to_string()))
    }
}

/// Joins two paths: `a`, the delimiter, then `b`, with no normalization.
pub fn join_path(a: &Path, b: &Path) -> (r: Path)
    ensures
        r@ == a@ + seq![DELIMITER] + b@,
{
    proof {
        reveal_strlit("/");
        assert("/"@ =~= seq![DELIMITER]);
    }
    let mut s = a.raw.clone();
    s.append("/");
    s.append(b.raw.as_str());
    assert(s@ =~= a@ + seq![DELIMITER] + b@);
    Path { raw: s }
}

} // verus!
