//! The structured error model: every fallible operation of this library
//! returns an `Error` value carrying a kind, a numeric code and a
//! human-readable description.

use vstd::prelude::*;
use vstd::string::StringExecFns;

use crate::json::dec_str;
use crate::json::escape_seq;
use crate::json::is_digit;
use crate::json::lemma_scan_escaped;
use crate::json::lemma_scan_int_dec_str;
use crate::json::lemma_strip_prefix;
use crate::json::push_dec_i32;
use crate::json::push_escaped;
use crate::json::scan_int;
use crate::json::scan_string;
use crate::json::strip_prefix;

verus! {

/// Which family an error belongs to. `OSAgnostic` errors are raised by this
/// library's own validation; `OSSpecific` errors wrap a native OS error code.
#[derive(Copy, Clone, Debug, PartialEq, Eq, Structural)]
pub enum ErrorKind {
    Unknown,
    OSSpecific,
    OSAgnostic,
}

impl Default for ErrorKind {
    fn default() -> (r: Self)
        ensures
            r == ErrorKind::Unknown,
    {
        ErrorKind::Unknown
    }
}

/// An opaque signed error code. A small set of reserved codes is used for
/// the library's own (OS-agnostic) errors; OS-specific codes carry the
/// native error code verbatim.
#[derive(Copy, Clone, Debug, PartialEq, Eq, Structural)]
pub struct ErrorCode(pub i32);

/// Reserved code: no further information is available.
pub const UNKNOWN: i32 = 1;

/// Reserved code: a character has no equivalent physical key.
pub const NO_EQUIVALENT_KEY: i32 = 2;

/// Reserved code: a modifier list is empty, too long, or holds duplicates.
pub const INVALID_MODIFIERS_LIST: i32 = 3;

/// Reserved code: a key or modifier has no native mapping on the selected
/// platform.
pub const UNSUPPORTED_ON_PLATFORM: i32 = 4;

impl From<i32> for ErrorCode {
    fn from(error_code: i32) -> (r: Self)
        ensures
            r.0 == error_code,
    {
        ErrorCode(error_code)
    }
}

impl vstd::std_specs::convert::FromSpecImpl<i32> for ErrorCode {
    open spec fn obeys_from_spec() -> bool {
        true
    }

    open spec fn from_spec(error_code: i32) -> Self {
        ErrorCode(error_code)
    }
}

/// A structured error: `{kind, code, description}`.
#[derive(Debug)]
pub struct Error {
    pub kind: ErrorKind,
    pub code: ErrorCode,
    pub description: String,
}

/// Field-wise description of an `Error` value, for use in contracts.
pub open spec fn is_error(e: Error, kind: ErrorKind, code: i32, description: Seq<char>) -> bool {
    &&& e.kind == kind
    &&& e.code.0 == code
    &&& e.description@ == description
}

/// The name of an error kind, as it appears in serialized output.
pub open spec fn spec_kind_name(k: ErrorKind) -> Seq<char> {
    match k {
        ErrorKind::Unknown => "Unknown"@,
        ErrorKind::OSSpecific => "OSSpecific"@,
        ErrorKind::OSAgnostic => "OSAgnostic"@,
    }
}

impl ErrorKind {
    /// The kind's name.
    pub fn name(&self) -> (r: String)
        ensures
            r@ == spec_kind_name(*self),
    {
        match self {
            ErrorKind::Unknown => String::from_str("Unknown"),
            ErrorKind::OSSpecific => String::from_str("OSSpecific"),
            ErrorKind::OSAgnostic => String::from_str("OSAgnostic"),
        }
    }
}

/// The serialized form of an error: a JSON object with the fields `kind`,
/// `code` and `description`.
pub open spec fn json_of_error(e: Error) -> Seq<char> {
    "{\"kind\":\""@ + escape_seq(spec_kind_name(e.kind)) + "\",\"code\":"@ + dec_str(
        e.code.0 as int,
    ) + ",\"description\":\""@ + escape_seq(e.description@) + "\"}"@
}

/// The description carried by a default-constructed error.
pub open spec fn spec_default_description() -> Seq<char> {
    "No description can be found."@
}

impl Error {
    pub fn new(kind: ErrorKind, code: ErrorCode, description: String) -> (r: Self)
        ensures
            is_error(r, kind, code.0, description@),
    {
        Self { kind, code, description }
    }

    /// The structured serialized form `{kind, code, description}` of this
    /// error, suitable for machine consumption.
    pub fn to_json(&self) -> (r: String)
        ensures
            r@ == json_of_error(*self),
    {
        let mut s = String::new();
        s.append("{\"kind\":\"");
        let kind = self.kind.name();
        push_escaped(&mut s, kind.as_str());
        s.append("\",\"code\":");
        push_dec_i32(&mut s, self.code.0);
        s.append(",\"description\":\"");
        push_escaped(&mut s, self.description.as_str());
        s.append("\"}");
        proof {
            assert(s@ =~= json_of_error(*self));
        }
        s
    }

    /// A one-line rendering of the error for human readers.
    pub fn message(&self) -> (r: String)
        ensures
            r@ == spec_kind_name(self.kind) + "Error: "@ + self.description@ + " (ErrorCode "@
                + dec_str(self.code.0 as int) + ")"@,
    {
        let mut s = self.kind.name();
        s.append("Error: ");
        s.append(self.description.as_str());
        s.append(" (ErrorCode ");
        push_dec_i32(&mut s, self.code.0);
        s.append(")");
        proof {
            assert(s@ =~= spec_kind_name(self.kind) + "Error: "@ + self.description@
                + " (ErrorCode "@ + dec_str(self.code.0 as int) + ")"@);
        }
        s
    }
}

/// Reads back the fields of the serialized error form: the kind name, the
/// code and the description, or `None` where the input does not have that
/// shape.
pub open spec fn parse_error_json(s: Seq<char>) -> Option<(Seq<char>, int, Seq<char>)> {
    match strip_prefix(s, "{\"kind\":\""@) {
        Some(s1) => match scan_string(s1) {
            Some((kind, s2)) => match strip_prefix(s2, ",\"code\":"@) {
                Some(s3) => match scan_int(s3) {
                    Some((code, s4)) => match strip_prefix(s4, ",\"description\":\""@) {
                        Some(s5) => match scan_string(s5) {
                            Some((description, s6)) => if s6 == "}"@ {
                                Some((kind, code, description))
                            } else {
                                None
                            },
                            None => None,
                        },
                        None => None,
                    },
                    None => None,
                },
                None => None,
            },
            None => None,
        },
        None => None,
    }
}

/// Serialization round-trips structurally: parsing the serialized form of
/// any error recovers exactly its kind name, its code, and its description.
pub proof fn lemma_error_json_round_trip(e: Error)
    ensures
        parse_error_json(json_of_error(e)) == Some(
            (spec_kind_name(e.kind), e.code.0 as int, e.description@),
        ),
{
    reveal_strlit("{\"kind\":\"");
    reveal_strlit("\",\"code\":");
    reveal_strlit(",\"code\":");
    reveal_strlit(",\"description\":\"");
    reveal_strlit("\"}");
    reveal_strlit("}");
    let s = json_of_error(e);
    let p1 = "{\"kind\":\""@;
    let k = escape_seq(spec_kind_name(e.kind));
    let d = dec_str(e.code.0 as int);
    let m2 = ",\"description\":\""@;
    let desc = escape_seq(e.description@);
    let rest5 = desc + seq!['"'] + "}"@;
    let rest4 = m2 + rest5;
    let rest3 = d + rest4;
    let after_kind = ",\"code\":"@ + rest3;
    let rest1 = k + seq!['"'] + after_kind;
    assert(s =~= p1 + rest1);
    lemma_strip_prefix(p1, rest1);
    assert(strip_prefix(s, p1) == Some(rest1));
    lemma_scan_escaped(spec_kind_name(e.kind), after_kind);
    assert(scan_string(rest1) == Some((spec_kind_name(e.kind), after_kind)));
    lemma_strip_prefix(",\"code\":"@, rest3);
    assert(strip_prefix(after_kind, ",\"code\":"@) == Some(rest3));
    assert(rest4[0] == ',');
    assert(!is_digit(','));
    lemma_scan_int_dec_str(e.code.0 as int, rest4);
    assert(scan_int(rest3) == Some((e.code.0 as int, rest4)));
    lemma_strip_prefix(m2, rest5);
    assert(strip_prefix(rest4, m2) == Some(rest5));
    lemma_scan_escaped(e.description@, "}"@);
    assert(scan_string(rest5) == Some((e.description@, "}"@)));
}

impl Default for Error {
    fn default() -> (r: Self)
        ensures
            is_error(r, ErrorKind::Unknown, UNKNOWN, spec_default_description()),
    {
        Error {
            kind: ErrorKind::Unknown,
            code: ErrorCode(UNKNOWN),
            description: String::from_str("No description can be found."),
        }
    }
}

} // verus!
