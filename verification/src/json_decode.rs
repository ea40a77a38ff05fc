use vstd::prelude::*;
use vstd::string::*;

use crate::stdio::{Stdio, StdioOrRid};
use crate::strutil::str_eq;

verus! {

#[verifier::external_type_specification]
#[verifier::external_body]
pub struct ExJsonValue(serde_json::Value);

/// Why a wire-form stdio request could not be understood.
#[derive(Debug, Clone, PartialEq, Eq)]
pub enum StdioParseError {
    /// A string that names no known mode.
    UnknownVariant { value: String },
    /// A number that is no resource id in range.
    ExpectedPositiveInteger,
    /// Neither a string nor a number.
    ExpectedStdioValue,
}

/// The decoding relation for a wire-form stdio request, over the parts of
/// the JSON value: its text if it is a string, whether it is a number, and
/// its value as an unsigned integer if it has one. The known mode names
/// map to their modes, any other string is an unknown variant, and a
/// number is a resource id when it fits one.
pub open spec fn stdio_parts_spec(
    s: Option<String>,
    is_number: bool,
    n: Option<u64>,
    r: Result<StdioOrRid, StdioParseError>,
) -> bool {
    match s {
        Some(text) => if text@ == "inherit"@ {
            r == Ok::<StdioOrRid, StdioParseError>(StdioOrRid::Stdio(Stdio::Inherit))
        } else if text@ == "piped"@ {
            r == Ok::<StdioOrRid, StdioParseError>(StdioOrRid::Stdio(Stdio::Piped))
        } else if text@ == "null"@ {
            r == Ok::<StdioOrRid, StdioParseError>(StdioOrRid::Stdio(Stdio::Null))
        } else if text@ == "ipc_for_internal_use"@ {
            r == Ok::<StdioOrRid, StdioParseError>(StdioOrRid::Stdio(Stdio::IpcForInternalUse))
        } else {
            r matches Err(StdioParseError::UnknownVariant { value }) && value@ == text@
        },
        None => if is_number {
            if n matches Some(v) && v <= u32::MAX {
                r == Ok::<StdioOrRid, StdioParseError>(StdioOrRid::Rid(n->Some_0 as u32))
            } else {
                r == Err::<StdioOrRid, StdioParseError>(StdioParseError::ExpectedPositiveInteger)
            }
        } else {
            r == Err::<StdioOrRid, StdioParseError>(StdioParseError::ExpectedStdioValue)
        },
    }
}

/// Decides a stdio request from the parts of its JSON value.
pub fn stdio_or_rid_from_parts(s: Option<String>, is_number: bool, n: Option<u64>) -> (r: Result<
    StdioOrRid,
    StdioParseError,
>)
    ensures
        stdio_parts_spec(s, is_number, n, r),
{
    match s {
        Some(text) => {
            if str_eq(text.as_str(), "inherit") {
                Ok(StdioOrRid::Stdio(Stdio::Inherit))
            } else if str_eq(text.as_str(), "piped") {
                Ok(StdioOrRid::Stdio(Stdio::Piped))
            } else if str_eq(text.as_str(), "null") {
                Ok(StdioOrRid::Stdio(Stdio::Null))
            } else if str_eq(text.as_str(), "ipc_for_internal_use") {
                Ok(StdioOrRid::Stdio(Stdio::IpcForInternalUse))
            } else {
                Err(StdioParseError::UnknownVariant { value: text })
            }
        },
        None => {
            if is_number {
                match n {
                    Some(v) => {
                        if v <= u32::MAX as u64 {
                            Ok(StdioOrRid::Rid(v as u32))
                        } else {
                            Err(StdioParseError::ExpectedPositiveInteger)
                        }
                    },
                    None => Err(StdioParseError::ExpectedPositiveInteger),
                }
            } else {
                Err(StdioParseError::ExpectedStdioValue)
            }
        },
    }
}

/// Relies on serde_json::Value::as_str: the content of a JSON string
/// value, and nothing for a value of any other kind.
#[verifier::external_body]
fn value_as_string(v: &serde_json::Value) -> (r: Option<String>) {
    match v.as_str() {
        Some(s) => Some(s.to_string()),
        None => None,
    }
}

/// Relies on serde_json::Value::is_number: whether the value is a JSON
/// number.
#[verifier::external_body]
fn value_is_number(v: &serde_json::Value) -> (r: bool) {
    v.is_number()
}

/// Relies on serde_json::Value::as_u64: the value of a JSON number that an
/// unsigned 64-bit integer can represent, and nothing otherwise.
#[verifier::external_body]
fn value_as_u64(v: &serde_json::Value) -> (r: Option<u64>) {
    v.as_u64()
}

/// Decodes a wire-form stdio request: a mode name as a JSON string, or a
/// resource id as a JSON number. Whatever parts the value turns out to
/// have, the result follows the decoding relation on them.
pub fn decode_stdio_value(v: &serde_json::Value) -> (r: Result<StdioOrRid, StdioParseError>)
    ensures
        exists|s: Option<String>, is_number: bool, n: Option<u64>|
            stdio_parts_spec(s, is_number, n, r),
{
    let s = value_as_string(v);
    let is_number = value_is_number(v);
    let n = value_as_u64(v);
    let ghost gs = s;
    let r = stdio_or_rid_from_parts(s, is_number, n);
    proof {
        assert(stdio_parts_spec(gs, is_number, n, r));
    }
    r
}

} // verus!
