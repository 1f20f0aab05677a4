//! The JSON object that a text payload holds, as `serde_json` reads it.

use vstd::prelude::*;
use crate::text::opt_text;

verus! {

/// One member of a JSON object: its key, and its value as far as a record's
/// fields can use it.
#[derive(Debug, Clone, PartialEq, Eq)]
pub struct JsonMember {
    pub key: String,
    /// The value, where it is a JSON string.
    pub text: Option<String>,
    /// The value, where it is a JSON number that is an integer within `i64`.
    pub integer: Option<i64>,
}

pub ghost struct JsonMemberView {
    pub key: Seq<char>,
    pub text: Option<Seq<char>>,
    pub integer: Option<int>,
}

impl View for JsonMember {
    type V = JsonMemberView;

    open spec fn view(&self) -> JsonMemberView {
        JsonMemberView {
            key: self.key@,
            text: opt_text(self.text),
            integer: match self.integer {
                Some(i) => Some(i as int),
                None => None,
            },
        }
    }
}

/// The views of `members`, in order.
pub open spec fn member_views(members: Seq<JsonMember>) -> Seq<JsonMemberView> {
    members.map_values(|m: JsonMember| m@)
}

/// The view of what reading a payload gave.
pub open spec fn reading_view(r: Result<Vec<JsonMember>, String>) -> Result<
    Seq<JsonMemberView>,
    Seq<char>,
> {
    match r {
        Ok(members) => Ok(member_views(members@)),
        Err(detail) => Err(detail@),
    }
}

/// What `serde_json` makes of `text` when asked for a map from strings to
/// JSON values: the members of the object that `text` spells, or the
/// parser's complaint where `text` spells no object.
pub uninterp spec fn json_object(text: Seq<u8>) -> Result<Seq<JsonMemberView>, Seq<char>>;

/// Calls `serde_json::from_slice` for a `BTreeMap<String, serde_json::Value>`
/// and hands out each member with `Value::as_str` and `Value::as_i64` of its
/// value, or the `Debug` text of the parser's error. Nothing is proved of
/// the parser: the contract only names its result, which depends on `text`
/// alone.
#[verifier::external_body]
pub(crate) fn read_json_object(text: &[u8]) -> (r: Result<Vec<JsonMember>, String>)
    ensures
        reading_view(r) == json_object(text@),
{
    match serde_json::from_slice::<std::collections::BTreeMap<String, serde_json::Value>>(text) {
        Ok(object) => Ok(
            object.into_iter().map(
                |(key, value)| JsonMember {
                    text: value.as_str().map(String::from),
                    integer: value.as_i64(),
                    key,
                },
            ).collect(),
        ),
        Err(error) => Err(format!("{:?}", error)),
    }
}

} // verus!
