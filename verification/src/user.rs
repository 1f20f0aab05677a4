//! The domain value, and how a form becomes one.

use vstd::prelude::*;
use vstd::slice::slice_to_vec;
use crate::form::{EnforcedForm, Occurrences};
use crate::json::{json_object, member_views, read_json_object, JsonMember, JsonMemberView};
use crate::part::FieldOccurrence;
use crate::rejection::{Rejection, RejectionView};

verus! {

/// Simple representation of a user.
#[derive(Debug, Clone, PartialEq, Eq)]
pub struct User {
    pub name: String,
    pub age: i32,
}

pub ghost struct UserView {
    pub name: Seq<char>,
    pub age: int,
}

impl View for User {
    type V = UserView;

    open spec fn view(&self) -> UserView {
        UserView { name: self.name@, age: self.age as int }
    }
}

/// A submitted user: the image and the record.
#[derive(Debug, Clone, PartialEq, Eq)]
pub struct NewUser {
    /// The submitted image.
    pub avatar: Vec<u8>,
    /// The record read from the JSON payload.
    pub user: User,
}

pub ghost struct NewUserView {
    pub avatar: Seq<u8>,
    pub user: UserView,
}

impl View for NewUser {
    type V = NewUserView;

    open spec fn view(&self) -> NewUserView {
        NewUserView { avatar: self.avatar@, user: self.user@ }
    }
}

/// How the JSON payload's quotes are read.
#[derive(Debug, Clone, Copy, PartialEq, Eq, Structural)]
pub enum Quoting {
    /// The payload is JSON as it stands.
    Strict,
    /// Every apostrophe in the payload is read as a double quote. This
    /// spoils a value that holds an apostrophe of its own.
    Lenient,
}

/// `text` with every apostrophe replaced by a double quote.
pub open spec fn requote(text: Seq<u8>) -> Seq<u8> {
    text.map_values(|b: u8| if b == 0x27u8 { 0x22u8 } else { b })
}

/// The bytes that are handed to the JSON parser.
pub open spec fn payload_text(text: Seq<u8>, quoting: Quoting) -> Seq<u8> {
    match quoting {
        Quoting::Strict => text,
        Quoting::Lenient => requote(text),
    }
}

/// The first member of `members` whose key is `key`.
pub open spec fn member_named(members: Seq<JsonMemberView>, key: Seq<char>) -> Option<
    JsonMemberView,
> {
    match members.map_values(|m: JsonMemberView| m.key).index_of_first(key) {
        Some(i) => Some(members[i]),
        None => None,
    }
}

/// The record that the members of a JSON object spell: `name` must be a
/// string and `age` an integer within `i32`. Other members are ignored.
pub open spec fn user_of(members: Seq<JsonMemberView>) -> Result<UserView, Seq<char>> {
    match member_named(members, "name"@) {
        None => Err("missing field `name`"@),
        Some(name_member) => match name_member.text {
            None => Err("field `name` is not a string"@),
            Some(name) => match member_named(members, "age"@) {
                None => Err("missing field `age`"@),
                Some(age_member) => match age_member.integer {
                    None => Err("field `age` is not a 32-bit integer"@),
                    Some(age) => if i32::MIN <= age <= i32::MAX {
                        Ok(UserView { name, age })
                    } else {
                        Err("field `age` is not a 32-bit integer"@)
                    },
                },
            },
        },
    }
}

/// The record that a payload spells, or why it spells none.
pub open spec fn user_of_payload(text: Seq<u8>, quoting: Quoting) -> Result<
    UserView,
    RejectionView,
> {
    match json_object(payload_text(text, quoting)) {
        Err(detail) => Err(RejectionView::MalformedPayload(detail)),
        Ok(members) => match user_of(members) {
            Ok(user) => Ok(user),
            Err(detail) => Err(RejectionView::MalformedPayload(detail)),
        },
    }
}

/// The value that a form holds: both `data` and `avatar` must be there,
/// each once, and `data` must spell a record. The fields are looked at in
/// this order: `data` present, `avatar` present, `data` single, the record,
/// `avatar` single.
pub open spec fn materialized(form: Map<Seq<char>, Occurrences>, quoting: Quoting) -> Result<
    NewUserView,
    RejectionView,
> {
    if !form.contains_key("data"@) {
        Err(RejectionView::MissingField("data"@))
    } else if !form.contains_key("avatar"@) {
        Err(RejectionView::MissingField("avatar"@))
    } else {
        match form["data"@] {
            Occurrences::Multiple(_) => Err(RejectionView::UnexpectedMultipleOccurrence("data"@)),
            Occurrences::Single(data) => match user_of_payload(data.bytes, quoting) {
                Err(e) => Err(e),
                Ok(user) => match form["avatar"@] {
                    Occurrences::Multiple(_) => Err(
                        RejectionView::UnexpectedMultipleOccurrence("avatar"@),
                    ),
                    Occurrences::Single(avatar) => Ok(
                        NewUserView { avatar: avatar.bytes, user },
                    ),
                },
            },
        }
    }
}

/// Executable form of [`requote`].
pub fn requoted(text: &[u8]) -> (r: Vec<u8>)
    ensures
        r@ == requote(text@),
{
    let mut r: Vec<u8> = Vec::new();
    let mut i: usize = 0;
    while i < text.len()
        invariant
            i <= text.len(),
            r@ == requote(text@.take(i as int)),
        decreases text.len() - i,
    {
        let b: u8 = text[i];
        r.push(if b == 0x27u8 { 0x22u8 } else { b });
        assert(r@ =~= requote(text@.take(i + 1)));
        i += 1;
    }
    assert(text@.take(text.len() as int) =~= text@);
    r
}

/// The first member whose key is `key`.
fn find_member<'a>(members: &'a Vec<JsonMember>, key: &String) -> (r: Option<&'a JsonMember>)
    ensures
        match r {
            Some(m) => member_named(member_views(members@), key@) == Some(m@),
            None => member_named(member_views(members@), key@) is None,
        },
{
    let ghost keys = member_views(members@).map_values(|m: JsonMemberView| m.key);
    let mut i: usize = 0;
    while i < members.len()
        invariant
            i <= members.len(),
            keys == member_views(members@).map_values(|m: JsonMemberView| m.key),
            forall|a: int| 0 <= a < i ==> keys[a] != key@,
        decreases members.len() - i,
    {
        if members[i].key == *key {
            proof {
                assert(keys[i as int] == key@);
                keys.index_of_first_ensures(key@);
            }
            return Some(&members[i]);
        }
        i += 1;
    }
    proof {
        keys.index_of_first_ensures(key@);
    }
    None
}

fn malformed(detail: &str) -> (r: Rejection)
    ensures
        r@ == RejectionView::MalformedPayload(detail@),
{
    Rejection::MalformedPayload(String::from_str(detail))
}

/// Reads the record from the members of a JSON object.
pub fn user_from_members(members: &Vec<JsonMember>) -> (r: Result<User, Rejection>)
    ensures
        match user_of(member_views(members@)) {
            Ok(user) => r matches Ok(u) && u@ == user,
            Err(detail) => r matches Err(e) && e@ == RejectionView::MalformedPayload(detail),
        },
{
    let name = match find_member(members, &String::from_str("name")) {
        None => {
            return Err(malformed("missing field `name`"));
        },
        Some(member) => match &member.text {
            None => {
                return Err(malformed("field `name` is not a string"));
            },
            Some(text) => text.clone(),
        },
    };
    match find_member(members, &String::from_str("age")) {
        None => Err(malformed("missing field `age`")),
        Some(member) => match member.integer {
            None => Err(malformed("field `age` is not a 32-bit integer")),
            Some(age) => {
                if -2147483648 <= age && age <= 2147483647 {
                    Ok(User { name, age: age as i32 })
                } else {
                    Err(malformed("field `age` is not a 32-bit integer"))
                }
            },
        },
    }
}

/// Reads the record from a text payload.
pub fn parse_user(text: &[u8], quoting: Quoting) -> (r: Result<User, Rejection>)
    ensures
        match user_of_payload(text@, quoting) {
            Ok(user) => r matches Ok(u) && u@ == user,
            Err(rejection) => r matches Err(e) && e@ == rejection,
        },
{
    let reading = match quoting {
        Quoting::Strict => read_json_object(text),
        Quoting::Lenient => {
            let replaced = requoted(text);
            read_json_object(replaced.as_slice())
        },
    };
    match reading {
        Err(detail) => Err(Rejection::MalformedPayload(detail)),
        Ok(members) => user_from_members(&members),
    }
}

/// Takes from the form what the domain needs and assembles the value.
pub fn materialize(form: &EnforcedForm, quoting: Quoting) -> (r: Result<NewUser, Rejection>)
    ensures
        match materialized(form@, quoting) {
            Ok(value) => r matches Ok(v) && v@ == value,
            Err(rejection) => r matches Err(e) && e@ == rejection,
        },
{
    let data_name = String::from_str("data");
    let avatar_name = String::from_str("avatar");
    let data = match form.get(&data_name) {
        Some(found) => found,
        None => {
            return Err(Rejection::MissingField(data_name));
        },
    };
    let avatar = match form.get(&avatar_name) {
        Some(found) => found,
        None => {
            return Err(Rejection::MissingField(avatar_name));
        },
    };
    let user = match data {
        FieldOccurrence::Multiple(_) => {
            return Err(Rejection::UnexpectedMultipleOccurrence(data_name));
        },
        FieldOccurrence::Single(part) => match parse_user(part.bytes.as_slice(), quoting) {
            Ok(user) => user,
            Err(rejection) => {
                return Err(rejection);
            },
        },
    };
    match avatar {
        FieldOccurrence::Multiple(_) => Err(Rejection::UnexpectedMultipleOccurrence(avatar_name)),
        FieldOccurrence::Single(part) => Ok(
            NewUser { avatar: slice_to_vec(part.bytes.as_slice()), user },
        ),
    }
}

} // verus!
