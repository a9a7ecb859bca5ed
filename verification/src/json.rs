use crate::error::Error;
use std::collections::BTreeMap;
use vstd::prelude::*;
use vstd::string::StringSliceAdditionalSpecFns;

verus! {

/// One member of a JSON object, as far as the envelope reads it.
#[derive(Debug, Clone, PartialEq, Eq)]
pub struct Member {
    /// The member's name.
    pub name: String,
    /// The member's value, where that is a string.
    pub text: Option<String>,
    /// The member's value as JSON text.
    pub json: String,
}

/// A member as plain values.
pub ghost struct MemberView {
    pub name: Seq<char>,
    pub text: Option<Seq<char>>,
    pub json: Seq<char>,
}

impl View for Member {
    type V = MemberView;

    open spec fn view(&self) -> MemberView {
        MemberView {
            name: self.name@,
            text: match self.text {
                Some(text) => Some(text@),
                None => None,
            },
            json: self.json@,
        }
    }
}

/// The members of a list as plain values.
pub open spec fn members_view(members: Seq<Member>) -> Seq<MemberView> {
    members.map_values(|m: Member| m@)
}

/// What `serde_json::to_string` writes for a string: its JSON literal, with
/// the quotes and the escapes.
pub uninterp spec fn json_string_literal(text: Seq<char>) -> Seq<char>;

/// What `serde_json::from_slice` reads from `body` as a map from strings to
/// values: the members of the object, ordered by name, or the parser's words
/// where `body` is no JSON object.
pub uninterp spec fn json_object(body: Seq<u8>) -> Result<Seq<MemberView>, Seq<char>>;

/// Calls `serde_json::to_string` on a string. The contract names the
/// literal, and claims that the call succeeds: the serializer writes a string
/// into a vector of bytes, which takes every write. An error would come back
/// as its message.
#[verifier::external_body]
fn write_string(text: &str) -> (r: Result<String, String>)
    ensures
        r is Ok,
        r matches Ok(literal) ==> literal@ == json_string_literal(text@),
{
    serde_json::to_string(text).map_err(|e| e.to_string())
}

/// Calls `serde_json::from_slice` for a `BTreeMap` from `String` to `Value`,
/// and hands each entry out as a `Member`: the string that `Value::as_str`
/// finds and the text that `Value::to_string` writes. The contract names the
/// outcome; an error comes back as its message.
#[verifier::external_body]
pub(crate) fn read_object(body: &[u8]) -> (r: Result<Vec<Member>, String>)
    ensures
        match r {
            Ok(members) => json_object(body@) == Ok::<Seq<MemberView>, Seq<char>>(
                members_view(members@),
            ),
            Err(message) => json_object(body@) == Err::<Seq<MemberView>, Seq<char>>(message@),
        },
{
    match serde_json::from_slice::<BTreeMap<String, serde_json::Value>>(body) {
        Ok(map) => Ok(
            map.into_iter().map(
                |(name, value)|
                    Member {
                        text: value.as_str().map(String::from),
                        json: value.to_string(),
                        name,
                    },
            ).collect(),
        ),
        Err(e) => Err(e.to_string()),
    }
}

/// Writes a string as a JSON literal, which succeeds on every string.
pub fn string_literal(text: &str) -> (r: Result<String, Error>)
    ensures
        r matches Ok(literal) && literal@ == json_string_literal(text@),
{
    match write_string(text) {
        Ok(literal) => Ok(literal),
        Err(message) => Err(Error::Serialize(message)),
    }
}

/// A flag as JSON text.
pub open spec fn json_bool(flag: bool) -> Seq<char> {
    if flag {
        "true"@
    } else {
        "false"@
    }
}

/// Writes a flag as JSON text.
pub fn bool_literal(flag: bool) -> (r: &'static str)
    ensures
        r@ == json_bool(flag),
{
    if flag {
        "true"
    } else {
        "false"
    }
}

/// Whether two strings hold the same characters.
pub fn same_text(a: &str, b: &str) -> (same: bool)
    ensures
        same == (a@ == b@),
{
    let x = a.as_bytes();
    let y = b.as_bytes();
    proof {
        vstd::utf8::encode_utf8_decode_utf8(a@);
        vstd::utf8::encode_utf8_decode_utf8(b@);
    }
    if x.len() != y.len() {
        return false;
    }
    let mut i: usize = 0;
    while i < x.len()
        invariant
            i <= x@.len(),
            x@.len() == y@.len(),
            x@ == a.spec_bytes(),
            y@ == b.spec_bytes(),
            forall|j: int| 0 <= j < i ==> x@[j] == y@[j],
        decreases x@.len() - i,
    {
        if x[i] != y[i] {
            return false;
        }
        i = i + 1;
    }
    assert(x@ =~= y@);
    true
}

/// The place of the first member called `name`, if there is one.
pub open spec fn position_of(members: Seq<MemberView>, name: Seq<char>) -> Option<int>
    decreases members.len(),
{
    if members.len() == 0 {
        None
    } else if members[0].name == name {
        Some(0)
    } else {
        match position_of(members.drop_first(), name) {
            Some(i) => Some(i + 1),
            None => None,
        }
    }
}

/// The first member called `name`, if there is one.
pub open spec fn member_named(members: Seq<MemberView>, name: Seq<char>) -> Option<MemberView> {
    match position_of(members, name) {
        Some(i) => Some(members[i]),
        None => None,
    }
}

/// What `position_of` finds is the first place with that name.
pub proof fn lemma_position_of(members: Seq<MemberView>, name: Seq<char>)
    ensures
        match position_of(members, name) {
            Some(i) => 0 <= i < members.len() && members[i].name == name && forall|j: int|
                0 <= j < i ==> members[j].name != name,
            None => forall|j: int| 0 <= j < members.len() ==> members[j].name != name,
        },
    decreases members.len(),
{
    if members.len() > 0 && members[0].name != name {
        let rest = members.drop_first();
        lemma_position_of(rest, name);
        match position_of(rest, name) {
            Some(i) => {
                assert forall|j: int| 0 <= j < i + 1 implies members[j].name != name by {
                    if j > 0 {
                        assert(rest[j - 1].name != name);
                    }
                }
            },
            None => {
                assert forall|j: int| 0 <= j < members.len() implies members[j].name != name by {
                    if j > 0 {
                        assert(rest[j - 1].name != name);
                    }
                }
            },
        }
    }
}

/// A place that holds `name` with no such place before it is what
/// `position_of` finds.
pub proof fn lemma_position_is(members: Seq<MemberView>, name: Seq<char>, i: int)
    requires
        0 <= i <= members.len(),
        forall|j: int| 0 <= j < i ==> members[j].name != name,
        i < members.len() ==> members[i].name == name,
    ensures
        position_of(members, name) == if i < members.len() {
            Some(i)
        } else {
            None
        },
{
    lemma_position_of(members, name);
}

/// Finds the first member called `name`.
pub fn find_member<'a>(members: &'a Vec<Member>, name: &str) -> (r: Option<&'a Member>)
    ensures
        match r {
            Some(member) => member_named(members_view(members@), name@) == Some(member@),
            None => member_named(members_view(members@), name@) is None,
        },
{
    let mut i: usize = 0;
    while i < members.len()
        invariant
            i <= members@.len(),
            forall|j: int| 0 <= j < i ==> members_view(members@)[j].name != name@,
        decreases members@.len() - i,
    {
        if same_text(members[i].name.as_str(), name) {
            proof {
                lemma_position_is(members_view(members@), name@, i as int);
            }
            return Some(&members[i]);
        }
        i = i + 1;
    }
    proof {
        lemma_position_is(members_view(members@), name@, i as int);
    }
    None
}

} // verus!
