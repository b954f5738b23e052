//! Values shared by the services.

use vstd::prelude::*;
use vstd::string::StringExecFns;
use crate::services::auth::types::{field_name, CredentialField};

verus! {

/// An error known by its description alone.
#[derive(Debug, Clone, PartialEq, Eq)]
pub struct BoxedError {
    pub description: String,
}

impl BoxedError {
    /// An error with this description.
    pub fn new(description: String) -> (error: Self)
        ensures
            error.description == description,
    {
        BoxedError { description }
    }

    /// What to tell the user: the description.
    pub fn message(&self) -> (text: String)
        ensures
            text@ == self.description@,
    {
        self.description.clone()
    }
}

/// Why a structured value is not the access key pair that it should be.
#[derive(Debug, Clone, Copy, PartialEq, Eq, Structural)]
pub enum SerdeJsonError {
    /// The value is neither an object nor a list.
    InvalidType,
    /// The value is a list, but not of two items.
    InvalidLength,
    /// The value is an object without this part of the pair.
    MissingField(CredentialField),
    /// This part of the pair is there, but is not a text.
    InvalidField(CredentialField),
}

impl SerdeJsonError {
    /// The text of [`SerdeJsonError::message`].
    pub open spec fn message_text(&self) -> Seq<char> {
        match self {
            SerdeJsonError::InvalidType => "invalid type: expected an access key pair"@,
            SerdeJsonError::InvalidLength => "invalid length: expected two items"@,
            SerdeJsonError::MissingField(field) => "missing field "@ + field_name(*field),
            SerdeJsonError::InvalidField(field) => "invalid type: expected a text for "@
                + field_name(*field),
        }
    }

    /// What to tell the user.
    pub fn message(&self) -> (text: String)
        ensures
            text@ == self.message_text(),
    {
        match self {
            SerdeJsonError::InvalidType => "invalid type: expected an access key pair".to_owned(),
            SerdeJsonError::InvalidLength => "invalid length: expected two items".to_owned(),
            SerdeJsonError::MissingField(field) => "missing field ".to_owned().concat(
                field.name(),
            ),
            SerdeJsonError::InvalidField(field) => "invalid type: expected a text for ".to_owned()
                .concat(field.name()),
        }
    }
}

/// A structured value as a key/value store holds it: null, a truth value, a
/// number, a text, a list of values, or an object made of named members.
///
/// A number is kept as its decimal text, so that no precision is lost on the
/// way through the store.
#[derive(Debug)]
pub enum JsonValue {
    Null,
    Bool(bool),
    Number(String),
    String(String),
    Array(Vec<JsonValue>),
    Object(Vec<JsonMember>),
}

/// One named member of an object.
#[derive(Debug)]
pub struct JsonMember {
    pub name: String,
    pub value: JsonValue,
}

/// The mathematical value of a [`JsonValue`].
pub enum JsonData {
    Null,
    Bool(bool),
    Number(Seq<char>),
    String(Seq<char>),
    Array(Seq<JsonData>),
    Object(Seq<MemberData>),
}

/// The mathematical value of a [`JsonMember`].
pub struct MemberData {
    pub name: Seq<char>,
    pub value: JsonData,
}

impl View for JsonValue {
    type V = JsonData;

    open spec fn view(&self) -> JsonData
        decreases self,
    {
        match self {
            JsonValue::Null => JsonData::Null,
            JsonValue::Bool(b) => JsonData::Bool(*b),
            JsonValue::Number(n) => JsonData::Number(n@),
            JsonValue::String(s) => JsonData::String(s@),
            JsonValue::Array(items) => JsonData::Array(
                Seq::new(
                    items@.len(),
                    |i: int|
                        if 0 <= i < items@.len() {
                            items@[i].view()
                        } else {
                            JsonData::Null
                        },
                ),
            ),
            JsonValue::Object(members) => JsonData::Object(
                Seq::new(
                    members@.len(),
                    |i: int|
                        if 0 <= i < members@.len() {
                            MemberData { name: members@[i].name@, value: members@[i].value.view() }
                        } else {
                            MemberData { name: Seq::empty(), value: JsonData::Null }
                        },
                ),
            ),
        }
    }
}

impl View for JsonMember {
    type V = MemberData;

    open spec fn view(&self) -> MemberData {
        MemberData { name: self.name@, value: self.value@ }
    }
}

/// The values of a list of items, item by item.
pub open spec fn items_data(items: Seq<JsonValue>) -> Seq<JsonData> {
    Seq::new(items.len(), |i: int| items[i]@)
}

/// The values of a list of members, member by member.
pub open spec fn members_data(members: Seq<JsonMember>) -> Seq<MemberData> {
    Seq::new(members.len(), |i: int| members[i]@)
}

/// A list stands for the list of what its items stand for.
pub proof fn lemma_array_view(items: Vec<JsonValue>)
    ensures
        JsonValue::Array(items)@ == JsonData::Array(items_data(items@)),
{
    assert(JsonValue::Array(items)@->Array_0 =~= items_data(items@));
}

/// An object stands for the list of what its members stand for.
pub proof fn lemma_object_view(members: Vec<JsonMember>)
    ensures
        JsonValue::Object(members)@ == JsonData::Object(members_data(members@)),
{
    assert(JsonValue::Object(members)@->Object_0 =~= members_data(members@));
}

impl Clone for JsonValue {
    fn clone(&self) -> (copy: Self)
        ensures
            copy@ == self@,
        decreases self,
    {
        match self {
            JsonValue::Null => JsonValue::Null,
            JsonValue::Bool(b) => JsonValue::Bool(*b),
            JsonValue::Number(n) => JsonValue::Number(n.clone()),
            JsonValue::String(s) => JsonValue::String(s.clone()),
            JsonValue::Array(items) => {
                let mut copies: Vec<JsonValue> = Vec::new();
                let mut i: usize = 0;
                while i < items.len()
                    invariant
                        *self == JsonValue::Array(*items),
                        i <= items@.len(),
                        copies@.len() == i,
                        forall|k: int| 0 <= k < i ==> (#[trigger] copies@[k])@ == items@[k]@,
                    decreases items@.len() - i,
                {
                    proof {
                        vstd::std_specs::vec::axiom_vec_index_decreases(self->Array_0, i as int);
                        assert(decreases_to!(*self => self->Array_0));
                    }
                    let item = items[i].clone();
                    copies.push(item);
                    i += 1;
                }
                let copy = JsonValue::Array(copies);
                proof {
                    assert(copy@->Array_0 =~= self@->Array_0);
                }
                copy
            },
            JsonValue::Object(members) => {
                let mut copies: Vec<JsonMember> = Vec::new();
                let mut i: usize = 0;
                while i < members.len()
                    invariant
                        *self == JsonValue::Object(*members),
                        i <= members@.len(),
                        copies@.len() == i,
                        forall|k: int| 0 <= k < i ==> (#[trigger] copies@[k])@ == members@[k]@,
                    decreases members@.len() - i,
                {
                    let name = members[i].name.clone();
                    proof {
                        vstd::std_specs::vec::axiom_vec_index_decreases(self->Object_0, i as int);
                        assert(decreases_to!(*self => self->Object_0));
                    }
                    let value = members[i].value.clone();
                    copies.push(JsonMember { name, value });
                    i += 1;
                }
                let copy = JsonValue::Object(copies);
                proof {
                    assert(copy@->Object_0 =~= self@->Object_0);
                }
                copy
            },
        }
    }
}

} // verus!
