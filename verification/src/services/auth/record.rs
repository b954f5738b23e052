//! How an access key pair is written down as a structured value.
//!
//! The pair is written as an object with the two members `access_key_id` and
//! `access_key_secret`, both texts. It is read back from such an object,
//! whatever other members the object has, and also from a list of exactly two
//! texts, the id first.

use vstd::prelude::*;
use crate::text::same_text;
use crate::services::auth::types::{
    field_name,
    AccessKeyCredentials,
    CredentialField,
    CredentialText,
};
use crate::types::{
    lemma_array_view,
    lemma_object_view,
    members_data,
    JsonData,
    JsonMember,
    JsonValue,
    MemberData,
    SerdeJsonError,
};

verus! {

/// The names of the members, in their order.
pub open spec fn member_names(members: Seq<MemberData>) -> Seq<Seq<char>> {
    Seq::new(members.len(), |i: int| members[i].name)
}

/// The value of the first member with this name.
pub open spec fn member(members: Seq<MemberData>, name: Seq<char>) -> Option<JsonData> {
    match member_names(members).index_of_first(name) {
        Some(at) => Some(members[at].value),
        None => None,
    }
}

/// The structured value that stands for an access key pair.
pub open spec fn encoded(credentials: CredentialText) -> JsonData {
    JsonData::Object(
        seq![
            MemberData {
                name: field_name(CredentialField::AccessKeyId),
                value: JsonData::String(credentials.access_key_id),
            },
            MemberData {
                name: field_name(CredentialField::AccessKeySecret),
                value: JsonData::String(credentials.access_key_secret),
            },
        ],
    )
}

/// The access key pair that a structured value stands for, or why it stands
/// for none.
///
/// Of several faults the one reported is, in this order: an id that is not a
/// text, a secret that is not a text, a missing id, a missing secret. In a
/// list the items are judged in their order, and a surplus of items last.
pub open spec fn decoded(value: JsonData) -> Result<CredentialText, SerdeJsonError> {
    match value {
        JsonData::Object(members) => {
            let id = member(members, field_name(CredentialField::AccessKeyId));
            let secret = member(members, field_name(CredentialField::AccessKeySecret));
            if id is Some && !(id->0 is String) {
                Err(SerdeJsonError::InvalidField(CredentialField::AccessKeyId))
            } else if secret is Some && !(secret->0 is String) {
                Err(SerdeJsonError::InvalidField(CredentialField::AccessKeySecret))
            } else if id is None {
                Err(SerdeJsonError::MissingField(CredentialField::AccessKeyId))
            } else if secret is None {
                Err(SerdeJsonError::MissingField(CredentialField::AccessKeySecret))
            } else {
                Ok(
                    CredentialText {
                        access_key_id: id->0->String_0,
                        access_key_secret: secret->0->String_0,
                    },
                )
            }
        },
        JsonData::Array(items) => {
            if items.len() == 0 {
                Err(SerdeJsonError::InvalidLength)
            } else if !(items[0] is String) {
                Err(SerdeJsonError::InvalidField(CredentialField::AccessKeyId))
            } else if items.len() == 1 {
                Err(SerdeJsonError::InvalidLength)
            } else if !(items[1] is String) {
                Err(SerdeJsonError::InvalidField(CredentialField::AccessKeySecret))
            } else if items.len() > 2 {
                Err(SerdeJsonError::InvalidLength)
            } else {
                Ok(
                    CredentialText {
                        access_key_id: items[0]->String_0,
                        access_key_secret: items[1]->String_0,
                    },
                )
            }
        },
        _ => Err(SerdeJsonError::InvalidType),
    }
}

/// Whether `outcome` is what reading `value` gives.
pub open spec fn reads_as(
    value: JsonData,
    outcome: Result<AccessKeyCredentials, SerdeJsonError>,
) -> bool {
    match decoded(value) {
        Ok(text) => outcome matches Ok(credentials) && credentials@ == text,
        Err(fault) => outcome == Err::<AccessKeyCredentials, SerdeJsonError>(fault),
    }
}

/// Reading what was written gives the pair back, whatever the pair.
pub proof fn lemma_encoding_round_trip(credentials: CredentialText)
    ensures
        decoded(encoded(credentials)) == Ok::<CredentialText, SerdeJsonError>(credentials),
{
    reveal_strlit("access_key_id");
    reveal_strlit("access_key_secret");
    let id = field_name(CredentialField::AccessKeyId);
    let secret = field_name(CredentialField::AccessKeySecret);
    assert(id.len() != secret.len());
    let members = encoded(credentials)->Object_0;
    let names = member_names(members);
    assert(names[0] == id);
    assert(names[1] == secret);
    names.index_of_first_ensures(id);
    names.index_of_first_ensures(secret);
}

/// Writes an access key pair down.
pub fn encode_credentials(credentials: &AccessKeyCredentials) -> (value: JsonValue)
    ensures
        value@ == encoded(credentials@),
{
    let mut members: Vec<JsonMember> = Vec::new();
    members.push(
        JsonMember {
            name: CredentialField::AccessKeyId.name().to_owned(),
            value: JsonValue::String(credentials.access_key_id.clone()),
        },
    );
    members.push(
        JsonMember {
            name: CredentialField::AccessKeySecret.name().to_owned(),
            value: JsonValue::String(credentials.access_key_secret.clone()),
        },
    );
    proof {
        lemma_object_view(members);
        assert(members_data(members@) =~= encoded(credentials@)->Object_0);
    }
    JsonValue::Object(members)
}

/// Finds the first member with this name.
fn find_member<'a>(members: &'a Vec<JsonMember>, name: &str) -> (found: Option<&'a JsonValue>)
    ensures
        match found {
            Some(value) => member(members_data(members@), name@) == Some(value@),
            None => member(members_data(members@), name@) is None,
        },
{
    let ghost names = member_names(members_data(members@));
    let mut at: usize = 0;
    while at < members.len()
        invariant
            at <= members@.len(),
            names == member_names(members_data(members@)),
            forall|i: int| 0 <= i < at ==> names[i] != name@,
        decreases members@.len() - at,
    {
        if same_text(members[at].name.as_str(), name) {
            proof {
                names.index_of_first_ensures(name@);
                assert(names[at as int] == name@);
            }
            return Some(&members[at].value);
        }
        at += 1;
    }
    proof {
        names.index_of_first_ensures(name@);
    }
    None
}

/// Reads an access key pair back.
pub fn decode_credentials(value: &JsonValue) -> (outcome: Result<
    AccessKeyCredentials,
    SerdeJsonError,
>)
    ensures
        reads_as(value@, outcome),
{
    match value {
        JsonValue::Object(members) => {
            proof {
                lemma_object_view(*members);
            }
            let id = find_member(members, CredentialField::AccessKeyId.name());
            let secret = find_member(members, CredentialField::AccessKeySecret.name());
            match (id, secret) {
                (Some(JsonValue::String(id)), Some(JsonValue::String(secret))) => Ok(
                    AccessKeyCredentials {
                        access_key_id: id.clone(),
                        access_key_secret: secret.clone(),
                    },
                ),
                (Some(JsonValue::String(_)), Some(_)) => Err(
                    SerdeJsonError::InvalidField(CredentialField::AccessKeySecret),
                ),
                (Some(JsonValue::String(_)), None) => Err(
                    SerdeJsonError::MissingField(CredentialField::AccessKeySecret),
                ),
                (Some(_), _) => Err(SerdeJsonError::InvalidField(CredentialField::AccessKeyId)),
                (None, Some(JsonValue::String(_))) => Err(
                    SerdeJsonError::MissingField(CredentialField::AccessKeyId),
                ),
                (None, Some(_)) => Err(
                    SerdeJsonError::InvalidField(CredentialField::AccessKeySecret),
                ),
                (None, None) => Err(SerdeJsonError::MissingField(CredentialField::AccessKeyId)),
            }
        },
        JsonValue::Array(items) => {
            proof {
                lemma_array_view(*items);
            }
            if items.len() == 0 {
                return Err(SerdeJsonError::InvalidLength);
            }
            let id = match &items[0] {
                JsonValue::String(id) => id.clone(),
                _ => {
                    return Err(SerdeJsonError::InvalidField(CredentialField::AccessKeyId));
                },
            };
            if items.len() == 1 {
                return Err(SerdeJsonError::InvalidLength);
            }
            let secret = match &items[1] {
                JsonValue::String(secret) => secret.clone(),
                _ => {
                    return Err(SerdeJsonError::InvalidField(CredentialField::AccessKeySecret));
                },
            };
            if items.len() > 2 {
                return Err(SerdeJsonError::InvalidLength);
            }
            Ok(AccessKeyCredentials { access_key_id: id, access_key_secret: secret })
        },
        _ => Err(SerdeJsonError::InvalidType),
    }
}

} // verus!
