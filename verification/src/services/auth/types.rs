//! The access key pair.

use vstd::prelude::*;
use vstd::std_specs::cmp::PartialEqSpecImpl;

verus! {

/// An access key pair. Both parts are opaque text: whether a pair is valid is
/// decided by the remote identity check alone, never by its shape, so the
/// empty string is a legal value of either part.
#[derive(Debug)]
pub struct AccessKeyCredentials {
    pub access_key_id: String,
    pub access_key_secret: String,
}

/// The mathematical value of an [`AccessKeyCredentials`].
pub struct CredentialText {
    pub access_key_id: Seq<char>,
    pub access_key_secret: Seq<char>,
}

impl View for AccessKeyCredentials {
    type V = CredentialText;

    open spec fn view(&self) -> CredentialText {
        CredentialText {
            access_key_id: self.access_key_id@,
            access_key_secret: self.access_key_secret@,
        }
    }
}

/// One of the two parts of an access key pair.
#[derive(Debug, Clone, Copy, PartialEq, Eq, Structural)]
pub enum CredentialField {
    AccessKeyId,
    AccessKeySecret,
}

/// The name under which a part of the pair is written down.
pub open spec fn field_name(field: CredentialField) -> Seq<char> {
    match field {
        CredentialField::AccessKeyId => "access_key_id"@,
        CredentialField::AccessKeySecret => "access_key_secret"@,
    }
}

impl CredentialField {
    /// The name under which this part of the pair is written down.
    pub fn name(&self) -> (name: &'static str)
        ensures
            name@ == field_name(*self),
    {
        match self {
            CredentialField::AccessKeyId => "access_key_id",
            CredentialField::AccessKeySecret => "access_key_secret",
        }
    }
}

impl AccessKeyCredentials {
    /// Builds the pair from its two parts, which are taken as they are.
    pub fn new(access_key_id: &str, access_key_secret: &str) -> (credentials: Self)
        ensures
            credentials@.access_key_id == access_key_id@,
            credentials@.access_key_secret == access_key_secret@,
    {
        AccessKeyCredentials {
            access_key_id: access_key_id.to_owned(),
            access_key_secret: access_key_secret.to_owned(),
        }
    }
}

impl Clone for AccessKeyCredentials {
    fn clone(&self) -> (copy: Self)
        ensures
            copy@ == self@,
    {
        AccessKeyCredentials {
            access_key_id: self.access_key_id.clone(),
            access_key_secret: self.access_key_secret.clone(),
        }
    }
}

impl PartialEq for AccessKeyCredentials {
    fn eq(&self, other: &Self) -> (equal: bool) {
        self.access_key_id == other.access_key_id && self.access_key_secret
            == other.access_key_secret
    }
}

impl PartialEqSpecImpl for AccessKeyCredentials {
    open spec fn obeys_eq_spec() -> bool {
        true
    }

    open spec fn eq_spec(&self, other: &Self) -> bool {
        self@ == other@
    }
}

} // verus!
