//! The slot that holds the saved credentials.

use vstd::prelude::*;
use vstd::std_specs::convert::FromSpecImpl;
use vstd::string::StringExecFns;
use crate::services::auth::record::{
    decode_credentials,
    decoded,
    encode_credentials,
    encoded,
    lemma_encoding_round_trip,
};
use crate::services::auth::types::{AccessKeyCredentials, CredentialText};
use crate::storage::{KeyValueStore, MemoryStore, StoreWriteError};
use crate::types::{JsonData, SerdeJsonError};

verus! {

/// Why no credentials came out of the slot.
#[derive(Debug, Clone, Copy, PartialEq, Eq, Structural)]
pub enum QueryCredentialError {
    /// Nothing has been saved. This is an ordinary answer, not a fault.
    NotExist,
    /// What the slot holds is not an access key pair.
    DeserializeError(SerdeJsonError),
}

/// Why credentials did not go into the slot.
#[derive(Debug, Clone, PartialEq, Eq)]
pub enum SaveCredentialError {
    /// The credentials could not be written down as a structured value.
    SerializeError(SerdeJsonError),
    /// The store did not take the value.
    WriteError(StoreWriteError),
}

impl From<SerdeJsonError> for QueryCredentialError {
    fn from(value: SerdeJsonError) -> (error: Self) {
        QueryCredentialError::DeserializeError(value)
    }
}

impl FromSpecImpl<SerdeJsonError> for QueryCredentialError {
    open spec fn obeys_from_spec() -> bool {
        true
    }

    open spec fn from_spec(value: SerdeJsonError) -> Self {
        QueryCredentialError::DeserializeError(value)
    }
}

impl From<SerdeJsonError> for SaveCredentialError {
    fn from(value: SerdeJsonError) -> (error: Self) {
        SaveCredentialError::SerializeError(value)
    }
}

impl FromSpecImpl<SerdeJsonError> for SaveCredentialError {
    open spec fn obeys_from_spec() -> bool {
        true
    }

    open spec fn from_spec(value: SerdeJsonError) -> Self {
        SaveCredentialError::SerializeError(value)
    }
}

impl QueryCredentialError {
    /// The text of [`QueryCredentialError::message`].
    pub open spec fn message_text(&self) -> Seq<char> {
        match self {
            QueryCredentialError::NotExist => "access key credential hasn't been saved"@,
            QueryCredentialError::DeserializeError(fault) => {
                "failed to deserialize credential using serde_json: "@ + fault.message_text()
            },
        }
    }

    /// What to tell the user.
    pub fn message(&self) -> (text: String)
        ensures
            text@ == self.message_text(),
    {
        match self {
            QueryCredentialError::NotExist => "access key credential hasn't been saved".to_owned(),
            QueryCredentialError::DeserializeError(fault) => {
                let detail = fault.message();
                "failed to deserialize credential using serde_json: ".to_owned().concat(
                    detail.as_str(),
                )
            },
        }
    }
}

impl SaveCredentialError {
    /// The text of [`SaveCredentialError::message`].
    pub open spec fn message_text(&self) -> Seq<char> {
        match self {
            SaveCredentialError::SerializeError(fault) => {
                "failed to serialize credential using serde_json: "@ + fault.message_text()
            },
            SaveCredentialError::WriteError(fault) => {
                "failed to store credential: "@ + fault.message@
            },
        }
    }

    /// What to tell the user.
    pub fn message(&self) -> (text: String)
        ensures
            text@ == self.message_text(),
    {
        match self {
            SaveCredentialError::SerializeError(fault) => {
                let detail = fault.message();
                "failed to serialize credential using serde_json: ".to_owned().concat(
                    detail.as_str(),
                )
            },
            SaveCredentialError::WriteError(fault) => {
                "failed to store credential: ".to_owned().concat(fault.message.as_str())
            },
        }
    }
}

/// Why credentials did not go into the slot, as a value to reason about.
pub enum SaveFault {
    /// The credentials could not be written down, for this reason.
    Serialize(SerdeJsonError),
    /// The store did not take the value, and said this.
    Write(Seq<char>),
}

/// The fault that an error of saving reports.
pub open spec fn fault_of(error: SaveCredentialError) -> SaveFault {
    match error {
        SaveCredentialError::SerializeError(fault) => SaveFault::Serialize(fault),
        SaveCredentialError::WriteError(fault) => SaveFault::Write(fault.message@),
    }
}

/// What a slot for credentials holds.
pub enum Slot<T> {
    /// Nothing.
    Absent,
    /// Something that is not a credential, with the reason.
    Malformed(SerdeJsonError),
    /// This credential.
    Holds(T),
}

/// Whether `outcome` is what asking a place with this slot gives: the
/// credential it holds, the fault of what it holds instead, or that it holds
/// nothing.
pub open spec fn reports<C: View>(
    slot: Slot<C::V>,
    outcome: Result<C, QueryCredentialError>,
) -> bool {
    match slot {
        Slot::Absent => outcome matches Err(QueryCredentialError::NotExist),
        Slot::Malformed(fault) => outcome matches Err(
            QueryCredentialError::DeserializeError(reported),
        ) && reported == fault,
        Slot::Holds(credential) => outcome matches Ok(found) && found@ == credential,
    }
}

/// Whether saving `credential` can lead from the slot `before` to the slot
/// `after` with this outcome, in a place that takes the credential or not, as
/// `taken` says, and that refuses with the fault `refused` where it does not.
///
/// Saving succeeds exactly where the credential is taken, which the slot then
/// holds. Where it fails it leaves the slot alone and reports `refused`.
pub open spec fn saves<T>(
    before: Slot<T>,
    after: Slot<T>,
    taken: bool,
    refused: SaveFault,
    credential: T,
    outcome: Result<(), SaveCredentialError>,
) -> bool {
    &&& outcome is Ok <==> taken
    &&& outcome is Ok ==> after == Slot::Holds(credential)
    &&& outcome is Err ==> after == before
    &&& outcome matches Err(error) ==> fault_of(error) == refused
}

/// Whether deleting can lead from the slot `before` to the slot `after` with
/// this answer: the slot is empty afterwards, and the answer says whether it
/// was before.
pub open spec fn deletes<T>(before: Slot<T>, after: Slot<T>, removed: bool) -> bool {
    &&& removed == !(before is Absent)
    &&& after is Absent
}

/// A place for at most one credential.
pub trait AuthStore<C: View> {
    /// What the place holds.
    spec fn slot(&self) -> Slot<C::V>;

    /// Whether the place, as it is, takes this credential.
    spec fn takes(&self, credential: C::V) -> bool;

    /// The fault that the place, as it is, reports where it does not take
    /// this credential.
    spec fn refusal(&self, credential: C::V) -> SaveFault;

    /// Puts the credential in the place of what was there.
    fn save(&mut self, credential: C) -> (outcome: Result<(), SaveCredentialError>)
        ensures
            saves(
                old(self).slot(),
                final(self).slot(),
                old(self).takes(credential@),
                old(self).refusal(credential@),
                credential@,
                outcome,
            ),
    ;

    /// The credential that was saved.
    fn query(&self) -> (outcome: Result<C, QueryCredentialError>)
        ensures
            reports(self.slot(), outcome),
    ;

    /// Empties the place, and says whether it held anything.
    fn delete(&mut self) -> (removed: bool)
        ensures
            deletes(old(self).slot(), final(self).slot(), removed),
    ;
}

/// What was saved is what is found: asking after a successful save gives the
/// credential that was saved.
pub proof fn lemma_saved_is_found<C: View>(
    before: Slot<C::V>,
    after: Slot<C::V>,
    taken: bool,
    refused: SaveFault,
    credential: C::V,
    saved: Result<(), SaveCredentialError>,
    found: Result<C, QueryCredentialError>,
)
    requires
        saves(before, after, taken, refused, credential, saved),
        saved is Ok,
        reports(after, found),
    ensures
        found matches Ok(credentials) && credentials@ == credential,
{
}

/// A save that fails changes nothing that can be asked for, and reports the
/// fault with which the place refuses.
pub proof fn lemma_failed_save_keeps_slot<C: View>(
    before: Slot<C::V>,
    after: Slot<C::V>,
    taken: bool,
    refused: SaveFault,
    credential: C::V,
    saved: Result<(), SaveCredentialError>,
    found: Result<C, QueryCredentialError>,
)
    requires
        saves(before, after, taken, refused, credential, saved),
        saved is Err,
        reports(after, found),
    ensures
        reports(before, found),
        !taken,
        fault_of(saved->Err_0) == refused,
{
}

/// Deleting after a successful save removes something, and asking
/// afterwards finds that nothing is saved.
pub proof fn lemma_deleted_is_gone<C: View>(
    before: Slot<C::V>,
    filled: Slot<C::V>,
    emptied: Slot<C::V>,
    taken: bool,
    refused: SaveFault,
    credential: C::V,
    saved: Result<(), SaveCredentialError>,
    removed: bool,
    found: Result<C, QueryCredentialError>,
)
    requires
        saves(before, filled, taken, refused, credential, saved),
        saved is Ok,
        deletes(filled, emptied, removed),
        reports(emptied, found),
    ensures
        removed,
        found matches Err(QueryCredentialError::NotExist),
{
}

/// Deleting from an empty place removes nothing, and leaves it empty.
pub proof fn lemma_delete_on_empty<T>(before: Slot<T>, after: Slot<T>, removed: bool)
    requires
        before is Absent,
        deletes(before, after, removed),
    ensures
        !removed,
        after is Absent,
{
}

/// A place that holds something other than a credential answers with the
/// fault of what it holds, never with a credential and never with the answer
/// that nothing is saved.
pub proof fn lemma_malformed_is_reported<C: View>(
    fault: SerdeJsonError,
    found: Result<C, QueryCredentialError>,
)
    requires
        reports(Slot::<C::V>::Malformed(fault), found),
    ensures
        found matches Err(QueryCredentialError::DeserializeError(reported)) && reported == fault,
{
}

/// The key of the one store entry that holds the access key credentials.
pub const ACCESS_KEY_CREDENTIAL_STORE_KEY: &'static str = "access_key_credential";

/// The credentials' place in a key/value store: the single entry under
/// [`ACCESS_KEY_CREDENTIAL_STORE_KEY`]. No other entry is read or written.
pub struct AccessKeyAuthStore<S: KeyValueStore> {
    pub store: S,
}

impl<S: KeyValueStore> AccessKeyAuthStore<S> {
    /// The credentials' place in `store`, which is left as it is.
    pub fn new(store: S) -> (auth_store: Self)
        ensures
            auth_store.store == store,
    {
        AccessKeyAuthStore { store }
    }
}

impl From<MemoryStore> for AccessKeyAuthStore<MemoryStore> {
    fn from(value: MemoryStore) -> (auth_store: Self) {
        AccessKeyAuthStore::new(value)
    }
}

impl FromSpecImpl<MemoryStore> for AccessKeyAuthStore<MemoryStore> {
    open spec fn obeys_from_spec() -> bool {
        true
    }

    open spec fn from_spec(value: MemoryStore) -> Self {
        AccessKeyAuthStore { store: value }
    }
}

/// What the entry for the credentials says about the slot.
pub open spec fn slot_of(entries: Map<Seq<char>, JsonData>) -> Slot<CredentialText> {
    if entries.contains_key(ACCESS_KEY_CREDENTIAL_STORE_KEY@) {
        match decoded(entries[ACCESS_KEY_CREDENTIAL_STORE_KEY@]) {
            Ok(credentials) => Slot::Holds(credentials),
            Err(fault) => Slot::Malformed(fault),
        }
    } else {
        Slot::Absent
    }
}

/// The slot is read from the one entry under the credentials' key: entries
/// under other keys do not matter, an entry that does not read as an access
/// key pair makes the slot malformed, and one that does makes it hold that
/// pair.
pub proof fn lemma_slot_of_entry(
    entries: Map<Seq<char>, JsonData>,
    other: Map<Seq<char>, JsonData>,
)
    requires
        entries.contains_key(ACCESS_KEY_CREDENTIAL_STORE_KEY@) == other.contains_key(
            ACCESS_KEY_CREDENTIAL_STORE_KEY@,
        ),
        entries.contains_key(ACCESS_KEY_CREDENTIAL_STORE_KEY@)
            ==> entries[ACCESS_KEY_CREDENTIAL_STORE_KEY@] == other[ACCESS_KEY_CREDENTIAL_STORE_KEY@],
    ensures
        slot_of(entries) == slot_of(other),
        slot_of(entries) is Absent <==> !entries.contains_key(ACCESS_KEY_CREDENTIAL_STORE_KEY@),
        slot_of(entries) matches Slot::Malformed(fault) ==> decoded(
            entries[ACCESS_KEY_CREDENTIAL_STORE_KEY@],
        ) == Err::<CredentialText, SerdeJsonError>(fault),
        slot_of(entries) matches Slot::Holds(credentials) ==> decoded(
            entries[ACCESS_KEY_CREDENTIAL_STORE_KEY@],
        ) == Ok::<CredentialText, SerdeJsonError>(credentials),
{
}

impl<S: KeyValueStore> AuthStore<AccessKeyCredentials> for AccessKeyAuthStore<S> {
    open spec fn slot(&self) -> Slot<CredentialText> {
        slot_of(self.store.entries())
    }

    open spec fn takes(&self, credential: CredentialText) -> bool {
        self.store.accepts(ACCESS_KEY_CREDENTIAL_STORE_KEY@, encoded(credential))
    }

    open spec fn refusal(&self, credential: CredentialText) -> SaveFault {
        SaveFault::Write(
            self.store.fault_text(ACCESS_KEY_CREDENTIAL_STORE_KEY@, encoded(credential)),
        )
    }

    fn save(&mut self, credential: AccessKeyCredentials) -> (outcome: Result<
        (),
        SaveCredentialError,
    >)
        ensures
            final(self).store.entries() == if outcome is Ok {
                old(self).store.entries().insert(
                    ACCESS_KEY_CREDENTIAL_STORE_KEY@,
                    encoded(credential@),
                )
            } else {
                old(self).store.entries()
            },
    {
        let value = encode_credentials(&credential);
        proof {
            lemma_encoding_round_trip(credential@);
        }
        match self.store.set(ACCESS_KEY_CREDENTIAL_STORE_KEY, value) {
            Ok(()) => Ok(()),
            Err(fault) => Err(SaveCredentialError::WriteError(fault)),
        }
    }

    fn query(&self) -> (outcome: Result<AccessKeyCredentials, QueryCredentialError>) {
        match self.store.get(ACCESS_KEY_CREDENTIAL_STORE_KEY) {
            None => Err(QueryCredentialError::NotExist),
            Some(value) => match decode_credentials(&value) {
                Ok(credentials) => Ok(credentials),
                Err(fault) => Err(QueryCredentialError::from(fault)),
            },
        }
    }

    fn delete(&mut self) -> (removed: bool)
        ensures
            final(self).store.entries() == old(self).store.entries().remove(
                ACCESS_KEY_CREDENTIAL_STORE_KEY@,
            ),
    {
        self.store.delete(ACCESS_KEY_CREDENTIAL_STORE_KEY)
    }
}

} // verus!
