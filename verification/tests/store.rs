use aliyun_auth::services::auth::record::{decode_credentials, encode_credentials};
use aliyun_auth::services::auth::store::{
    AccessKeyAuthStore, AuthStore, QueryCredentialError, SaveCredentialError,
    ACCESS_KEY_CREDENTIAL_STORE_KEY,
};
use aliyun_auth::services::auth::types::{AccessKeyCredentials, CredentialField};
use aliyun_auth::storage::{KeyValueStore, MemoryStore};
use aliyun_auth::types::{JsonMember, JsonValue, SerdeJsonError};

fn assert_not_exist(result: Result<AccessKeyCredentials, QueryCredentialError>) {
    match result {
        Ok(value) => unreachable!("The store is not empty, value: {:?}", value),
        Err(error) => assert!(matches!(error, QueryCredentialError::NotExist)),
    }
}

fn text(value: &str) -> JsonValue {
    JsonValue::String(value.to_string())
}

fn member(name: &str, value: JsonValue) -> JsonMember {
    JsonMember { name: name.to_string(), value }
}

fn store_holding(value: JsonValue) -> AccessKeyAuthStore<MemoryStore> {
    let mut store = MemoryStore::new();
    store.set(ACCESS_KEY_CREDENTIAL_STORE_KEY, value).unwrap();
    AccessKeyAuthStore::new(store)
}

#[test]
fn test_access_key_auth_store() {
    let mut auth_store = AccessKeyAuthStore::new(MemoryStore::new());

    let result = auth_store.query();
    assert_not_exist(result);

    let valid_credentials = vec![
        AccessKeyCredentials::new("", ""),
        AccessKeyCredentials::new("YOUR_ACCESS_KEY_ID", "YOUR_ACCESS_KEY_SECRET"),
    ];

    for credential in valid_credentials {
        auth_store.save(credential.clone()).unwrap();
        let queried_credential = match auth_store.query() {
            Ok(found) => found,
            Err(err) => unreachable!(
                "Failed to save the credential {:?}, error: {:?}",
                credential, err
            ),
        };
        assert_eq!(credential.access_key_id, queried_credential.access_key_id);
        assert_eq!(
            credential.access_key_secret,
            queried_credential.access_key_secret
        );
    }

    let deleted = auth_store.delete();
    assert_eq!(deleted, true);
    let result = auth_store.query();
    assert_not_exist(result);
}

#[test]
fn delete_on_empty_store_removes_nothing() {
    let mut auth_store = AccessKeyAuthStore::new(MemoryStore::new());
    assert_eq!(auth_store.delete(), false);
    assert_not_exist(auth_store.query());
    assert_eq!(auth_store.delete(), false);
}

#[test]
fn save_replaces_what_was_saved() {
    let mut auth_store = AccessKeyAuthStore::new(MemoryStore::new());
    auth_store.save(AccessKeyCredentials::new("first", "one")).unwrap();
    auth_store.save(AccessKeyCredentials::new("second", "two")).unwrap();
    assert_eq!(auth_store.query(), Ok(AccessKeyCredentials::new("second", "two")));
    assert_eq!(auth_store.delete(), true);
    assert_eq!(auth_store.delete(), false);
}

#[test]
fn save_touches_the_one_slot_only() {
    let mut store = MemoryStore::new();
    store.set("theme", text("dark")).unwrap();
    let mut auth_store = AccessKeyAuthStore::new(store);
    auth_store.save(AccessKeyCredentials::new("id", "secret")).unwrap();
    assert!(matches!(auth_store.store.get("theme"), Some(JsonValue::String(theme)) if theme == "dark"));
    assert_eq!(auth_store.delete(), true);
    assert!(matches!(auth_store.store.get("theme"), Some(JsonValue::String(theme)) if theme == "dark"));
    assert!(auth_store.store.get(ACCESS_KEY_CREDENTIAL_STORE_KEY).is_none());
}

#[test]
fn the_slot_key_is_fixed() {
    assert_eq!(ACCESS_KEY_CREDENTIAL_STORE_KEY, "access_key_credential");
    let mut auth_store = AccessKeyAuthStore::new(MemoryStore::new());
    auth_store.save(AccessKeyCredentials::new("id", "secret")).unwrap();
    assert!(auth_store.store.get("access_key_credential").is_some());
}

#[test]
fn saved_value_is_an_object_of_two_texts() {
    let value = encode_credentials(&AccessKeyCredentials::new("id", "secret"));
    match value {
        JsonValue::Object(members) => {
            assert_eq!(members.len(), 2);
            assert_eq!(members[0].name, "access_key_id");
            assert!(matches!(&members[0].value, JsonValue::String(id) if id == "id"));
            assert_eq!(members[1].name, "access_key_secret");
            assert!(matches!(&members[1].value, JsonValue::String(secret) if secret == "secret"));
        }
        other => unreachable!("not an object: {:?}", other),
    }
}

#[test]
fn encoding_round_trips() {
    for (id, secret) in [("", ""), ("a", ""), ("", "b"), ("LTAI.x", "s3cr3t/+="), ("键", "秘密")] {
        let credentials = AccessKeyCredentials::new(id, secret);
        let decoded = decode_credentials(&encode_credentials(&credentials));
        assert_eq!(decoded, Ok(credentials));
    }
}

#[test]
fn query_reads_an_object_with_other_members() {
    let auth_store = store_holding(JsonValue::Object(vec![
        member("comment", JsonValue::Null),
        member("access_key_secret", text("secret")),
        member("access_key_id", text("id")),
        member("count", JsonValue::Number("3".to_string())),
    ]));
    assert_eq!(auth_store.query(), Ok(AccessKeyCredentials::new("id", "secret")));
}

#[test]
fn query_reads_a_list_of_two_texts() {
    let auth_store = store_holding(JsonValue::Array(vec![text("id"), text("secret")]));
    assert_eq!(auth_store.query(), Ok(AccessKeyCredentials::new("id", "secret")));
}

#[test]
fn query_takes_the_first_member_of_a_name() {
    let auth_store = store_holding(JsonValue::Object(vec![
        member("access_key_id", text("first")),
        member("access_key_id", text("second")),
        member("access_key_secret", text("secret")),
    ]));
    assert_eq!(auth_store.query(), Ok(AccessKeyCredentials::new("first", "secret")));
}

fn fault_of(value: JsonValue) -> SerdeJsonError {
    match store_holding(value).query() {
        Err(QueryCredentialError::DeserializeError(fault)) => fault,
        other => unreachable!("not a deserialize error: {:?}", other),
    }
}

#[test]
fn query_reports_values_that_are_no_record() {
    assert_eq!(fault_of(JsonValue::Null), SerdeJsonError::InvalidType);
    assert_eq!(fault_of(JsonValue::Bool(true)), SerdeJsonError::InvalidType);
    assert_eq!(fault_of(JsonValue::Number("1".to_string())), SerdeJsonError::InvalidType);
    assert_eq!(fault_of(text("id")), SerdeJsonError::InvalidType);
}

#[test]
fn query_reports_faulty_objects() {
    assert_eq!(
        fault_of(JsonValue::Object(vec![])),
        SerdeJsonError::MissingField(CredentialField::AccessKeyId)
    );
    assert_eq!(
        fault_of(JsonValue::Object(vec![member("access_key_id", text("id"))])),
        SerdeJsonError::MissingField(CredentialField::AccessKeySecret)
    );
    assert_eq!(
        fault_of(JsonValue::Object(vec![member("access_key_secret", text("secret"))])),
        SerdeJsonError::MissingField(CredentialField::AccessKeyId)
    );
    assert_eq!(
        fault_of(JsonValue::Object(vec![
            member("access_key_id", JsonValue::Null),
            member("access_key_secret", text("secret")),
        ])),
        SerdeJsonError::InvalidField(CredentialField::AccessKeyId)
    );
    assert_eq!(
        fault_of(JsonValue::Object(vec![
            member("access_key_id", text("id")),
            member("access_key_secret", JsonValue::Array(vec![])),
        ])),
        SerdeJsonError::InvalidField(CredentialField::AccessKeySecret)
    );
    assert_eq!(
        fault_of(JsonValue::Object(vec![member("access_key_secret", JsonValue::Bool(false))])),
        SerdeJsonError::InvalidField(CredentialField::AccessKeySecret)
    );
    assert_eq!(
        fault_of(JsonValue::Object(vec![
            member("access_key_secret", JsonValue::Null),
            member("access_key_id", JsonValue::Null),
        ])),
        SerdeJsonError::InvalidField(CredentialField::AccessKeyId)
    );
}

#[test]
fn query_reports_faulty_lists() {
    assert_eq!(fault_of(JsonValue::Array(vec![])), SerdeJsonError::InvalidLength);
    assert_eq!(fault_of(JsonValue::Array(vec![text("id")])), SerdeJsonError::InvalidLength);
    assert_eq!(
        fault_of(JsonValue::Array(vec![JsonValue::Null])),
        SerdeJsonError::InvalidField(CredentialField::AccessKeyId)
    );
    assert_eq!(
        fault_of(JsonValue::Array(vec![text("id"), JsonValue::Null])),
        SerdeJsonError::InvalidField(CredentialField::AccessKeySecret)
    );
    assert_eq!(
        fault_of(JsonValue::Array(vec![text("id"), text("secret"), text("more")])),
        SerdeJsonError::InvalidLength
    );
    assert_eq!(
        fault_of(JsonValue::Array(vec![text("id"), JsonValue::Null, text("more")])),
        SerdeJsonError::InvalidField(CredentialField::AccessKeySecret)
    );
}

#[test]
fn delete_removes_a_malformed_value_too() {
    let mut auth_store = store_holding(JsonValue::Null);
    assert_eq!(auth_store.delete(), true);
    assert_not_exist(auth_store.query());
}

#[test]
fn a_full_store_refuses_the_credentials() {
    let mut store = MemoryStore::bounded(1);
    store.set("theme", text("dark")).unwrap();
    let mut auth_store = AccessKeyAuthStore::new(store);
    match auth_store.save(AccessKeyCredentials::new("id", "secret")) {
        Err(SaveCredentialError::WriteError(fault)) => {
            assert_eq!(fault.message, "the store is full")
        }
        other => unreachable!("the write went through: {:?}", other),
    }
    assert_not_exist(auth_store.query());
    assert!(auth_store.store.get("theme").is_some());
}

#[test]
fn a_full_store_still_replaces_the_credentials() {
    let mut auth_store = AccessKeyAuthStore::new(MemoryStore::bounded(1));
    auth_store.save(AccessKeyCredentials::new("id", "secret")).unwrap();
    auth_store.save(AccessKeyCredentials::new("id2", "secret2")).unwrap();
    assert_eq!(auth_store.query(), Ok(AccessKeyCredentials::new("id2", "secret2")));
    assert!(auth_store.store.set("theme", text("dark")).is_err());
    assert_eq!(auth_store.delete(), true);
    assert!(auth_store.store.set("theme", text("dark")).is_ok());
}

#[test]
fn errors_convert_from_their_cause() {
    let fault = SerdeJsonError::InvalidLength;
    assert_eq!(QueryCredentialError::from(fault), QueryCredentialError::DeserializeError(fault));
    assert_eq!(SaveCredentialError::from(fault), SaveCredentialError::SerializeError(fault));
}
