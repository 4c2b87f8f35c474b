use intercom_client::contacts::{Contact, ContactForCreation, Role};
use intercom_client::json::JsonValue;
use intercom_client::util::CatchAll;

fn s(text: &str) -> String {
    text.to_string()
}

fn minimal_contact_fields() -> Vec<(String, JsonValue)> {
    vec![
        (s("id"), JsonValue::Str(s("6320"))),
        (s("type"), JsonValue::Str(s("contact"))),
        (s("role"), JsonValue::Str(s("user"))),
        (s("has_hard_bounced"), JsonValue::Bool(false)),
        (s("marked_email_as_spam"), JsonValue::Bool(false)),
        (s("unsubscribed_from_emails"), JsonValue::Bool(true)),
        (s("created_at"), JsonValue::Int(1_700_000_000)),
        (s("updated_at"), JsonValue::Int(1_700_000_001)),
        (
            s("tags"),
            JsonValue::Obj(vec![
                (s("data"), JsonValue::Arr(Vec::new())),
                (s("url"), JsonValue::Str(s("/tags"))),
                (s("total_count"), JsonValue::Int(0)),
                (s("has_more"), JsonValue::Bool(false)),
            ]),
        ),
        (s("custom_attributes"), JsonValue::Obj(Vec::new())),
    ]
}

#[test]
fn creation_payload_from_email() {
    let payload = ContactForCreation::new_from_email(s("a@b.example"), Role::User);
    assert!(matches!(payload.role, Some(Role::User)));
    assert_eq!(payload.email.as_deref(), Some("a@b.example"));
    assert!(payload.external_id.is_none());
    assert!(payload.phone.is_none());
    assert!(payload.name.is_none());
    assert!(payload.custom_attributes.is_none());
}

#[test]
fn payload_omission() {
    // Only the set fields are serialized, and never as null.
    let payload = ContactForCreation::new_from_email(s("a@b.example"), Role::User);
    let fields = payload.to_fields();
    assert_eq!(
        fields,
        vec![
            (s("role"), JsonValue::Str(s("user"))),
            (s("email"), JsonValue::Str(s("a@b.example"))),
        ]
    );
}

#[test]
fn empty_payload_serializes_to_nothing() {
    let payload = ContactForCreation {
        role: None,
        external_id: None,
        email: None,
        phone: None,
        name: None,
        avatar: None,
        signed_up_at: None,
        last_seen_at: None,
        owner_id: None,
        unsubscribed_from_emails: None,
        custom_attributes: None,
    };
    assert_eq!(payload.to_fields(), Vec::<(String, JsonValue)>::new());
}

#[test]
fn full_payload_serializes_in_order() {
    let payload = ContactForCreation {
        role: Some(Role::Lead),
        external_id: Some(s("x1")),
        email: Some(s("e@x.example")),
        phone: Some(s("+1555")),
        name: Some(s("Ada")),
        avatar: Some(s("http://img")),
        signed_up_at: Some(7),
        last_seen_at: Some(8),
        owner_id: Some(9),
        unsubscribed_from_emails: Some(true),
        custom_attributes: Some(vec![(s("k"), s("v"))]),
    };
    let fields = payload.to_fields();
    let keys: Vec<&str> = fields.iter().map(|(k, _)| k.as_str()).collect();
    assert_eq!(
        keys,
        vec![
            "role", "external_id", "email", "phone", "name", "avatar", "signed_up_at",
            "last_seen_at", "owner_id", "unsubscribed_from_emails", "custom_attributes",
        ]
    );
    assert_eq!(fields[0].1, JsonValue::Str(s("lead")));
    assert_eq!(fields[6].1, JsonValue::Int(7));
    assert_eq!(fields[9].1, JsonValue::Bool(true));
    assert_eq!(
        fields[10].1,
        JsonValue::Obj(vec![(s("k"), JsonValue::Str(s("v")))])
    );
}

#[test]
fn role_wire_names() {
    assert_eq!(Role::Lead.wire_name(), "lead");
    assert_eq!(Role::User.wire_name(), "user");
    assert_eq!(Role::Visitor.wire_name(), "visitor");
    assert_eq!(Role::from_wire("lead"), Some(Role::Lead));
    assert_eq!(Role::from_wire("user"), Some(Role::User));
    assert_eq!(Role::from_wire("visitor"), Some(Role::Visitor));
    assert_eq!(Role::from_wire("admin"), None);
    assert_eq!(Role::default(), Role::Visitor);
}

#[test]
fn contact_decodes_minimal_record() {
    let contact = Contact::from_fields(minimal_contact_fields()).expect("well-formed");
    assert_eq!(contact.id, "6320");
    assert_eq!(contact.contact_type, "contact");
    assert_eq!(contact.role, Role::User);
    assert!(contact.email.is_none());
    assert!(contact.unsubscribed_from_emails);
    assert_eq!(contact.created_at, 1_700_000_000);
    assert_eq!(contact.tags.url, "/tags");
    assert!(contact.tags.data.is_empty());
    assert!(contact.extra.is_empty());
}

#[test]
fn contact_decodes_optional_and_null_fields() {
    let mut fields = minimal_contact_fields();
    fields.push((s("email"), JsonValue::Str(s("a@b.example"))));
    fields.push((s("phone"), JsonValue::Null));
    fields.push((s("signed_up_at"), JsonValue::Int(42)));
    let contact = Contact::from_fields(fields).unwrap();
    assert_eq!(contact.email.as_deref(), Some("a@b.example"));
    assert!(contact.phone.is_none());
    assert_eq!(contact.signed_up_at, Some(42));
}

#[test]
fn contact_decode_rejects_malformed_records() {
    // Missing required key.
    let mut fields = minimal_contact_fields();
    fields.retain(|(k, _)| k != "id");
    assert!(Contact::from_fields(fields).is_err());
    // Wrong type for a required key.
    let mut fields = minimal_contact_fields();
    fields[0].1 = JsonValue::Int(5);
    assert!(Contact::from_fields(fields).is_err());
    // An unknown role name.
    let mut fields = minimal_contact_fields();
    fields[2].1 = JsonValue::Str(s("admin"));
    assert!(Contact::from_fields(fields).is_err());
    // Null for a required key.
    let mut fields = minimal_contact_fields();
    fields[3].1 = JsonValue::Null;
    assert!(Contact::from_fields(fields).is_err());
}

#[test]
fn passthrough_round_trip() {
    let mut fields = minimal_contact_fields();
    fields.push((s("foo"), JsonValue::Str(s("bar"))));
    let contact = Contact::from_fields(fields).expect("well-formed");
    assert_eq!(
        contact.extra,
        vec![(s("foo"), JsonValue::Str(s("bar")))]
    );
    let reencoded = contact.to_fields();
    assert!(reencoded.contains(&(s("foo"), JsonValue::Str(s("bar")))));
    // The re-encoded record still holds every modeled key too.
    assert_eq!(reencoded[0], (s("id"), JsonValue::Str(s("6320"))));
    assert_eq!(reencoded[2], (s("role"), JsonValue::Str(s("user"))));
}

#[test]
fn passthrough_keeps_arrival_order() {
    let mut fields = minimal_contact_fields();
    fields.insert(3, (s("zeta"), JsonValue::Int(1)));
    fields.push((s("alpha"), JsonValue::Bool(true)));
    let contact = Contact::from_fields(fields).unwrap();
    assert_eq!(
        contact.extra,
        vec![(s("zeta"), JsonValue::Int(1)), (s("alpha"), JsonValue::Bool(true))]
    );
}

#[test]
fn tags_decode_and_reencode() {
    let mut fields = minimal_contact_fields();
    fields[8].1 = JsonValue::Obj(vec![
        (
            s("data"),
            JsonValue::Arr(vec![JsonValue::Obj(vec![
                (s("type"), JsonValue::Str(s("tag"))),
                (s("id"), JsonValue::Str(s("7"))),
                (s("url"), JsonValue::Str(s("/tags/7"))),
            ])]),
        ),
        (s("url"), JsonValue::Str(s("/tags"))),
        (s("total_count"), JsonValue::Int(1)),
        (s("has_more"), JsonValue::Bool(false)),
    ]);
    let contact = Contact::from_fields(fields).unwrap();
    assert_eq!(contact.tags.data.len(), 1);
    assert_eq!(contact.tags.data[0].id, "7");
    assert_eq!(contact.tags.data[0].tag_type, "tag");
    let reencoded = contact.to_fields();
    let tags_entry = reencoded.iter().find(|(k, _)| k == "tags").unwrap();
    match &tags_entry.1 {
        JsonValue::Obj(fs) => {
            assert_eq!(fs[2], (s("total_count"), JsonValue::Int(1)));
        }
        other => panic!("tags should re-encode as an object, got {:?}", other),
    }
}

#[test]
fn catch_all_carries_raw_fields() {
    let wrapped = CatchAll::new(vec![(s("anything"), JsonValue::Null)]);
    assert_eq!(wrapped.fields(), &vec![(s("anything"), JsonValue::Null)]);
}
