//! The contact resource: its wire shape, its creation payload, and
//! the codec between field lists and typed records.
//!
//! A record arrives as an ordered list of key/value pairs (a JSON
//! object). Decoding reads the modeled keys into typed fields and
//! preserves every unmodeled key in the record's passthrough map;
//! encoding emits the modeled fields and then the passthrough map, so
//! nothing the server sent is lost. A creation payload is sparse: a
//! field that was not set is left out of the encoded object entirely,
//! never sent as null, because the remote API chooses the identity key
//! for the new contact from the keys that are present.

use vstd::prelude::*;
use crate::errors::Error;
use crate::json::{JsonValue, spec_lookup, lemma_lookup_push, str_eq, lookup_ref};
use crate::util::{Tags, TagData, ListResponse, NextObject, Pages};
use crate::codec::{
    req_str_wf, req_str_val, opt_str_wf, opt_str_val, req_int_wf, req_int_val, opt_int_wf,
    opt_int_val, req_bool_wf, req_bool_val, obj_wf, obj_val, opt_json_val, usize_wf, usize_val,
    field_req_str, field_opt_str, field_req_int, field_opt_int, field_req_bool,
    field_req_usize, opt_str_entry, opt_int_entry, opt_json_entry, obj_entry,
};

verus! {

/// The role of a contact. The remote side knows three; a contact
/// created without one gets `Visitor`.
#[derive(Debug, Clone, Copy, PartialEq, Eq, Structural)]
pub enum Role {
    Lead,
    User,
    Visitor,
}

/// The name a role carries on the wire.
pub open spec fn spec_role_wire(r: Role) -> Seq<char> {
    match r {
        Role::Lead => "lead"@,
        Role::User => "user"@,
        Role::Visitor => "visitor"@,
    }
}

/// The role a wire name denotes, if any.
pub open spec fn spec_role_of(s: Seq<char>) -> Option<Role> {
    if s == "lead"@ {
        Some(Role::Lead)
    } else if s == "user"@ {
        Some(Role::User)
    } else if s == "visitor"@ {
        Some(Role::Visitor)
    } else {
        None
    }
}

impl Default for Role {
    /// The client-side default when no role was specified.
    fn default() -> (r: Self)
        ensures
            r == Role::Visitor,
    {
        Role::Visitor
    }
}

impl Role {
    /// The name this role carries on the wire.
    pub fn wire_name(&self) -> (r: String)
        ensures
            r@ == spec_role_wire(*self),
    {
        match self {
            Role::Lead => "lead".to_owned(),
            Role::User => "user".to_owned(),
            Role::Visitor => "visitor".to_owned(),
        }
    }

    /// Reads a role off its wire name.
    pub fn from_wire(s: &str) -> (r: Option<Role>)
        ensures
            r == spec_role_of(s@),
    {
        if str_eq(s, "lead") {
            Some(Role::Lead)
        } else if str_eq(s, "user") {
            Some(Role::User)
        } else if str_eq(s, "visitor") {
            Some(Role::Visitor)
        } else {
            None
        }
    }
}

/// A request to create a contact. Every field is optional; the remote
/// API disambiguates the new contact's identity — by email, external
/// id, or role — from the fields that are present.
#[derive(Debug)]
pub struct ContactForCreation {
    pub role: Option<Role>,
    pub external_id: Option<String>,
    pub email: Option<String>,
    pub phone: Option<String>,
    pub name: Option<String>,
    pub avatar: Option<String>,
    pub signed_up_at: Option<i64>,
    pub last_seen_at: Option<i64>,
    pub owner_id: Option<i64>,
    pub unsubscribed_from_emails: Option<bool>,
    pub custom_attributes: Option<Vec<(String, String)>>,
}

impl ContactForCreation {
    /// A payload that creates a contact by email, with the given role
    /// and nothing else set.
    pub fn new_from_email(email: String, role: Role) -> (res: Self)
        ensures
            res.role == Some(role),
            res.email == Some(email),
            res.external_id is None,
            res.phone is None,
            res.name is None,
            res.avatar is None,
            res.signed_up_at is None,
            res.last_seen_at is None,
            res.owner_id is None,
            res.unsubscribed_from_emails is None,
            res.custom_attributes is None,
    {
        Self {
            role: Some(role),
            external_id: None,
            email: Some(email),
            phone: None,
            name: None,
            avatar: None,
            signed_up_at: None,
            last_seen_at: None,
            owner_id: None,
            unsubscribed_from_emails: None,
            custom_attributes: None,
        }
    }
}

/// An encoded field whose value is the given text.
pub open spec fn str_entry(e: (String, JsonValue), k: Seq<char>, v: Seq<char>) -> bool {
    &&& e.0@ == k
    &&& e.1 matches JsonValue::Str(s) && s@ == v
}

/// An encoded field whose value is the given integer.
pub open spec fn int_entry(e: (String, JsonValue), k: Seq<char>, v: i64) -> bool {
    &&& e.0@ == k
    &&& e.1 matches JsonValue::Int(i) && i == v
}

/// An encoded field whose value is the given truth value.
pub open spec fn bool_entry(e: (String, JsonValue), k: Seq<char>, v: bool) -> bool {
    &&& e.0@ == k
    &&& e.1 matches JsonValue::Bool(b) && b == v
}

/// An encoded field naming the given role.
pub open spec fn role_entry(e: (String, JsonValue), k: Seq<char>, r: Role) -> bool {
    &&& e.0@ == k
    &&& e.1 matches JsonValue::Str(s) && s@ == spec_role_wire(r)
}

/// An encoded object holding the given text-to-text mapping, in order.
pub open spec fn str_map_obj(v: JsonValue, m: Seq<(String, String)>) -> bool {
    &&& v matches JsonValue::Obj(fs)
    &&& fs@.len() == m.len()
    &&& forall|i: int| 0 <= i < m.len()
        ==> ((#[trigger] fs@[i]).0@ == m[i].0@ && (fs@[i].1 matches JsonValue::Str(s) && s@ == m[i].1@))
}

/// Whether creation-payload field number `k` (in declaration order) is
/// set.
pub open spec fn present(c: ContactForCreation, k: int) -> bool {
    if k == 0 { c.role is Some }
    else if k == 1 { c.external_id is Some }
    else if k == 2 { c.email is Some }
    else if k == 3 { c.phone is Some }
    else if k == 4 { c.name is Some }
    else if k == 5 { c.avatar is Some }
    else if k == 6 { c.signed_up_at is Some }
    else if k == 7 { c.last_seen_at is Some }
    else if k == 8 { c.owner_id is Some }
    else if k == 9 { c.unsubscribed_from_emails is Some }
    else if k == 10 { c.custom_attributes is Some }
    else { false }
}

/// How many of the first `k` creation-payload fields are set.
pub open spec fn count_present(c: ContactForCreation, k: int) -> int
    decreases k,
{
    if k <= 0 {
        0
    } else {
        count_present(c, k - 1) + if present(c, k - 1) { 1int } else { 0int }
    }
}

/// The encoded entry for creation-payload field number `k`.
pub open spec fn creation_entry_ok(c: ContactForCreation, k: int, e: (String, JsonValue)) -> bool {
    if k == 0 { c.role matches Some(r) && role_entry(e, "role"@, r) }
    else if k == 1 { c.external_id matches Some(s) && str_entry(e, "external_id"@, s@) }
    else if k == 2 { c.email matches Some(s) && str_entry(e, "email"@, s@) }
    else if k == 3 { c.phone matches Some(s) && str_entry(e, "phone"@, s@) }
    else if k == 4 { c.name matches Some(s) && str_entry(e, "name"@, s@) }
    else if k == 5 { c.avatar matches Some(s) && str_entry(e, "avatar"@, s@) }
    else if k == 6 { c.signed_up_at matches Some(i) && int_entry(e, "signed_up_at"@, i) }
    else if k == 7 { c.last_seen_at matches Some(i) && int_entry(e, "last_seen_at"@, i) }
    else if k == 8 { c.owner_id matches Some(i) && int_entry(e, "owner_id"@, i) }
    else if k == 9 { c.unsubscribed_from_emails matches Some(b) && bool_entry(e, "unsubscribed_from_emails"@, b) }
    else if k == 10 { c.custom_attributes matches Some(m) && e.0@ == "custom_attributes"@ && str_map_obj(e.1, m@) }
    else { false }
}

/// The serialized form of a creation payload: one entry per set
/// field, in declaration order, and nothing else — an unset field is
/// omitted entirely, and no entry is ever null.
pub open spec fn creation_fields_ok(c: ContactForCreation, fs: Seq<(String, JsonValue)>) -> bool {
    &&& fs.len() == count_present(c, 11)
    &&& forall|k: int| 0 <= k < 11 && present(c, k)
        ==> creation_entry_ok(c, k, fs[count_present(c, k)])
    &&& forall|j: int| 0 <= j < fs.len() ==> !((#[trigger] fs[j]).1 is Null)
}

impl ContactForCreation {
    /// Serializes the payload to the field list of a JSON object,
    /// omitting every unset field.
    #[verifier::rlimit(100)]
    pub fn to_fields(self) -> (fs: Vec<(String, JsonValue)>)
        ensures
            creation_fields_ok(self, fs@),
    {
        let ContactForCreation {
            role, external_id, email, phone, name, avatar,
            signed_up_at, last_seen_at, owner_id, unsubscribed_from_emails,
            custom_attributes,
        } = self;
        let mut out: Vec<(String, JsonValue)> = Vec::new();
        if let Some(r) = role {
            out.push(("role".to_owned(), JsonValue::Str(r.wire_name())));
        }
        proof { assert(out@.len() == count_present(self, 1)) by { reveal_with_fuel(count_present, 2); } }
        if let Some(s) = external_id {
            out.push(("external_id".to_owned(), JsonValue::Str(s)));
        }
        proof { assert(out@.len() == count_present(self, 2)) by { reveal_with_fuel(count_present, 2); } }
        if let Some(s) = email {
            out.push(("email".to_owned(), JsonValue::Str(s)));
        }
        proof { assert(out@.len() == count_present(self, 3)) by { reveal_with_fuel(count_present, 2); } }
        if let Some(s) = phone {
            out.push(("phone".to_owned(), JsonValue::Str(s)));
        }
        proof { assert(out@.len() == count_present(self, 4)) by { reveal_with_fuel(count_present, 2); } }
        if let Some(s) = name {
            out.push(("name".to_owned(), JsonValue::Str(s)));
        }
        proof { assert(out@.len() == count_present(self, 5)) by { reveal_with_fuel(count_present, 2); } }
        if let Some(s) = avatar {
            out.push(("avatar".to_owned(), JsonValue::Str(s)));
        }
        proof { assert(out@.len() == count_present(self, 6)) by { reveal_with_fuel(count_present, 2); } }
        if let Some(i) = signed_up_at {
            out.push(("signed_up_at".to_owned(), JsonValue::Int(i)));
        }
        proof { assert(out@.len() == count_present(self, 7)) by { reveal_with_fuel(count_present, 2); } }
        if let Some(i) = last_seen_at {
            out.push(("last_seen_at".to_owned(), JsonValue::Int(i)));
        }
        proof { assert(out@.len() == count_present(self, 8)) by { reveal_with_fuel(count_present, 2); } }
        if let Some(i) = owner_id {
            out.push(("owner_id".to_owned(), JsonValue::Int(i)));
        }
        proof { assert(out@.len() == count_present(self, 9)) by { reveal_with_fuel(count_present, 2); } }
        if let Some(b) = unsubscribed_from_emails {
            out.push(("unsubscribed_from_emails".to_owned(), JsonValue::Bool(b)));
        }
        proof { assert(out@.len() == count_present(self, 10)) by { reveal_with_fuel(count_present, 2); } }
        if let Some(m) = custom_attributes {
            let obj = str_map_to_obj(m);
            out.push(("custom_attributes".to_owned(), obj));
        }
        proof { assert(out@.len() == count_present(self, 11)) by { reveal_with_fuel(count_present, 2); } }
        out
    }
}

/// Turns a text-to-text mapping into the field list of a JSON object.
fn str_map_to_obj(m: Vec<(String, String)>) -> (v: JsonValue)
    ensures
        str_map_obj(v, m@),
{
    let ghost m0 = m@;
    let mut m = m;
    let mut out: Vec<(String, JsonValue)> = Vec::new();
    while m.len() > 0
        invariant
            out@.len() + m@.len() == m0.len(),
            m@ =~= m0.skip(out@.len() as int),
            forall|i: int| 0 <= i < out@.len()
                ==> ((#[trigger] out@[i]).0@ == m0[i].0@ && (out@[i].1 matches JsonValue::Str(s)
                    && s@ == m0[i].1@)),
        decreases m@.len(),
    {
        let (k, v) = m.remove(0);
        proof {
            assert(m0.skip(out@.len() as int)[0] == m0[out@.len() as int]);
            assert(m0.skip(out@.len() as int).drop_first() =~= m0.skip(out@.len() as int + 1));
        }
        out.push((k, JsonValue::Str(v)));
    }
    JsonValue::Obj(out)
}

/// Payload omission: a payload with only `email` and `role` set
/// serializes to exactly those two keys, in that order after the
/// declaration, and neither — nor any entry of any payload — is null.
pub proof fn lemma_payload_omission(c: ContactForCreation, fs: Seq<(String, JsonValue)>)
    requires
        creation_fields_ok(c, fs),
        c.role is Some,
        c.email is Some,
        c.external_id is None,
        c.phone is None,
        c.name is None,
        c.avatar is None,
        c.signed_up_at is None,
        c.last_seen_at is None,
        c.owner_id is None,
        c.unsubscribed_from_emails is None,
        c.custom_attributes is None,
    ensures
        fs.len() == 2,
        fs[0].0@ == "role"@,
        fs[1].0@ == "email"@,
        !(fs[0].1 is Null),
        !(fs[1].1 is Null),
{
    reveal_with_fuel(count_present, 13);
    assert(creation_entry_ok(c, 0, fs[0]));
    assert(creation_entry_ok(c, 2, fs[1]));
}

/// Whether `k` is one of the keys the contact schema models.
pub open spec fn is_modeled_key(k: Seq<char>) -> bool {
    ||| k == "id"@
    ||| k == "type"@
    ||| k == "role"@
    ||| k == "email"@
    ||| k == "external_id"@
    ||| k == "phone"@
    ||| k == "name"@
    ||| k == "owner_id"@
    ||| k == "has_hard_bounced"@
    ||| k == "marked_email_as_spam"@
    ||| k == "unsubscribed_from_emails"@
    ||| k == "created_at"@
    ||| k == "updated_at"@
    ||| k == "signed_up_at"@
    ||| k == "last_seen_at"@
    ||| k == "last_replied_at"@
    ||| k == "last_contacted_at"@
    ||| k == "last_email_opened_at"@
    ||| k == "last_email_clicked_at"@
    ||| k == "language_override"@
    ||| k == "browser"@
    ||| k == "browser_version"@
    ||| k == "browser_language"@
    ||| k == "os"@
    ||| k == "android_app_name"@
    ||| k == "android_app_version"@
    ||| k == "android_device"@
    ||| k == "android_os_version"@
    ||| k == "android_sdk_version"@
    ||| k == "android_last_seen_at"@
    ||| k == "ios_app_name"@
    ||| k == "ios_app_version"@
    ||| k == "ios_device"@
    ||| k == "ios_os_version"@
    ||| k == "ios_sdk_version"@
    ||| k == "ios_last_seen_at"@
    ||| k == "tags"@
    ||| k == "custom_attributes"@
}

/// Checks whether `k` is a modeled key.
pub fn is_modeled_key_exec(k: &str) -> (r: bool)
    ensures
        r == is_modeled_key(k@),
{
    str_eq(k, "id") || str_eq(k, "type") || str_eq(k, "role") || str_eq(k, "email")
        || str_eq(k, "external_id") || str_eq(k, "phone") || str_eq(k, "name")
        || str_eq(k, "owner_id") || str_eq(k, "has_hard_bounced")
        || str_eq(k, "marked_email_as_spam") || str_eq(k, "unsubscribed_from_emails")
        || str_eq(k, "created_at") || str_eq(k, "updated_at") || str_eq(k, "signed_up_at")
        || str_eq(k, "last_seen_at") || str_eq(k, "last_replied_at")
        || str_eq(k, "last_contacted_at") || str_eq(k, "last_email_opened_at")
        || str_eq(k, "last_email_clicked_at") || str_eq(k, "language_override")
        || str_eq(k, "browser") || str_eq(k, "browser_version") || str_eq(k, "browser_language")
        || str_eq(k, "os") || str_eq(k, "android_app_name") || str_eq(k, "android_app_version")
        || str_eq(k, "android_device") || str_eq(k, "android_os_version")
        || str_eq(k, "android_sdk_version") || str_eq(k, "android_last_seen_at")
        || str_eq(k, "ios_app_name") || str_eq(k, "ios_app_version") || str_eq(k, "ios_device")
        || str_eq(k, "ios_os_version") || str_eq(k, "ios_sdk_version")
        || str_eq(k, "ios_last_seen_at") || str_eq(k, "tags") || str_eq(k, "custom_attributes")
}

/// The sub-list of fields whose keys the schema does not model, in
/// arrival order: what decoding carries through untouched.
pub open spec fn unmodeled_fields(fs: Seq<(String, JsonValue)>) -> Seq<(String, JsonValue)>
    decreases fs.len(),
{
    if fs.len() == 0 {
        Seq::empty()
    } else {
        let rest = unmodeled_fields(fs.drop_first());
        if !is_modeled_key(fs[0].0@) {
            seq![fs[0]] + rest
        } else {
            rest
        }
    }
}

/// Extending a field list extends its unmodeled sub-list exactly when
/// the new key is unmodeled.
pub proof fn lemma_unmodeled_push(fs: Seq<(String, JsonValue)>, e: (String, JsonValue))
    ensures
        unmodeled_fields(fs.push(e)) == (if !is_modeled_key(e.0@) {
            unmodeled_fields(fs).push(e)
        } else {
            unmodeled_fields(fs)
        }),
    decreases fs.len(),
{
    if fs.len() == 0 {
        assert(fs.push(e).drop_first() =~= fs);
        if !is_modeled_key(e.0@) {
            assert(seq![e] + unmodeled_fields(fs) =~= unmodeled_fields(fs).push(e));
        }
    } else {
        assert(fs.push(e).drop_first() =~= fs.drop_first().push(e));
        lemma_unmodeled_push(fs.drop_first(), e);
        if !is_modeled_key(fs[0].0@) {
            if !is_modeled_key(e.0@) {
                assert(seq![fs[0]] + unmodeled_fields(fs.drop_first()).push(e)
                    =~= (seq![fs[0]] + unmodeled_fields(fs.drop_first())).push(e));
            }
        }
    }
}

/// Every unmodeled field of a list appears, unchanged, in its
/// unmodeled sub-list.
pub proof fn lemma_unmodeled_keeps(fs: Seq<(String, JsonValue)>, i: int)
    requires
        0 <= i < fs.len(),
        !is_modeled_key(fs[i].0@),
    ensures
        exists|j: int|
            0 <= j < unmodeled_fields(fs).len() && unmodeled_fields(fs)[j] == fs[i],
    decreases fs.len(),
{
    if i == 0 {
        assert(unmodeled_fields(fs)[0] == fs[0]);
    } else {
        lemma_unmodeled_keeps(fs.drop_first(), i - 1);
        let j = choose|j: int|
            0 <= j < unmodeled_fields(fs.drop_first()).len() && unmodeled_fields(
                fs.drop_first(),
            )[j] == fs.drop_first()[i - 1];
        if !is_modeled_key(fs[0].0@) {
            assert(unmodeled_fields(fs)[j + 1] == fs[i]);
        } else {
            assert(unmodeled_fields(fs)[j] == fs[i]);
        }
    }
}

/// A looked-up value that must name a role.
pub open spec fn role_wf(l: Option<JsonValue>) -> bool {
    l matches Some(v) && (v matches JsonValue::Str(s) && spec_role_of(s@) is Some)
}

/// A looked-up role name that decoded to `f`.
pub open spec fn role_val(l: Option<JsonValue>, f: Role) -> bool {
    l matches Some(v) && (v matches JsonValue::Str(s) && spec_role_of(s@) == Some(f))
}

/// A contact as the remote system describes it: typed fields for the
/// modeled schema, free-form passthrough for everything else.
#[derive(Debug)]
pub struct Contact {
    pub id: String,
    pub contact_type: String,
    pub role: Role,
    pub email: Option<String>,
    pub external_id: Option<String>,
    pub phone: Option<String>,
    pub name: Option<String>,
    pub owner_id: Option<i64>,
    pub has_hard_bounced: bool,
    pub marked_email_as_spam: bool,
    pub unsubscribed_from_emails: bool,
    pub created_at: i64,
    pub updated_at: i64,
    pub signed_up_at: Option<i64>,
    pub last_seen_at: Option<i64>,
    pub last_replied_at: Option<i64>,
    pub last_contacted_at: Option<i64>,
    pub last_email_opened_at: Option<i64>,
    pub last_email_clicked_at: Option<i64>,
    pub language_override: Option<String>,
    pub browser: Option<String>,
    pub browser_version: Option<String>,
    pub browser_language: Option<String>,
    pub os: Option<String>,
    pub android_app_name: Option<String>,
    pub android_app_version: Option<String>,
    pub android_device: Option<String>,
    pub android_os_version: Option<String>,
    pub android_sdk_version: Option<String>,
    pub android_last_seen_at: Option<JsonValue>,
    pub ios_app_name: Option<String>,
    pub ios_app_version: Option<String>,
    pub ios_device: Option<String>,
    pub ios_os_version: Option<String>,
    pub ios_sdk_version: Option<String>,
    pub ios_last_seen_at: Option<JsonValue>,
    pub tags: Tags,
    pub custom_attributes: Vec<(String, JsonValue)>,
    pub extra: Vec<(String, JsonValue)>,
}

/// A well-formed encoded tag.
pub open spec fn tagdata_wf(v: JsonValue) -> bool {
    v matches JsonValue::Obj(fs) && {
        &&& req_str_wf(spec_lookup(fs@, "type"@))
        &&& req_str_wf(spec_lookup(fs@, "id"@))
        &&& req_str_wf(spec_lookup(fs@, "url"@))
    }
}

/// An encoded tag that decoded to `t`.
pub open spec fn tagdata_val(v: JsonValue, t: TagData) -> bool {
    v matches JsonValue::Obj(fs) && {
        &&& req_str_val(spec_lookup(fs@, "type"@), t.tag_type@)
        &&& req_str_val(spec_lookup(fs@, "id"@), t.id@)
        &&& req_str_val(spec_lookup(fs@, "url"@), t.url@)
    }
}

/// A well-formed encoded tag collection.
pub open spec fn tags_wf(v: JsonValue) -> bool {
    v matches JsonValue::Obj(fs) && {
        &&& spec_lookup(fs@, "data"@) matches Some(d) && (d matches JsonValue::Arr(items)
            && forall|i: int| 0 <= i < items@.len() ==> tagdata_wf(#[trigger] items@[i]))
        &&& req_str_wf(spec_lookup(fs@, "url"@))
        &&& req_int_wf(spec_lookup(fs@, "total_count"@))
        &&& req_bool_wf(spec_lookup(fs@, "has_more"@))
    }
}

/// An encoded tag collection that decoded to `t`.
pub open spec fn tags_val(v: JsonValue, t: Tags) -> bool {
    v matches JsonValue::Obj(fs) && {
        &&& spec_lookup(fs@, "data"@) matches Some(d) && (d matches JsonValue::Arr(items)
            && items@.len() == t.data@.len()
            && forall|i: int| 0 <= i < items@.len()
                ==> tagdata_val(#[trigger] items@[i], t.data@[i]))
        &&& req_str_val(spec_lookup(fs@, "url"@), t.url@)
        &&& req_int_val(spec_lookup(fs@, "total_count"@), t.total_count)
        &&& req_bool_val(spec_lookup(fs@, "has_more"@), t.has_more)
    }
}

/// Decodes the role field.
fn field_role(fields: &Vec<(String, JsonValue)>, key: &str) -> (r: Result<Role, Error>)
    ensures
        r is Ok <==> role_wf(spec_lookup(fields@, key@)),
        r matches Ok(x) ==> role_val(spec_lookup(fields@, key@), x),
{
    match lookup_ref(fields, key) {
        Some(JsonValue::Str(s)) => match Role::from_wire(s.as_str()) {
            Some(x) => Ok(x),
            None => Err(Error::HTTPError("malformed resource field".to_owned())),
        },
        _ => Err(Error::HTTPError("malformed resource field".to_owned())),
    }
}

/// Decodes one tag.
fn tag_from_json(v: &JsonValue) -> (r: Result<TagData, Error>)
    ensures
        r is Ok <==> tagdata_wf(*v),
        r matches Ok(t) ==> tagdata_val(*v, t),
{
    match v {
        JsonValue::Obj(fs) => {
            let tag_type = match field_req_str(fs, "type") {
                Ok(s) => s,
                Err(e) => return Err(e),
            };
            let id = match field_req_str(fs, "id") {
                Ok(s) => s,
                Err(e) => return Err(e),
            };
            let url = match field_req_str(fs, "url") {
                Ok(s) => s,
                Err(e) => return Err(e),
            };
            Ok(TagData { tag_type, id, url })
        },
        _ => Err(Error::HTTPError("malformed tag".to_owned())),
    }
}

/// Decodes the tag collection of a contact.
#[verifier::loop_isolation(false)]
fn tags_from_json(v: &JsonValue) -> (r: Result<Tags, Error>)
    ensures
        r is Ok <==> tags_wf(*v),
        r matches Ok(t) ==> tags_val(*v, t),
{
    match v {
        JsonValue::Obj(fs) => {
            let items = match lookup_ref(fs, "data") {
                Some(JsonValue::Arr(items)) => items,
                _ => return Err(Error::HTTPError("malformed tag list".to_owned())),
            };
            let mut data: Vec<TagData> = Vec::new();
            let mut i: usize = 0;
            while i < items.len()
                invariant
                    i <= items@.len(),
                    data@.len() == i,
                    forall|j: int| 0 <= j < i
                        ==> tagdata_wf(#[trigger] items@[j]) && tagdata_val(items@[j], data@[j]),
                decreases items@.len() - i,
            {
                let t = match tag_from_json(&items[i]) {
                    Ok(t) => t,
                    Err(e) => return Err(e),
                };
                data.push(t);
                i = i + 1;
            }
            let url = match field_req_str(fs, "url") {
                Ok(s) => s,
                Err(e) => return Err(e),
            };
            let total_count = match field_req_int(fs, "total_count") {
                Ok(n) => n,
                Err(e) => return Err(e),
            };
            let has_more = match field_req_bool(fs, "has_more") {
                Ok(b) => b,
                Err(e) => return Err(e),
            };
            Ok(Tags { data, url, total_count, has_more })
        },
        _ => Err(Error::HTTPError("malformed tag list".to_owned())),
    }
}

/// A record that decodes to a contact: every required field present
/// and well-typed, every optional field absent, null or well-typed,
/// the tag collection well-formed, the custom attributes an object.
pub open spec fn contact_fields_wf(fs: Seq<(String, JsonValue)>) -> bool {
    &&& req_str_wf(spec_lookup(fs, "id"@))
    &&& req_str_wf(spec_lookup(fs, "type"@))
    &&& role_wf(spec_lookup(fs, "role"@))
    &&& opt_str_wf(spec_lookup(fs, "email"@))
    &&& opt_str_wf(spec_lookup(fs, "external_id"@))
    &&& opt_str_wf(spec_lookup(fs, "phone"@))
    &&& opt_str_wf(spec_lookup(fs, "name"@))
    &&& opt_int_wf(spec_lookup(fs, "owner_id"@))
    &&& req_bool_wf(spec_lookup(fs, "has_hard_bounced"@))
    &&& req_bool_wf(spec_lookup(fs, "marked_email_as_spam"@))
    &&& req_bool_wf(spec_lookup(fs, "unsubscribed_from_emails"@))
    &&& req_int_wf(spec_lookup(fs, "created_at"@))
    &&& req_int_wf(spec_lookup(fs, "updated_at"@))
    &&& opt_int_wf(spec_lookup(fs, "signed_up_at"@))
    &&& opt_int_wf(spec_lookup(fs, "last_seen_at"@))
    &&& opt_int_wf(spec_lookup(fs, "last_replied_at"@))
    &&& opt_int_wf(spec_lookup(fs, "last_contacted_at"@))
    &&& opt_int_wf(spec_lookup(fs, "last_email_opened_at"@))
    &&& opt_int_wf(spec_lookup(fs, "last_email_clicked_at"@))
    &&& opt_str_wf(spec_lookup(fs, "language_override"@))
    &&& opt_str_wf(spec_lookup(fs, "browser"@))
    &&& opt_str_wf(spec_lookup(fs, "browser_version"@))
    &&& opt_str_wf(spec_lookup(fs, "browser_language"@))
    &&& opt_str_wf(spec_lookup(fs, "os"@))
    &&& opt_str_wf(spec_lookup(fs, "android_app_name"@))
    &&& opt_str_wf(spec_lookup(fs, "android_app_version"@))
    &&& opt_str_wf(spec_lookup(fs, "android_device"@))
    &&& opt_str_wf(spec_lookup(fs, "android_os_version"@))
    &&& opt_str_wf(spec_lookup(fs, "android_sdk_version"@))
    &&& opt_str_wf(spec_lookup(fs, "ios_app_name"@))
    &&& opt_str_wf(spec_lookup(fs, "ios_app_version"@))
    &&& opt_str_wf(spec_lookup(fs, "ios_device"@))
    &&& opt_str_wf(spec_lookup(fs, "ios_os_version"@))
    &&& opt_str_wf(spec_lookup(fs, "ios_sdk_version"@))
    &&& spec_lookup(fs, "tags"@) matches Some(tv) && tags_wf(tv)
    &&& obj_wf(spec_lookup(fs, "custom_attributes"@))
}

/// How a decoded contact relates to the record it was read from:
/// every typed field holds its key's decoded value, and the
/// passthrough map holds exactly the unmodeled fields, in order.
pub open spec fn contact_matches_fields(c: Contact, fs: Seq<(String, JsonValue)>) -> bool {
    &&& req_str_val(spec_lookup(fs, "id"@), c.id@)
    &&& req_str_val(spec_lookup(fs, "type"@), c.contact_type@)
    &&& role_val(spec_lookup(fs, "role"@), c.role)
    &&& opt_str_val(spec_lookup(fs, "email"@), c.email)
    &&& opt_str_val(spec_lookup(fs, "external_id"@), c.external_id)
    &&& opt_str_val(spec_lookup(fs, "phone"@), c.phone)
    &&& opt_str_val(spec_lookup(fs, "name"@), c.name)
    &&& opt_int_val(spec_lookup(fs, "owner_id"@), c.owner_id)
    &&& req_bool_val(spec_lookup(fs, "has_hard_bounced"@), c.has_hard_bounced)
    &&& req_bool_val(spec_lookup(fs, "marked_email_as_spam"@), c.marked_email_as_spam)
    &&& req_bool_val(spec_lookup(fs, "unsubscribed_from_emails"@), c.unsubscribed_from_emails)
    &&& req_int_val(spec_lookup(fs, "created_at"@), c.created_at)
    &&& req_int_val(spec_lookup(fs, "updated_at"@), c.updated_at)
    &&& opt_int_val(spec_lookup(fs, "signed_up_at"@), c.signed_up_at)
    &&& opt_int_val(spec_lookup(fs, "last_seen_at"@), c.last_seen_at)
    &&& opt_int_val(spec_lookup(fs, "last_replied_at"@), c.last_replied_at)
    &&& opt_int_val(spec_lookup(fs, "last_contacted_at"@), c.last_contacted_at)
    &&& opt_int_val(spec_lookup(fs, "last_email_opened_at"@), c.last_email_opened_at)
    &&& opt_int_val(spec_lookup(fs, "last_email_clicked_at"@), c.last_email_clicked_at)
    &&& opt_str_val(spec_lookup(fs, "language_override"@), c.language_override)
    &&& opt_str_val(spec_lookup(fs, "browser"@), c.browser)
    &&& opt_str_val(spec_lookup(fs, "browser_version"@), c.browser_version)
    &&& opt_str_val(spec_lookup(fs, "browser_language"@), c.browser_language)
    &&& opt_str_val(spec_lookup(fs, "os"@), c.os)
    &&& opt_str_val(spec_lookup(fs, "android_app_name"@), c.android_app_name)
    &&& opt_str_val(spec_lookup(fs, "android_app_version"@), c.android_app_version)
    &&& opt_str_val(spec_lookup(fs, "android_device"@), c.android_device)
    &&& opt_str_val(spec_lookup(fs, "android_os_version"@), c.android_os_version)
    &&& opt_str_val(spec_lookup(fs, "android_sdk_version"@), c.android_sdk_version)
    &&& opt_json_val(spec_lookup(fs, "android_last_seen_at"@), c.android_last_seen_at)
    &&& opt_str_val(spec_lookup(fs, "ios_app_name"@), c.ios_app_name)
    &&& opt_str_val(spec_lookup(fs, "ios_app_version"@), c.ios_app_version)
    &&& opt_str_val(spec_lookup(fs, "ios_device"@), c.ios_device)
    &&& opt_str_val(spec_lookup(fs, "ios_os_version"@), c.ios_os_version)
    &&& opt_str_val(spec_lookup(fs, "ios_sdk_version"@), c.ios_sdk_version)
    &&& opt_json_val(spec_lookup(fs, "ios_last_seen_at"@), c.ios_last_seen_at)
    &&& spec_lookup(fs, "tags"@) matches Some(tv) && tags_val(tv, c.tags)
    &&& obj_val(spec_lookup(fs, "custom_attributes"@), c.custom_attributes@)
    &&& c.extra@ == unmodeled_fields(fs)
}

/// Splits a record into the three free-form modeled values and the
/// unmodeled remainder, consuming it.
#[verifier::loop_isolation(false)]
fn split_rest(fields: Vec<(String, JsonValue)>) -> (r: (
    Option<JsonValue>,
    Option<JsonValue>,
    Option<JsonValue>,
    Vec<(String, JsonValue)>,
))
    ensures
        r.0 == spec_lookup(fields@, "custom_attributes"@),
        r.1 == spec_lookup(fields@, "android_last_seen_at"@),
        r.2 == spec_lookup(fields@, "ios_last_seen_at"@),
        r.3@ == unmodeled_fields(fields@),
{
    let ghost fs0 = fields@;
    let mut queue = fields;
    proof {
        vstd::std_specs::vec::axiom_spec_len(&queue);
        reveal_strlit("custom_attributes");
        reveal_strlit("android_last_seen_at");
        reveal_strlit("ios_last_seen_at");
        assert("custom_attributes"@.len() == 17);
        assert("android_last_seen_at"@.len() == 20);
        assert("ios_last_seen_at"@.len() == 16);
    }
    let mut ca: Option<JsonValue> = None;
    let mut android: Option<JsonValue> = None;
    let mut ios: Option<JsonValue> = None;
    let mut extra: Vec<(String, JsonValue)> = Vec::new();
    let mut i: usize = 0;
    while queue.len() > 0
        invariant
            i + queue@.len() == fs0.len(),
            queue@ =~= fs0.skip(i as int),
            ca == spec_lookup(fs0.take(i as int), "custom_attributes"@),
            android == spec_lookup(fs0.take(i as int), "android_last_seen_at"@),
            ios == spec_lookup(fs0.take(i as int), "ios_last_seen_at"@),
            extra@ == unmodeled_fields(fs0.take(i as int)),
        decreases queue@.len(),
    {
        let e = queue.remove(0);
        proof {
            assert(e == fs0[i as int]);
            assert(fs0.skip(i as int).drop_first() =~= fs0.skip(i as int + 1));
            assert(fs0.take(i as int + 1) =~= fs0.take(i as int).push(e));
            lemma_lookup_push(fs0.take(i as int), e, "custom_attributes"@);
            lemma_lookup_push(fs0.take(i as int), e, "android_last_seen_at"@);
            lemma_lookup_push(fs0.take(i as int), e, "ios_last_seen_at"@);
            lemma_unmodeled_push(fs0.take(i as int), e);
        }
        let is_ca = str_eq(e.0.as_str(), "custom_attributes");
        let is_android = str_eq(e.0.as_str(), "android_last_seen_at");
        let is_ios = str_eq(e.0.as_str(), "ios_last_seen_at");
        if is_ca {
            if ca.is_none() {
                ca = Some(e.1);
            }
        } else if is_android {
            if android.is_none() {
                android = Some(e.1);
            }
        } else if is_ios {
            if ios.is_none() {
                ios = Some(e.1);
            }
        } else if !is_modeled_key_exec(e.0.as_str()) {
            extra.push(e);
        }
        i = i + 1;
    }
    proof {
        assert(fs0.take(fs0.len() as int) =~= fs0);
    }
    (ca, android, ios, extra)
}

impl Contact {
    /// Decodes a contact from the field list of a JSON object.
    ///
    /// Succeeds exactly on well-formed records; the decoded contact
    /// then holds each modeled key's value in its typed field and
    /// every unmodeled field, unchanged and in order, in `extra`.
    #[verifier::rlimit(100)]
    pub fn from_fields(fields: Vec<(String, JsonValue)>) -> (r: Result<Contact, Error>)
        ensures
            r is Ok <==> contact_fields_wf(fields@),
            r matches Ok(c) ==> contact_matches_fields(c, fields@),
    {
        let id = match field_req_str(&fields, "id") {
            Ok(v) => v,
            Err(e) => return Err(e),
        };
        let contact_type = match field_req_str(&fields, "type") {
            Ok(v) => v,
            Err(e) => return Err(e),
        };
        let role = match field_role(&fields, "role") {
            Ok(v) => v,
            Err(e) => return Err(e),
        };
        let email = match field_opt_str(&fields, "email") {
            Ok(v) => v,
            Err(e) => return Err(e),
        };
        let external_id = match field_opt_str(&fields, "external_id") {
            Ok(v) => v,
            Err(e) => return Err(e),
        };
        let phone = match field_opt_str(&fields, "phone") {
            Ok(v) => v,
            Err(e) => return Err(e),
        };
        let name = match field_opt_str(&fields, "name") {
            Ok(v) => v,
            Err(e) => return Err(e),
        };
        let owner_id = match field_opt_int(&fields, "owner_id") {
            Ok(v) => v,
            Err(e) => return Err(e),
        };
        let has_hard_bounced = match field_req_bool(&fields, "has_hard_bounced") {
            Ok(v) => v,
            Err(e) => return Err(e),
        };
        let marked_email_as_spam = match field_req_bool(&fields, "marked_email_as_spam") {
            Ok(v) => v,
            Err(e) => return Err(e),
        };
        let unsubscribed_from_emails = match field_req_bool(&fields, "unsubscribed_from_emails") {
            Ok(v) => v,
            Err(e) => return Err(e),
        };
        let created_at = match field_req_int(&fields, "created_at") {
            Ok(v) => v,
            Err(e) => return Err(e),
        };
        let updated_at = match field_req_int(&fields, "updated_at") {
            Ok(v) => v,
            Err(e) => return Err(e),
        };
        let signed_up_at = match field_opt_int(&fields, "signed_up_at") {
            Ok(v) => v,
            Err(e) => return Err(e),
        };
        let last_seen_at = match field_opt_int(&fields, "last_seen_at") {
            Ok(v) => v,
            Err(e) => return Err(e),
        };
        let last_replied_at = match field_opt_int(&fields, "last_replied_at") {
            Ok(v) => v,
            Err(e) => return Err(e),
        };
        let last_contacted_at = match field_opt_int(&fields, "last_contacted_at") {
            Ok(v) => v,
            Err(e) => return Err(e),
        };
        let last_email_opened_at = match field_opt_int(&fields, "last_email_opened_at") {
            Ok(v) => v,
            Err(e) => return Err(e),
        };
        let last_email_clicked_at = match field_opt_int(&fields, "last_email_clicked_at") {
            Ok(v) => v,
            Err(e) => return Err(e),
        };
        let language_override = match field_opt_str(&fields, "language_override") {
            Ok(v) => v,
            Err(e) => return Err(e),
        };
        let browser = match field_opt_str(&fields, "browser") {
            Ok(v) => v,
            Err(e) => return Err(e),
        };
        let browser_version = match field_opt_str(&fields, "browser_version") {
            Ok(v) => v,
            Err(e) => return Err(e),
        };
        let browser_language = match field_opt_str(&fields, "browser_language") {
            Ok(v) => v,
            Err(e) => return Err(e),
        };
        let os = match field_opt_str(&fields, "os") {
            Ok(v) => v,
            Err(e) => return Err(e),
        };
        let android_app_name = match field_opt_str(&fields, "android_app_name") {
            Ok(v) => v,
            Err(e) => return Err(e),
        };
        let android_app_version = match field_opt_str(&fields, "android_app_version") {
            Ok(v) => v,
            Err(e) => return Err(e),
        };
        let android_device = match field_opt_str(&fields, "android_device") {
            Ok(v) => v,
            Err(e) => return Err(e),
        };
        let android_os_version = match field_opt_str(&fields, "android_os_version") {
            Ok(v) => v,
            Err(e) => return Err(e),
        };
        let android_sdk_version = match field_opt_str(&fields, "android_sdk_version") {
            Ok(v) => v,
            Err(e) => return Err(e),
        };
        let ios_app_name = match field_opt_str(&fields, "ios_app_name") {
            Ok(v) => v,
            Err(e) => return Err(e),
        };
        let ios_app_version = match field_opt_str(&fields, "ios_app_version") {
            Ok(v) => v,
            Err(e) => return Err(e),
        };
        let ios_device = match field_opt_str(&fields, "ios_device") {
            Ok(v) => v,
            Err(e) => return Err(e),
        };
        let ios_os_version = match field_opt_str(&fields, "ios_os_version") {
            Ok(v) => v,
            Err(e) => return Err(e),
        };
        let ios_sdk_version = match field_opt_str(&fields, "ios_sdk_version") {
            Ok(v) => v,
            Err(e) => return Err(e),
        };
        let tags = match lookup_ref(&fields, "tags") {
            Some(tv) => match tags_from_json(tv) {
                Ok(t) => t,
                Err(e) => return Err(e),
            },
            None => return Err(Error::HTTPError("malformed resource field".to_owned())),
        };
        let (ca_raw, android_raw, ios_raw, extra) = split_rest(fields);
        let custom_attributes = match ca_raw {
            Some(JsonValue::Obj(m)) => m,
            _ => return Err(Error::HTTPError("malformed resource field".to_owned())),
        };
        let android_last_seen_at = match android_raw {
            None => None,
            Some(JsonValue::Null) => None,
            Some(v) => Some(v),
        };
        let ios_last_seen_at = match ios_raw {
            None => None,
            Some(JsonValue::Null) => None,
            Some(v) => Some(v),
        };
        Ok(Contact {
            id,
            contact_type,
            role,
            email,
            external_id,
            phone,
            name,
            owner_id,
            has_hard_bounced,
            marked_email_as_spam,
            unsubscribed_from_emails,
            created_at,
            updated_at,
            signed_up_at,
            last_seen_at,
            last_replied_at,
            last_contacted_at,
            last_email_opened_at,
            last_email_clicked_at,
            language_override,
            browser,
            browser_version,
            browser_language,
            os,
            android_app_name,
            android_app_version,
            android_device,
            android_os_version,
            android_sdk_version,
            android_last_seen_at,
            ios_app_name,
            ios_app_version,
            ios_device,
            ios_os_version,
            ios_sdk_version,
            ios_last_seen_at,
            tags,
            custom_attributes,
            extra,
        })
    }
}

/// The exact encoded form of one tag.
pub open spec fn tagdata_exact(v: JsonValue, t: TagData) -> bool {
    v matches JsonValue::Obj(fs) && {
        &&& fs@.len() == 3
        &&& str_entry(fs@[0], "type"@, t.tag_type@)
        &&& str_entry(fs@[1], "id"@, t.id@)
        &&& str_entry(fs@[2], "url"@, t.url@)
    }
}

/// The exact encoded form of a tag collection.
pub open spec fn tags_exact(v: JsonValue, t: Tags) -> bool {
    v matches JsonValue::Obj(fs) && {
        &&& fs@.len() == 4
        &&& fs@[0].0@ == "data"@
        &&& fs@[0].1 matches JsonValue::Arr(items) && items@.len() == t.data@.len()
            && forall|i: int| 0 <= i < items@.len()
                ==> tagdata_exact(#[trigger] items@[i], t.data@[i])
        &&& str_entry(fs@[1], "url"@, t.url@)
        &&& int_entry(fs@[2], "total_count"@, t.total_count)
        &&& bool_entry(fs@[3], "has_more"@, t.has_more)
    }
}

/// The serialized form of a contact: every modeled field, in
/// declaration order — an unset optional field as null — followed by
/// the passthrough fields exactly as they were received.
pub open spec fn contact_encodes_to(c: Contact, fs: Seq<(String, JsonValue)>) -> bool {
    &&& fs.len() == 38 + c.extra@.len()
    &&& str_entry(fs[0], "id"@, c.id@)
    &&& str_entry(fs[1], "type"@, c.contact_type@)
    &&& role_entry(fs[2], "role"@, c.role)
    &&& opt_str_entry(fs[3], "email"@, c.email)
    &&& opt_str_entry(fs[4], "external_id"@, c.external_id)
    &&& opt_str_entry(fs[5], "phone"@, c.phone)
    &&& opt_str_entry(fs[6], "name"@, c.name)
    &&& opt_int_entry(fs[7], "owner_id"@, c.owner_id)
    &&& bool_entry(fs[8], "has_hard_bounced"@, c.has_hard_bounced)
    &&& bool_entry(fs[9], "marked_email_as_spam"@, c.marked_email_as_spam)
    &&& bool_entry(fs[10], "unsubscribed_from_emails"@, c.unsubscribed_from_emails)
    &&& int_entry(fs[11], "created_at"@, c.created_at)
    &&& int_entry(fs[12], "updated_at"@, c.updated_at)
    &&& opt_int_entry(fs[13], "signed_up_at"@, c.signed_up_at)
    &&& opt_int_entry(fs[14], "last_seen_at"@, c.last_seen_at)
    &&& opt_int_entry(fs[15], "last_replied_at"@, c.last_replied_at)
    &&& opt_int_entry(fs[16], "last_contacted_at"@, c.last_contacted_at)
    &&& opt_int_entry(fs[17], "last_email_opened_at"@, c.last_email_opened_at)
    &&& opt_int_entry(fs[18], "last_email_clicked_at"@, c.last_email_clicked_at)
    &&& opt_str_entry(fs[19], "language_override"@, c.language_override)
    &&& opt_str_entry(fs[20], "browser"@, c.browser)
    &&& opt_str_entry(fs[21], "browser_version"@, c.browser_version)
    &&& opt_str_entry(fs[22], "browser_language"@, c.browser_language)
    &&& opt_str_entry(fs[23], "os"@, c.os)
    &&& opt_str_entry(fs[24], "android_app_name"@, c.android_app_name)
    &&& opt_str_entry(fs[25], "android_app_version"@, c.android_app_version)
    &&& opt_str_entry(fs[26], "android_device"@, c.android_device)
    &&& opt_str_entry(fs[27], "android_os_version"@, c.android_os_version)
    &&& opt_str_entry(fs[28], "android_sdk_version"@, c.android_sdk_version)
    &&& opt_json_entry(fs[29], "android_last_seen_at"@, c.android_last_seen_at)
    &&& opt_str_entry(fs[30], "ios_app_name"@, c.ios_app_name)
    &&& opt_str_entry(fs[31], "ios_app_version"@, c.ios_app_version)
    &&& opt_str_entry(fs[32], "ios_device"@, c.ios_device)
    &&& opt_str_entry(fs[33], "ios_os_version"@, c.ios_os_version)
    &&& opt_str_entry(fs[34], "ios_sdk_version"@, c.ios_sdk_version)
    &&& opt_json_entry(fs[35], "ios_last_seen_at"@, c.ios_last_seen_at)
    &&& fs[36].0@ == "tags"@
    &&& tags_exact(fs[36].1, c.tags)
    &&& obj_entry(fs[37], "custom_attributes"@, c.custom_attributes@)
    &&& forall|j: int| 0 <= j < c.extra@.len() ==> fs[38 + j] == c.extra@[j]
}

/// Encodes an optional text as a JSON value, null when unset.
fn opt_str_json(v: Option<String>) -> (r: JsonValue)
    ensures
        match v {
            None => r is Null,
            Some(s) => r matches JsonValue::Str(t) && t@ == s@,
        },
{
    match v {
        Some(s) => JsonValue::Str(s),
        None => JsonValue::Null,
    }
}

/// Encodes an optional integer as a JSON value, null when unset.
fn opt_int_json(v: Option<i64>) -> (r: JsonValue)
    ensures
        match v {
            None => r is Null,
            Some(i) => r == JsonValue::Int(i),
        },
{
    match v {
        Some(i) => JsonValue::Int(i),
        None => JsonValue::Null,
    }
}

/// Re-emits an optional free-form value, null when unset.
fn opt_json_json(v: Option<JsonValue>) -> (r: JsonValue)
    ensures
        match v {
            None => r is Null,
            Some(j) => r == j,
        },
{
    match v {
        Some(j) => j,
        None => JsonValue::Null,
    }
}

/// Encodes one tag.
fn tag_to_json(t: TagData) -> (v: JsonValue)
    ensures
        tagdata_exact(v, t),
{
    let TagData { tag_type, id, url } = t;
    let mut fs: Vec<(String, JsonValue)> = Vec::new();
    fs.push(("type".to_owned(), JsonValue::Str(tag_type)));
    fs.push(("id".to_owned(), JsonValue::Str(id)));
    fs.push(("url".to_owned(), JsonValue::Str(url)));
    JsonValue::Obj(fs)
}

/// Encodes a tag collection.
#[verifier::loop_isolation(false)]
fn tags_to_json(t: Tags) -> (v: JsonValue)
    ensures
        tags_exact(v, t),
{
    let Tags { data, url, total_count, has_more } = t;
    let ghost d0 = data@;
    let mut queue = data;
    let mut items: Vec<JsonValue> = Vec::new();
    while queue.len() > 0
        invariant
            items@.len() + queue@.len() == d0.len(),
            queue@ =~= d0.skip(items@.len() as int),
            forall|j: int| 0 <= j < items@.len()
                ==> tagdata_exact(#[trigger] items@[j], d0[j]),
        decreases queue@.len(),
    {
        let td = queue.remove(0);
        proof {
            assert(td == d0[items@.len() as int]);
            assert(d0.skip(items@.len() as int).drop_first()
                =~= d0.skip(items@.len() as int + 1));
        }
        items.push(tag_to_json(td));
    }
    let mut fs: Vec<(String, JsonValue)> = Vec::new();
    fs.push(("data".to_owned(), JsonValue::Arr(items)));
    fs.push(("url".to_owned(), JsonValue::Str(url)));
    fs.push(("total_count".to_owned(), JsonValue::Int(total_count)));
    fs.push(("has_more".to_owned(), JsonValue::Bool(has_more)));
    JsonValue::Obj(fs)
}

impl Contact {
    /// Serializes a contact back to the field list of a JSON object:
    /// the modeled fields in declaration order, then every
    /// passthrough field exactly as it was received — nothing the
    /// server sent is lost.
    #[verifier::rlimit(100)]
    pub fn to_fields(self) -> (fs: Vec<(String, JsonValue)>)
        ensures
            contact_encodes_to(self, fs@),
    {
        let Contact {
            id, contact_type, role, email, external_id, phone, name, owner_id,
            has_hard_bounced, marked_email_as_spam, unsubscribed_from_emails,
            created_at, updated_at, signed_up_at, last_seen_at, last_replied_at,
            last_contacted_at, last_email_opened_at, last_email_clicked_at,
            language_override, browser, browser_version, browser_language, os,
            android_app_name, android_app_version, android_device,
            android_os_version, android_sdk_version, android_last_seen_at,
            ios_app_name, ios_app_version, ios_device, ios_os_version,
            ios_sdk_version, ios_last_seen_at, tags, custom_attributes, extra,
        } = self;
        let mut out: Vec<(String, JsonValue)> = Vec::new();
        out.push(("id".to_owned(), JsonValue::Str(id)));
        out.push(("type".to_owned(), JsonValue::Str(contact_type)));
        out.push(("role".to_owned(), JsonValue::Str(role.wire_name())));
        out.push(("email".to_owned(), opt_str_json(email)));
        out.push(("external_id".to_owned(), opt_str_json(external_id)));
        out.push(("phone".to_owned(), opt_str_json(phone)));
        out.push(("name".to_owned(), opt_str_json(name)));
        out.push(("owner_id".to_owned(), opt_int_json(owner_id)));
        out.push(("has_hard_bounced".to_owned(), JsonValue::Bool(has_hard_bounced)));
        out.push(("marked_email_as_spam".to_owned(), JsonValue::Bool(marked_email_as_spam)));
        out.push(("unsubscribed_from_emails".to_owned(), JsonValue::Bool(unsubscribed_from_emails)));
        out.push(("created_at".to_owned(), JsonValue::Int(created_at)));
        out.push(("updated_at".to_owned(), JsonValue::Int(updated_at)));
        out.push(("signed_up_at".to_owned(), opt_int_json(signed_up_at)));
        out.push(("last_seen_at".to_owned(), opt_int_json(last_seen_at)));
        out.push(("last_replied_at".to_owned(), opt_int_json(last_replied_at)));
        out.push(("last_contacted_at".to_owned(), opt_int_json(last_contacted_at)));
        out.push(("last_email_opened_at".to_owned(), opt_int_json(last_email_opened_at)));
        out.push(("last_email_clicked_at".to_owned(), opt_int_json(last_email_clicked_at)));
        out.push(("language_override".to_owned(), opt_str_json(language_override)));
        out.push(("browser".to_owned(), opt_str_json(browser)));
        out.push(("browser_version".to_owned(), opt_str_json(browser_version)));
        out.push(("browser_language".to_owned(), opt_str_json(browser_language)));
        out.push(("os".to_owned(), opt_str_json(os)));
        out.push(("android_app_name".to_owned(), opt_str_json(android_app_name)));
        out.push(("android_app_version".to_owned(), opt_str_json(android_app_version)));
        out.push(("android_device".to_owned(), opt_str_json(android_device)));
        out.push(("android_os_version".to_owned(), opt_str_json(android_os_version)));
        out.push(("android_sdk_version".to_owned(), opt_str_json(android_sdk_version)));
        out.push(("android_last_seen_at".to_owned(), opt_json_json(android_last_seen_at)));
        out.push(("ios_app_name".to_owned(), opt_str_json(ios_app_name)));
        out.push(("ios_app_version".to_owned(), opt_str_json(ios_app_version)));
        out.push(("ios_device".to_owned(), opt_str_json(ios_device)));
        out.push(("ios_os_version".to_owned(), opt_str_json(ios_os_version)));
        out.push(("ios_sdk_version".to_owned(), opt_str_json(ios_sdk_version)));
        out.push(("ios_last_seen_at".to_owned(), opt_json_json(ios_last_seen_at)));
        out.push(("tags".to_owned(), tags_to_json(tags)));
        out.push(("custom_attributes".to_owned(), JsonValue::Obj(custom_attributes)));
        let mut rest = extra;
        out.append(&mut rest);
        out
    }
}

/// Passthrough round-trip: a field the schema does not model — say
/// `"foo": "bar"` — survives decoding to a contact and re-encoding
/// unchanged: the re-encoded record holds the very same entry.
pub proof fn lemma_passthrough_round_trip(
    fields: Seq<(String, JsonValue)>,
    c: Contact,
    enc: Seq<(String, JsonValue)>,
    i: int,
)
    requires
        contact_matches_fields(c, fields),
        contact_encodes_to(c, enc),
        0 <= i < fields.len(),
        !is_modeled_key(fields[i].0@),
    ensures
        exists|j: int| 0 <= j < enc.len() && enc[j] == fields[i],
{
    lemma_unmodeled_keeps(fields, i);
    let j = choose|j: int|
        0 <= j < unmodeled_fields(fields).len() && unmodeled_fields(fields)[j] == fields[i];
    assert(enc[38 + j] == fields[i]);
}

/// A well-formed encoded next-page pointer.
pub open spec fn next_wf(v: JsonValue) -> bool {
    v matches JsonValue::Obj(fs) && {
        &&& req_int_wf(spec_lookup(fs@, "page"@))
        &&& req_str_wf(spec_lookup(fs@, "starting_after"@))
    }
}

/// An encoded next-page pointer that decoded to `n`.
pub open spec fn next_val(v: JsonValue, n: NextObject) -> bool {
    v matches JsonValue::Obj(fs) && {
        &&& req_int_val(spec_lookup(fs@, "page"@), n.page)
        &&& req_str_val(spec_lookup(fs@, "starting_after"@), n.starting_after@)
    }
}

/// A well-formed encoded pagination cursor.
pub open spec fn pages_wf(v: JsonValue) -> bool {
    v matches JsonValue::Obj(fs) && {
        &&& usize_wf(spec_lookup(fs@, "page"@))
        &&& usize_wf(spec_lookup(fs@, "per_page"@))
        &&& usize_wf(spec_lookup(fs@, "total_pages"@))
        &&& match spec_lookup(fs@, "next"@) {
            None => true,
            Some(nv) => nv is Null || next_wf(nv),
        }
    }
}

/// An encoded pagination cursor that decoded to `p`.
pub open spec fn pages_val(v: JsonValue, p: Pages) -> bool {
    v matches JsonValue::Obj(fs) && {
        &&& usize_val(spec_lookup(fs@, "page"@), p.page)
        &&& usize_val(spec_lookup(fs@, "per_page"@), p.per_page)
        &&& usize_val(spec_lookup(fs@, "total_pages"@), p.total_pages)
        &&& match spec_lookup(fs@, "next"@) {
            None => p.next is None,
            Some(nv) => match nv {
                JsonValue::Null => p.next is None,
                _ => p.next matches Some(n) && next_val(nv, n),
            },
        }
    }
}

/// Decodes a next-page pointer.
fn next_from_json(v: &JsonValue) -> (r: Result<NextObject, Error>)
    ensures
        r is Ok <==> next_wf(*v),
        r matches Ok(n) ==> next_val(*v, n),
{
    match v {
        JsonValue::Obj(fs) => {
            let page = match field_req_int(fs, "page") {
                Ok(i) => i,
                Err(e) => return Err(e),
            };
            let starting_after = match field_req_str(fs, "starting_after") {
                Ok(s) => s,
                Err(e) => return Err(e),
            };
            Ok(NextObject { page, starting_after })
        },
        _ => Err(Error::HTTPError("malformed next pointer".to_owned())),
    }
}

/// Decodes a pagination cursor.
fn pages_from_json(v: &JsonValue) -> (r: Result<Pages, Error>)
    ensures
        r is Ok <==> pages_wf(*v),
        r matches Ok(p) ==> pages_val(*v, p),
{
    match v {
        JsonValue::Obj(fs) => {
            let page = match field_req_usize(fs, "page") {
                Ok(u) => u,
                Err(e) => return Err(e),
            };
            let per_page = match field_req_usize(fs, "per_page") {
                Ok(u) => u,
                Err(e) => return Err(e),
            };
            let total_pages = match field_req_usize(fs, "total_pages") {
                Ok(u) => u,
                Err(e) => return Err(e),
            };
            let next = match lookup_ref(fs, "next") {
                None => None,
                Some(JsonValue::Null) => None,
                Some(nv) => match next_from_json(nv) {
                    Ok(n) => Some(n),
                    Err(e) => return Err(e),
                },
            };
            Ok(Pages { page, per_page, total_pages, next })
        },
        _ => Err(Error::HTTPError("malformed cursor".to_owned())),
    }
}

/// Whether `k` is one of the keys the list envelope models.
pub open spec fn is_list_key(k: Seq<char>) -> bool {
    k == "total_count"@ || k == "pages"@ || k == "data"@
}

/// Checks whether `k` is a modeled list-envelope key.
pub fn is_list_key_exec(k: &str) -> (r: bool)
    ensures
        r == is_list_key(k@),
{
    str_eq(k, "total_count") || str_eq(k, "pages") || str_eq(k, "data")
}

/// The sub-list of envelope fields the schema does not model.
pub open spec fn list_unmodeled_fields(fs: Seq<(String, JsonValue)>) -> Seq<(String, JsonValue)>
    decreases fs.len(),
{
    if fs.len() == 0 {
        Seq::empty()
    } else {
        let rest = list_unmodeled_fields(fs.drop_first());
        if !is_list_key(fs[0].0@) {
            seq![fs[0]] + rest
        } else {
            rest
        }
    }
}

/// Extending an envelope extends its unmodeled sub-list exactly when
/// the new key is unmodeled.
pub proof fn lemma_list_unmodeled_push(fs: Seq<(String, JsonValue)>, e: (String, JsonValue))
    ensures
        list_unmodeled_fields(fs.push(e)) == (if !is_list_key(e.0@) {
            list_unmodeled_fields(fs).push(e)
        } else {
            list_unmodeled_fields(fs)
        }),
    decreases fs.len(),
{
    if fs.len() == 0 {
        assert(fs.push(e).drop_first() =~= fs);
        if !is_list_key(e.0@) {
            assert(seq![e] + list_unmodeled_fields(fs) =~= list_unmodeled_fields(fs).push(e));
        }
    } else {
        assert(fs.push(e).drop_first() =~= fs.drop_first().push(e));
        lemma_list_unmodeled_push(fs.drop_first(), e);
        if !is_list_key(fs[0].0@) && !is_list_key(e.0@) {
            assert(seq![fs[0]] + list_unmodeled_fields(fs.drop_first()).push(e)
                =~= (seq![fs[0]] + list_unmodeled_fields(fs.drop_first())).push(e));
        }
    }
}

/// An item of a list of contacts: an object whose fields decode.
pub open spec fn contact_item_wf(v: JsonValue) -> bool {
    v matches JsonValue::Obj(m) && contact_fields_wf(m@)
}

/// A well-formed encoded list of contacts.
pub open spec fn contact_list_wf(fs: Seq<(String, JsonValue)>) -> bool {
    &&& usize_wf(spec_lookup(fs, "total_count"@))
    &&& spec_lookup(fs, "pages"@) matches Some(pv) && pages_wf(pv)
    &&& spec_lookup(fs, "data"@) matches Some(dv) && (dv matches JsonValue::Arr(items)
        && forall|i: int| 0 <= i < items@.len() ==> contact_item_wf(#[trigger] items@[i]))
}

/// An encoded list of contacts that decoded to `r`: count and cursor
/// from their keys, each item decoded in order, and every unmodeled
/// top-level field preserved in `extra`.
pub open spec fn contact_list_val(fs: Seq<(String, JsonValue)>, r: ListResponse<Contact>) -> bool {
    &&& usize_val(spec_lookup(fs, "total_count"@), r.total_count)
    &&& spec_lookup(fs, "pages"@) matches Some(pv) && pages_val(pv, r.pages)
    &&& spec_lookup(fs, "data"@) matches Some(dv) && (dv matches JsonValue::Arr(items)
        && items@.len() == r.data@.len()
        && forall|i: int| 0 <= i < items@.len()
            ==> ((#[trigger] items@[i]) matches JsonValue::Obj(m)
                && contact_matches_fields(r.data@[i], m@)))
    &&& r.extra@ == list_unmodeled_fields(fs)
}

/// Splits an envelope into its item array and its unmodeled
/// remainder, consuming it.
#[verifier::loop_isolation(false)]
fn split_list_rest(fields: Vec<(String, JsonValue)>) -> (r: (
    Option<JsonValue>,
    Vec<(String, JsonValue)>,
))
    ensures
        r.0 == spec_lookup(fields@, "data"@),
        r.1@ == list_unmodeled_fields(fields@),
{
    let ghost fs0 = fields@;
    let mut queue = fields;
    proof {
        vstd::std_specs::vec::axiom_spec_len(&queue);
        reveal_strlit("data");
        assert("data"@.len() == 4);
    }
    let mut data: Option<JsonValue> = None;
    let mut extra: Vec<(String, JsonValue)> = Vec::new();
    let mut i: usize = 0;
    while queue.len() > 0
        invariant
            i + queue@.len() == fs0.len(),
            queue@ =~= fs0.skip(i as int),
            data == spec_lookup(fs0.take(i as int), "data"@),
            extra@ == list_unmodeled_fields(fs0.take(i as int)),
        decreases queue@.len(),
    {
        let e = queue.remove(0);
        proof {
            assert(e == fs0[i as int]);
            assert(fs0.skip(i as int).drop_first() =~= fs0.skip(i as int + 1));
            assert(fs0.take(i as int + 1) =~= fs0.take(i as int).push(e));
            lemma_lookup_push(fs0.take(i as int), e, "data"@);
            lemma_list_unmodeled_push(fs0.take(i as int), e);
        }
        if str_eq(e.0.as_str(), "data") {
            if data.is_none() {
                data = Some(e.1);
            }
        } else if !is_list_key_exec(e.0.as_str()) {
            extra.push(e);
        }
        i = i + 1;
    }
    proof {
        assert(fs0.take(fs0.len() as int) =~= fs0);
    }
    (data, extra)
}

/// Decodes a whole list-endpoint response: the envelope's count,
/// cursor and passthrough fields, and every item in order.
///
/// Succeeds exactly on well-formed envelopes whose every item is a
/// well-formed contact record.
#[verifier::loop_isolation(false)]
pub fn contact_list_from_fields(fields: Vec<(String, JsonValue)>) -> (r: Result<
    ListResponse<Contact>,
    Error,
>)
    ensures
        r is Ok <==> contact_list_wf(fields@),
        r matches Ok(list) ==> contact_list_val(fields@, list),
{
    let total_count = match field_req_usize(&fields, "total_count") {
        Ok(u) => u,
        Err(e) => return Err(e),
    };
    let pages = match lookup_ref(&fields, "pages") {
        Some(pv) => match pages_from_json(pv) {
            Ok(p) => p,
            Err(e) => return Err(e),
        },
        None => return Err(Error::HTTPError("malformed list envelope".to_owned())),
    };
    let (data_raw, extra) = split_list_rest(fields);
    let items = match data_raw {
        Some(JsonValue::Arr(items)) => items,
        _ => return Err(Error::HTTPError("malformed list envelope".to_owned())),
    };
    let ghost items0 = items@;
    let mut queue = items;
    proof {
        vstd::std_specs::vec::axiom_spec_len(&queue);
    }
    let mut data: Vec<Contact> = Vec::new();
    let mut i: usize = 0;
    while queue.len() > 0
        invariant
            i + queue@.len() == items0.len(),
            queue@ =~= items0.skip(i as int),
            data@.len() == i,
            forall|j: int| 0 <= j < i
                ==> contact_item_wf(#[trigger] items0[j]) && (items0[j] matches JsonValue::Obj(m)
                    && contact_matches_fields(data@[j], m@)),
        decreases queue@.len(),
    {
        let item = queue.remove(0);
        proof {
            assert(item == items0[i as int]);
            assert(items0.skip(i as int).drop_first() =~= items0.skip(i as int + 1));
        }
        let contact = match item {
            JsonValue::Obj(m) => match Contact::from_fields(m) {
                Ok(c) => c,
                Err(e) => return Err(e),
            },
            _ => return Err(Error::HTTPError("malformed list item".to_owned())),
        };
        data.push(contact);
        i = i + 1;
    }
    Ok(ListResponse { total_count, pages, data, extra })
}

} // verus!
