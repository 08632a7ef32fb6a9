//! The SAPL batch of the GDrive application.
use vstd::prelude::*;

use crate::entity::{attr, attr_of, AttrValue, EntityData, EntityUid, RequestData};
use crate::json::{json_seq, Json, JsonObject, JsonValue};

use super::{
    batch_json, build_entity_graph, build_subscriptions, default_algorithm,
    default_algorithm_json, entity_graph, entity_or_absent, insert_uid_attr, is_entity_or_absent,
    records_of_type, request_complete,
    sapl_uid, subscriptions_json, uid_text, with_uid_attr, SaplBatch,
};

verus! {

/// The SAPL texts of the entities in the set attribute `key`; empty when the
/// attribute is absent.
pub open spec fn uid_list(attrs: Seq<(String, AttrValue)>, key: Seq<char>) -> Seq<Json> {
    match attr_of(attrs, key) {
        Some(AttrValue::EntitySet(v)) => v@.map_values(|u: EntityUid| Json::Str(uid_text(u))),
        _ => Seq::empty(),
    }
}

/// The attribute `key`, when present, is a set of entity references.
pub open spec fn set_or_absent(attrs: Seq<(String, AttrValue)>, key: Seq<char>) -> bool {
    match attr_of(attrs, key) {
        Some(v) => v is EntitySet,
        None => true,
    }
}

/// The attribute `key`, when present, is a boolean.
pub open spec fn bool_or_absent(attrs: Seq<(String, AttrValue)>, key: Seq<char>) -> bool {
    match attr_of(attrs, key) {
        Some(v) => v is Bool,
        None => true,
    }
}

/// Whether a document is public: its `isPublic` attribute, false when absent.
pub open spec fn is_public(attrs: Seq<(String, AttrValue)>) -> bool {
    match attr_of(attrs, "isPublic"@) {
        Some(AttrValue::Bool(b)) => b,
        _ => false,
    }
}

/// The per-user record: the SAPL text of the view the user has access to,
/// when present, and always the arrays of owned documents and owned folders.
pub open spec fn user_record(attrs: Seq<(String, AttrValue)>) -> Map<Seq<char>, Json> {
    with_uid_attr(Map::empty(), attrs, "documentsAndFoldersWithViewAccess"@).insert(
        "ownedDocuments"@,
        Json::Array(uid_list(attrs, "ownedDocuments"@)),
    ).insert("ownedFolders"@, Json::Array(uid_list(attrs, "ownedFolders"@)))
}

/// The per-document record: whether the document is public.
pub open spec fn doc_record(attrs: Seq<(String, AttrValue)>) -> Map<Seq<char>, Json> {
    Map::empty().insert("isPublic"@, Json::Bool(is_public(attrs)))
}

/// The `users` variable: every `User` entity's SAPL text mapped to its record.
pub open spec fn users(es: Seq<EntityData>) -> Map<Seq<char>, Json> {
    records_of_type(es, "User"@, |a: Seq<(String, AttrValue)>| user_record(a))
}

/// The `docs` variable: every `Document` entity's SAPL text mapped to its record.
pub open spec fn docs(es: Seq<EntityData>) -> Map<Seq<char>, Json> {
    records_of_type(es, "Document"@, |a: Seq<(String, AttrValue)>| doc_record(a))
}

/// The attributes that the batch reads have the kinds it reads them as.
pub open spec fn readable(e: EntityData) -> bool {
    &&& e.uid.entity_type@ == "User"@ ==> {
        &&& entity_or_absent(e.attrs@, "documentsAndFoldersWithViewAccess"@)
        &&& set_or_absent(e.attrs@, "ownedDocuments"@)
        &&& set_or_absent(e.attrs@, "ownedFolders"@)
    }
    &&& e.uid.entity_type@ == "Document"@ ==> bool_or_absent(e.attrs@, "isPublic"@)
}

/// The GDrive batch: variables `entityGraph`, `users` and `docs`, the default
/// algorithm, and one subscription per request.
pub open spec fn gdrive_batch(es: Seq<EntityData>, rs: Seq<RequestData>) -> Json {
    batch_json(
        "gdrive"@,
        Json::Object(
            Map::empty().insert("entityGraph"@, Json::Object(entity_graph(es))).insert(
                "users"@,
                Json::Object(users(es)),
            ).insert("docs"@, Json::Object(docs(es))),
        ),
        default_algorithm_json(),
        subscriptions_json(rs),
    )
}

/// Every user's record lists its owned documents and owned folders, empty
/// when the user has no such attribute; a document without `isPublic` is
/// not public.
pub proof fn law_gdrive_defaults(attrs: Seq<(String, AttrValue)>)
    ensures
        user_record(attrs).dom().contains("ownedDocuments"@),
        user_record(attrs).dom().contains("ownedFolders"@),
        attr_of(attrs, "ownedDocuments"@) is None ==> user_record(attrs)["ownedDocuments"@]
            == Json::Array(Seq::empty()),
        attr_of(attrs, "ownedFolders"@) is None ==> user_record(attrs)["ownedFolders"@]
            == Json::Array(Seq::empty()),
        attr_of(attrs, "isPublic"@) is None ==> doc_record(attrs)["isPublic"@] == Json::Bool(
            false,
        ),
{
    reveal_strlit("ownedDocuments");
    reveal_strlit("ownedFolders");
}

fn is_set_or_absent(attrs: &Vec<(String, AttrValue)>, key: &str) -> (r: bool)
    ensures
        r == set_or_absent(attrs@, key@),
{
    match attr(attrs, key) {
        Some(AttrValue::EntitySet(_)) => true,
        Some(_) => false,
        None => true,
    }
}

fn is_bool_or_absent(attrs: &Vec<(String, AttrValue)>, key: &str) -> (r: bool)
    ensures
        r == bool_or_absent(attrs@, key@),
{
    match attr(attrs, key) {
        Some(AttrValue::Bool(_)) => true,
        Some(_) => false,
        None => true,
    }
}

/// Whether the entity's attributes have the kinds that the batch reads.
pub fn is_readable(e: &EntityData) -> (r: bool)
    ensures
        r == readable(*e),
{
    let a = &e.attrs;
    proof {
        reveal_strlit("User");
        reveal_strlit("Document");
    }
    let user_ok = e.uid.entity_type != String::from_str("User") || (is_entity_or_absent(
        a,
        "documentsAndFoldersWithViewAccess",
    ) && is_set_or_absent(a, "ownedDocuments") && is_set_or_absent(a, "ownedFolders"));
    let doc_ok = e.uid.entity_type != String::from_str("Document") || is_bool_or_absent(
        a,
        "isPublic",
    );
    user_ok && doc_ok
}

fn uid_array(attrs: &Vec<(String, AttrValue)>, key: &str) -> (r: Vec<JsonValue>)
    requires
        set_or_absent(attrs@, key@),
    ensures
        json_seq(r@) == uid_list(attrs@, key@),
{
    let mut out: Vec<JsonValue> = Vec::new();
    match attr(attrs, key) {
        Some(AttrValue::EntitySet(set)) => {
            let ghost want = set@.map_values(|u: EntityUid| Json::Str(uid_text(u)));
            let mut i: usize = 0;
            while i < set.len()
                invariant
                    i <= set.len(),
                    want == set@.map_values(|u: EntityUid| Json::Str(uid_text(u))),
                    json_seq(out@) == want.subrange(0, i as int),
                decreases set.len() - i,
            {
                let text = sapl_uid(&set[i]);
                let ghost before = out@;
                let item = JsonValue::Str(text);
                assert(item.json() == Json::Str(uid_text(set@[i as int])));
                out.push(item);
                assert(out@.subrange(0, before.len() as int) =~= before);
                assert(out@[before.len() as int] == item);
                assert(json_seq(out@) == json_seq(before).push(item.json()));
                assert(want.subrange(0, i + 1) =~= want.subrange(0, i as int).push(
                    Json::Str(uid_text(set@[i as int])),
                ));
                i = i + 1;
            }
            assert(want.subrange(0, set.len() as int) =~= want);
        },
        _ => {
            assert(json_seq(out@) =~= Seq::<Json>::empty());
        },
    }
    out
}

fn user_object(attrs: &Vec<(String, AttrValue)>) -> (r: JsonObject)
    requires
        entity_or_absent(attrs@, "documentsAndFoldersWithViewAccess"@),
        set_or_absent(attrs@, "ownedDocuments"@),
        set_or_absent(attrs@, "ownedFolders"@),
    ensures
        r@ == user_record(attrs@),
{
    let mut user = JsonObject::new();
    insert_uid_attr(&mut user, attrs, "documentsAndFoldersWithViewAccess");
    let owned_docs = uid_array(attrs, "ownedDocuments");
    user.insert(String::from_str("ownedDocuments"), JsonValue::Array(owned_docs));
    let owned_folders = uid_array(attrs, "ownedFolders");
    user.insert(String::from_str("ownedFolders"), JsonValue::Array(owned_folders));
    user
}

fn doc_object(attrs: &Vec<(String, AttrValue)>) -> (r: JsonObject)
    requires
        bool_or_absent(attrs@, "isPublic"@),
    ensures
        r@ == doc_record(attrs@),
{
    let is_public = match attr(attrs, "isPublic") {
        Some(AttrValue::Bool(b)) => *b,
        _ => false,
    };
    let mut doc = JsonObject::new();
    doc.insert(String::from_str("isPublic"), JsonValue::Bool(is_public));
    doc
}

/// Builds the SAPL batch for the GDrive scenario.
///
/// Variables: `entityGraph` (each entity to its parents), `users` (each user
/// to the view it has access to, its owned documents and its owned folders,
/// the last two empty when absent) and `docs` (each document to whether it is
/// public, false when absent).
pub fn build_batch(entities: &Vec<EntityData>, requests: &Vec<RequestData>) -> (r: SaplBatch)
    requires
        forall|i: int| 0 <= i < entities.len() ==> readable(#[trigger] entities@[i]),
        forall|i: int| 0 <= i < requests.len() ==> request_complete(#[trigger] requests@[i]),
    ensures
        r.json() == gdrive_batch(entities@, requests@),
{
    let graph = build_entity_graph(entities);
    let mut users_obj = JsonObject::new();
    let mut docs_obj = JsonObject::new();
    let user_type = String::from_str("User");
    let doc_type = String::from_str("Document");
    let mut i: usize = 0;
    while i < entities.len()
        invariant
            i <= entities.len(),
            user_type@ == "User"@,
            doc_type@ == "Document"@,
            forall|j: int| 0 <= j < entities.len() ==> readable(#[trigger] entities@[j]),
            users_obj@ == users(entities@.subrange(0, i as int)),
            docs_obj@ == docs(entities@.subrange(0, i as int)),
        decreases entities.len() - i,
    {
        let e = &entities[i];
        assert(readable(entities@[i as int]));
        assert(entities@.subrange(0, i + 1).subrange(0, i as int) =~= entities@.subrange(
            0,
            i as int,
        ));
        let uid = sapl_uid(&e.uid);
        proof {
            reveal_strlit("User");
            reveal_strlit("Document");
        }
        if e.uid.entity_type == user_type {
            let user = user_object(&e.attrs);
            users_obj.insert(uid, JsonValue::Object(user));
        } else if e.uid.entity_type == doc_type {
            let doc = doc_object(&e.attrs);
            docs_obj.insert(uid, JsonValue::Object(doc));
        }
        i = i + 1;
    }
    assert(entities@.subrange(0, entities.len() as int) =~= entities@);
    let mut variables = JsonObject::new();
    variables.insert(String::from_str("entityGraph"), graph);
    variables.insert(String::from_str("users"), JsonValue::Object(users_obj));
    variables.insert(String::from_str("docs"), JsonValue::Object(docs_obj));
    let subscriptions = build_subscriptions(requests);
    SaplBatch {
        app: String::from_str("gdrive"),
        variables: JsonValue::Object(variables),
        algorithm: default_algorithm(),
        subscriptions,
    }
}

} // verus!
