//! What every batch holds for each entity: the entity graph's parents and
//! the per-entity records of GitHub, GDrive and TinyTodo, stated over the
//! batch that an application gets.
use vstd::prelude::*;

use crate::entity::{attr_of, AttrValue, EntityData, EntityUid, RequestData};
use crate::json::{json_get, Json};
use crate::sapl_engine::{
    batch_entry, batch_for, has_sapl_encoding, is_gdrive, is_github, lemma_batch_variables,
};
use crate::sapl_requests::gdrive::{doc_record, user_record};
use crate::sapl_requests::github::{org_record, repo_record};
use crate::sapl_requests::tinytodo::list_record;
use crate::sapl_requests::{
    escaped_eid, subscription_json, subscriptions_json, entity_graph, law_graph_covers_entities, law_graph_lists_parents, law_parents_in_order,
    law_record_of_entity, law_records_cover_type, uid_text,
};

verus! {

/// No later entity of type `ty` (any type when `ty` is `None`) has the same
/// SAPL text as entity `i`.
pub open spec fn last_of_its_text(es: Seq<EntityData>, i: int, ty: Option<Seq<char>>) -> bool {
    forall|j: int|
        i < j < es.len() && (ty is None || (#[trigger] es[j]).uid.entity_type@ == ty.unwrap())
            ==> uid_text(es[j].uid) != uid_text(es[i].uid)
}

/// A field of a GitHub repository record.
pub open spec fn repo_field(k: Seq<char>) -> bool {
    k == "readers"@ || k == "triagers"@ || k == "writers"@ || k == "maintainers"@ || k
        == "admins"@ || k == "owner"@
}

/// A field of a GitHub organization record.
pub open spec fn org_field(k: Seq<char>) -> bool {
    k == "readers"@ || k == "writers"@ || k == "admins"@
}

/// A field of a TinyTodo list record.
pub open spec fn list_field(k: Seq<char>) -> bool {
    k == "owner"@ || k == "readers"@ || k == "editors"@
}

/// What a record whose fields are entity references holds at `key`: the SAPL
/// text of the entity that attribute `key` refers to when `key` is a field
/// and the attribute is present, nothing otherwise.
pub open spec fn reference_at(
    is_field: bool,
    attrs: Seq<(String, AttrValue)>,
    key: Seq<char>,
) -> Option<Json> {
    if is_field {
        match attr_of(attrs, key) {
            Some(AttrValue::Entity(u)) => Some(Json::Str(uid_text(u))),
            _ => None,
        }
    } else {
        None
    }
}

proof fn lemma_field_names()
    ensures
        "readers"@ != "triagers"@,
        "readers"@ != "writers"@,
        "readers"@ != "maintainers"@,
        "readers"@ != "admins"@,
        "readers"@ != "owner"@,
        "readers"@ != "editors"@,
        "triagers"@ != "writers"@,
        "triagers"@ != "maintainers"@,
        "triagers"@ != "admins"@,
        "triagers"@ != "owner"@,
        "writers"@ != "maintainers"@,
        "writers"@ != "admins"@,
        "writers"@ != "owner"@,
        "maintainers"@ != "admins"@,
        "maintainers"@ != "owner"@,
        "admins"@ != "owner"@,
        "owner"@ != "editors"@,
        "documentsAndFoldersWithViewAccess"@ != "ownedDocuments"@,
        "documentsAndFoldersWithViewAccess"@ != "ownedFolders"@,
        "ownedDocuments"@ != "ownedFolders"@,
{
    reveal_strlit("readers");
    reveal_strlit("triagers");
    reveal_strlit("writers");
    reveal_strlit("maintainers");
    reveal_strlit("admins");
    reveal_strlit("owner");
    reveal_strlit("editors");
    reveal_strlit("documentsAndFoldersWithViewAccess");
    reveal_strlit("ownedDocuments");
    reveal_strlit("ownedFolders");
    assert("readers"@.len() == 7 && "triagers"@.len() == 8 && "writers"@.len() == 7);
    assert("maintainers"@.len() == 11 && "admins"@.len() == 6 && "owner"@.len() == 5);
    assert("editors"@.len() == 7);
    assert("readers"@[0] != "writers"@[0]);
    assert("readers"@[0] != "editors"@[0]);
    assert("documentsAndFoldersWithViewAccess"@.len() == 33);
    assert("ownedDocuments"@.len() == 14 && "ownedFolders"@.len() == 12);
}

proof fn lemma_repo_record(attrs: Seq<(String, AttrValue)>, key: Seq<char>)
    ensures
        json_get(Json::Object(repo_record(attrs)), key) == reference_at(repo_field(key), attrs, key),
{
    lemma_field_names();
}

proof fn lemma_org_record(attrs: Seq<(String, AttrValue)>, key: Seq<char>)
    ensures
        json_get(Json::Object(org_record(attrs)), key) == reference_at(org_field(key), attrs, key),
{
    lemma_field_names();
}

proof fn lemma_list_record(attrs: Seq<(String, AttrValue)>, key: Seq<char>)
    ensures
        json_get(Json::Object(list_record(attrs)), key) == reference_at(list_field(key), attrs, key),
{
    lemma_field_names();
}

/// Every batch names its application (`github` for both GitHub encodings,
/// `gdrive` for both GDrive encodings), uses the deny-overrides algorithm
/// with deny as default, and holds one subscription per request, in request
/// order, whose subject, action and resource are the SAPL texts of the
/// request's principal, action name and resource.
pub proof fn law_batch_frame(app: Seq<char>, es: Seq<EntityData>, rs: Seq<RequestData>, i: int)
    requires
        has_sapl_encoding(app),
        0 <= i < rs.len(),
    ensures
        batch_for(app, es, rs) is Some,
        ({
            let b = batch_for(app, es, rs).unwrap();
            &&& is_github(app) ==> json_get(b, "app"@) == Some(Json::Str("github"@))
            &&& is_gdrive(app) ==> json_get(b, "app"@) == Some(Json::Str("gdrive"@))
            &&& app == "tinytodo"@ ==> json_get(b, "app"@) == Some(Json::Str("tinytodo"@))
            &&& json_get(b, "algorithm"@) matches Some(alg) && json_get(alg, "votingMode"@) == Some(
                Json::Str("PRIORITY_DENY"@),
            ) && json_get(alg, "defaultDecision"@) == Some(Json::Str("DENY"@)) && json_get(
                alg,
                "errorHandling"@,
            ) == Some(Json::Str("PROPAGATE"@))
            &&& json_get(b, "subscriptions"@) matches Some(Json::Array(subs)) && subs.len()
                == rs.len() && json_get(subs[i], "subject"@) == Some(
                Json::Str(uid_text(rs[i].principal.unwrap())),
            ) && json_get(subs[i], "action"@) == Some(
                Json::Str(escaped_eid(rs[i].action.unwrap().eid@)),
            ) && json_get(subs[i], "resource"@) == Some(
                Json::Str(uid_text(rs[i].resource.unwrap())),
            )
        }),
{
    lemma_batch_variables(app, es, rs);
    reveal_strlit("app");
    reveal_strlit("variables");
    reveal_strlit("algorithm");
    reveal_strlit("subscriptions");
    reveal_strlit("subject");
    reveal_strlit("action");
    reveal_strlit("resource");
    reveal_strlit("votingMode");
    reveal_strlit("defaultDecision");
    reveal_strlit("errorHandling");
    reveal_strlit("github");
    reveal_strlit("github-templates");
    reveal_strlit("gdrive");
    reveal_strlit("gdrive-templates");
    reveal_strlit("tinytodo");
    assert("app"@.len() == 3 && "variables"@.len() == 9 && "algorithm"@.len() == 9);
    assert("subscriptions"@.len() == 13 && "variables"@[0] != "algorithm"@[0]);
    assert("subject"@.len() == 7 && "action"@.len() == 6 && "resource"@.len() == 8);
    assert("votingMode"@.len() == 10 && "defaultDecision"@.len() == 15);
    assert("errorHandling"@.len() == 13);
    assert("tinytodo"@.len() == 8 && "github"@.len() == 6 && "gdrive"@.len() == 6);
    assert("github-templates"@.len() == 16 && "gdrive-templates"@.len() == 16);
    assert("gdrive"@[1] != "github"@[1]);
    assert("gdrive-templates"@[1] != "github-templates"@[1]);
    assert(subscriptions_json(rs)[i] == subscription_json(rs[i]));
}

/// Every entity has an entry in the entity graph of every batch.
pub proof fn law_batch_graph_covers(app: Seq<char>, es: Seq<EntityData>, rs: Seq<RequestData>)
    requires
        has_sapl_encoding(app),
    ensures
        batch_for(app, es, rs) is Some,
        forall|i: int|
            0 <= i < es.len() ==> batch_entry(
                batch_for(app, es, rs).unwrap(),
                "entityGraph"@,
                #[trigger] uid_text(es[i].uid),
            ) is Some,
{
    lemma_batch_variables(app, es, rs);
    law_graph_covers_entities(es);
}

/// In every batch, the entity graph lists for an entity all the parents of
/// its JSON form, entry for entry and in order, each as `type::id`.
pub proof fn law_batch_graph_parents(
    app: Seq<char>,
    es: Seq<EntityData>,
    rs: Seq<RequestData>,
    i: int,
    ps: Seq<Json>,
    types: Seq<Seq<char>>,
    ids: Seq<Seq<char>>,
)
    requires
        has_sapl_encoding(app),
        0 <= i < es.len(),
        last_of_its_text(es, i, None),
        json_get(es[i].json.json(), "parents"@) == Some(Json::Array(ps)),
        types.len() == ps.len(),
        ids.len() == ps.len(),
        forall|k: int|
            0 <= k < ps.len() ==> json_get(#[trigger] ps[k], "type"@) == Some(Json::Str(types[k]))
                && json_get(ps[k], "id"@) == Some(Json::Str(ids[k])),
    ensures
        batch_for(app, es, rs) is Some,
        batch_entry(batch_for(app, es, rs).unwrap(), "entityGraph"@, uid_text(es[i].uid)) matches Some(
            Json::Array(listed),
        ) && listed.len() == ps.len() && forall|k: int|
            0 <= k < ps.len() ==> #[trigger] listed[k] == Json::Str(types[k] + "::"@ + ids[k]),
{
    lemma_batch_variables(app, es, rs);
    law_graph_covers_entities(es);
    assert forall|j: int| i < j < es.len() implies uid_text(#[trigger] es[j].uid) != uid_text(
        es[i].uid,
    ) by {
        assert(last_of_its_text(es, i, None));
    }
    law_graph_lists_parents(es, i);
    law_parents_in_order(es[i].json.json(), ps, types, ids);
}

/// In a GitHub batch (either encoding), a repository's record holds, for each
/// of `readers`, `triagers`, `writers`, `maintainers`, `admins` and `owner`
/// that the repository has as an entity reference, the SAPL text of that
/// entity, and nothing else.
pub proof fn law_github_repo_record(
    app: Seq<char>,
    es: Seq<EntityData>,
    rs: Seq<RequestData>,
    i: int,
    key: Seq<char>,
)
    requires
        is_github(app),
        0 <= i < es.len(),
        es[i].uid.entity_type@ == "Repository"@,
        last_of_its_text(es, i, Some("Repository"@)),
    ensures
        batch_for(app, es, rs) is Some,
        batch_entry(batch_for(app, es, rs).unwrap(), "repos"@, uid_text(es[i].uid)) is Some,
        json_get(
            batch_entry(batch_for(app, es, rs).unwrap(), "repos"@, uid_text(es[i].uid)).unwrap(),
            key,
        ) == reference_at(repo_field(key), es[i].attrs@, key),
{
    lemma_batch_variables(app, es, rs);
    let f = |a: Seq<(String, AttrValue)>| repo_record(a);
    law_records_cover_type(es, "Repository"@, f);
    law_record_of_entity(es, "Repository"@, f, i);
    lemma_repo_record(es[i].attrs@, key);
}

/// In a GitHub batch (either encoding), an organization's record holds, for
/// each of `readers`, `writers` and `admins` that the organization has as an
/// entity reference, the SAPL text of that entity, and nothing else.
pub proof fn law_github_org_record(
    app: Seq<char>,
    es: Seq<EntityData>,
    rs: Seq<RequestData>,
    i: int,
    key: Seq<char>,
)
    requires
        is_github(app),
        0 <= i < es.len(),
        es[i].uid.entity_type@ == "Organization"@,
        last_of_its_text(es, i, Some("Organization"@)),
    ensures
        batch_for(app, es, rs) is Some,
        batch_entry(batch_for(app, es, rs).unwrap(), "orgs"@, uid_text(es[i].uid)) is Some,
        json_get(
            batch_entry(batch_for(app, es, rs).unwrap(), "orgs"@, uid_text(es[i].uid)).unwrap(),
            key,
        ) == reference_at(org_field(key), es[i].attrs@, key),
{
    lemma_batch_variables(app, es, rs);
    let f = |a: Seq<(String, AttrValue)>| org_record(a);
    law_records_cover_type(es, "Organization"@, f);
    law_record_of_entity(es, "Organization"@, f, i);
    lemma_org_record(es[i].attrs@, key);
}

/// In a TinyTodo batch, a list's record holds, for each of `owner`, `readers`
/// and `editors` that the list has as an entity reference, the SAPL text of
/// that entity, and nothing else.
pub proof fn law_tinytodo_list_record(
    es: Seq<EntityData>,
    rs: Seq<RequestData>,
    i: int,
    key: Seq<char>,
)
    requires
        0 <= i < es.len(),
        es[i].uid.entity_type@ == "List"@,
        last_of_its_text(es, i, Some("List"@)),
    ensures
        batch_for("tinytodo"@, es, rs) is Some,
        batch_entry(batch_for("tinytodo"@, es, rs).unwrap(), "lists"@, uid_text(es[i].uid)) is Some,
        json_get(
            batch_entry(batch_for("tinytodo"@, es, rs).unwrap(), "lists"@, uid_text(es[i].uid)).unwrap(),
            key,
        ) == reference_at(list_field(key), es[i].attrs@, key),
{
    lemma_batch_variables("tinytodo"@, es, rs);
    let f = |a: Seq<(String, AttrValue)>| list_record(a);
    law_records_cover_type(es, "List"@, f);
    law_record_of_entity(es, "List"@, f, i);
    lemma_list_record(es[i].attrs@, key);
}

/// In a GDrive batch (either encoding), a document's record holds only
/// `isPublic`: the document's `isPublic` attribute, false when it has none.
pub proof fn law_gdrive_doc_record(
    app: Seq<char>,
    es: Seq<EntityData>,
    rs: Seq<RequestData>,
    i: int,
    key: Seq<char>,
)
    requires
        is_gdrive(app),
        0 <= i < es.len(),
        es[i].uid.entity_type@ == "Document"@,
        last_of_its_text(es, i, Some("Document"@)),
    ensures
        batch_for(app, es, rs) is Some,
        batch_entry(batch_for(app, es, rs).unwrap(), "docs"@, uid_text(es[i].uid)) is Some,
        ({
            let entry = batch_entry(batch_for(app, es, rs).unwrap(), "docs"@, uid_text(es[i].uid)).unwrap();
            &&& attr_of(es[i].attrs@, "isPublic"@) matches Some(AttrValue::Bool(b)) ==> json_get(
                entry,
                "isPublic"@,
            ) == Some(Json::Bool(b))
            &&& attr_of(es[i].attrs@, "isPublic"@) is None ==> json_get(entry, "isPublic"@) == Some(
                Json::Bool(false),
            )
            &&& key != "isPublic"@ ==> json_get(entry, key) is None
        }),
{
    lemma_batch_variables(app, es, rs);
    let f = |a: Seq<(String, AttrValue)>| doc_record(a);
    law_records_cover_type(es, "Document"@, f);
    law_record_of_entity(es, "Document"@, f, i);
}

/// In a GDrive batch (either encoding), a user's record holds the SAPL text of
/// the view the user has access to when it has one, and always the arrays of
/// the SAPL texts of its owned documents and owned folders, in set order and
/// empty when the user has no such attribute; nothing else.
pub proof fn law_gdrive_user_record(
    app: Seq<char>,
    es: Seq<EntityData>,
    rs: Seq<RequestData>,
    i: int,
    key: Seq<char>,
)
    requires
        is_gdrive(app),
        0 <= i < es.len(),
        es[i].uid.entity_type@ == "User"@,
        last_of_its_text(es, i, Some("User"@)),
    ensures
        batch_for(app, es, rs) is Some,
        batch_entry(batch_for(app, es, rs).unwrap(), "users"@, uid_text(es[i].uid)) is Some,
        ({
            let entry = batch_entry(batch_for(app, es, rs).unwrap(), "users"@, uid_text(es[i].uid)).unwrap();
            let attrs = es[i].attrs@;
            &&& json_get(entry, "documentsAndFoldersWithViewAccess"@) == reference_at(
                true,
                attrs,
                "documentsAndFoldersWithViewAccess"@,
            )
            &&& attr_of(attrs, "ownedDocuments"@) matches Some(AttrValue::EntitySet(v)) ==> json_get(
                entry,
                "ownedDocuments"@,
            ) matches Some(Json::Array(listed)) && listed.len() == v.len() && forall|k: int|
                0 <= k < v.len() ==> #[trigger] listed[k] == Json::Str(uid_text(v@[k]))
            &&& attr_of(attrs, "ownedDocuments"@) is None ==> json_get(entry, "ownedDocuments"@)
                == Some(Json::Array(Seq::empty()))
            &&& attr_of(attrs, "ownedFolders"@) matches Some(AttrValue::EntitySet(v)) ==> json_get(
                entry,
                "ownedFolders"@,
            ) matches Some(Json::Array(listed)) && listed.len() == v.len() && forall|k: int|
                0 <= k < v.len() ==> #[trigger] listed[k] == Json::Str(uid_text(v@[k]))
            &&& attr_of(attrs, "ownedFolders"@) is None ==> json_get(entry, "ownedFolders"@) == Some(
                Json::Array(Seq::empty()),
            )
            &&& key != "documentsAndFoldersWithViewAccess"@ && key != "ownedDocuments"@ && key
                != "ownedFolders"@ ==> json_get(entry, key) is None
        }),
{
    lemma_batch_variables(app, es, rs);
    lemma_field_names();
    let f = |a: Seq<(String, AttrValue)>| user_record(a);
    law_records_cover_type(es, "User"@, f);
    law_record_of_entity(es, "User"@, f, i);
}

} // verus!
