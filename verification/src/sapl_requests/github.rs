//! The SAPL batch of the GitHub application.
use vstd::prelude::*;

use crate::entity::{AttrValue, EntityData, RequestData};
use crate::json::{Json, JsonObject, JsonValue};

use super::{
    batch_json, build_entity_graph, build_subscriptions, default_algorithm,
    default_algorithm_json, entity_graph, entity_or_absent, insert_uid_attr, is_entity_or_absent,
    records_of_type, request_complete,
    sapl_uid, subscriptions_json, uid_text, with_uid_attr, SaplBatch,
};

verus! {

/// The per-repository record: the SAPL texts of its readers, triagers,
/// writers, maintainers, admins and owner, as far as the repository has them.
pub open spec fn repo_record(attrs: Seq<(String, AttrValue)>) -> Map<Seq<char>, Json> {
    let m = with_uid_attr(Map::empty(), attrs, "readers"@);
    let m = with_uid_attr(m, attrs, "triagers"@);
    let m = with_uid_attr(m, attrs, "writers"@);
    let m = with_uid_attr(m, attrs, "maintainers"@);
    let m = with_uid_attr(m, attrs, "admins"@);
    with_uid_attr(m, attrs, "owner"@)
}

/// The per-organization record: the SAPL texts of its readers, writers and
/// admins, as far as the organization has them.
pub open spec fn org_record(attrs: Seq<(String, AttrValue)>) -> Map<Seq<char>, Json> {
    let m = with_uid_attr(Map::empty(), attrs, "readers"@);
    let m = with_uid_attr(m, attrs, "writers"@);
    with_uid_attr(m, attrs, "admins"@)
}

/// The `repos` variable: every `Repository` entity's SAPL text mapped to its record.
pub open spec fn repos(es: Seq<EntityData>) -> Map<Seq<char>, Json> {
    records_of_type(es, "Repository"@, |a: Seq<(String, AttrValue)>| repo_record(a))
}

/// The `orgs` variable: every `Organization` entity's SAPL text mapped to its record.
pub open spec fn orgs(es: Seq<EntityData>) -> Map<Seq<char>, Json> {
    records_of_type(es, "Organization"@, |a: Seq<(String, AttrValue)>| org_record(a))
}

/// The attributes that the batch reads as entity references are such references.
pub open spec fn readable(e: EntityData) -> bool {
    &&& e.uid.entity_type@ == "Repository"@ ==> {
        &&& entity_or_absent(e.attrs@, "readers"@)
        &&& entity_or_absent(e.attrs@, "triagers"@)
        &&& entity_or_absent(e.attrs@, "writers"@)
        &&& entity_or_absent(e.attrs@, "maintainers"@)
        &&& entity_or_absent(e.attrs@, "admins"@)
        &&& entity_or_absent(e.attrs@, "owner"@)
    }
    &&& e.uid.entity_type@ == "Organization"@ ==> {
        &&& entity_or_absent(e.attrs@, "readers"@)
        &&& entity_or_absent(e.attrs@, "writers"@)
        &&& entity_or_absent(e.attrs@, "admins"@)
    }
}

/// The GitHub batch: variables `entityGraph`, `repos` and `orgs`, the default
/// algorithm, and one subscription per request.
pub open spec fn github_batch(es: Seq<EntityData>, rs: Seq<RequestData>) -> Json {
    batch_json(
        "github"@,
        Json::Object(
            Map::empty().insert("entityGraph"@, Json::Object(entity_graph(es))).insert(
                "repos"@,
                Json::Object(repos(es)),
            ).insert("orgs"@, Json::Object(orgs(es))),
        ),
        default_algorithm_json(),
        subscriptions_json(rs),
    )
}

/// Whether the entity's attributes have the kinds that the batch reads.
pub fn is_readable(e: &EntityData) -> (r: bool)
    ensures
        r == readable(*e),
{
    let a = &e.attrs;
    proof {
        reveal_strlit("Repository");
        reveal_strlit("Organization");
    }
    let repo_ok = e.uid.entity_type != String::from_str("Repository") || (is_entity_or_absent(
        a,
        "readers",
    ) && is_entity_or_absent(a, "triagers") && is_entity_or_absent(a, "writers")
        && is_entity_or_absent(a, "maintainers") && is_entity_or_absent(a, "admins")
        && is_entity_or_absent(a, "owner"));
    let org_ok = e.uid.entity_type != String::from_str("Organization") || (is_entity_or_absent(
        a,
        "readers",
    ) && is_entity_or_absent(a, "writers") && is_entity_or_absent(a, "admins"));
    repo_ok && org_ok
}

fn repo_object(attrs: &Vec<(String, AttrValue)>) -> (r: JsonObject)
    requires
        entity_or_absent(attrs@, "readers"@),
        entity_or_absent(attrs@, "triagers"@),
        entity_or_absent(attrs@, "writers"@),
        entity_or_absent(attrs@, "maintainers"@),
        entity_or_absent(attrs@, "admins"@),
        entity_or_absent(attrs@, "owner"@),
    ensures
        r@ == repo_record(attrs@),
{
    let mut repo = JsonObject::new();
    insert_uid_attr(&mut repo, attrs, "readers");
    insert_uid_attr(&mut repo, attrs, "triagers");
    insert_uid_attr(&mut repo, attrs, "writers");
    insert_uid_attr(&mut repo, attrs, "maintainers");
    insert_uid_attr(&mut repo, attrs, "admins");
    insert_uid_attr(&mut repo, attrs, "owner");
    repo
}

fn org_object(attrs: &Vec<(String, AttrValue)>) -> (r: JsonObject)
    requires
        entity_or_absent(attrs@, "readers"@),
        entity_or_absent(attrs@, "writers"@),
        entity_or_absent(attrs@, "admins"@),
    ensures
        r@ == org_record(attrs@),
{
    let mut org = JsonObject::new();
    insert_uid_attr(&mut org, attrs, "readers");
    insert_uid_attr(&mut org, attrs, "writers");
    insert_uid_attr(&mut org, attrs, "admins");
    org
}

/// Builds the SAPL batch for the GitHub scenario.
///
/// Variables: `entityGraph` (each entity to its parents), `repos` (each
/// repository to its readers, triagers, writers, maintainers, admins and
/// owner) and `orgs` (each organization to its readers, writers and admins).
pub fn build_batch(entities: &Vec<EntityData>, requests: &Vec<RequestData>) -> (r: SaplBatch)
    requires
        forall|i: int| 0 <= i < entities.len() ==> readable(#[trigger] entities@[i]),
        forall|i: int| 0 <= i < requests.len() ==> request_complete(#[trigger] requests@[i]),
    ensures
        r.json() == github_batch(entities@, requests@),
{
    let graph = build_entity_graph(entities);
    let mut repos_obj = JsonObject::new();
    let mut orgs_obj = JsonObject::new();
    let repository = String::from_str("Repository");
    let organization = String::from_str("Organization");
    let mut i: usize = 0;
    while i < entities.len()
        invariant
            i <= entities.len(),
            repository@ == "Repository"@,
            organization@ == "Organization"@,
            forall|j: int| 0 <= j < entities.len() ==> readable(#[trigger] entities@[j]),
            repos_obj@ == repos(entities@.subrange(0, i as int)),
            orgs_obj@ == orgs(entities@.subrange(0, i as int)),
        decreases entities.len() - i,
    {
        let e = &entities[i];
        assert(readable(entities@[i as int]));
        assert(entities@.subrange(0, i + 1).subrange(0, i as int) =~= entities@.subrange(
            0,
            i as int,
        ));
        let uid = sapl_uid(&e.uid);
        proof {
            reveal_strlit("Repository");
            reveal_strlit("Organization");
        }
        if e.uid.entity_type == repository {
            let repo = repo_object(&e.attrs);
            repos_obj.insert(uid, JsonValue::Object(repo));
        } else if e.uid.entity_type == organization {
            let org = org_object(&e.attrs);
            orgs_obj.insert(uid, JsonValue::Object(org));
        }
        i = i + 1;
    }
    assert(entities@.subrange(0, entities.len() as int) =~= entities@);
    let mut variables = JsonObject::new();
    variables.insert(String::from_str("entityGraph"), graph);
    variables.insert(String::from_str("repos"), JsonValue::Object(repos_obj));
    variables.insert(String::from_str("orgs"), JsonValue::Object(orgs_obj));
    let subscriptions = build_subscriptions(requests);
    SaplBatch {
        app: String::from_str("github"),
        variables: JsonValue::Object(variables),
        algorithm: default_algorithm(),
        subscriptions,
    }
}

} // verus!
