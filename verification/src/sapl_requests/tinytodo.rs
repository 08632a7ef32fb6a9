//! The SAPL batch of the TinyTodo application.
use vstd::prelude::*;

use crate::entity::{AttrValue, EntityData, RequestData};
use crate::json::{Json, JsonObject, JsonValue};

use super::{
    batch_json, build_entity_graph, build_subscriptions, default_algorithm,
    default_algorithm_json, entity_graph, entity_or_absent, insert_uid_attr, is_entity_or_absent,
    records_of_type, request_complete,
    sapl_uid, subscriptions_json, uid_text, with_uid_attr, SaplBatch,
};

verus! {

/// The per-list record: the SAPL texts of its owner, readers and editors, as
/// far as the list has them.
pub open spec fn list_record(attrs: Seq<(String, AttrValue)>) -> Map<Seq<char>, Json> {
    let m = with_uid_attr(Map::empty(), attrs, "owner"@);
    let m = with_uid_attr(m, attrs, "readers"@);
    with_uid_attr(m, attrs, "editors"@)
}

/// The `lists` variable: every `List` entity's SAPL text mapped to its record.
pub open spec fn lists(es: Seq<EntityData>) -> Map<Seq<char>, Json> {
    records_of_type(es, "List"@, |a: Seq<(String, AttrValue)>| list_record(a))
}

/// The attributes that the batch reads as entity references are such references.
pub open spec fn readable(e: EntityData) -> bool {
    e.uid.entity_type@ == "List"@ ==> {
        &&& entity_or_absent(e.attrs@, "owner"@)
        &&& entity_or_absent(e.attrs@, "readers"@)
        &&& entity_or_absent(e.attrs@, "editors"@)
    }
}

/// The TinyTodo batch: variables `entityGraph` and `lists`, the default
/// algorithm, and one subscription per request.
pub open spec fn tinytodo_batch(es: Seq<EntityData>, rs: Seq<RequestData>) -> Json {
    batch_json(
        "tinytodo"@,
        Json::Object(
            Map::empty().insert("entityGraph"@, Json::Object(entity_graph(es))).insert(
                "lists"@,
                Json::Object(lists(es)),
            ),
        ),
        default_algorithm_json(),
        subscriptions_json(rs),
    )
}

/// Whether the entity's attributes have the kinds that the batch reads.
pub fn is_readable(e: &EntityData) -> (r: bool)
    ensures
        r == readable(*e),
{
    let a = &e.attrs;
    e.uid.entity_type != String::from_str("List") || (is_entity_or_absent(a, "owner")
        && is_entity_or_absent(a, "readers") && is_entity_or_absent(a, "editors"))
}

fn list_object(attrs: &Vec<(String, AttrValue)>) -> (r: JsonObject)
    requires
        entity_or_absent(attrs@, "owner"@),
        entity_or_absent(attrs@, "readers"@),
        entity_or_absent(attrs@, "editors"@),
    ensures
        r@ == list_record(attrs@),
{
    let mut list = JsonObject::new();
    insert_uid_attr(&mut list, attrs, "owner");
    insert_uid_attr(&mut list, attrs, "readers");
    insert_uid_attr(&mut list, attrs, "editors");
    list
}

/// Builds the SAPL batch for the TinyTodo scenario.
///
/// Variables: `entityGraph` (each entity to its parents) and `lists` (each
/// list to its owner, readers and editors).
pub fn build_batch(entities: &Vec<EntityData>, requests: &Vec<RequestData>) -> (r: SaplBatch)
    requires
        forall|i: int| 0 <= i < entities.len() ==> readable(#[trigger] entities@[i]),
        forall|i: int| 0 <= i < requests.len() ==> request_complete(#[trigger] requests@[i]),
    ensures
        r.json() == tinytodo_batch(entities@, requests@),
{
    let graph = build_entity_graph(entities);
    let mut lists_obj = JsonObject::new();
    let list_type = String::from_str("List");
    let mut i: usize = 0;
    while i < entities.len()
        invariant
            i <= entities.len(),
            list_type@ == "List"@,
            forall|j: int| 0 <= j < entities.len() ==> readable(#[trigger] entities@[j]),
            lists_obj@ == lists(entities@.subrange(0, i as int)),
        decreases entities.len() - i,
    {
        let e = &entities[i];
        assert(readable(entities@[i as int]));
        assert(entities@.subrange(0, i + 1).subrange(0, i as int) =~= entities@.subrange(
            0,
            i as int,
        ));
        let uid = sapl_uid(&e.uid);
        if e.uid.entity_type == list_type {
            let list = list_object(&e.attrs);
            lists_obj.insert(uid, JsonValue::Object(list));
        }
        i = i + 1;
    }
    assert(entities@.subrange(0, entities.len() as int) =~= entities@);
    let mut variables = JsonObject::new();
    variables.insert(String::from_str("entityGraph"), graph);
    variables.insert(String::from_str("lists"), JsonValue::Object(lists_obj));
    let subscriptions = build_subscriptions(requests);
    SaplBatch {
        app: String::from_str("tinytodo"),
        variables: JsonValue::Object(variables),
        algorithm: default_algorithm(),
        subscriptions,
    }
}

} // verus!
