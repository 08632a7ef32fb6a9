//! What every SAPL batch is made of: entity identifiers in SAPL's text form,
//! the entity graph, the subscriptions and the combining algorithm.
use vstd::prelude::*;

use crate::entity::{attr, attr_of, AttrValue, EntityData, EntityUid, RequestData};
use crate::json::{json_get, json_seq, lemma_json_seq_index, Json, JsonObject, JsonValue};

pub mod gdrive;
pub mod github;
pub mod tinytodo;

verus! {

/// The escaped form of an entity id, as cedar renders it.
pub uninterp spec fn escaped_eid(eid: Seq<char>) -> Seq<char>;

/// An id made only of printable ASCII characters other than the backslash
/// and the two quotes.
pub open spec fn plain_id(s: Seq<char>) -> bool {
    forall|i: int|
        0 <= i < s.len() ==> {
            &&& 0x20 <= (#[trigger] s[i]) as u32 <= 0x7e
            &&& s[i] != '\\'
            &&& s[i] != '\''
            &&& s[i] != '"'
        }
}

/// Renders an entity id escaped, with cedar-policy-core's `Eid::escaped`,
/// which is `str::escape_debug` collected.
///
/// Claimed of it: the result is `escaped_eid` of the id; a plain id (see
/// `plain_id`) comes back unchanged, as std documents for printable ASCII
/// other than the backslash and the quotes; and no other id escapes to the
/// same text, since cedar writes an `EntityUID` with this escaped id and
/// parses that text back to the same id (`Display` and `FromStr` of
/// `EntityUID`).
#[verifier::external_body]
fn escape_eid(eid: &str) -> (res: String)
    ensures
        res@ == escaped_eid(eid@),
        plain_id(eid@) ==> res@ == eid@,
        forall|other: Seq<char>| #[trigger] escaped_eid(other) == res@ ==> other == eid@,
{
    cedar_policy_core::ast::Eid::new(eid).escaped().to_string()
}

/// `first`, then `::`, then `second`.
pub open spec fn joined(first: Seq<char>, second: Seq<char>) -> Seq<char> {
    first + "::"@ + second
}

/// The SAPL text of an entity identifier: the type, `::`, and the escaped id,
/// without quotes around the id.
pub open spec fn uid_text(uid: EntityUid) -> Seq<char> {
    joined(uid.entity_type@, escaped_eid(uid.eid@))
}

fn join(first: &str, second: &str) -> (r: String)
    ensures
        r@ == joined(first@, second@),
{
    let mut r = String::from_str(first);
    r.append("::");
    r.append(second);
    r
}

/// Converts an entity identifier to its SAPL text, `Type::id`.
///
/// The text preserves entity identity: among identifiers of the same type,
/// only this one has this text. A plain id appears in it as it is.
pub fn sapl_uid(euid: &EntityUid) -> (r: String)
    ensures
        r@ == uid_text(*euid),
        plain_id(euid.eid@) ==> r@ == joined(euid.entity_type@, euid.eid@),
        forall|other: EntityUid|
            other.entity_type@ == euid.entity_type@ ==> (#[trigger] uid_text(other) == r@
                <==> other.eid@ == euid.eid@),
{
    let eid = escape_eid(euid.eid.as_str());
    let r = join(euid.entity_type.as_str(), eid.as_str());
    proof {
        assert forall|other: EntityUid|
            other.entity_type@ == euid.entity_type@ implies (#[trigger] uid_text(other) == r@
            <==> other.eid@ == euid.eid@) by {
            if uid_text(other) == r@ {
                let pre = euid.entity_type@ + "::"@;
                assert(uid_text(other) == pre + escaped_eid(other.eid@));
                assert(r@ == pre + eid@);
                assert((pre + escaped_eid(other.eid@)).subrange(pre.len() as int, r@.len() as int)
                    =~= escaped_eid(other.eid@));
                assert((pre + eid@).subrange(pre.len() as int, r@.len() as int) =~= eid@);
            }
        }
    }
    r
}

/// Converts an attribute value that refers to an entity to the entity's SAPL text.
pub fn sapl_uid_from_pv(pv: &AttrValue) -> (r: String)
    requires
        pv is Entity,
    ensures
        r@ == uid_text(pv->Entity_0),
{
    match pv {
        AttrValue::Entity(uid) => sapl_uid(uid),
        _ => String::new(),
    }
}

/// The bare action name of a request: the escaped id of its action.
pub fn sapl_action(request: &RequestData) -> (r: String)
    requires
        request.action is Some,
    ensures
        r@ == escaped_eid(request.action.unwrap().eid@),
        plain_id(request.action.unwrap().eid@) ==> r@ == request.action.unwrap().eid@,
{
    match &request.action {
        Some(a) => escape_eid(a.eid.as_str()),
        None => String::new(),
    }
}

/// The SAPL text of a parent entry `{"type": .., "id": ..}` of the JSON entity
/// format; nothing when either field is missing or not a string.
pub open spec fn parent_ref(p: Json) -> Option<Seq<char>> {
    match json_get(p, "type"@) {
        Some(Json::Str(t)) => match json_get(p, "id"@) {
            Some(Json::Str(i)) => Some(joined(t, i)),
            _ => None,
        },
        _ => None,
    }
}

/// The SAPL texts of the well-formed parent entries, in order.
pub open spec fn parent_refs(ps: Seq<Json>) -> Seq<Json>
    decreases ps.len(),
{
    if ps.len() == 0 {
        Seq::empty()
    } else {
        let rest = parent_refs(ps.subrange(0, ps.len() - 1));
        match parent_ref(ps[ps.len() - 1]) {
            Some(t) => rest.push(Json::Str(t)),
            None => rest,
        }
    }
}

/// The parents that the JSON entity format lists for an entity.
pub open spec fn entity_parents(entity_json: Json) -> Seq<Json> {
    match json_get(entity_json, "parents"@) {
        Some(Json::Array(ps)) => parent_refs(ps),
        _ => Seq::empty(),
    }
}

/// A parents array whose entries all carry a string `type` and a string `id`
/// lists, entry for entry and in order, `type::id` for each of them.
pub proof fn law_parents_in_order(
    entity_json: Json,
    ps: Seq<Json>,
    types: Seq<Seq<char>>,
    ids: Seq<Seq<char>>,
)
    requires
        json_get(entity_json, "parents"@) == Some(Json::Array(ps)),
        types.len() == ps.len(),
        ids.len() == ps.len(),
        forall|k: int|
            0 <= k < ps.len() ==> json_get(#[trigger] ps[k], "type"@) == Some(Json::Str(types[k]))
                && json_get(ps[k], "id"@) == Some(Json::Str(ids[k])),
    ensures
        entity_parents(entity_json).len() == ps.len(),
        forall|k: int|
            0 <= k < ps.len() ==> #[trigger] entity_parents(entity_json)[k] == Json::Str(
                types[k] + "::"@ + ids[k],
            ),
{
    lemma_parent_refs_all_formed(ps, types, ids);
}

proof fn lemma_parent_refs_all_formed(ps: Seq<Json>, types: Seq<Seq<char>>, ids: Seq<Seq<char>>)
    requires
        types.len() == ps.len(),
        ids.len() == ps.len(),
        forall|k: int|
            0 <= k < ps.len() ==> json_get(#[trigger] ps[k], "type"@) == Some(Json::Str(types[k]))
                && json_get(ps[k], "id"@) == Some(Json::Str(ids[k])),
    ensures
        parent_refs(ps).len() == ps.len(),
        forall|k: int|
            0 <= k < ps.len() ==> #[trigger] parent_refs(ps)[k] == Json::Str(
                types[k] + "::"@ + ids[k],
            ),
    decreases ps.len(),
{
    if ps.len() > 0 {
        let n = ps.len() - 1;
        let p = ps.subrange(0, n);
        let tp = types.subrange(0, n);
        let ip = ids.subrange(0, n);
        assert forall|k: int| 0 <= k < p.len() implies json_get(#[trigger] p[k], "type"@) == Some(
            Json::Str(tp[k]),
        ) && json_get(p[k], "id"@) == Some(Json::Str(ip[k])) by {
            assert(p[k] == ps[k]);
        }
        lemma_parent_refs_all_formed(p, tp, ip);
        assert(json_get(ps[n], "type"@) == Some(Json::Str(types[n])));
        assert(parent_ref(ps[n]) == Some(joined(types[n], ids[n])));
        assert forall|k: int| 0 <= k < ps.len() implies #[trigger] parent_refs(ps)[k] == Json::Str(
            types[k] + "::"@ + ids[k],
        ) by {
            if k < n {
                assert(parent_refs(p)[k] == Json::Str(tp[k] + "::"@ + ip[k]));
            }
        }
    }
}

/// The entity graph: each entity's SAPL text mapped to the array of its
/// parents' SAPL texts, entities taken in order.
pub open spec fn entity_graph(es: Seq<EntityData>) -> Map<Seq<char>, Json>
    decreases es.len(),
{
    if es.len() == 0 {
        Map::empty()
    } else {
        let e = es[es.len() - 1];
        entity_graph(es.subrange(0, es.len() - 1)).insert(
            uid_text(e.uid),
            Json::Array(entity_parents(e.json.json())),
        )
    }
}

/// The entity graph has an entry for every entity and no other entry.
pub proof fn law_graph_covers_entities(es: Seq<EntityData>)
    ensures
        forall|i: int|
            0 <= i < es.len() ==> entity_graph(es).dom().contains(#[trigger] uid_text(es[i].uid)),
        forall|k: Seq<char>| #[trigger]
            entity_graph(es).dom().contains(k) ==> exists|i: int|
                0 <= i < es.len() && uid_text(es[i].uid) == k,
    decreases es.len(),
{
    if es.len() > 0 {
        let p = es.subrange(0, es.len() - 1);
        law_graph_covers_entities(p);
        assert forall|i: int| 0 <= i < es.len() implies entity_graph(es).dom().contains(
            #[trigger] uid_text(es[i].uid),
        ) by {
            if i < es.len() - 1 {
                assert(p[i] == es[i]);
            }
        }
        assert forall|k: Seq<char>| #[trigger] entity_graph(es).dom().contains(k) implies exists|
            i: int,
        | 0 <= i < es.len() && uid_text(es[i].uid) == k by {
            if k == uid_text(es[es.len() - 1].uid) {
                assert(uid_text(es[es.len() - 1].uid) == k);
            } else {
                assert(entity_graph(p).dom().contains(k));
                let i = choose|i: int| 0 <= i < p.len() && uid_text(p[i].uid) == k;
                assert(p[i] == es[i]);
            }
        }
    }
}

/// An entity's entry in the entity graph lists the parents of its JSON form,
/// unless a later entity has the same SAPL text (the later one then wins).
pub proof fn law_graph_lists_parents(es: Seq<EntityData>, i: int)
    requires
        0 <= i < es.len(),
        forall|j: int| i < j < es.len() ==> uid_text(#[trigger] es[j].uid) != uid_text(es[i].uid),
    ensures
        entity_graph(es)[uid_text(es[i].uid)] == Json::Array(entity_parents(es[i].json.json())),
    decreases es.len(),
{
    if i < es.len() - 1 {
        let p = es.subrange(0, es.len() - 1);
        assert(p[i] == es[i]);
        assert forall|j: int| i < j < p.len() implies uid_text(#[trigger] p[j].uid) != uid_text(
            p[i].uid,
        ) by {
            assert(p[j] == es[j]);
        }
        law_graph_lists_parents(p, i);
        assert(uid_text(es[es.len() - 1].uid) != uid_text(es[i].uid));
    }
}

/// The SAPL texts of the parents that an entity's JSON form lists.
fn parents_of(entity_json: &JsonValue) -> (r: Vec<JsonValue>)
    ensures
        json_seq(r@) == entity_parents(entity_json.json()),
{
    let mut out: Vec<JsonValue> = Vec::new();
    let ps = match entity_json.get("parents") {
        Some(p) => p.as_array(),
        None => None,
    };
    let arr = match ps {
        Some(arr) => arr,
        None => {
            return out;
        },
    };
    let ghost js = json_seq(arr@);
    proof {
        lemma_json_seq_index(arr@);
        assert(js.subrange(0, 0) =~= Seq::<Json>::empty());
    }
    let mut i: usize = 0;
    while i < arr.len()
        invariant
            i <= arr.len(),
            js == json_seq(arr@),
            js.len() == arr.len(),
            forall|j: int| 0 <= j < arr.len() ==> #[trigger] js[j] == arr@[j].json(),
            json_seq(out@) == parent_refs(js.subrange(0, i as int)),
        decreases arr.len() - i,
    {
        let p = &arr[i];
        assert(js.subrange(0, i + 1).subrange(0, i as int) =~= js.subrange(0, i as int));
        assert(js.subrange(0, i + 1)[i as int] == p.json());
        let ty = match p.get("type") {
            Some(t) => t.as_str(),
            None => None,
        };
        let id = match p.get("id") {
            Some(d) => d.as_str(),
            None => None,
        };
        match (ty, id) {
            (Some(t), Some(d)) => {
                let text = join(t.as_str(), d.as_str());
                assert(parent_ref(p.json()) == Some(joined(t@, d@)));
                let ghost before = out@;
                let item = JsonValue::Str(text);
                assert(item.json() == Json::Str(joined(t@, d@)));
                out.push(item);
                assert(out@.subrange(0, before.len() as int) =~= before);
                assert(out@[before.len() as int] == item);
            },
            _ => {
                assert(parent_ref(p.json()) is None);
            },
        }
        i = i + 1;
    }
    assert(js.subrange(0, arr.len() as int) =~= js);
    out
}

/// Builds the entity graph variable: for every entity, its SAPL text mapped to
/// the array of the SAPL texts of the parents that its JSON form lists.
///
/// Parents are listed by their raw text, keys by their escaped text; for
/// plain ids the two agree, so a parent that is one of the entities and has a
/// plain id is listed under a key of the graph.
pub fn build_entity_graph(entities: &Vec<EntityData>) -> (r: JsonValue)
    ensures
        r.json() == Json::Object(entity_graph(entities@)),
        forall|m: int|
            0 <= m < entities.len() && plain_id(entities@[m].uid.eid@) ==> #[trigger] uid_text(
                entities@[m].uid,
            ) == joined(entities@[m].uid.entity_type@, entities@[m].uid.eid@),
        forall|i: int, j: int, m: int|
            0 <= i < entities.len() && 0 <= j < entity_parents(entities@[i].json.json()).len()
                && 0 <= m < entities.len() && plain_id(entities@[m].uid.eid@) && #[trigger] entity_parents(
                entities@[i].json.json(),
            )[j] == Json::Str(joined(entities@[m].uid.entity_type@, #[trigger] entities@[m].uid.eid@))
                ==> entity_graph(entities@).dom().contains(
                joined(entities@[m].uid.entity_type@, entities@[m].uid.eid@),
            ),
{
    let mut graph = JsonObject::new();
    let mut i: usize = 0;
    while i < entities.len()
        invariant
            i <= entities.len(),
            graph@ == entity_graph(entities@.subrange(0, i as int)),
            forall|m: int|
                0 <= m < i && plain_id(entities@[m].uid.eid@) ==> #[trigger] uid_text(
                    entities@[m].uid,
                ) == joined(entities@[m].uid.entity_type@, entities@[m].uid.eid@),
        decreases entities.len() - i,
    {
        let e = &entities[i];
        let uid = sapl_uid(&e.uid);
        let parents = parents_of(&e.json);
        assert(entities@.subrange(0, i + 1).subrange(0, i as int) =~= entities@.subrange(
            0,
            i as int,
        ));
        graph.insert(uid, JsonValue::Array(parents));
        i = i + 1;
    }
    assert(entities@.subrange(0, entities.len() as int) =~= entities@);
    proof {
        law_graph_covers_entities(entities@);
        assert forall|m: int|
            0 <= m < entities.len() && plain_id(entities@[m].uid.eid@) implies entity_graph(
            entities@,
        ).dom().contains(joined(entities@[m].uid.entity_type@, entities@[m].uid.eid@)) by {
            assert(entity_graph(entities@).dom().contains(uid_text(entities@[m].uid)));
        }
    }
    JsonValue::Object(graph)
}

/// A per-entity variable: every entity of type `ty`, by its SAPL text, mapped
/// to the record that `record` makes of its attributes, entities taken in
/// order.
pub open spec fn records_of_type(
    es: Seq<EntityData>,
    ty: Seq<char>,
    record: spec_fn(Seq<(String, AttrValue)>) -> Map<Seq<char>, Json>,
) -> Map<Seq<char>, Json>
    decreases es.len(),
{
    if es.len() == 0 {
        Map::empty()
    } else {
        let e = es[es.len() - 1];
        let rest = records_of_type(es.subrange(0, es.len() - 1), ty, record);
        if e.uid.entity_type@ == ty {
            rest.insert(uid_text(e.uid), Json::Object(record(e.attrs@)))
        } else {
            rest
        }
    }
}

/// A per-entity variable has an entry for every entity of its type and no
/// other entry.
pub proof fn law_records_cover_type(
    es: Seq<EntityData>,
    ty: Seq<char>,
    record: spec_fn(Seq<(String, AttrValue)>) -> Map<Seq<char>, Json>,
)
    ensures
        forall|i: int|
            0 <= i < es.len() && es[i].uid.entity_type@ == ty ==> records_of_type(
                es,
                ty,
                record,
            ).dom().contains(#[trigger] uid_text(es[i].uid)),
        forall|k: Seq<char>| #[trigger]
            records_of_type(es, ty, record).dom().contains(k) ==> exists|i: int|
                0 <= i < es.len() && es[i].uid.entity_type@ == ty && uid_text(es[i].uid) == k,
    decreases es.len(),
{
    if es.len() > 0 {
        let p = es.subrange(0, es.len() - 1);
        law_records_cover_type(p, ty, record);
        assert forall|i: int|
            0 <= i < es.len() && es[i].uid.entity_type@ == ty implies records_of_type(
            es,
            ty,
            record,
        ).dom().contains(#[trigger] uid_text(es[i].uid)) by {
            if i < es.len() - 1 {
                assert(p[i] == es[i]);
            }
        }
        assert forall|k: Seq<char>| #[trigger]
            records_of_type(es, ty, record).dom().contains(k) implies exists|i: int|
            0 <= i < es.len() && es[i].uid.entity_type@ == ty && uid_text(es[i].uid) == k by {
            let last = es[es.len() - 1];
            if last.uid.entity_type@ == ty && k == uid_text(last.uid) {
                assert(es[es.len() - 1] == last);
            } else {
                assert(records_of_type(p, ty, record).dom().contains(k));
                let i = choose|i: int|
                    0 <= i < p.len() && p[i].uid.entity_type@ == ty && uid_text(p[i].uid) == k;
                assert(p[i] == es[i]);
            }
        }
    }
}

/// An entity's entry in a per-entity variable is the record of its
/// attributes, unless a later entity of the type has the same SAPL text.
pub proof fn law_record_of_entity(
    es: Seq<EntityData>,
    ty: Seq<char>,
    record: spec_fn(Seq<(String, AttrValue)>) -> Map<Seq<char>, Json>,
    i: int,
)
    requires
        0 <= i < es.len(),
        es[i].uid.entity_type@ == ty,
        forall|j: int|
            i < j < es.len() && (#[trigger] es[j]).uid.entity_type@ == ty ==> uid_text(es[j].uid)
                != uid_text(es[i].uid),
    ensures
        records_of_type(es, ty, record)[uid_text(es[i].uid)] == Json::Object(record(es[i].attrs@)),
    decreases es.len(),
{
    if i < es.len() - 1 {
        let p = es.subrange(0, es.len() - 1);
        assert(p[i] == es[i]);
        assert forall|j: int| i < j < p.len() && (#[trigger] p[j]).uid.entity_type@ == ty implies uid_text(
            p[j].uid,
        ) != uid_text(p[i].uid) by {
            assert(p[j] == es[j]);
        }
        law_record_of_entity(p, ty, record, i);
        let last = es[es.len() - 1];
        if last.uid.entity_type@ == ty {
            assert(es[es.len() - 1] == last);
        }
    }
}

/// A request names its principal, action and resource.
pub open spec fn request_complete(r: RequestData) -> bool {
    &&& r.principal is Some
    &&& r.action is Some
    &&& r.resource is Some
}

/// A SAPL authorization subscription.
#[derive(Debug, PartialEq)]
pub struct SaplSubscription {
    pub subject: JsonValue,
    pub action: JsonValue,
    pub resource: JsonValue,
}

impl SaplSubscription {
    /// The subscription as the JSON object that SAPL reads.
    pub open spec fn json(self) -> Json {
        Json::Object(
            Map::empty().insert("subject"@, self.subject.json()).insert(
                "action"@,
                self.action.json(),
            ).insert("resource"@, self.resource.json()),
        )
    }
}

/// A batch of subscriptions for one application, with the variables and the
/// combining algorithm that SAPL evaluates them with.
#[derive(Debug, PartialEq)]
pub struct SaplBatch {
    pub app: String,
    pub variables: JsonValue,
    pub algorithm: JsonValue,
    pub subscriptions: Vec<SaplSubscription>,
}

/// The JSON object of a batch with the given parts.
pub open spec fn batch_json(
    app: Seq<char>,
    variables: Json,
    algorithm: Json,
    subscriptions: Seq<Json>,
) -> Json {
    Json::Object(
        Map::empty().insert("app"@, Json::Str(app)).insert("variables"@, variables).insert(
            "algorithm"@,
            algorithm,
        ).insert("subscriptions"@, Json::Array(subscriptions)),
    )
}

impl SaplBatch {
    /// The batch as the JSON object that SAPL reads.
    pub open spec fn json(self) -> Json {
        batch_json(
            self.app@,
            self.variables.json(),
            self.algorithm.json(),
            self.subscriptions@.map_values(|s: SaplSubscription| s.json()),
        )
    }
}

/// The subscription for a request: the SAPL texts of principal and resource
/// as subject and resource, the bare action name as action.
pub open spec fn subscription_json(r: RequestData) -> Json {
    Json::Object(
        Map::empty().insert("subject"@, Json::Str(uid_text(r.principal.unwrap()))).insert(
            "action"@,
            Json::Str(escaped_eid(r.action.unwrap().eid@)),
        ).insert("resource"@, Json::Str(uid_text(r.resource.unwrap()))),
    )
}

/// The subscriptions for the requests, one per request, in order.
pub open spec fn subscriptions_json(rs: Seq<RequestData>) -> Seq<Json> {
    rs.map_values(|r: RequestData| subscription_json(r))
}

/// One subscription per request, in order.
pub(crate) fn build_subscriptions(requests: &Vec<RequestData>) -> (r: Vec<SaplSubscription>)
    requires
        forall|i: int| 0 <= i < requests.len() ==> request_complete(#[trigger] requests@[i]),
    ensures
        r@.map_values(|s: SaplSubscription| s.json()) == subscriptions_json(requests@),
{
    let mut out: Vec<SaplSubscription> = Vec::new();
    let mut i: usize = 0;
    while i < requests.len()
        invariant
            i <= requests.len(),
            out.len() == i,
            forall|j: int| 0 <= j < requests.len() ==> request_complete(#[trigger] requests@[j]),
            forall|j: int| 0 <= j < i ==> (#[trigger] out@[j]).json() == subscription_json(requests@[j]),
        decreases requests.len() - i,
    {
        let r = &requests[i];
        assert(request_complete(requests@[i as int]));
        let subject = match &r.principal {
            Some(p) => sapl_uid(p),
            None => String::new(),
        };
        let action = sapl_action(r);
        let resource = match &r.resource {
            Some(p) => sapl_uid(p),
            None => String::new(),
        };
        out.push(
            SaplSubscription {
                subject: JsonValue::Str(subject),
                action: JsonValue::Str(action),
                resource: JsonValue::Str(resource),
            },
        );
        i = i + 1;
    }
    assert(out@.map_values(|s: SaplSubscription| s.json()) =~= subscriptions_json(requests@));
    out
}

/// The default combining algorithm: deny wins, deny by default, errors propagate.
pub open spec fn default_algorithm_json() -> Json {
    Json::Object(
        Map::empty().insert("votingMode"@, Json::Str("PRIORITY_DENY"@)).insert(
            "defaultDecision"@,
            Json::Str("DENY"@),
        ).insert("errorHandling"@, Json::Str("PROPAGATE"@)),
    )
}

/// The default SAPL algorithm, which matches Cedar's default-deny behavior.
pub fn default_algorithm() -> (r: JsonValue)
    ensures
        r.json() == default_algorithm_json(),
{
    let mut o = JsonObject::new();
    o.insert(String::from_str("votingMode"), JsonValue::Str(String::from_str("PRIORITY_DENY")));
    o.insert(String::from_str("defaultDecision"), JsonValue::Str(String::from_str("DENY")));
    o.insert(String::from_str("errorHandling"), JsonValue::Str(String::from_str("PROPAGATE")));
    JsonValue::Object(o)
}

/// The attribute `key`, when present, refers to an entity.
pub open spec fn entity_or_absent(attrs: Seq<(String, AttrValue)>, key: Seq<char>) -> bool {
    match attr_of(attrs, key) {
        Some(v) => v is Entity,
        None => true,
    }
}

/// `m` with `key` set to the SAPL text of the entity that attribute `key`
/// refers to, when the attribute is present.
pub open spec fn with_uid_attr(
    m: Map<Seq<char>, Json>,
    attrs: Seq<(String, AttrValue)>,
    key: Seq<char>,
) -> Map<Seq<char>, Json> {
    match attr_of(attrs, key) {
        Some(AttrValue::Entity(u)) => m.insert(key, Json::Str(uid_text(u))),
        _ => m,
    }
}

/// Whether attribute `key`, when present, refers to an entity.
pub fn is_entity_or_absent(attrs: &Vec<(String, AttrValue)>, key: &str) -> (r: bool)
    ensures
        r == entity_or_absent(attrs@, key@),
{
    match attr(attrs, key) {
        Some(AttrValue::Entity(_)) => true,
        Some(_) => false,
        None => true,
    }
}

/// Whether a request names its principal, action and resource.
pub fn is_complete(request: &RequestData) -> (r: bool)
    ensures
        r == request_complete(*request),
{
    request.principal.is_some() && request.action.is_some() && request.resource.is_some()
}

/// Copies attribute `key`, an entity reference, into `record` as SAPL text.
pub(crate) fn insert_uid_attr(record: &mut JsonObject, attrs: &Vec<(String, AttrValue)>, key: &str)
    requires
        entity_or_absent(attrs@, key@),
    ensures
        final(record)@ == with_uid_attr(old(record)@, attrs@, key@),
{
    match attr(attrs, key) {
        Some(pv) => {
            let text = sapl_uid_from_pv(pv);
            record.insert(String::from_str(key), JsonValue::Str(text));
        },
        None => {},
    }
}

} // verus!
