//! The entities and requests that SAPL batches are built from, held as plain
//! values: entity identifiers as type name and raw id, attribute values by
//! the kinds that the batch builders read.
use vstd::prelude::*;

use crate::json::JsonValue;

verus! {

/// An entity identifier: the entity type's name and the raw (unescaped) id.
#[derive(Debug, Clone, PartialEq, Eq)]
pub struct EntityUid {
    pub entity_type: String,
    pub eid: String,
}

/// An attribute value, by the kinds that the batch builders read.
#[derive(Debug, Clone, PartialEq, Eq)]
pub enum AttrValue {
    /// A reference to an entity.
    Entity(EntityUid),
    /// A set of entity references, in the set's iteration order.
    EntitySet(Vec<EntityUid>),
    /// A boolean.
    Bool(bool),
    /// Any other value.
    Other,
}

/// An entity of the hierarchy.
#[derive(Debug)]
pub struct EntityData {
    pub uid: EntityUid,
    /// The attributes, as name and value.
    pub attrs: Vec<(String, AttrValue)>,
    /// The entity in its JSON entity format (with `uid`, `attrs`, `parents`).
    pub json: JsonValue,
}

/// An authorization request: principal, action and resource, each of which
/// may be unknown.
#[derive(Debug, Clone, PartialEq, Eq)]
pub struct RequestData {
    pub principal: Option<EntityUid>,
    pub action: Option<EntityUid>,
    pub resource: Option<EntityUid>,
}

/// Two identifiers name the same entity.
pub open spec fn same_uid(a: EntityUid, b: EntityUid) -> bool {
    a.entity_type@ == b.entity_type@ && a.eid@ == b.eid@
}

/// The value of attribute `key`: when a name occurs more than once the last
/// occurrence counts, as when the pairs are collected into a map.
pub open spec fn attr_of(attrs: Seq<(String, AttrValue)>, key: Seq<char>) -> Option<AttrValue>
    decreases attrs.len(),
{
    if attrs.len() == 0 {
        None
    } else if attrs[attrs.len() - 1].0@ == key {
        Some(attrs[attrs.len() - 1].1)
    } else {
        attr_of(attrs.subrange(0, attrs.len() - 1), key)
    }
}

/// Looks up attribute `key`.
pub fn attr<'a>(attrs: &'a Vec<(String, AttrValue)>, key: &str) -> (r: Option<&'a AttrValue>)
    ensures
        r is Some <==> attr_of(attrs@, key@) is Some,
        r matches Some(v) ==> attr_of(attrs@, key@) == Some(*v),
{
    let k = String::from_str(key);
    let mut i = attrs.len();
    assert(attrs@.subrange(0, i as int) =~= attrs@);
    while i > 0
        invariant
            i <= attrs.len(),
            k@ == key@,
            attr_of(attrs@, key@) == attr_of(attrs@.subrange(0, i as int), key@),
        decreases i,
    {
        let ghost p = attrs@.subrange(0, i as int);
        assert(p.subrange(0, i - 1) =~= attrs@.subrange(0, i - 1));
        if attrs[i - 1].0 == k {
            return Some(&attrs[i - 1].1);
        }
        i = i - 1;
    }
    None
}

/// Whether `uid` names one of the entities in `known`.
pub fn uid_known(uid: &EntityUid, known: &Vec<EntityUid>) -> (r: bool)
    ensures
        r <==> exists|i: int| 0 <= i < known.len() && same_uid(known@[i], *uid),
{
    let mut i: usize = 0;
    while i < known.len()
        invariant
            i <= known.len(),
            forall|j: int| 0 <= j < i ==> !same_uid(known@[j], *uid),
        decreases known.len() - i,
    {
        if known[i].entity_type == uid.entity_type && known[i].eid == uid.eid {
            return true;
        }
        i = i + 1;
    }
    false
}

} // verus!
