//! The records the store holds and sends, and what a lookup's outcome means.
use vstd::prelude::*;

use crate::error::MConfigError;

verus! {

/// A record of the store: the key it is found by and its value.
pub struct MConfigEntry<V> {
    pub key: String,
    pub value: V,
}

impl<V> MConfigEntry<V> {
    pub fn new(key: String, value: V) -> (r: Self)
        ensures
            r.key == key,
            r.value == value,
    {
        MConfigEntry { key, value }
    }
}

/// The part of a changed record that the change feed carries.
pub struct MConfigChangeResult<V> {
    pub value: V,
}

impl<V> MConfigChangeResult<V> {
    pub fn new(value: V) -> (r: Self)
        ensures
            r.value == value,
    {
        MConfigChangeResult { value }
    }
}

/// The kind of mutation a change event reports.
#[derive(PartialEq, Eq, Structural, Clone, Copy, Debug)]
pub enum OperationType {
    Insert,
    Update,
    Delete,
    Replace,
    Invalidate,
}

/// One event of the change feed.
pub struct ChangeEvent<V> {
    pub operation_type: OperationType,
    pub affected_key: String,
    pub new_value: Option<MConfigChangeResult<V>>,
}

/// Whether an event of the feed watched under `key` changes the value: it
/// is about that key, inserts, updates or replaces the record, and carries
/// the new value.
pub open spec fn is_actionable<V>(key: Seq<char>, ev: ChangeEvent<V>) -> bool {
    &&& ev.affected_key@ == key
    &&& (ev.operation_type == OperationType::Insert || ev.operation_type == OperationType::Update
        || ev.operation_type == OperationType::Replace)
    &&& ev.new_value is Some
}

/// The new value an event carries, where it is actionable.
pub fn actionable_value<V>(key: &String, ev: ChangeEvent<V>) -> (r: Option<V>)
    ensures
        r is Some <==> is_actionable(key@, ev),
        r is Some ==> r->Some_0 == ev.new_value->Some_0.value,
{
    let wanted = match ev.operation_type {
        OperationType::Insert | OperationType::Update | OperationType::Replace => true,
        OperationType::Delete | OperationType::Invalidate => false,
    };
    if !wanted || !(ev.affected_key == *key) {
        return None;
    }
    match ev.new_value {
        Some(d) => Some(d.value),
        None => None,
    }
}

/// What a point lookup of `key` amounts to: the record's value, or
/// `KeyNotExists` when there is no record, or the store's own error.
pub fn fetch_value<V>(
    key: &String,
    found: Result<Option<MConfigEntry<V>>, mongodb::error::Error>,
) -> (r: Result<V, MConfigError>)
    ensures
        found matches Ok(Some(e)) ==> r == Ok::<V, MConfigError>(e.value),
        found matches Ok(None) ==> (r matches Err(MConfigError::KeyNotExists { key: k }) && k@
            == key@),
        found matches Err(e) ==> r == Err::<V, MConfigError>(MConfigError::MongodbError(e)),
{
    match found {
        Ok(Some(entry)) => Ok(entry.value),
        Ok(None) => Err(MConfigError::KeyNotExists { key: key.clone() }),
        Err(e) => Err(MConfigError::MongodbError(e)),
    }
}

} // verus!
