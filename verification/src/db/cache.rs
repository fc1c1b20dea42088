//! The bookkeeping record of a cached collection.
use vstd::prelude::*;
use crate::db::oid::ObjectId;

verus! {

/// When the copy of a collection was taken, by when it must be renewed.
#[derive(Debug, Clone)]
pub struct Cache {
    pub _id: ObjectId,
    /// The name of the cached collection.
    pub collection: String,
    /// The instant until which the copy is used, in milliseconds since the epoch.
    pub date: i64,
}

} // verus!
