//! A fame ranking entry of a brewer.
use vstd::prelude::*;
use crate::db::oid::ObjectId;

verus! {

/// One brewer in the fame ranking.
#[derive(Debug, Clone)]
pub struct Fame {
    pub _id: ObjectId,
    pub char_id: i32,
    pub name: String,
    pub points: i32,
}

} // verus!
