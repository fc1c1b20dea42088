//! The records that the bot stores, in plain values, and what the answers of
//! the store mean for the bot.
pub mod cache;
pub mod fame;
pub mod item;
pub mod market;
pub mod oid;
pub mod sale;

use vstd::prelude::*;
use crate::db::oid::ObjectId;
use crate::error::Error;

verus! {

/// What an insertion reports: the identifier that the store gave the new
/// record, or an error when its answer held no identifier.
pub fn insert_outcome(inserted: Option<ObjectId>) -> (r: Result<ObjectId, Error>)
    ensures
        inserted matches Some(id) ==> r == Ok::<ObjectId, Error>(id),
        inserted is None ==> (r matches Err(e) && e.message@ == "ID missing from mongo call"@),
{
    match inserted {
        Some(id) => Ok(id),
        None => Err(Error::new("ID missing from mongo call")),
    }
}

/// What an update reports: success when the store changed a record, an error
/// when it changed none.
pub fn update_outcome(modified_count: u64) -> (r: Result<(), Error>)
    ensures
        modified_count > 0 <==> r is Ok,
        r matches Err(e) ==> e.message@ == "Failed to update item"@,
{
    if modified_count == 0 {
        Err(Error::new("Failed to update item"))
    } else {
        Ok(())
    }
}

} // verus!
