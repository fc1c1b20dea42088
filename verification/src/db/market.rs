//! Player shops of the market and what they offer.
use vstd::prelude::*;
use crate::db::oid::ObjectId;

verus! {

/// Where a shop stands.
#[derive(Debug, Clone)]
pub struct Location {
    pub map: String,
    pub x: i32,
    pub y: i32,
}

/// One offer of a shop.
#[derive(Debug, Clone, Copy, PartialEq, Eq, Structural)]
pub struct SellingItem {
    pub item_id: i32,
    pub amount: i32,
    pub price: i32,
}

/// Whether a shop sells (vending) or buys.
#[derive(Debug, Clone, Copy, PartialEq, Eq, PartialOrd, Ord, Structural)]
pub enum ShopType {
    V,
    B,
}

/// An instant: seconds since the epoch and the nanoseconds within that second.
#[derive(Debug, Clone, Copy, PartialEq, Eq, Structural)]
pub struct Timestamp {
    pub seconds: i64,
    pub nanoseconds: u32,
}

/// A player shop.
#[derive(Debug, Clone)]
pub struct Market {
    pub _id: ObjectId,
    pub title: String,
    pub owner: String,
    pub location: Location,
    pub creation_date: Timestamp,
    pub tipo: ShopType,
    pub items: Vec<SellingItem>,
}

/// The first offer of `item_id` among `items`, if any.
pub open spec fn first_offer(items: Seq<SellingItem>, item_id: i32) -> Option<SellingItem>
    decreases items.len(),
{
    if items.len() == 0 {
        None
    } else if items[0].item_id == item_id {
        Some(items[0])
    } else {
        first_offer(items.skip(1), item_id)
    }
}

/// The offer that a scan from the front stops at is the first offer.
pub proof fn lemma_first_offer(items: Seq<SellingItem>, item_id: i32, i: int)
    requires
        0 <= i <= items.len(),
        forall|j: int| 0 <= j < i ==> items[j].item_id != item_id,
        i < items.len() ==> items[i].item_id == item_id,
    ensures
        first_offer(items, item_id) == (if i < items.len() { Some(items[i]) } else { None }),
    decreases i,
{
    if i > 0 {
        lemma_first_offer(items.skip(1), item_id, i - 1);
    }
}

/// The offer found for an item is an offer of that item with no earlier
/// offer of it; no offer is found only when none is of that item.
pub proof fn first_offer_is_first(items: Seq<SellingItem>, item_id: i32)
    ensures
        first_offer(items, item_id) matches Some(o) ==> exists|i: int|
            0 <= i < items.len() && items[i] == o && o.item_id == item_id && forall|j: int|
                0 <= j < i ==> items[j].item_id != item_id,
        first_offer(items, item_id) is None ==> forall|j: int|
            0 <= j < items.len() ==> items[j].item_id != item_id,
    decreases items.len(),
{
    if items.len() > 0 {
        first_offer_is_first(items.skip(1), item_id);
        if items[0].item_id != item_id {
            match first_offer(items, item_id) {
                Some(o) => {
                    let i = choose|i: int|
                        0 <= i < items.skip(1).len() && items.skip(1)[i] == o && o.item_id == item_id
                            && forall|j: int| 0 <= j < i ==> items.skip(1)[j].item_id != item_id;
                    assert(items[i + 1] == o);
                    assert forall|j: int| 0 <= j < i + 1 implies items[j].item_id != item_id by {
                        if j > 0 {
                            assert(items[j] == items.skip(1)[j - 1]);
                        }
                    }
                },
                None => {
                    assert forall|j: int| 0 <= j < items.len() implies items[j].item_id != item_id by {
                        if j > 0 {
                            assert(items[j] == items.skip(1)[j - 1]);
                        }
                    }
                },
            }
        } else {
            assert(items[0] == first_offer(items, item_id).unwrap());
        }
    }
}

/// The position of the first offer of `item_id` in `items`, if any, as
/// `iter().find` on the offers meets it.
pub fn find_offer(items: &Vec<SellingItem>, item_id: i32) -> (r: Option<usize>)
    ensures
        r matches Some(i) ==> i < items.len() && items@[i as int].item_id == item_id
            && forall|j: int| 0 <= j < i ==> items@[j].item_id != item_id,
        r is None ==> forall|j: int| 0 <= j < items.len() ==> items@[j].item_id != item_id,
        r matches Some(i) ==> first_offer(items@, item_id) == Some(items@[i as int]),
        r is None ==> first_offer(items@, item_id) is None,
{
    let mut i: usize = 0;
    while i < items.len()
        invariant
            i <= items.len(),
            forall|j: int| 0 <= j < i ==> items@[j].item_id != item_id,
        decreases items.len() - i,
    {
        if items[i].item_id == item_id {
            proof {
                lemma_first_offer(items@, item_id, i as int);
            }
            return Some(i);
        }
        i = i + 1;
    }
    proof {
        lemma_first_offer(items@, item_id, i as int);
    }
    None
}

} // verus!
