//! Items of the game's item database.
use vstd::prelude::*;
use crate::db::oid::ObjectId;

verus! {

/// The weapon or ammunition class of an item.
#[allow(non_camel_case_types)]
#[derive(Debug, Clone, Copy, PartialEq, Eq, PartialOrd, Ord, Structural)]
pub enum ItemSubType {
    W_FIST,
    W_DAGGER,
    W_1HSWORD,
    W_2HSWORD,
    W_1HSPEAR,
    W_2HSPEAR,
    W_1HAXE,
    W_2HAXE,
    W_MACE,
    W_2HMACE,
    W_STAFF,
    W_2HSTAFF,
    W_BOW,
    W_KNUCKLE,
    W_MUSICAL,
    W_WHIP,
    W_BOOK,
    W_KATAR,
    W_REVOLVER,
    W_RIFLE,
    W_GATLING,
    W_SHOTGUN,
    W_GRENADE,
    W_HUUMA,
    A_ARROW,
    A_DAGGER,
    A_BULLET,
    A_SHELL,
    A_GRENADE,
    A_SHURIKEN,
    A_KUNAI,
    A_CANNONBALL,
    A_THROWWEAPON,
    /// No class at all (written `None` where items are stored).
    NONE,
}

/// The subtype that an item gets when its description names none.
pub fn default_subtype() -> (t: ItemSubType)
    ensures
        t == ItemSubType::NONE,
{
    ItemSubType::NONE
}

/// The kind of an item.
#[allow(non_camel_case_types)]
#[derive(Debug, Clone, Copy, PartialEq, Eq, PartialOrd, Ord, Structural)]
pub enum ItemType {
    IT_HEALING,
    IT_UNKNOWN,
    IT_USABLE,
    IT_ETC,
    IT_WEAPON,
    IT_ARMOR,
    IT_CARD,
    IT_PETEGG,
    IT_PETARMOR,
    IT_UNKNOWN2,
    IT_AMMO,
    IT_DELAYCONSUME,
    IT_CASH,
}

/// An item of the game.
#[derive(Debug, Clone)]
pub struct Item {
    pub _id: ObjectId,
    pub item_id: i32,
    pub unique_name: String,
    pub name: String,
    pub tipo: ItemType,
    pub subtype: ItemSubType,
    pub npc_price: i32,
    pub slots: i32,
}

} // verus!
