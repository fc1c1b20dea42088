use robertao::db::item::{default_subtype, ItemSubType};
use robertao::db::market::{find_offer, SellingItem};
use robertao::db::oid::ObjectId;
use robertao::db::sale::{join_users, UserMention};
use robertao::db::{insert_outcome, update_outcome};

fn id(first: u8) -> ObjectId {
    let mut bytes = [0u8; 12];
    for (i, b) in bytes.iter_mut().enumerate() {
        *b = first.wrapping_add((i as u8) * 17);
    }
    ObjectId { bytes }
}

#[test]
fn object_id_is_written_in_lower_case_hex() {
    let oid = ObjectId { bytes: [0x5f, 0x1a, 0x00, 0xff, 0x10, 0x09, 0xab, 0xcd, 0xef, 0x01, 0x23, 0x45] };
    assert_eq!(oid.to_hex(), "5f1a00ff1009abcdef012345");
}

#[test]
fn object_id_parses_either_case() {
    let oid = ObjectId::parse_str("5F1A00FF1009ABCDEF012345").unwrap();
    assert_eq!(oid.bytes, [0x5f, 0x1a, 0x00, 0xff, 0x10, 0x09, 0xab, 0xcd, 0xef, 0x01, 0x23, 0x45]);
    assert_eq!(ObjectId::parse_str("5f1a00ff1009abcdef012345"), Some(oid));
}

#[test]
fn object_id_rejects_malformed_text() {
    assert_eq!(ObjectId::parse_str(""), None);
    assert_eq!(ObjectId::parse_str("5f1a00ff1009abcdef01234"), None);
    assert_eq!(ObjectId::parse_str("5f1a00ff1009abcdef0123456"), None);
    assert_eq!(ObjectId::parse_str("5f1a00ff1009abcdef01234g"), None);
    assert_eq!(ObjectId::parse_str("5f1a00ff1009abcdef01234é"), None);
    assert_eq!(ObjectId::parse_str("sanacagem"), None);
}

#[test]
fn object_id_round_trip_through_hex() {
    for first in [0u8, 1, 77, 200, 255] {
        let oid = id(first);
        assert_eq!(ObjectId::parse_str(&oid.to_hex()), Some(oid));
    }
}

#[test]
fn object_ids_compare_by_bytes() {
    assert!(id(3).same_as(&id(3)));
    assert!(!id(3).same_as(&id(4)));
}

#[test]
fn insertion_without_id_is_an_error() {
    assert_eq!(insert_outcome(Some(id(9))).unwrap(), id(9));
    assert_eq!(insert_outcome(None).unwrap_err().message, "ID missing from mongo call");
}

#[test]
fn update_that_changes_nothing_is_an_error() {
    assert!(update_outcome(1).is_ok());
    assert!(update_outcome(5).is_ok());
    assert_eq!(update_outcome(0).unwrap_err().message, "Failed to update item");
}

#[test]
fn find_offer_takes_the_first_match() {
    let items = vec![
        SellingItem { item_id: 1, amount: 1, price: 10 },
        SellingItem { item_id: 501, amount: 3, price: 50 },
        SellingItem { item_id: 501, amount: 1, price: 70 },
    ];
    assert_eq!(find_offer(&items, 501), Some(1));
    assert_eq!(find_offer(&items, 1), Some(0));
    assert_eq!(find_offer(&items, 2), None);
    assert_eq!(find_offer(&Vec::new(), 2), None);
}

#[test]
fn mentions_are_written_for_markdown() {
    let known = UserMention::TextMention(123456, "Yuri".to_string());
    assert_eq!(known.to_string(), "[Yuri](tg://user?id=123456)");
    let tag = UserMention::TagMention("@sousandrei".to_string());
    assert_eq!(tag.to_string(), "@sousandrei");
    assert_eq!(join_users(&vec![tag, known]), "@sousandrei [Yuri](tg://user?id=123456)");
    assert_eq!(join_users(&Vec::new()), "");
}

#[test]
fn default_subtype_is_none() {
    assert_eq!(default_subtype(), ItemSubType::NONE);
}
