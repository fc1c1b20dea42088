use robertao::bot::add::{plan_sale, AddParams, AddPlan};
use robertao::bot::list::{entry, listing};
use robertao::db::market::{Location, Market, SellingItem, ShopType, Timestamp};
use robertao::db::oid::ObjectId;
use robertao::db::sale::{Sale, SaleUpdate, Seller, UserMention};
use robertao::sale::{check_sale, judge, Verdict, KILLCOUNT_THRESHOLD};

fn shop(id: u8, owner: &str, items: Vec<SellingItem>) -> Market {
    Market {
        _id: ObjectId { bytes: [id; 12] },
        title: "Loja".to_string(),
        owner: owner.to_string(),
        location: Location { map: "prontera".to_string(), x: 1, y: 2 },
        creation_date: Timestamp { seconds: 0, nanoseconds: 0 },
        tipo: ShopType::V,
        items,
    }
}

fn sale(killcount: i32) -> Sale {
    Sale {
        _id: ObjectId { bytes: [0xab; 12] },
        item: 501,
        seller: Seller { id: ObjectId { bytes: [2; 12] }, name: "Vendi".to_string() },
        users: vec![
            UserMention::TagMention("@yurick".to_string()),
            UserMention::TextMention(7, "Ana".to_string()),
        ],
        value: 1000,
        killcount,
    }
}

fn apply(s: &mut Sale, u: &SaleUpdate) {
    if let Some(v) = u.value {
        s.value = v;
    }
    s.killcount = u.killcount;
}

#[test]
fn closed_shop_is_struck() {
    let a = check_sale(&sale(1), &None, "", "490");
    assert_eq!(a.verdict, Verdict::Strike);
    assert!(!a.delete);
    assert_eq!(a.update, Some(SaleUpdate { value: None, killcount: 2 }));
    assert!(a.notice.is_none());
}

#[test]
fn closed_shop_expires_at_threshold() {
    let a = check_sale(&sale(KILLCOUNT_THRESHOLD), &None, "", "490");
    assert_eq!(a.verdict, Verdict::Expire);
    assert!(a.delete);
    assert!(a.update.is_none());
    let n = a.notice.unwrap();
    assert!(n.markdown);
    assert_eq!(
        n.text,
        "O shop de Vendi fechou já tem um tempo, então a gente vai parar de ficar de olho se o item 501 vendeu para @yurick [Ana](tg://user?id=7) porque tempo é dinheiro a gente não tem nem um nem outro pra perder (ง'̀-'́)ง"
    );
}

#[test]
fn closed_shop_countdown_from_zero() {
    let mut s = sale(0);
    let mut strikes = 0;
    loop {
        let a = check_sale(&s, &None, "", "490");
        if a.verdict == Verdict::Expire {
            break;
        }
        assert_eq!(a.verdict, Verdict::Strike);
        apply(&mut s, &a.update.unwrap());
        strikes += 1;
        assert_eq!(s.killcount, strikes);
    }
    assert_eq!(strikes, 3);
}

#[test]
fn item_gone_from_own_shop_sold() {
    let m = shop(2, "Vendi", vec![SellingItem { item_id: 9, amount: 1, price: 1 }]);
    let a = check_sale(&sale(0), &Some(m), "Poção", "490");
    assert_eq!(a.verdict, Verdict::Gone { same_shop: true });
    assert!(a.delete);
    assert!(a.update.is_none());
    let n = a.notice.unwrap();
    assert!(n.markdown);
    assert_eq!(
        n.text,
        "O item Poção de @yurick [Ana](tg://user?id=7) vendeu no shop Vendi\nno valor de 1000z, o que dá 490z coletado por interessado"
    );
}

#[test]
fn item_gone_from_another_shop_of_the_seller() {
    let m = shop(3, "Vendi", Vec::new());
    let a = check_sale(&sale(2), &Some(m), "Poção", "490");
    assert_eq!(a.verdict, Verdict::Gone { same_shop: false });
    assert!(a.delete);
    assert_eq!(
        a.notice.unwrap().text,
        "Tô checando aqui e tô vendo que o item Poção não tá mais na shop Vendi\no que quer dizer que, independentemente se vendeu ou não, essa pessoa embolsou 1000z na surdina\npode ir distribuindo 490z aí pro pessoal 🔫\nse liga aí @yurick [Ana](tg://user?id=7)"
    );
}

#[test]
fn price_change_is_followed() {
    let m = shop(2, "Vendi", vec![SellingItem { item_id: 501, amount: 1, price: 800 }]);
    let mut s = sale(2);
    let a = check_sale(&s, &Some(m.clone()), "Poção", "490");
    assert_eq!(a.verdict, Verdict::Repriced { price: 800 });
    assert!(!a.delete);
    assert_eq!(a.update, Some(SaleUpdate { value: Some(800), killcount: 0 }));
    let n = a.notice.unwrap();
    assert!(!n.markdown);
    assert_eq!(
        n.text,
        "O item Poção teve seu preço modificado na shop Vendi\nDe 1000z para 800z\nSeguimos de olho nessa malandragem"
    );
    apply(&mut s, &a.update.unwrap());
    assert_eq!(judge(&s, &Some(m)), Verdict::Unchanged);
}

#[test]
fn reopened_shop_resets_the_count() {
    let m = shop(2, "Vendi", vec![SellingItem { item_id: 501, amount: 1, price: 1000 }]);
    let mut s = sale(2);
    let a = check_sale(&s, &Some(m.clone()), "Poção", "490");
    assert_eq!(a.verdict, Verdict::Revived);
    assert_eq!(a.update, Some(SaleUpdate { value: None, killcount: 0 }));
    assert!(a.notice.is_none());
    apply(&mut s, &a.update.unwrap());
    let b = check_sale(&s, &Some(m), "Poção", "490");
    assert_eq!(b.verdict, Verdict::Unchanged);
    assert!(!b.delete && b.update.is_none() && b.notice.is_none());
}

#[test]
fn registered_sale_checks_unchanged() {
    let m = shop(4, "Vendi", vec![SellingItem { item_id: 501, amount: 2, price: 1234 }]);
    let params = AddParams { item: 501, seller_name: "Vendi".to_string(), users: Vec::new() };
    match plan_sale(params, &Some(m.clone()), ObjectId { bytes: [9; 12] }) {
        AddPlan::Register(s) => assert_eq!(judge(&s, &Some(m)), Verdict::Unchanged),
        other => panic!("unexpected {:?}", other),
    }
}

#[test]
fn listing_entry_is_html() {
    let text = entry(&sale(0), "Poção", "490");
    assert_eq!(
        text,
        "<b>Id:</b> (<code>abababababababababababab</code>)\n\
<b>Item:</b> <a href='http://www.originsro-market.de/sells/item_id/501'>Poção (501)</a>\n\
<b>Valor:</b> 1000\n\
<b>Seller:</b> <a href='http://www.originsro-market.de/shop/owner?owner=Vendi'>Vendi</a>\n\
<b>Interessados:</b> yurick [Ana](tg://user?id=7)\n\
<b>Valor por pessoa:</b> 490\n\n"
    );
}

#[test]
fn listing_joins_entries_or_says_nothing() {
    assert_eq!(listing(&Vec::new()), "Nada registrado no momento");
    let a = entry(&sale(0), "A", "1");
    let b = entry(&sale(1), "B", "2");
    assert_eq!(listing(&vec![a.clone(), b.clone()]), format!("{}{}", a, b));
}
