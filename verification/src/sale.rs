//! The periodic check of the watched sales against the market: what becomes
//! of each sale, and what the chat is told.
use vstd::prelude::*;
use crate::db::market::{find_offer, first_offer, Market};
use crate::db::sale::{join_users, updated, users_text, Sale, SaleUpdate};
use crate::text::{decimal, push_decimal};

verus! {

/// Sales whose shop was found closed this many checks in a row are dropped.
pub const KILLCOUNT_THRESHOLD: i32 = 3;

/// What one check finds for a sale.
#[derive(Debug, Clone, Copy, PartialEq, Eq, Structural)]
pub enum Verdict {
    /// The shop has been closed long enough: the sale is dropped.
    Expire,
    /// The shop is closed: one more closed check is counted.
    Strike,
    /// The shop no longer offers the item: the sale is dropped. `same_shop`
    /// tells whether the open shop is the one the sale was registered with.
    Gone { same_shop: bool },
    /// The shop offers the item at another price, which the sale takes.
    Repriced { price: i32 },
    /// The shop is open again with the same offer: the closed checks are forgotten.
    Revived,
    /// Nothing changed.
    Unchanged,
}

/// What a check finds for `sale`, given the shop found under its seller's
/// name (if any).
pub open spec fn verdict(sale: Sale, shop: Option<Market>) -> Verdict {
    match shop {
        None => if sale.killcount >= KILLCOUNT_THRESHOLD {
            Verdict::Expire
        } else {
            Verdict::Strike
        },
        Some(m) => match first_offer(m.items@, sale.item) {
            None => Verdict::Gone { same_shop: m._id.bytes@ == sale.seller.id.bytes@ },
            Some(o) => if o.price != sale.value {
                Verdict::Repriced { price: o.price }
            } else if sale.killcount > 0 {
                Verdict::Revived
            } else {
                Verdict::Unchanged
            },
        },
    }
}

/// The update of the stored sale that a verdict calls for.
pub open spec fn verdict_update(sale: Sale, v: Verdict) -> Option<SaleUpdate> {
    match v {
        Verdict::Strike => Some(SaleUpdate { value: None, killcount: (sale.killcount + 1) as i32 }),
        Verdict::Repriced { price } => Some(SaleUpdate { value: Some(price), killcount: 0 }),
        Verdict::Revived => Some(SaleUpdate { value: None, killcount: 0 }),
        _ => None,
    }
}

/// Whether a verdict drops the sale.
pub open spec fn verdict_deletes(v: Verdict) -> bool {
    v is Expire || v is Gone
}

/// Decides what a check finds for `sale`.
pub fn judge(sale: &Sale, shop: &Option<Market>) -> (v: Verdict)
    ensures
        v == verdict(*sale, *shop),
{
    match shop {
        None => if sale.killcount >= KILLCOUNT_THRESHOLD {
            Verdict::Expire
        } else {
            Verdict::Strike
        },
        Some(m) => match find_offer(&m.items, sale.item) {
            None => Verdict::Gone { same_shop: m._id.same_as(&sale.seller.id) },
            Some(i) => {
                let price = m.items[i].price;
                if price != sale.value {
                    Verdict::Repriced { price }
                } else if sale.killcount > 0 {
                    Verdict::Revived
                } else {
                    Verdict::Unchanged
                }
            },
        },
    }
}

/// The message for a sale whose shop stayed closed too long.
pub open spec fn expired_text(sale: Sale) -> Seq<char> {
    "O shop de "@ + sale.seller.name@
        + " fechou já tem um tempo, então a gente vai parar de ficar de olho se o item "@
        + decimal(sale.item as int) + " vendeu para "@ + users_text(sale.users@)
        + " porque tempo é dinheiro a gente não tem nem um nem outro pra perder (ง'̀-'́)ง"@
}

/// The message for an item that its own shop no longer offers: it sold.
pub open spec fn sold_text(sale: Sale, owner: Seq<char>, item_name: Seq<char>, shared: Seq<char>) -> Seq<char> {
    "O item "@ + item_name + " de "@ + users_text(sale.users@) + " vendeu no shop "@ + owner
        + "\nno valor de "@ + decimal(sale.value as int) + "z, o que dá "@ + shared
        + "z coletado por interessado"@
}

/// The message for an item that another shop under the seller's name no
/// longer offers.
pub open spec fn vanished_text(sale: Sale, owner: Seq<char>, item_name: Seq<char>, shared: Seq<char>) -> Seq<char> {
    "Tô checando aqui e tô vendo que o item "@ + item_name + " não tá mais na shop "@ + owner
        + "\no que quer dizer que, independentemente se vendeu ou não, essa pessoa embolsou "@
        + decimal(sale.value as int) + "z na surdina\npode ir distribuindo "@ + shared
        + "z aí pro pessoal 🔫\nse liga aí "@ + users_text(sale.users@)
}

/// The message for an item whose price changed.
pub open spec fn repriced_text(sale: Sale, owner: Seq<char>, item_name: Seq<char>, price: i32) -> Seq<char> {
    "O item "@ + item_name + " teve seu preço modificado na shop "@ + owner + "\nDe "@ + decimal(
        sale.value as int,
    ) + "z para "@ + decimal(price as int) + "z\nSeguimos de olho nessa malandragem"@
}

/// What the chat is told about a verdict, and whether the text is Markdown:
/// `shared` is the amount that each interested person gets, as written in the message.
pub open spec fn verdict_notice(
    sale: Sale,
    shop: Option<Market>,
    item_name: Seq<char>,
    shared: Seq<char>,
    v: Verdict,
) -> Option<(Seq<char>, bool)> {
    match v {
        Verdict::Expire => Some((expired_text(sale), true)),
        Verdict::Gone { same_shop } => if same_shop {
            Some((sold_text(sale, shop.unwrap().owner@, item_name, shared), true))
        } else {
            Some((vanished_text(sale, shop.unwrap().owner@, item_name, shared), true))
        },
        Verdict::Repriced { price } => Some(
            (repriced_text(sale, shop.unwrap().owner@, item_name, price), false),
        ),
        _ => None,
    }
}

/// A message for the chat.
#[derive(Debug, Clone)]
pub struct Notice {
    pub text: String,
    /// Whether the text is sent as Markdown.
    pub markdown: bool,
}

/// Everything that a check does about one sale.
#[derive(Debug, Clone)]
pub struct SaleActions {
    pub verdict: Verdict,
    /// Whether the stored sale is deleted.
    pub delete: bool,
    /// The update of the stored sale, if any.
    pub update: Option<SaleUpdate>,
    /// What the chat is told, if anything.
    pub notice: Option<Notice>,
}

fn expired_message(sale: &Sale) -> (s: String)
    ensures
        s@ == expired_text(*sale),
{
    let mut s = "O shop de ".to_owned();
    s.append(sale.seller.name.as_str());
    s.append(" fechou já tem um tempo, então a gente vai parar de ficar de olho se o item ");
    push_decimal(&mut s, sale.item as i64);
    s.append(" vendeu para ");
    let users = join_users(&sale.users);
    s.append(users.as_str());
    s.append(" porque tempo é dinheiro a gente não tem nem um nem outro pra perder (ง'̀-'́)ง");
    s
}

fn sold_message(sale: &Sale, owner: &str, item_name: &str, shared: &str) -> (s: String)
    ensures
        s@ == sold_text(*sale, owner@, item_name@, shared@),
{
    let mut s = "O item ".to_owned();
    s.append(item_name);
    s.append(" de ");
    let users = join_users(&sale.users);
    s.append(users.as_str());
    s.append(" vendeu no shop ");
    s.append(owner);
    s.append("\nno valor de ");
    push_decimal(&mut s, sale.value as i64);
    s.append("z, o que dá ");
    s.append(shared);
    s.append("z coletado por interessado");
    s
}

fn vanished_message(sale: &Sale, owner: &str, item_name: &str, shared: &str) -> (s: String)
    ensures
        s@ == vanished_text(*sale, owner@, item_name@, shared@),
{
    let mut s = "Tô checando aqui e tô vendo que o item ".to_owned();
    s.append(item_name);
    s.append(" não tá mais na shop ");
    s.append(owner);
    s.append("\no que quer dizer que, independentemente se vendeu ou não, essa pessoa embolsou ");
    push_decimal(&mut s, sale.value as i64);
    s.append("z na surdina\npode ir distribuindo ");
    s.append(shared);
    s.append("z aí pro pessoal 🔫\nse liga aí ");
    let users = join_users(&sale.users);
    s.append(users.as_str());
    s
}

fn repriced_message(sale: &Sale, owner: &str, item_name: &str, price: i32) -> (s: String)
    ensures
        s@ == repriced_text(*sale, owner@, item_name@, price),
{
    let mut s = "O item ".to_owned();
    s.append(item_name);
    s.append(" teve seu preço modificado na shop ");
    s.append(owner);
    s.append("\nDe ");
    push_decimal(&mut s, sale.value as i64);
    s.append("z para ");
    push_decimal(&mut s, price as i64);
    s.append("z\nSeguimos de olho nessa malandragem");
    s
}

/// Checks one sale against the shop found under its seller's name: the
/// verdict, whether the sale is deleted, how it is updated, and what the
/// chat is told. `item_name` (the name of the sale's item) is read only when
/// the shop exists; `shared_amount` is the amount per interested person as
/// it is written in the messages.
pub fn check_sale(sale: &Sale, shop: &Option<Market>, item_name: &str, shared_amount: &str) -> (a: SaleActions)
    ensures
        a.verdict == verdict(*sale, *shop),
        a.delete == verdict_deletes(a.verdict),
        a.update == verdict_update(*sale, a.verdict),
        verdict_notice(*sale, *shop, item_name@, shared_amount@, a.verdict) matches Some(n) ==> (
        a.notice matches Some(m) && m.text@ == n.0 && m.markdown == n.1),
        verdict_notice(*sale, *shop, item_name@, shared_amount@, a.verdict) is None ==> a.notice is None,
{
    let v = judge(sale, shop);
    match v {
        Verdict::Expire => SaleActions {
            verdict: v,
            delete: true,
            update: None,
            notice: Some(Notice { text: expired_message(sale), markdown: true }),
        },
        Verdict::Strike => SaleActions {
            verdict: v,
            delete: false,
            update: Some(SaleUpdate { value: None, killcount: sale.killcount + 1 }),
            notice: None,
        },
        Verdict::Gone { same_shop } => {
            let m = shop.as_ref().unwrap();
            let text = if same_shop {
                sold_message(sale, m.owner.as_str(), item_name, shared_amount)
            } else {
                vanished_message(sale, m.owner.as_str(), item_name, shared_amount)
            };
            SaleActions { verdict: v, delete: true, update: None, notice: Some(Notice { text, markdown: true }) }
        },
        Verdict::Repriced { price } => {
            let m = shop.as_ref().unwrap();
            SaleActions {
                verdict: v,
                delete: false,
                update: Some(SaleUpdate { value: Some(price), killcount: 0 }),
                notice: Some(
                    Notice { text: repriced_message(sale, m.owner.as_str(), item_name, price), markdown: false },
                ),
            }
        },
        Verdict::Revived => SaleActions {
            verdict: v,
            delete: false,
            update: Some(SaleUpdate { value: None, killcount: 0 }),
            notice: None,
        },
        Verdict::Unchanged => SaleActions { verdict: v, delete: false, update: None, notice: None },
    }
}

/// The sale after `n` checks that all find its shop closed, each applying the
/// update that its verdict calls for.
pub open spec fn after_closed_checks(sale: Sale, n: nat) -> Sale
    decreases n,
{
    if n == 0 {
        sale
    } else {
        let s = after_closed_checks(sale, (n - 1) as nat);
        match verdict_update(s, verdict(s, None)) {
            Some(u) => updated(s, u),
            None => s,
        }
    }
}

/// A sale whose shop stays closed is struck on each check, its count going up
/// by one each time, until the count reaches the threshold; the check after
/// that drops it. From a count `k` (at most the threshold) there are
/// `3 - k` strikes before the drop.
pub proof fn closed_shop_countdown(sale: Sale, n: nat)
    requires
        sale.killcount <= KILLCOUNT_THRESHOLD,
        n <= KILLCOUNT_THRESHOLD - sale.killcount,
    ensures
        after_closed_checks(sale, n).killcount == sale.killcount + n,
        n < KILLCOUNT_THRESHOLD - sale.killcount ==> verdict(after_closed_checks(sale, n), None)
            == Verdict::Strike,
        n == KILLCOUNT_THRESHOLD - sale.killcount ==> verdict(after_closed_checks(sale, n), None)
            == Verdict::Expire,
    decreases n,
{
    if n > 0 {
        closed_shop_countdown(sale, (n - 1) as nat);
    }
}

/// Once a check has applied the update that an open shop called for (a new
/// price, or forgetting the closed checks), checking again against the same
/// shop finds nothing to do.
pub proof fn update_settles(sale: Sale, shop: Market)
    requires
        verdict(sale, Some(shop)) is Repriced || verdict(sale, Some(shop)) is Revived,
    ensures
        verdict(updated(sale, verdict_update(sale, verdict(sale, Some(shop))).unwrap()), Some(shop))
            == Verdict::Unchanged,
{
}

/// A sale registered from a shop (at the price of the shop's first offer of
/// its item, with no closed checks counted) is found unchanged when checked
/// against that same shop.
pub proof fn registered_sale_is_settled(sale: Sale, shop: Market)
    requires
        first_offer(shop.items@, sale.item) matches Some(o) && o.price == sale.value,
        sale.killcount == 0,
    ensures
        verdict(sale, Some(shop)) == Verdict::Unchanged,
{
}

/// A sale is dropped exactly when its shop has been closed for the threshold
/// number of checks, or when the open shop no longer offers its item; a
/// dropped sale is never updated as well.
pub proof fn drop_rule(sale: Sale, shop: Option<Market>)
    ensures
        verdict_deletes(verdict(sale, shop)) <==> (shop is None && sale.killcount
            >= KILLCOUNT_THRESHOLD) || (shop matches Some(m) && first_offer(m.items@, sale.item) is None),
        verdict_deletes(verdict(sale, shop)) ==> verdict_update(sale, verdict(sale, shop)) is None,
{
}

/// The count of closed checks stays between zero and the threshold: a check
/// of a sale whose count is in that range never stores a count outside it.
pub proof fn killcount_stays_in_range(sale: Sale, shop: Option<Market>)
    requires
        0 <= sale.killcount <= KILLCOUNT_THRESHOLD,
    ensures
        verdict_update(sale, verdict(sale, shop)) matches Some(u) ==> 0 <= u.killcount
            <= KILLCOUNT_THRESHOLD,
{
}

/// A check leaves a sale in place without a new price only when its shop is
/// open, still offers the item, and at the price the sale has.
pub proof fn steady_sale_conditions(sale: Sale, shop: Option<Market>)
    ensures
        (verdict(sale, shop) is Revived || verdict(sale, shop) is Unchanged) <==> (
        shop matches Some(m) && first_offer(m.items@, sale.item) matches Some(o) && o.price
            == sale.value),
{
}

/// A shop that is open again with the sale's item at the sale's price makes
/// the check forget the closed checks: the stored count becomes 0 and nothing
/// else changes, nothing is deleted and the chat is told nothing. Without
/// counted closed checks, such a shop changes nothing at all.
pub proof fn reopened_shop_resets_count(sale: Sale, shop: Market, item_name: Seq<char>, shared: Seq<char>)
    requires
        first_offer(shop.items@, sale.item) matches Some(o) && o.price == sale.value,
    ensures
        sale.killcount > 0 ==> verdict_update(sale, verdict(sale, Some(shop))) == Some(
            SaleUpdate { value: None, killcount: 0 },
        ),
        sale.killcount > 0 ==> updated(sale, verdict_update(sale, verdict(sale, Some(shop))).unwrap()).killcount
            == 0,
        sale.killcount <= 0 ==> verdict_update(sale, verdict(sale, Some(shop))) is None,
        !verdict_deletes(verdict(sale, Some(shop))),
        verdict_notice(sale, Some(shop), item_name, shared, verdict(sale, Some(shop))) is None,
{
}

/// A shop that offers the item at another price makes the sale take that
/// price and forget its closed checks, and the chat is told in plain text.
pub proof fn changed_price_is_taken(sale: Sale, shop: Market, item_name: Seq<char>, shared: Seq<char>)
    requires
        first_offer(shop.items@, sale.item) matches Some(o) && o.price != sale.value,
    ensures
        verdict_update(sale, verdict(sale, Some(shop))) == Some(
            SaleUpdate { value: Some(first_offer(shop.items@, sale.item).unwrap().price), killcount: 0 },
        ),
        !verdict_deletes(verdict(sale, Some(shop))),
        verdict_notice(sale, Some(shop), item_name, shared, verdict(sale, Some(shop))) matches Some(n)
            && !n.1 && n.0 == repriced_text(sale, shop.owner@, item_name, first_offer(shop.items@, sale.item).unwrap().price),
{
}

/// When the open shop no longer offers the item, the sale is dropped and the
/// shop counts as the sale's own shop exactly when all twelve bytes of their
/// identifiers agree.
pub proof fn vanished_item_same_shop(sale: Sale, shop: Market)
    requires
        first_offer(shop.items@, sale.item) is None,
    ensures
        verdict(sale, Some(shop)) matches Verdict::Gone { same_shop } && (same_shop <==> (forall|i: int|
            0 <= i < 12 ==> shop._id.bytes@[i] == sale.seller.id.bytes@[i])),
        verdict_deletes(verdict(sale, Some(shop))),
        verdict_update(sale, verdict(sale, Some(shop))) is None,
{
    if forall|i: int| 0 <= i < 12 ==> shop._id.bytes@[i] == sale.seller.id.bytes@[i] {
        assert(shop._id.bytes@ =~= sale.seller.id.bytes@);
    }
}

/// Every check that drops a sale tells the chat in Markdown (so that mentions
/// of users are links); a change of price is told in plain text; every other
/// check tells nothing.
pub proof fn notice_format(sale: Sale, shop: Option<Market>, item_name: Seq<char>, shared: Seq<char>)
    ensures
        verdict_deletes(verdict(sale, shop)) ==> (verdict_notice(
            sale,
            shop,
            item_name,
            shared,
            verdict(sale, shop),
        ) matches Some(n) && n.1),
        verdict(sale, shop) is Repriced ==> (verdict_notice(sale, shop, item_name, shared, verdict(sale, shop))
            matches Some(n) && !n.1),
        (verdict(sale, shop) is Strike || verdict(sale, shop) is Revived || verdict(sale, shop) is Unchanged)
            ==> verdict_notice(sale, shop, item_name, shared, verdict(sale, shop)) is None,
{
}

/// When the open shop no longer offers the item, the chat is told that the
/// item sold (item name, interested people, shop owner, price, amount per
/// person) when the shop is the sale's own, and that it vanished from the
/// shop otherwise; how many closed checks were counted before does not matter.
pub proof fn vanished_item_notice(sale: Sale, shop: Market, item_name: Seq<char>, shared: Seq<char>, k: i32)
    requires
        first_offer(shop.items@, sale.item) is None,
    ensures
        shop._id.bytes@ == sale.seller.id.bytes@ ==> verdict_notice(
            sale,
            Some(shop),
            item_name,
            shared,
            verdict(sale, Some(shop)),
        ) == Some((
            "O item "@ + item_name + " de "@ + users_text(sale.users@) + " vendeu no shop "@
                + shop.owner@ + "\nno valor de "@ + decimal(sale.value as int) + "z, o que dá "@
                + shared + "z coletado por interessado"@,
            true,
        )),
        shop._id.bytes@ != sale.seller.id.bytes@ ==> verdict_notice(
            sale,
            Some(shop),
            item_name,
            shared,
            verdict(sale, Some(shop)),
        ) == Some((
            "Tô checando aqui e tô vendo que o item "@ + item_name + " não tá mais na shop "@
                + shop.owner@
                + "\no que quer dizer que, independentemente se vendeu ou não, essa pessoa embolsou "@
                + decimal(sale.value as int) + "z na surdina\npode ir distribuindo "@ + shared
                + "z aí pro pessoal 🔫\nse liga aí "@ + users_text(sale.users@),
            true,
        )),
        verdict(Sale { killcount: k, ..sale }, Some(shop)) == verdict(sale, Some(shop)),
        verdict_notice(
            Sale { killcount: k, ..sale },
            Some(shop),
            item_name,
            shared,
            verdict(Sale { killcount: k, ..sale }, Some(shop)),
        ) == verdict_notice(sale, Some(shop), item_name, shared, verdict(sale, Some(shop))),
{
}

/// With the shop closed, a sale whose count has reached the threshold is
/// dropped and the chat is told in Markdown who was waiting for which item
/// of which seller; any other sale only has its count raised by one, and the
/// chat is told nothing.
pub proof fn closed_shop_rules(sale: Sale, item_name: Seq<char>, shared: Seq<char>)
    ensures
        sale.killcount >= 3 ==> verdict_deletes(verdict(sale, None)) && verdict_update(
            sale,
            verdict(sale, None),
        ) is None && verdict_notice(sale, None, item_name, shared, verdict(sale, None)) == Some((
            "O shop de "@ + sale.seller.name@
                + " fechou já tem um tempo, então a gente vai parar de ficar de olho se o item "@
                + decimal(sale.item as int) + " vendeu para "@ + users_text(sale.users@)
                + " porque tempo é dinheiro a gente não tem nem um nem outro pra perder (ง'̀-'́)ง"@,
            true,
        )),
        sale.killcount < 3 ==> !verdict_deletes(verdict(sale, None)) && verdict_update(
            sale,
            verdict(sale, None),
        ) == Some(SaleUpdate { value: None, killcount: (sale.killcount + 1) as i32 })
            && verdict_notice(sale, None, item_name, shared, verdict(sale, None)) is None,
{
}

/// The message about a changed price names the item, the shop's owner, the
/// old price and the new one.
pub proof fn changed_price_notice(sale: Sale, shop: Market, item_name: Seq<char>, shared: Seq<char>)
    requires
        first_offer(shop.items@, sale.item) matches Some(o) && o.price != sale.value,
    ensures
        verdict_notice(sale, Some(shop), item_name, shared, verdict(sale, Some(shop))) == Some((
            "O item "@ + item_name + " teve seu preço modificado na shop "@ + shop.owner@ + "\nDe "@
                + decimal(sale.value as int) + "z para "@ + decimal(
                first_offer(shop.items@, sale.item).unwrap().price as int,
            ) + "z\nSeguimos de olho nessa malandragem"@,
            false,
        )),
{
}

} // verus!
