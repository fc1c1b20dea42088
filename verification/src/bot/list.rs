//! `/list`: the watched sales, written out for the chat in HTML.
use vstd::prelude::*;
use crate::db::oid::{hex_lower, object_id_round_trip, parsed_object_id};
use crate::db::sale::{join_users, users_text, Sale};
use crate::text::{concat, concat_strings, decimal, push_decimal, remove_char, views, without_char};

verus! {

/// How one sale is listed: its identifier, its item (linked to the item's
/// market page), its price, its seller (linked to the seller's shop page),
/// the interested people with every `@` left out, and the amount for each of
/// them (`shared`, as written).
pub open spec fn entry_text(sale: Sale, item_name: Seq<char>, shared: Seq<char>) -> Seq<char> {
    "<b>Id:</b> (<code>"@ + hex_lower(sale._id.bytes@) + "</code>)\n"@
        + "<b>Item:</b> <a href='"@ + "http://www.originsro-market.de/sells/item_id/"@ + decimal(
        sale.item as int,
    ) + "'>"@ + item_name + " ("@ + decimal(sale.item as int) + ")</a>\n"@ + "<b>Valor:</b> "@
        + decimal(sale.value as int) + "\n"@ + "<b>Seller:</b> <a href='"@
        + "http://www.originsro-market.de/shop/owner?owner="@ + sale.seller.name@ + "'>"@
        + sale.seller.name@ + "</a>\n"@ + "<b>Interessados:</b> "@ + without_char(
        users_text(sale.users@),
        '@',
    ) + "\n"@ + "<b>Valor por pessoa:</b> "@ + shared + "\n\n"@
}

/// Writes out how one sale is listed.
pub fn entry(sale: &Sale, item_name: &str, shared_amount: &str) -> (s: String)
    ensures
        s@ == entry_text(*sale, item_name@, shared_amount@),
{
    let mut s = "<b>Id:</b> (<code>".to_owned();
    let id = sale._id.to_hex();
    s.append(id.as_str());
    s.append("</code>)\n");
    s.append("<b>Item:</b> <a href='");
    s.append("http://www.originsro-market.de/sells/item_id/");
    push_decimal(&mut s, sale.item as i64);
    s.append("'>");
    s.append(item_name);
    s.append(" (");
    push_decimal(&mut s, sale.item as i64);
    s.append(")</a>\n");
    s.append("<b>Valor:</b> ");
    push_decimal(&mut s, sale.value as i64);
    s.append("\n");
    s.append("<b>Seller:</b> <a href='");
    s.append("http://www.originsro-market.de/shop/owner?owner=");
    s.append(sale.seller.name.as_str());
    s.append("'>");
    s.append(sale.seller.name.as_str());
    s.append("</a>\n");
    s.append("<b>Interessados:</b> ");
    let users = join_users(&sale.users);
    let shown = remove_char(users.as_str(), '@');
    s.append(shown.as_str());
    s.append("\n");
    s.append("<b>Valor por pessoa:</b> ");
    s.append(shared_amount);
    s.append("\n\n");
    s
}

/// The whole list: the entries one after the other, or a note that nothing is
/// watched when that gives no text.
pub open spec fn listing_text(entries: Seq<Seq<char>>) -> Seq<char> {
    if concat(entries).len() == 0 {
        "Nada registrado no momento"@
    } else {
        concat(entries)
    }
}

/// Writes out the whole list from the entries of the sales.
pub fn listing(entries: &Vec<String>) -> (s: String)
    ensures
        s@ == listing_text(views(entries@)),
{
    let text = concat_strings(entries);
    if text.as_str().is_empty() {
        "Nada registrado no momento".to_owned()
    } else {
        text
    }
}

/// The total number of characters of the parts.
pub open spec fn lengths_sum(parts: Seq<Seq<char>>) -> nat
    decreases parts.len(),
{
    if parts.len() == 0 {
        0
    } else {
        lengths_sum(parts.drop_last()) + parts.last().len()
    }
}

proof fn lemma_prefix_sum(parts: Seq<Seq<char>>, k: int)
    requires
        0 <= k <= parts.len(),
    ensures
        lengths_sum(parts.take(k)) <= lengths_sum(parts),
        k < parts.len() ==> lengths_sum(parts.take(k + 1)) == lengths_sum(parts.take(k)) + parts[k].len(),
    decreases parts.len() - k,
{
    if k < parts.len() {
        assert(parts.take(k + 1).drop_last() =~= parts.take(k));
        lemma_prefix_sum(parts, k + 1);
    } else {
        assert(parts.take(k) =~= parts);
    }
}

proof fn lemma_concat_layout(parts: Seq<Seq<char>>)
    ensures
        concat(parts).len() == lengths_sum(parts),
        forall|i: int, j: int|
            0 <= i < parts.len() && 0 <= j < parts[i].len() ==> concat(parts)[lengths_sum(
                parts.take(i),
            ) + j] == parts[i][j],
    decreases parts.len(),
{
    if parts.len() > 0 {
        let init = parts.drop_last();
        lemma_concat_layout(init);
        let n = parts.len() - 1;
        assert(parts.take(n) =~= init);
        assert forall|i: int, j: int|
            0 <= i < parts.len() && 0 <= j < parts[i].len() implies concat(parts)[lengths_sum(
            parts.take(i),
        ) + j] == parts[i][j] by {
            assert(concat(parts) == concat(init) + parts.last());
            if i < n {
                assert(parts.take(i) =~= init.take(i));
                lemma_prefix_sum(init, i);
                lemma_prefix_sum(init, i + 1);
                assert(init[i] == parts[i]);
                assert(lengths_sum(init.take(i)) + j < concat(init).len());
                let p = lengths_sum(init.take(i)) + j;
                assert(concat(init)[p] == init[i][j]);
                assert(concat(parts)[p] == concat(init)[p]);
            } else {
                assert(parts[i] == parts.last());
                assert(parts.take(i) =~= init);
                let p = lengths_sum(init) + j;
                assert(concat(parts)[p] == parts.last()[j]);
            }
        }
    }
}

/// The list writes every entry, in order, one right after the other: its
/// length is the sum of the entries' lengths, and each entry stands at the
/// offset given by the lengths of the entries before it. Only when the
/// entries hold no text at all does it say that nothing is registered.
pub proof fn listing_writes_every_entry(entries: Seq<Seq<char>>)
    ensures
        lengths_sum(entries) == 0 ==> listing_text(entries) == "Nada registrado no momento"@,
        lengths_sum(entries) > 0 ==> listing_text(entries).len() == lengths_sum(entries),
        lengths_sum(entries) > 0 ==> forall|i: int, j: int|
            0 <= i < entries.len() && 0 <= j < entries[i].len() ==> listing_text(entries)[lengths_sum(
                entries.take(i),
            ) + j] == entries[i][j],
{
    lemma_concat_layout(entries);
}

proof fn lemma_hex_len(bytes: Seq<u8>)
    ensures
        hex_lower(bytes).len() == 2 * bytes.len(),
    decreases bytes.len(),
{
    if bytes.len() > 0 {
        lemma_hex_len(bytes.skip(1));
    }
}

/// The identifier that an entry shows (right after its opening `<code>`) is
/// read back as the identifier of the listed sale, so `/del` can name it.
pub proof fn entry_shows_the_id(sale: Sale, item_name: Seq<char>, shared: Seq<char>)
    ensures
        parsed_object_id(entry_text(sale, item_name, shared).subrange(18, 42)) == Some(
            sale._id.bytes@,
        ),
{
    reveal_strlit("<b>Id:</b> (<code>");
    lemma_hex_len(sale._id.bytes@);
    let head = "<b>Id:</b> (<code>"@;
    let h = hex_lower(sale._id.bytes@);
    assert(head.len() == 18);
    let e = entry_text(sale, item_name, shared);
    assert(e.subrange(18, 42) =~= h);
    object_id_round_trip(sale._id);
}

} // verus!
