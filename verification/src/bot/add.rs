//! `/add`: reading a request to watch a sale, and registering it.
use vstd::prelude::*;
use vstd::utf8::*;
use vstd::string::StringSliceAdditionalSpecFns;
use crate::db::market::{find_offer, first_offer, Market};
use crate::db::oid::ObjectId;
use crate::db::sale::{mention_views, MentionView, Sale, Seller, UserMention};
use crate::error::Error;
use crate::pattern::{captures, captures_view, groups_view, parse_i32, parsed_i32, i32_parse_error, regex_captures};
use crate::text::chars_of;

verus! {

/// What a message entity marks.
#[derive(Debug, Clone)]
pub enum EntityKind {
    /// An `@name` mention; its text is in the message.
    Mention,
    /// A mention of a user without a user name.
    TextMention { id: i64, first_name: String },
    /// Anything else (links, commands, formatting, ...).
    Other,
}

/// A marked stretch of a message: where it starts and how long it is, taken as
/// byte positions in the UTF-8 text of the message, and what it marks.
#[derive(Debug, Clone)]
pub struct Entity {
    pub offset: i64,
    pub length: i64,
    pub kind: EntityKind,
}

/// What an `/add` request must look like.
pub const ADD_PATTERN: &'static str = "/[\\w@]+ (\\d+) \"([\\w\\s]+)\" [@\\w\\s]+";

/// The answer to a request written with typographic quotes.
pub const SMART_QUOTES_REPLY: &'static str = "Opa, to vendo que você tá usando umas aspas diferenciadas. Vamo parar ai ou vou ser obrigado a comunicar pro meu primo miliciano 🔫.\nSe você tiver usando um mac, vá em:\nSystem Preferences > Keyboard > Text\n e desabilite “””““smart”“””” quotes. Mula.";

/// The answer to a request that does not have the expected form.
pub const USAGE_REPLY: &'static str = "Tá faltando coisa aí!\nO comando é /add [cod item] \"NomeVendedor\" @interessado1 @interessado2 \nExemplo de uso do comando:\n/add 501 \"Vendi Sai Chorano\" @yurick @sousandrei";

/// The parameters of an `/add` request.
#[derive(Debug, Clone)]
pub struct AddParams {
    /// The item to watch.
    pub item: i32,
    /// The owner of the shop that offers it.
    pub seller_name: String,
    /// Who is interested in it.
    pub users: Vec<UserMention>,
}

/// Whether a message holds a typographic double quote.
pub open spec fn has_smart_quotes(message: Seq<char>) -> bool {
    message.contains('”') || message.contains('“')
}

/// The characters that the bytes `from..to` of the UTF-8 encoding of `s` encode.
pub open spec fn byte_range_text(s: Seq<char>, from: int, to: int) -> Seq<char> {
    decode_utf8(encode_utf8(s).subrange(from, to))
}

/// Whether the bytes `from..to` of the UTF-8 encoding of `s` can be cut out:
/// both ends lie on character boundaries of the encoding.
pub open spec fn byte_range_ok(s: Seq<char>, from: int, to: int) -> bool {
    &&& 0 <= from <= to <= encode_utf8(s).len()
    &&& is_char_boundary(encode_utf8(s), from)
    &&& is_char_boundary(encode_utf8(s), to)
}

/// Whether every `@name` mention of `entities` marks a stretch of bytes of the
/// message that can be cut out.
pub open spec fn mentions_in_bounds(message: Seq<char>, entities: Seq<Entity>) -> bool {
    forall|i: int|
        0 <= i < entities.len() && (#[trigger] entities[i]).kind is Mention ==> entities[i].offset
            >= 0 && entities[i].length >= 0 && byte_range_ok(
            message,
            entities[i].offset as int,
            entities[i].offset + entities[i].length,
        )
}

/// The people that the entities of a message mention, in order: the marked
/// bytes of the message for an `@name` mention, the user for a mention
/// without user name; other entities mention nobody.
pub open spec fn mentioned(message: Seq<char>, entities: Seq<Entity>) -> Seq<MentionView>
    decreases entities.len(),
{
    if entities.len() == 0 {
        seq![]
    } else {
        let rest = mentioned(message, entities.drop_last());
        let e = entities.last();
        match e.kind {
            EntityKind::Mention => rest.push(
                MentionView::Tag(
                    byte_range_text(message, e.offset as int, e.offset + e.length),
                ),
            ),
            EntityKind::TextMention { id, first_name } => rest.push(
                MentionView::Text(id, first_name@),
            ),
            EntityKind::Other => rest,
        }
    }
}

/// Cuts the bytes `from..to` out of `s`.
fn byte_slice(s: &str, from: usize, to: usize) -> (r: String)
    requires
        byte_range_ok(s@, from as int, to as int),
    ensures
        r@ == byte_range_text(s@, from as int, to as int),
{
    let ghost bytes = encode_utf8(s@);
    proof {
        encode_utf8_valid_utf8(s@);
        valid_utf8_split(bytes, to as int);
        let head = bytes.subrange(0, to as int);
        if 0 < from && from < to {
            is_char_boundary_iff_not_is_continuation_byte(bytes, from as int);
            is_char_boundary_iff_not_is_continuation_byte(head, from as int);
            assert(head[from as int] == bytes[from as int]);
        } else if from == to {
            is_char_boundary_start_end_of_seq(head);
        }
    }
    let (head, _) = s.split_at(to);
    let (_, mid) = head.split_at(from);
    proof {
        assert(mid.spec_bytes() =~= bytes.subrange(from as int, to as int));
        encode_utf8_decode_utf8(mid@);
    }
    mid.to_owned()
}

/// Whether the `@name` mentions of `entities` mark stretches of the message that
/// can be cut out.
pub fn mentions_fit(message: &str, entities: &Vec<Entity>) -> (b: bool)
    ensures
        b == mentions_in_bounds(message@, entities@),
{
    let n = message.as_bytes().len();
    let mut i: usize = 0;
    while i < entities.len()
        invariant
            i <= entities.len(),
            n == encode_utf8(message@).len(),
            forall|j: int|
                0 <= j < i && (#[trigger] entities@[j]).kind is Mention ==> entities@[j].offset >= 0
                    && entities@[j].length >= 0 && byte_range_ok(
                    message@,
                    entities@[j].offset as int,
                    entities@[j].offset + entities@[j].length,
                ),
        decreases entities.len() - i,
    {
        let e = &entities[i];
        match e.kind {
            EntityKind::Mention => {
                if e.offset < 0 || e.length < 0 || e.offset as u64 > n as u64 || e.length as u64 > (
                n as u64) - (e.offset as u64) {
                    return false;
                }
                let from = e.offset as usize;
                let to = from + e.length as usize;
                if !message.is_char_boundary(from) || !message.is_char_boundary(to) {
                    return false;
                }
            },
            _ => {},
        }
        i = i + 1;
    }
    true
}

/// The people that the entities of a message mention.
pub fn mentioned_users(message: &str, entities: &Vec<Entity>) -> (users: Vec<UserMention>)
    requires
        mentions_in_bounds(message@, entities@),
    ensures
        mention_views(users@) == mentioned(message@, entities@),
{
    let mut users: Vec<UserMention> = Vec::new();
    let n = message.as_bytes().len();
    let mut i: usize = 0;
    while i < entities.len()
        invariant
            i <= entities.len(),
            n == encode_utf8(message@).len(),
            mentions_in_bounds(message@, entities@),
            mention_views(users@) == mentioned(message@, entities@.take(i as int)),
        decreases entities.len() - i,
    {
        let e = &entities[i];
        let ghost before = users@;
        assert(entities@.take((i + 1) as int).drop_last() =~= entities@.take(i as int));
        match &e.kind {
            EntityKind::Mention => {
                assert(entities@[i as int].kind is Mention);
                let from = e.offset as usize;
                let to = from + e.length as usize;
                let text = byte_slice(message, from, to);
                users.push(UserMention::TagMention(text));
            },
            EntityKind::TextMention { id, first_name } => {
                users.push(UserMention::TextMention(*id, first_name.clone()));
            },
            EntityKind::Other => {},
        }
        assert(mention_views(users@) =~= mentioned(message@, entities@.take((i + 1) as int)));
        i = i + 1;
    }
    assert(entities@.take(entities.len() as int) =~= entities@);
    users
}

/// Whether the capture groups of a match hold the item (group 1) and the
/// seller (group 2).
pub open spec fn groups_usable(g: Seq<Option<Seq<char>>>) -> bool {
    g.len() >= 3 && g[1] is Some && g[2] is Some
}

/// The parameters, or the text of the error, that the capture groups of a
/// matching request give: the item read from group 1, the seller from group
/// 2, and the people that the message's entities mention.
pub open spec fn params_from(message: Seq<char>, entities: Seq<Entity>, g: Seq<Option<Seq<char>>>) -> Result<
    (i32, Seq<char>, Seq<MentionView>),
    Seq<char>,
> {
    match parsed_i32(g[1].unwrap()) {
        Some(item) => Ok((item, g[2].unwrap(), mentioned(message, entities))),
        None => Err(i32_parse_error(g[1].unwrap())),
    }
}

/// What an `/add` request asks for, or the text of the error that answers it.
pub open spec fn add_request(message: Seq<char>, entities: Seq<Entity>) -> Result<
    (i32, Seq<char>, Seq<MentionView>),
    Seq<char>,
> {
    if has_smart_quotes(message) {
        Err(SMART_QUOTES_REPLY@)
    } else {
        params_from_match(message, entities, regex_captures(ADD_PATTERN@, message))
    }
}

/// Whether reading an `/add` request completes: a matching request names its
/// item and seller in groups 1 and 2, and when the item is a number, every
/// `@name` mention marks bytes of the message that can be cut out.
pub open spec fn add_request_readable(message: Seq<char>, entities: Seq<Entity>) -> bool {
    !has_smart_quotes(message) ==> (regex_captures(ADD_PATTERN@, message) matches Ok(Some(g))
        ==> groups_usable(g) && (parsed_i32(g[1].unwrap()) is Some ==> mentions_in_bounds(
        message,
        entities,
    )))
}

/// The parameters in plain values.
pub open spec fn params_view(p: AddParams) -> (i32, Seq<char>, Seq<MentionView>) {
    (p.item, p.seller_name@, mention_views(p.users@))
}

/// Whether a result is the one that a plain-value outcome describes.
pub open spec fn reads_as(
    r: Result<AddParams, Error>,
    expected: Result<(i32, Seq<char>, Seq<MentionView>), Seq<char>>,
) -> bool {
    match (r, expected) {
        (Ok(p), Ok(v)) => params_view(p) == v,
        (Err(e), Err(m)) => e.message@ == m,
        _ => false,
    }
}

/// Whether a message holds a typographic double quote.
pub fn smart_quotes(message: &str) -> (b: bool)
    ensures
        b == has_smart_quotes(message@),
{
    let v = chars_of(message);
    let mut i: usize = 0;
    while i < v.len()
        invariant
            v@ == message@,
            i <= v.len(),
            forall|j: int| 0 <= j < i ==> v@[j] != '”' && v@[j] != '“',
        decreases v.len() - i,
    {
        if v[i] == '”' || v[i] == '“' {
            assert(message@.contains(v@[i as int]));
            return true;
        }
        i = i + 1;
    }
    false
}

/// Reads the parameters of a matching `/add` request from its capture groups.
pub fn params_from_groups(message: &str, entities: &Vec<Entity>, groups: &Vec<Option<String>>) -> (r: Result<AddParams, Error>)
    requires
        groups_usable(groups_view(groups@)),
        parsed_i32(groups_view(groups@)[1].unwrap()) is Some ==> mentions_in_bounds(
            message@,
            entities@,
        ),
    ensures
        reads_as(r, params_from(message@, entities@, groups_view(groups@))),
{
    let digits = groups[1].as_ref().unwrap();
    let seller = groups[2].as_ref().unwrap();
    assert(groups_view(groups@)[1].unwrap() == digits@);
    assert(groups_view(groups@)[2].unwrap() == seller@);
    match parse_i32(digits.as_str()) {
        Err(e) => Err(Error::new(e.as_str())),
        Ok(item) => {
            let users = mentioned_users(message, entities);
            Ok(AddParams { item, seller_name: seller.clone(), users })
        },
    }
}

/// What a request without typographic quotes asks for, given the outcome of
/// matching it against [`ADD_PATTERN`]: the compile error, the usage when it
/// does not match, the parameters read from the capture groups when it does.
pub open spec fn params_from_match(
    message: Seq<char>,
    entities: Seq<Entity>,
    matched: Result<Option<Seq<Option<Seq<char>>>>, Seq<char>>,
) -> Result<(i32, Seq<char>, Seq<MentionView>), Seq<char>> {
    match matched {
        Err(e) => Err(e),
        Ok(None) => Err(USAGE_REPLY@),
        Ok(Some(g)) => params_from(message, entities, g),
    }
}

/// Reads the parameters of a request from the outcome of matching it.
pub fn params_from_outcome(
    message: &str,
    entities: &Vec<Entity>,
    matched: Result<Option<Vec<Option<String>>>, String>,
) -> (r: Result<AddParams, Error>)
    requires
        captures_view(matched) matches Ok(Some(g)) ==> groups_usable(g) && (parsed_i32(
            g[1].unwrap(),
        ) is Some ==> mentions_in_bounds(message@, entities@)),
    ensures
        reads_as(r, params_from_match(message@, entities@, captures_view(matched))),
{
    match matched {
        Err(e) => Err(Error::new(e.as_str())),
        Ok(None) => Err(Error::new(USAGE_REPLY)),
        Ok(Some(groups)) => params_from_groups(message, entities, &groups),
    }
}

/// Reads an `/add` request: `/add <item> "<seller>" @someone ...`.
pub fn parse_add_params(message: &str, entities: &Vec<Entity>) -> (r: Result<AddParams, Error>)
    requires
        add_request_readable(message@, entities@),
    ensures
        reads_as(r, add_request(message@, entities@)),
{
    if smart_quotes(message) {
        return Err(Error::new(SMART_QUOTES_REPLY));
    }
    params_from_outcome(message, entities, captures(ADD_PATTERN, message))
}

/// Reads an `/add` request where reading it completes; `None` where it would
/// not (a match without item or seller group, or a mention that marks bytes
/// that cannot be cut out of the message).
pub fn try_parse_add_params(message: &str, entities: &Vec<Entity>) -> (r: Option<
    Result<AddParams, Error>,
>)
    ensures
        r is Some <==> add_request_readable(message@, entities@),
        r matches Some(res) ==> reads_as(res, add_request(message@, entities@)),
{
    if !smart_quotes(message) {
        match captures(ADD_PATTERN, message) {
            Ok(Some(groups)) => {
                if groups.len() < 3 || groups[1].is_none() || groups[2].is_none() {
                    return None;
                }
                let digits = groups[1].as_ref().unwrap();
                assert(groups_view(groups@)[1].unwrap() == digits@);
                if parse_i32(digits.as_str()).is_ok() && !mentions_fit(message, entities) {
                    return None;
                }
            },
            _ => {},
        }
    }
    Some(parse_add_params(message, entities))
}

/// What becomes of a readable `/add` request once the shop of its seller has
/// been looked up.
#[derive(Debug, Clone)]
pub enum AddPlan {
    /// Nothing is registered; this reply is owed.
    Reply(String),
    /// This sale is to be registered.
    Register(Sale),
}

/// Decides what a readable `/add` request registers, given the shop found
/// under the seller's name (if any) and a fresh identifier for the sale: no
/// shop, or a shop that does not offer the item, gets a reply; otherwise the
/// sale of the item at the price of the shop's first offer of it, with no
/// closed checks counted.
pub fn plan_sale(params: AddParams, shop: &Option<Market>, id: ObjectId) -> (p: AddPlan)
    ensures
        shop is None ==> (p matches AddPlan::Reply(s) && s@ == "Não achei esta lojinha"@),
        shop matches Some(m) ==> (first_offer(m.items@, params.item) is None ==> (p matches AddPlan::Reply(s)
            && s@ == "Este vendedor não esta vendendo este item"@)),
        shop matches Some(m) ==> (first_offer(m.items@, params.item) matches Some(o) ==> (
        p matches AddPlan::Register(sale) && sale._id == id && sale.item == params.item
            && sale.seller.id == m._id && sale.seller.name@ == params.seller_name@
            && mention_views(sale.users@) == mention_views(params.users@) && sale.value == o.price
            && sale.killcount == 0)),
{
    match shop {
        None => AddPlan::Reply("Não achei esta lojinha".to_owned()),
        Some(m) => match find_offer(&m.items, params.item) {
            None => AddPlan::Reply("Este vendedor não esta vendendo este item".to_owned()),
            Some(i) => AddPlan::Register(
                Sale {
                    _id: id,
                    item: params.item,
                    seller: Seller { id: m._id, name: params.seller_name },
                    users: params.users,
                    value: m.items[i].price,
                    killcount: 0,
                },
            ),
        },
    }
}

/// The answer once a sale is registered.
pub fn confirmation(item_name: &str, seller_name: &str) -> (s: String)
    ensures
        s@ == "Show, registrei aqui o item "@ + item_name@ + " sendo vendido por "@ + seller_name@,
{
    let mut s = "Show, registrei aqui o item ".to_owned();
    s.append(item_name);
    s.append(" sendo vendido por ");
    s.append(seller_name);
    s
}

/// How many entities mention someone (an `@name` or a user without user name).
pub open spec fn mention_count(entities: Seq<Entity>) -> nat
    decreases entities.len(),
{
    if entities.len() == 0 {
        0
    } else if entities.last().kind is Other {
        mention_count(entities.drop_last())
    } else {
        mention_count(entities.drop_last()) + 1
    }
}

proof fn lemma_mentioned_len(message: Seq<char>, entities: Seq<Entity>)
    ensures
        mentioned(message, entities).len() == mention_count(entities),
    decreases entities.len(),
{
    if entities.len() > 0 {
        lemma_mentioned_len(message, entities.drop_last());
    }
}

/// A request with typographic quotes is refused whatever else it holds; a
/// request that does not match is answered with the usage; an accepted request
/// takes its item from the number of the match, its seller from the quoted
/// name, and lists one interested person per mentioning entity, a user
/// without user name as that user.
pub proof fn request_reading_rules(message: Seq<char>, entities: Seq<Entity>)
    ensures
        has_smart_quotes(message) ==> add_request(message, entities) == Err::<
            (i32, Seq<char>, Seq<MentionView>),
            Seq<char>,
        >(SMART_QUOTES_REPLY@),
        !has_smart_quotes(message) && regex_captures(ADD_PATTERN@, message) == Ok::<
            Option<Seq<Option<Seq<char>>>>,
            Seq<char>,
        >(None) ==> add_request(message, entities) == Err::<
            (i32, Seq<char>, Seq<MentionView>),
            Seq<char>,
        >(USAGE_REPLY@),
        add_request(message, entities) matches Ok((item, seller, users)) ==> {
            &&& !has_smart_quotes(message)
            &&& regex_captures(ADD_PATTERN@, message) matches Ok(Some(g))
            &&& parsed_i32(g[1].unwrap()) == Some(item)
            &&& g[2].unwrap() == seller
            &&& users.len() == mention_count(entities)
        },
{
    lemma_mentioned_len(message, entities);
}

} // verus!
