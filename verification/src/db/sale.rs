//! Sales that the chat watches: an item offered by a shop, and the people
//! who are interested in it.
use vstd::prelude::*;
use crate::db::oid::ObjectId;
use crate::text::{decimal, joined, push_decimal};

verus! {

/// Someone interested in a sale: a user known by id and first name, or a
/// plain `@name` mention.
#[derive(Debug, Clone)]
pub enum UserMention {
    TextMention(i64, String),
    TagMention(String),
}

/// A mention in plain values.
pub ghost enum MentionView {
    Text(i64, Seq<char>),
    Tag(Seq<char>),
}

impl View for UserMention {
    type V = MentionView;

    open spec fn view(&self) -> MentionView {
        match self {
            UserMention::TextMention(id, name) => MentionView::Text(*id, name@),
            UserMention::TagMention(name) => MentionView::Tag(name@),
        }
    }
}

/// How a mention is written in messages: a Markdown link to the user for a
/// known user, the mention itself otherwise.
pub open spec fn mention_text(m: MentionView) -> Seq<char> {
    match m {
        MentionView::Text(id, name) => "["@ + name + "](tg://user?id="@ + decimal(id as int) + ")"@,
        MentionView::Tag(name) => name,
    }
}

/// The mentions of a list in plain values.
pub open spec fn mention_views(users: Seq<UserMention>) -> Seq<MentionView> {
    users.map_values(|u: UserMention| u@)
}

/// The mentions of a list, each written out.
pub open spec fn mention_texts(users: Seq<UserMention>) -> Seq<Seq<char>> {
    users.map_values(|u: UserMention| mention_text(u@))
}

/// The mentions written out and separated by single spaces.
pub open spec fn users_text(users: Seq<UserMention>) -> Seq<char> {
    joined(mention_texts(users), " "@)
}

impl UserMention {
    /// The mention as it is written in messages.
    pub fn to_string(&self) -> (s: String)
        ensures
            s@ == mention_text(self@),
    {
        match self {
            UserMention::TextMention(id, name) => {
                let mut s = String::new();
                s.append("[");
                s.append(name.as_str());
                s.append("](tg://user?id=");
                push_decimal(&mut s, *id);
                s.append(")");
                s
            },
            UserMention::TagMention(name) => name.clone(),
        }
    }
}

/// Writes the mentions out, separated by single spaces.
pub fn join_users(users: &Vec<UserMention>) -> (s: String)
    ensures
        s@ == users_text(users@),
{
    let mut parts: Vec<String> = Vec::new();
    let mut i: usize = 0;
    while i < users.len()
        invariant
            i <= users.len(),
            parts.len() == i,
            crate::text::views(parts@) == mention_texts(users@.take(i as int)),
        decreases users.len() - i,
    {
        let t = users[i].to_string();
        let ghost before = parts@;
        parts.push(t);
        proof {
            let next = mention_texts(users@.take((i + 1) as int));
            assert(parts@ == before.push(t));
            assert(next.len() == i + 1);
            assert forall|k: int| 0 <= k < i + 1 implies crate::text::views(parts@)[k] == next[k] by {
                if k < i {
                    assert(crate::text::views(before)[k] == mention_texts(users@.take(i as int))[k]);
                    assert(parts@[k] == before[k]);
                } else {
                    assert(parts@[k] == t);
                    assert(users@.take((i + 1) as int)[k] == users@[k]);
                }
            }
            assert(crate::text::views(parts@) =~= next);
        }
        i = i + 1;
    }
    assert(users@.take(users.len() as int) =~= users@);
    crate::text::join_strings(&parts, " ")
}

/// The shop that offers a sale: its record and its owner's name.
#[derive(Debug, Clone)]
pub struct Seller {
    pub id: ObjectId,
    pub name: String,
}

/// A sale that the chat watches.
#[derive(Debug, Clone)]
pub struct Sale {
    pub _id: ObjectId,
    /// The item on sale.
    pub item: i32,
    pub seller: Seller,
    /// Who is interested in it.
    pub users: Vec<UserMention>,
    /// The price the item is offered at.
    pub value: i32,
    /// How many checks in a row found the shop closed.
    pub killcount: i32,
}

/// The fields that an update of a stored sale sets: the price, when it
/// changes, and the count of checks that found the shop closed.
#[derive(Debug, Clone, Copy, PartialEq, Eq, Structural)]
pub struct SaleUpdate {
    pub value: Option<i32>,
    pub killcount: i32,
}

/// A sale after an update has set its fields.
pub open spec fn updated(sale: Sale, u: SaleUpdate) -> Sale {
    Sale {
        value: match u.value {
            Some(v) => v,
            None => sale.value,
        },
        killcount: u.killcount,
        ..sale
    }
}

} // verus!
