//! `/del`: which sale a message names.
use vstd::prelude::*;
use crate::bot::{find_space, first_word, lemma_first_word_whole, lemma_space_index, space_index};
use crate::db::oid::{hex_lower, object_id_round_trip, parsed_object_id, ObjectId};
use crate::text::{chars_of, string_of_range};

verus! {

/// What follows the first space of `s`, up to the next space.
pub open spec fn second_field(s: Seq<char>) -> Seq<char> {
    first_word(s.skip(space_index(s) + 1))
}

/// What a `/del` message asks for.
#[derive(Debug, Clone)]
pub enum DelPlan {
    /// The named identifier is no identifier: this reply is owed.
    Reply(String),
    /// The sale with this identifier is to be deleted.
    Delete(ObjectId),
}

/// Reads the identifier of the sale that a `/del` message names, from its
/// second space-separated field.
pub fn plan(msg: &str) -> (p: DelPlan)
    requires
        space_index(msg@) < msg@.len(),
    ensures
        parsed_object_id(second_field(msg@)) matches Some(b) ==> (p matches DelPlan::Delete(id)
            && id.bytes@ == b),
        parsed_object_id(second_field(msg@)) is None ==> (p matches DelPlan::Reply(s) && s@
            == "Id invalido, ta de sanacagem?"@),
{
    let v = chars_of(msg);
    let first = find_space(&v);
    let rest = string_of_range(&v, first + 1, v.len());
    let w = chars_of(rest.as_str());
    let end = find_space(&w);
    let field = string_of_range(&w, 0, end);
    proof {
        assert(rest@ =~= msg@.skip(space_index(msg@) + 1));
        assert(field@ =~= second_field(msg@));
    }
    match ObjectId::parse_str(field.as_str()) {
        Some(id) => DelPlan::Delete(id),
        None => DelPlan::Reply("Id invalido, ta de sanacagem?".to_owned()),
    }
}

/// The answer once the sale is deleted.
pub fn deleted_reply() -> (s: String)
    ensures
        s@ == "Deletado!"@,
{
    "Deletado!".to_owned()
}

/// No character of a written identifier is a space.
pub proof fn lemma_hex_has_no_space(bytes: Seq<u8>)
    ensures
        forall|i: int| 0 <= i < hex_lower(bytes).len() ==> hex_lower(bytes)[i] != ' ',
    decreases bytes.len(),
{
    if bytes.len() > 0 {
        lemma_hex_has_no_space(bytes.skip(1));
        let h = hex_lower(bytes);
        let rest = hex_lower(bytes.skip(1));
        assert forall|i: int| 0 <= i < h.len() implies h[i] != ' ' by {
            if i >= 2 {
                assert(h[i] == rest[i - 2]);
            }
        }
    }
}

/// Deleting with the identifier that `/list` shows for a sale names that sale:
/// the second field of `<command> <identifier as written>` is read back as
/// the identifier.
pub proof fn listed_id_is_deletable(command: Seq<char>, id: ObjectId)
    requires
        forall|i: int| 0 <= i < command.len() ==> command[i] != ' ',
    ensures
        parsed_object_id(second_field(command + seq![' '] + hex_lower(id.bytes@))) == Some(
            id.bytes@,
        ),
{
    let h = hex_lower(id.bytes@);
    let msg = command + seq![' '] + h;
    lemma_space_index(msg, command.len() as int);
    assert(msg.skip(command.len() as int + 1) =~= h);
    lemma_hex_has_no_space(id.bytes@);
    lemma_first_word_whole(h);
    object_id_round_trip(id);
}

} // verus!
