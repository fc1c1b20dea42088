//! `/lend`: the bot never lends.
use vstd::prelude::*;
use crate::error::Error;
use crate::pattern::{captures, regex_captures};

verus! {

/// What a `/lend` request must look like.
pub const LEND_PATTERN: &'static str = "Me empresta\\? (\\d+) zenys";

/// The answer to `/lend`: the usage when the message is not a request for
/// some zenys, a refusal otherwise.
pub open spec fn lend_answer(msg: Seq<char>) -> Result<Seq<char>, Seq<char>> {
    match regex_captures(LEND_PATTERN@, msg) {
        Err(e) => Err(e),
        Ok(None) => Ok(
            "Errou feio, errou rude! Exemplo de uso do comando:\nMe empresta? 10000 zenys"@,
        ),
        Ok(Some(_)) => Ok("Não..."@),
    }
}

/// The answer to `/lend` once the message has been matched against
/// [`LEND_PATTERN`]: the compile error, the usage when it does not match, a
/// refusal when it does.
pub fn answer(matched: Result<Option<Vec<Option<String>>>, String>) -> (r: Result<String, Error>)
    ensures
        matched matches Err(e) ==> (r matches Err(err) && err.message@ == e@),
        matched matches Ok(None) ==> (r matches Ok(s) && s@
            == "Errou feio, errou rude! Exemplo de uso do comando:\nMe empresta? 10000 zenys"@),
        matched matches Ok(Some(_)) ==> (r matches Ok(s) && s@ == "Não..."@),
{
    match matched {
        Err(e) => Err(Error::new(e.as_str())),
        Ok(None) => Ok(
            "Errou feio, errou rude! Exemplo de uso do comando:\nMe empresta? 10000 zenys".to_owned(),
        ),
        Ok(Some(_)) => Ok("Não...".to_owned()),
    }
}

/// Answers a `/lend` message.
pub fn handler(msg: &str) -> (r: Result<String, Error>)
    ensures
        lend_answer(msg@) matches Ok(t) ==> (r matches Ok(s) && s@ == t),
        lend_answer(msg@) matches Err(t) ==> (r matches Err(e) && e.message@ == t),
{
    answer(captures(LEND_PATTERN, msg))
}

} // verus!
