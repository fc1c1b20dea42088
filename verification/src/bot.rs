//! The chat commands: which command a message asks for, and the replies of
//! the commands that need no stored data.
pub mod add;
pub mod del;
pub mod lend;
pub mod list;

use vstd::prelude::*;
use crate::text::{chars_of, occurs_at, replace_all, replaced, string_of_range};

verus! {

/// The position of the first space of `s`, or its length when it has none.
pub open spec fn space_index(s: Seq<char>) -> int
    decreases s.len(),
{
    if s.len() == 0 {
        0
    } else if s[0] == ' ' {
        0
    } else {
        1 + space_index(s.skip(1))
    }
}

/// What `s` holds before its first space (all of it when it has none).
pub open spec fn first_word(s: Seq<char>) -> Seq<char> {
    s.take(space_index(s))
}

/// The first space sits where the scan stops.
pub proof fn lemma_space_index(s: Seq<char>, i: int)
    requires
        0 <= i <= s.len(),
        forall|j: int| 0 <= j < i ==> s[j] != ' ',
        i == s.len() || s[i] == ' ',
    ensures
        space_index(s) == i,
    decreases i,
{
    if i > 0 {
        lemma_space_index(s.skip(1), i - 1);
    }
}

/// The position of the first space of the characters `v`, or their number.
pub fn find_space(v: &Vec<char>) -> (i: usize)
    ensures
        i == space_index(v@),
        i <= v.len(),
{
    let mut i: usize = 0;
    while i < v.len() && v[i] != ' '
        invariant
            i <= v.len(),
            forall|j: int| 0 <= j < i ==> v@[j] != ' ',
        decreases v.len() - i,
    {
        i = i + 1;
    }
    proof {
        lemma_space_index(v@, i as int);
    }
    i
}

/// The commands that the bot answers.
#[derive(Debug, Clone, Copy, PartialEq, Eq, Structural)]
pub enum Command {
    Help,
    Add,
    List,
    Del,
    Lend,
}

/// The command that a text message asks for: the message starts with `/`, and
/// its first word, with every `@` followed by the bot's user name taken out, is
/// the command's name. `None` for any other message.
pub open spec fn command_of(data: Seq<char>, bot_username: Seq<char>) -> Option<Command> {
    if data.len() == 0 || data[0] != '/' {
        None
    } else {
        let cmd = replaced(first_word(data), seq!['@'] + bot_username, seq![]);
        if cmd == "/help"@ {
            Some(Command::Help)
        } else if cmd == "/add"@ {
            Some(Command::Add)
        } else if cmd == "/list"@ {
            Some(Command::List)
        } else if cmd == "/del"@ {
            Some(Command::Del)
        } else if cmd == "/lend"@ {
            Some(Command::Lend)
        } else {
            None
        }
    }
}

/// Reads which command a text message asks for.
pub fn parse_command(data: &str, bot_username: &str) -> (c: Option<Command>)
    ensures
        c == command_of(data@, bot_username@),
{
    let v = chars_of(data);
    if v.len() == 0 || v[0] != '/' {
        return None;
    }
    let end = find_space(&v);
    let word = string_of_range(&v, 0, end);
    let mut at = String::new();
    at.append("@");
    at.append(bot_username);
    proof {
        reveal_strlit("@");
        assert(at@ =~= seq!['@'] + bot_username@);
    }
    let cmd = replace_all(word.as_str(), at.as_str(), "");
    proof {
        reveal_strlit("");
        assert(word@ =~= first_word(data@));
        assert(""@ =~= Seq::<char>::empty());
        assert(cmd@ == replaced(first_word(data@), seq!['@'] + bot_username@, seq![]));
    }
    if cmd == "/help".to_owned() {
        Some(Command::Help)
    } else if cmd == "/add".to_owned() {
        Some(Command::Add)
    } else if cmd == "/list".to_owned() {
        Some(Command::List)
    } else if cmd == "/del".to_owned() {
        Some(Command::Del)
    } else if cmd == "/lend".to_owned() {
        Some(Command::Lend)
    } else {
        None
    }
}

/// The answer to `/help`.
pub fn help_reply() -> (s: String)
    ensures
        s@ == "@Canato disse que ia escrever, e ta ai ate hoje..."@,
{
    "@Canato disse que ia escrever, e ta ai ate hoje...".to_owned()
}

/// A word with no space is all of its first word.
pub proof fn lemma_first_word_whole(s: Seq<char>)
    requires
        forall|i: int| 0 <= i < s.len() ==> s[i] != ' ',
    ensures
        space_index(s) == s.len(),
        first_word(s) == s,
{
    lemma_space_index(s, s.len() as int);
    assert(s.take(s.len() as int) =~= s);
}

/// Taking out every occurrence of `pat` from a word followed by `pat` leaves
/// the word, when no character of the word starts `pat`.
pub proof fn lemma_replaced_suffix(w: Seq<char>, pat: Seq<char>)
    requires
        pat.len() > 0,
        forall|i: int| 0 <= i < w.len() ==> w[i] != pat[0],
    ensures
        replaced(w + pat, pat, seq![]) == w,
    decreases w.len(),
{
    if w.len() == 0 {
        assert(w + pat =~= pat);
        assert(pat.subrange(0, pat.len() as int) =~= pat);
        assert(pat.skip(pat.len() as int) =~= seq![]);
        assert(occurs_at(w + pat, 0, pat));
        assert(replaced(pat.skip(pat.len() as int), pat, seq![]) =~= seq![]);
        assert(replaced(w + pat, pat, seq![]) =~= seq![] + seq![]);
        assert(seq![] + seq![] =~= w);
    } else {
        let s = w + pat;
        assert(s[0] == w[0]);
        if occurs_at(s, 0, pat) {
            assert(s.subrange(0, pat.len() as int)[0] == s[0]);
        }
        assert(s.skip(1) =~= w.skip(1) + pat);
        lemma_replaced_suffix(w.skip(1), pat);
        assert(!occurs_at(s, 0, pat));
        assert(replaced(s, pat, seq![]) == seq![s[0]] + replaced(s.skip(1), pat, seq![]));
        assert(seq![w[0]] + w.skip(1) =~= w);
    }
}

/// A command addressed to the bot by name (`/list@bot`) is the same command
/// as without the name (`/list`).
pub proof fn addressed_command_is_same(word: Seq<char>, bot_username: Seq<char>)
    requires
        forall|i: int| 0 <= i < word.len() ==> word[i] != '@' && word[i] != ' ',
        forall|i: int| 0 <= i < bot_username.len() ==> bot_username[i] != ' ',
    ensures
        command_of(word + seq!['@'] + bot_username, bot_username) == command_of(word, bot_username),
{
    let pat = seq!['@'] + bot_username;
    let data = word + pat;
    assert(word + seq!['@'] + bot_username =~= data);
    assert forall|i: int| 0 <= i < data.len() implies data[i] != ' ' by {
        if i >= word.len() + 1 {
            assert(data[i] == bot_username[i - word.len() - 1]);
        }
    }
    lemma_first_word_whole(data);
    lemma_first_word_whole(word);
    lemma_replaced_suffix(word, pat);
    lemma_replaced_absent(word, pat);
}

/// Taking out `pat` from a word in which no character starts it leaves the word.
pub proof fn lemma_replaced_absent(w: Seq<char>, pat: Seq<char>)
    requires
        pat.len() > 0,
        forall|i: int| 0 <= i < w.len() ==> w[i] != pat[0],
    ensures
        replaced(w, pat, seq![]) == w,
    decreases w.len(),
{
    if w.len() > 0 {
        if occurs_at(w, 0, pat) {
            assert(w.subrange(0, pat.len() as int)[0] == w[0]);
        }
        lemma_replaced_absent(w.skip(1), pat);
        assert(seq![w[0]] + w.skip(1) =~= w);
    } else {
        assert(w =~= seq![]);
    }
}

/// What follows the first space of a message does not change which command
/// it asks for.
pub proof fn only_first_word_counts(word: Seq<char>, rest: Seq<char>, bot_username: Seq<char>)
    requires
        forall|i: int| 0 <= i < word.len() ==> word[i] != ' ',
    ensures
        command_of(word + seq![' '] + rest, bot_username) == command_of(word, bot_username),
{
    let data = word + seq![' '] + rest;
    lemma_space_index(data, word.len() as int);
    lemma_first_word_whole(word);
    assert(data.take(word.len() as int) =~= word);
    if word.len() > 0 {
        assert(data[0] == word[0]);
    }
}

proof fn lemma_command_name(name: Seq<char>, bot_username: Seq<char>)
    requires
        name.len() > 0,
        forall|i: int| 0 <= i < name.len() ==> name[i] != ' ' && name[i] != '@',
    ensures
        replaced(first_word(name), seq!['@'] + bot_username, seq![]) == name,
{
    lemma_first_word_whole(name);
    lemma_replaced_absent(name, seq!['@'] + bot_username);
}

/// Each command is asked for by its name alone: `/help`, `/add`, `/list`,
/// `/del` and `/lend`; a message that does not start with `/` asks for none.
pub proof fn command_names(data: Seq<char>, bot_username: Seq<char>)
    ensures
        command_of("/help"@, bot_username) == Some(Command::Help),
        command_of("/add"@, bot_username) == Some(Command::Add),
        command_of("/list"@, bot_username) == Some(Command::List),
        command_of("/del"@, bot_username) == Some(Command::Del),
        command_of("/lend"@, bot_username) == Some(Command::Lend),
        (data.len() == 0 || data[0] != '/') ==> command_of(data, bot_username) is None,
{
    reveal_strlit("/help");
    reveal_strlit("/add");
    reveal_strlit("/list");
    reveal_strlit("/del");
    reveal_strlit("/lend");
    lemma_command_name("/help"@, bot_username);
    lemma_command_name("/add"@, bot_username);
    lemma_command_name("/list"@, bot_username);
    lemma_command_name("/del"@, bot_username);
    lemma_command_name("/lend"@, bot_username);
    assert("/list"@[1] != "/help"@[1]);
    assert("/del"@[1] != "/add"@[1]);
    assert("/lend"@[1] != "/help"@[1]);
    assert("/lend"@[2] != "/list"@[2]);
}

} // verus!
