//! The command grammar: a message is a command when its first word, up to the
//! first space, is `/help` or `/start` (ASCII letters in any case), optionally
//! followed by `@` and this bot's username. Everything after that first space
//! is the argument of `/start`, kept verbatim.

use vstd::prelude::*;
use crate::text::{eq_ignore_ascii_case, str_eq_ignore_ascii_case};

verus! {

/// A command recognised in a message.
#[derive(Debug)]
pub enum Command {
    /// Show the list of supported commands.
    Help,
    /// Greet a first-time user; carries the username (possibly empty).
    Start(String),
}

/// The mathematical value of a `Command`.
pub enum CommandModel {
    Help,
    Start(Seq<char>),
}

impl View for Command {
    type V = CommandModel;

    open spec fn view(&self) -> CommandModel {
        match self {
            Command::Help => CommandModel::Help,
            Command::Start(u) => CommandModel::Start(u@),
        }
    }
}

/// The view of an optional command.
pub open spec fn option_model(c: Option<Command>) -> Option<CommandModel> {
    match c {
        Some(c) => Some(c@),
        None => None,
    }
}

/// Position of the first `c` in `s`, or `s.len()` where `s` has none.
pub open spec fn first_index(s: Seq<char>, c: char) -> nat
    decreases s.len(),
{
    if s.len() == 0 {
        0
    } else if s[0] == c {
        0
    } else {
        1 + first_index(s.drop_first(), c)
    }
}

/// `first_index` is the position before which `c` does not occur and at which,
/// short of the end, it does.
pub proof fn lemma_first_index(s: Seq<char>, c: char)
    ensures
        first_index(s, c) <= s.len(),
        forall|j: int| 0 <= j < first_index(s, c) ==> s[j] != c,
        first_index(s, c) < s.len() ==> s[first_index(s, c) as int] == c,
    decreases s.len(),
{
    if s.len() > 0 && s[0] != c {
        lemma_first_index(s.drop_first(), c);
        assert forall|j: int| 0 <= j < first_index(s, c) implies s[j] != c by {
            if j > 0 {
                assert(s[j] == s.drop_first()[j - 1]);
            }
        }
    }
}

/// A position with no `c` before it and `c` at it (or the end) is `first_index`.
pub proof fn lemma_first_index_at(s: Seq<char>, c: char, k: int)
    requires
        0 <= k <= s.len(),
        forall|j: int| 0 <= j < k ==> s[j] != c,
        k < s.len() ==> s[k] == c,
    ensures
        first_index(s, c) == k,
    decreases s.len(),
{
    if s.len() > 0 && k > 0 {
        assert forall|j: int| 0 <= j < k - 1 implies s.drop_first()[j] != c by {
            assert(s[j + 1] != c);
        }
        lemma_first_index_at(s.drop_first(), c, k - 1);
    }
}

/// The first word of a message: everything before its first space.
pub open spec fn head_of(t: Seq<char>) -> Seq<char> {
    t.subrange(0, first_index(t, ' ') as int)
}

/// The argument text of a message: everything after its first space, or
/// nothing where it has no space.
pub open spec fn args_of(t: Seq<char>) -> Seq<char> {
    let k = first_index(t, ' ') as int;
    if k < t.len() {
        t.subrange(k + 1, t.len() as int)
    } else {
        Seq::empty()
    }
}

/// The command name in a first word: everything before its first `@`.
pub open spec fn name_of(head: Seq<char>) -> Seq<char> {
    head.subrange(0, first_index(head, '@') as int)
}

/// The bot username that a first word mentions after `@`, up to the next `@`.
pub open spec fn mention_of(head: Seq<char>) -> Option<Seq<char>> {
    let j = first_index(head, '@') as int;
    if j < head.len() {
        let after = head.subrange(j + 1, head.len() as int);
        Some(after.subrange(0, first_index(after, '@') as int))
    } else {
        None
    }
}

/// A first word is meant for the bot `bot` when it mentions no bot, or mentions
/// `bot` without regard to ASCII case.
pub open spec fn addressed_to(head: Seq<char>, bot: Seq<char>) -> bool {
    match mention_of(head) {
        None => true,
        Some(m) => eq_ignore_ascii_case(m, bot),
    }
}

/// The command that message text `t` holds for the bot named `bot`, if any.
pub open spec fn parse_spec(t: Seq<char>, bot: Seq<char>) -> Option<CommandModel> {
    let head = head_of(t);
    if !addressed_to(head, bot) {
        None
    } else if eq_ignore_ascii_case(name_of(head), "/help"@) {
        Some(CommandModel::Help)
    } else if eq_ignore_ascii_case(name_of(head), "/start"@) {
        Some(CommandModel::Start(args_of(t)))
    } else {
        None
    }
}

/// Position of the first `c` in `s`, or its length.
fn find_char(s: &str, c: char) -> (r: usize)
    ensures
        r == first_index(s@, c),
        r <= s@.len(),
{
    let n = s.unicode_len();
    let mut i: usize = 0;
    while i < n && s.get_char(i) != c
        invariant
            n == s@.len(),
            i <= n,
            forall|j: int| 0 <= j < i ==> s@[j] != c,
        decreases n - i,
    {
        i = i + 1;
    }
    proof {
        lemma_first_index_at(s@, c, i as int);
    }
    i
}

impl Command {
    /// Reads a command out of message text, for the bot whose username is
    /// `bot_name`; `None` where the text holds no command meant for it.
    pub fn parse(text: &str, bot_name: &str) -> (r: Option<Command>)
        ensures
            option_model(r) == parse_spec(text@, bot_name@),
    {
        let n = text.unicode_len();
        let k = find_char(text, ' ');
        let head = text.substring_char(0, k);
        let hn = head.unicode_len();
        let j = find_char(head, '@');
        if j < hn {
            let after = head.substring_char(j + 1, hn);
            let m = find_char(after, '@');
            let mention = after.substring_char(0, m);
            if !str_eq_ignore_ascii_case(mention, bot_name) {
                return None;
            }
        }
        let name = head.substring_char(0, j);
        if str_eq_ignore_ascii_case(name, "/help") {
            Some(Command::Help)
        } else if str_eq_ignore_ascii_case(name, "/start") {
            let mut username = String::new();
            if k < n {
                username.append(text.substring_char(k + 1, n));
            }
            proof {
                assert(username@ =~= args_of(text@));
            }
            Some(Command::Start(username))
        } else {
            None
        }
    }
}

} // verus!
