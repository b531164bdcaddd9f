//! Facts about the bot's replies that hold for every message, proved from the
//! definitions of the grammar and the replies.

use vstd::prelude::*;
use crate::command::{
    args_of, first_index, head_of, lemma_first_index, lemma_first_index_at, mention_of, name_of,
    parse_spec, CommandModel,
};
use crate::help::help_text;
use crate::reply::{response, GREETING, MISSING_USERNAME, WELCOME_CLOSING, WELCOME_OPENING};
use crate::text::{eq_ignore_ascii_case, fold_ascii};

verus! {

/// `t` starts with `k`, ASCII letters compared without regard to case.
pub open spec fn starts_with_ignore_ascii_case(t: Seq<char>, k: Seq<char>) -> bool {
    t.len() >= k.len() && eq_ignore_ascii_case(t.subrange(0, k.len() as int), k)
}

/// Text with neither a space nor `@` in it is a first word and a command
/// name all by itself.
proof fn lemma_single_word(t: Seq<char>)
    requires
        forall|i: int| 0 <= i < t.len() ==> t[i] != ' ' && t[i] != '@',
    ensures
        head_of(t) == t,
        name_of(t) == t,
        mention_of(t) is None,
        args_of(t) == Seq::<char>::empty(),
{
    lemma_first_index_at(t, ' ', t.len() as int);
    lemma_first_index_at(t, '@', t.len() as int);
    assert(t.subrange(0, t.len() as int) =~= t);
}

/// A message whose text is `/help`, in any mix of letter cases, is answered
/// with the help text and nothing else.
pub proof fn lemma_help_in_any_case(t: Seq<char>, bot: Seq<char>)
    requires
        eq_ignore_ascii_case(t, "/help"@),
    ensures
        response(Some(t), bot) == help_text(),
{
    reveal_strlit("/help");
    assert forall|i: int| 0 <= i < t.len() implies t[i] != ' ' && t[i] != '@' by {
        assert(fold_ascii(t[i]) == fold_ascii("/help"@[i]));
    }
    lemma_single_word(t);
    assert(parse_spec(t, bot) == Some(CommandModel::Help));
}

/// `/start` followed by a space and a non-empty username `u` is answered with
/// a welcome that holds `u` exactly as sent, followed by the closing sentence.
pub proof fn lemma_start_with_username(u: Seq<char>, bot: Seq<char>)
    requires
        u.len() > 0,
    ensures
        response(Some("/start "@ + u), bot) == WELCOME_OPENING@ + u + WELCOME_CLOSING@,
{
    reveal_strlit("/start ");
    reveal_strlit("/start");
    reveal_strlit("/help");
    let t = "/start "@ + u;
    lemma_first_index_at(t, ' ', 6);
    let head = head_of(t);
    assert(head =~= "/start"@);
    lemma_single_word(head);
    assert(args_of(t) =~= u);
    assert(parse_spec(t, bot) == Some(CommandModel::Start(u)));
}

/// `/start` with no username, whether or not a space follows it, is answered
/// with the prompt for a username and nothing else.
pub proof fn lemma_start_without_username(bot: Seq<char>)
    ensures
        response(Some("/start"@), bot) == MISSING_USERNAME@,
        response(Some("/start "@), bot) == MISSING_USERNAME@,
{
    reveal_strlit("/start ");
    reveal_strlit("/start");
    reveal_strlit("/help");
    lemma_single_word("/start"@);
    assert(parse_spec("/start"@, bot) == Some(CommandModel::Start(Seq::empty())));
    let t = "/start "@;
    lemma_first_index_at(t, ' ', 6);
    assert(head_of(t) =~= "/start"@);
    assert(args_of(t) =~= Seq::<char>::empty());
    assert(parse_spec(t, bot) == Some(CommandModel::Start(Seq::empty())));
}

/// The command name of a message is a prefix of its text.
proof fn lemma_name_is_prefix(t: Seq<char>)
    ensures
        name_of(head_of(t)).len() <= t.len(),
        name_of(head_of(t)) == t.subrange(0, name_of(head_of(t)).len() as int),
{
    lemma_first_index(t, ' ');
    lemma_first_index(head_of(t), '@');
    assert(name_of(head_of(t)) =~= t.subrange(0, name_of(head_of(t)).len() as int));
}

/// A message that does not start with `/help` or `/start` (in any letter
/// case), or has no text at all, is answered with the greeting alone.
pub proof fn lemma_no_command_greets(text: Option<Seq<char>>, bot: Seq<char>)
    requires
        text matches Some(t) ==> !starts_with_ignore_ascii_case(t, "/help"@)
            && !starts_with_ignore_ascii_case(t, "/start"@),
    ensures
        response(text, bot) == GREETING@,
{
    if let Some(t) = text {
        lemma_name_is_prefix(t);
    }
}

/// The reply depends on the message text and the bot's username alone: the
/// same text always gets the same reply, whatever came before it.
pub proof fn lemma_same_text_same_reply(
    first: Option<Seq<char>>,
    second: Option<Seq<char>>,
    bot: Seq<char>,
)
    requires
        first == second,
    ensures
        response(first, bot) == response(second, bot),
{
}

} // verus!
