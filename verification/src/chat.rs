//! Chat moderation: the length limit, the profanity filter and the line that
//! both players receive.

use rustrict::CensorStr;
use vstd::prelude::*;

verus! {

/// The longest chat text, in bytes of UTF-8, that is relayed.
pub const CHAT_LIMIT: usize = 30;

/// The text that the profanity filter makes of `text`.
pub uninterp spec fn censored(text: Seq<char>) -> Seq<char>;

/// Calls `rustrict::CensorStr::censor` on `text`. The filter reads only the
/// characters of its input and word lists that are fixed when the crate is
/// built, so what it hands back is a function of the text: it is named
/// `censored` of the text, and nothing else is claimed of it.
#[verifier::external_body]
fn censor_text(text: &str) -> (clean: String)
    ensures
        clean@ == censored(text@),
{
    text.censor()
}

/// Whether a chat text is short enough to be relayed.
pub open spec fn chat_accepted(text: Seq<char>) -> bool {
    vstd::utf8::encode_utf8(text).len() <= CHAT_LIMIT
}

/// The separator between the sender's name and the text.
pub open spec fn chat_separator() -> Seq<char> {
    seq![':', ' ']
}

/// The line that is relayed for a filtered text from `username`.
pub open spec fn chat_line(username: Seq<char>, clean: Seq<char>) -> Seq<char> {
    username + chat_separator() + clean
}

/// The line that is relayed for `text` from `username`, if any is, where
/// `clean` is what the filter made of the text.
pub open spec fn relayed_line(username: Seq<char>, text: Seq<char>, clean: Seq<char>) -> Option<
    Seq<char>,
> {
    if chat_accepted(text) {
        Some(chat_line(username, clean))
    } else {
        None
    }
}

/// Whether `text` is short enough to be relayed.
pub fn is_chat_accepted(text: &str) -> (accepted: bool)
    ensures
        accepted == chat_accepted(text@),
{
    text.as_bytes().len() <= CHAT_LIMIT
}

/// The line for an already filtered text: the sender's name, a colon, a
/// space, and the filtered text.
pub fn format_chat(username: &str, clean: &str) -> (line: String)
    ensures
        line@ == chat_line(username@, clean@),
{
    proof {
        reveal_strlit(": ");
    }
    let mut line: String = username.to_owned();
    line.append(": ");
    line.append(clean);
    assert(": "@ =~= chat_separator());
    line
}

/// The line to relay for `text` from `username`, where `clean` is what the
/// filter made of the text: none where the text is over the limit, else the
/// name, a colon, a space and the filtered text.
pub fn relay_line(username: &str, text: &str, clean: &str) -> (line: Option<String>)
    ensures
        match line {
            Some(line) => relayed_line(username@, text@, clean@) == Some(line@),
            None => relayed_line(username@, text@, clean@) is None,
        },
{
    if is_chat_accepted(text) {
        Some(format_chat(username, clean))
    } else {
        None
    }
}

/// Runs the profanity filter on a chat text that is short enough to be
/// relayed, and hands back what the filter made of it; a text over the
/// limit is not filtered at all. The result is for `relay_line` to use.
pub fn filter_chat(text: &str) -> (clean: Option<String>)
    ensures
        clean is Some <==> chat_accepted(text@),
        clean is Some ==> clean->0@ == censored(text@),
{
    if is_chat_accepted(text) {
        Some(censor_text(text))
    } else {
        None
    }
}

} // verus!
