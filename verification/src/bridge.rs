//! The query path: line-oriented text commands from the control surface.
//!
//! Each invocation receives one command line and returns one reply, a pure
//! function of the line and the current holder values. The line is split on
//! whitespace; the first token is the command name and everything after it
//! is ignored. `getMode` answers with the mode as decimal text, `getTime`
//! with the stored position text, and anything else — an unknown command, an
//! empty line, pure whitespace — with the empty string. No input is an
//! error.

use vstd::prelude::*;
use vstd::string::StrSliceExecFns;
use vstd::string::StringExecFns;

use crate::decimal::decimal_text;
use crate::decimal::u8_to_decimal;
use crate::state::SharedState;

verus! {

/// Whether `c` separates tokens: the characters with the Unicode
/// `White_Space` property.
pub open spec fn is_space(c: char) -> bool {
    c == ' ' || c == '\t' || c == '\n' || c == '\r' || c == '\u{000B}' || c == '\u{000C}'
        || c == '\u{0085}' || c == '\u{00A0}' || c == '\u{1680}' || c == '\u{2000}' || c
        == '\u{2001}' || c == '\u{2002}' || c == '\u{2003}' || c == '\u{2004}' || c == '\u{2005}'
        || c == '\u{2006}' || c == '\u{2007}' || c == '\u{2008}' || c == '\u{2009}' || c
        == '\u{200A}' || c == '\u{2028}' || c == '\u{2029}' || c == '\u{202F}' || c == '\u{205F}'
        || c == '\u{3000}'
}

/// The longest whitespace-free prefix of `s`.
pub open spec fn token_prefix(s: Seq<char>) -> Seq<char>
    decreases s.len(),
{
    if s.len() == 0 || is_space(s[0]) {
        Seq::empty()
    } else {
        seq![s[0]] + token_prefix(s.drop_first())
    }
}

/// The first whitespace-delimited token of `s`: what remains after leading
/// whitespace, up to the next whitespace character. Empty when `s` holds no
/// token at all.
pub open spec fn first_token(s: Seq<char>) -> Seq<char>
    decreases s.len(),
{
    if s.len() == 0 {
        Seq::empty()
    } else if is_space(s[0]) {
        first_token(s.drop_first())
    } else {
        token_prefix(s)
    }
}

/// The reply owed to a command line, given the current mode and position
/// text: the mode as decimal text for `getMode`, the position text for
/// `getTime`, and the empty string for everything else.
pub open spec fn reply_for(line: Seq<char>, mode: u8, position: Seq<char>) -> Seq<char> {
    if first_token(line) == "getMode"@ {
        decimal_text(mode as nat)
    } else if first_token(line) == "getTime"@ {
        position
    } else {
        Seq::empty()
    }
}

/// Whether `c` separates tokens.
fn is_space_char(c: char) -> (r: bool)
    ensures
        r == is_space(c),
{
    c == ' ' || c == '\t' || c == '\n' || c == '\r' || c == '\u{000B}' || c == '\u{000C}'
        || c == '\u{0085}' || c == '\u{00A0}' || c == '\u{1680}' || c == '\u{2000}'
        || c == '\u{2001}' || c == '\u{2002}' || c == '\u{2003}' || c == '\u{2004}'
        || c == '\u{2005}' || c == '\u{2006}' || c == '\u{2007}' || c == '\u{2008}'
        || c == '\u{2009}' || c == '\u{200A}' || c == '\u{2028}' || c == '\u{2029}'
        || c == '\u{202F}' || c == '\u{205F}' || c == '\u{3000}'
}

/// Whether two string slices hold the same characters.
fn str_eq(a: &str, b: &str) -> (r: bool)
    ensures
        r == (a@ == b@),
{
    String::from_str(a) == String::from_str(b)
}

/// The whitespace-free prefix of a sequence whose first `k` characters are
/// not whitespace, and whose `k`-th character (if any) is, is exactly those
/// `k` characters.
proof fn lemma_token_prefix_take(s: Seq<char>, k: int)
    requires
        0 <= k <= s.len(),
        forall|j: int| 0 <= j < k ==> !is_space(s[j]),
        k < s.len() ==> is_space(s[k]),
    ensures
        token_prefix(s) =~= s.take(k),
    decreases s.len(),
{
    if s.len() == 0 || is_space(s[0]) {
        assert(k == 0);
    } else {
        assert(k >= 1);
        lemma_token_prefix_take(s.drop_first(), k - 1);
        assert(seq![s[0]] + s.drop_first().take(k - 1) =~= s.take(k));
    }
}

/// Answer one command line from the current holder values.
pub fn handle_command(state: &SharedState, line: &str) -> (reply: String)
    ensures
        reply@ == reply_for(line@, state.mode, state.position@),
{
    proof {
        reveal_strlit("getMode");
        reveal_strlit("getTime");
    }
    let n = line.unicode_len();
    let mut start: usize = 0;
    assert(line@.skip(0) =~= line@);
    while start < n && is_space_char(line.get_char(start))
        invariant
            start <= n,
            n == line@.len(),
            first_token(line@) == first_token(line@.skip(start as int)),
        decreases n - start,
    {
        assert(line@.skip(start as int).drop_first() =~= line@.skip(start + 1));
        start = start + 1;
    }
    if start == n {
        // Nothing but whitespace: no token, so no recognized command.
        assert(first_token(line@) =~= Seq::<char>::empty());
        return String::new();
    }
    assert(first_token(line@) == token_prefix(line@.skip(start as int)));
    let mut end: usize = start;
    while end < n && !is_space_char(line.get_char(end))
        invariant
            start <= end <= n,
            n == line@.len(),
            forall|j: int| start <= j < end ==> !is_space(line@[j]),
        decreases n - end,
    {
        end = end + 1;
    }
    proof {
        lemma_token_prefix_take(line@.skip(start as int), end - start);
        assert(line@.skip(start as int).take(end - start) =~= line@.subrange(
            start as int,
            end as int,
        ));
    }
    let token = line.substring_char(start, end);
    assert(token@ == first_token(line@));
    if str_eq(token, "getMode") {
        u8_to_decimal(state.get_mode())
    } else if str_eq(token, "getTime") {
        state.get_position()
    } else {
        String::new()
    }
}

/// Law: an unknown command — any line whose first token is neither
/// `getMode` nor `getTime`, including an empty or pure-whitespace line —
/// is owed the empty reply, whatever the holder values are.
pub proof fn lemma_unknown_command_empty(line: Seq<char>, mode: u8, position: Seq<char>)
    requires
        first_token(line) != "getMode"@,
        first_token(line) != "getTime"@,
    ensures
        reply_for(line, mode, position) == Seq::<char>::empty(),
{
}

/// Law: while the mode is in the defined set `0 ..= 8` — as it is in every
/// state the event path can reach — the `getMode` reply is a single decimal
/// digit.
pub proof fn lemma_mode_reply_single_digit(line: Seq<char>, mode: u8, position: Seq<char>)
    requires
        mode <= 8,
        first_token(line) == "getMode"@,
    ensures
        reply_for(line, mode, position) =~= seq![crate::decimal::digit_char(mode as nat)],
{
}

/// Law: the `getTime` reply is exactly the position text most recently
/// written into the holder, whatever was written before it.
pub proof fn lemma_time_reply_is_last_write(line: Seq<char>, mode: u8, position: Seq<char>)
    requires
        first_token(line) == "getTime"@,
    ensures
        reply_for(line, mode, position) == position,
{
    reveal_strlit("getMode");
    reveal_strlit("getTime");
    assert("getMode"@[3] == 'M' && "getTime"@[3] == 'T');
}

} // verus!
