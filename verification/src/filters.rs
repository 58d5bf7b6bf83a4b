//! Convenience constructors for [`Filter`] values, among them the
//! command-pattern builder.
use vstd::prelude::*;

use crate::filter::Filter;
pub use crate::filter::Filter::All as all;
pub use crate::filter::Filter::Contact as contact;
pub use crate::filter::Filter::Deleted as deleted;
pub use crate::filter::Filter::Document as document;
pub use crate::filter::Filter::Edited as edited;
pub use crate::filter::Filter::Forward as forward;
pub use crate::filter::Filter::Media as media;
pub use crate::filter::Filter::Mentioned as mentioned;
pub use crate::filter::Filter::OutGoing as outgoing;
pub use crate::filter::Filter::Photo as photo;
pub use crate::filter::Filter::Raw as raw;
pub use crate::filter::Filter::Reply as reply;
pub use crate::filter::Filter::Sticker as sticker;
use crate::Config;
use vstd::string::StrSliceExecFns;
use vstd::string::StringExecFns;

verus! {

/// ASCII whitespace, as splitting on whitespace sees it.
pub open spec fn spec_is_ascii_ws(c: char) -> bool {
    c == ' ' || c == '\t' || c == '\n' || c == '\r' || c == '\x0C'
}

/// The first index at or after `i` holding a non-whitespace character, or
/// the length when only whitespace remains.
pub open spec fn spec_next_non_ws(s: Seq<char>, i: int) -> int
    decreases s.len() - i,
{
    if i < 0 || i >= s.len() {
        s.len() as int
    } else if !spec_is_ascii_ws(s[i]) {
        i
    } else {
        spec_next_non_ws(s, i + 1)
    }
}

/// The first index at or after `i` holding a whitespace character, or the
/// length when none remains.
pub open spec fn spec_next_ws(s: Seq<char>, i: int) -> int
    decreases s.len() - i,
{
    if i < 0 || i >= s.len() {
        s.len() as int
    } else if spec_is_ascii_ws(s[i]) {
        i
    } else {
        spec_next_ws(s, i + 1)
    }
}

/// The pattern reduced to its first whitespace-delimited token — but only
/// when a second token follows; a pattern with at most one token is kept
/// whole.
pub open spec fn spec_first_token(s: Seq<char>) -> Seq<char> {
    let a = spec_next_non_ws(s, 0);
    let b = spec_next_ws(s, a);
    let c = spec_next_non_ws(s, b);
    if a < s.len() && c < s.len() {
        s.subrange(a, b)
    } else {
        s
    }
}

/// The regular expression the command builder produces: a character class
/// of the configured prefixes, the pattern's command token, an optional
/// at-username group, and the pattern's end anchor when it had one.
pub open spec fn spec_command(
    username: Seq<char>,
    prefixes: Seq<Seq<char>>,
    pattern: Seq<char>,
) -> Seq<char> {
    let anchored = pattern.len() > 0 && pattern.last() == '$';
    let body = if anchored {
        pattern.drop_last()
    } else {
        pattern
    };
    "^["@ + prefixes.flatten() + "]"@ + spec_first_token(body) + "(?:@"@ + username + ")?"@ + if anchored {
        "$"@
    } else {
        Seq::<char>::empty()
    }
}

proof fn lemma_next_non_ws_is(s: Seq<char>, i: int, j: int)
    requires
        0 <= i <= j <= s.len(),
        forall|k: int| i <= k < j ==> spec_is_ascii_ws(s[k]),
        j == s.len() || !spec_is_ascii_ws(s[j]),
    ensures
        spec_next_non_ws(s, i) == j,
    decreases j - i,
{
    if i < j {
        lemma_next_non_ws_is(s, i + 1, j);
    }
}

proof fn lemma_next_ws_is(s: Seq<char>, i: int, j: int)
    requires
        0 <= i <= j <= s.len(),
        forall|k: int| i <= k < j ==> !spec_is_ascii_ws(s[k]),
        j == s.len() || spec_is_ascii_ws(s[j]),
    ensures
        spec_next_ws(s, i) == j,
    decreases j - i,
{
    if i < j {
        lemma_next_ws_is(s, i + 1, j);
    }
}

/// Whether `c` is one of the ASCII whitespace characters.
fn is_ascii_ws(c: char) -> (r: bool)
    ensures
        r == spec_is_ascii_ws(c),
{
    c == ' ' || c == '\t' || c == '\n' || c == '\r' || c == '\x0C'
}

/// Build the regex filter for a command: the pattern's first token, reached
/// by one of the configured prefix characters, optionally followed by
/// `@username`, anchored at the end exactly when the pattern ends in `$`.
pub fn command(config: &Config, pattern: &'static str) -> (r: Filter)
    ensures
        r matches Filter::Regex(s) && s@ == spec_command(
            config.spec_username(),
            config.spec_prefixes(),
            pattern@,
        ),
{
    let n = pattern.unicode_len();
    let anchored = n > 0 && pattern.get_char(n - 1) == '$';
    let body: &str = if anchored {
        pattern.substring_char(0, n - 1)
    } else {
        pattern
    };
    let m = if anchored {
        n - 1
    } else {
        n
    };
    let ghost bodyv = body@;

    let mut a: usize = 0;
    while a < m && is_ascii_ws(body.get_char(a))
        invariant
            0 <= a <= m,
            m == bodyv.len(),
            bodyv == body@,
            forall|k: int| 0 <= k < a ==> spec_is_ascii_ws(bodyv[k]),
        decreases m - a,
    {
        a += 1;
    }
    proof {
        lemma_next_non_ws_is(bodyv, 0, a as int);
    }
    let mut b: usize = a;
    while b < m && !is_ascii_ws(body.get_char(b))
        invariant
            a <= b <= m,
            m == bodyv.len(),
            bodyv == body@,
            forall|k: int| a <= k < b ==> !spec_is_ascii_ws(bodyv[k]),
        decreases m - b,
    {
        b += 1;
    }
    proof {
        lemma_next_ws_is(bodyv, a as int, b as int);
    }
    let mut c: usize = b;
    while c < m && is_ascii_ws(body.get_char(c))
        invariant
            b <= c <= m,
            m == bodyv.len(),
            bodyv == body@,
            forall|k: int| b <= k < c ==> spec_is_ascii_ws(bodyv[k]),
        decreases m - c,
    {
        c += 1;
    }
    proof {
        lemma_next_non_ws_is(bodyv, b as int, c as int);
    }

    let kept: &str = if a < m && c < m {
        body.substring_char(a, b)
    } else {
        body
    };
    assert(kept@ == spec_first_token(bodyv));

    let mut s: String = "^[".to_owned();
    let mut i: usize = 0;
    while i < config.prefixes.len()
        invariant
            i <= config.prefixes.len(),
            s@ == "^["@ + config.spec_prefixes().take(i as int).flatten(),
        decreases config.prefixes.len() - i,
    {
        s.append(config.prefixes[i].as_str());
        proof {
            let ps = config.spec_prefixes();
            assert(ps.take(i + 1) =~= ps.take(i as int).push(ps[i as int]));
            ps.take(i as int).lemma_flatten_push(ps[i as int]);
        }
        i += 1;
    }
    proof {
        assert(config.spec_prefixes().take(config.prefixes.len() as int) =~= config
            .spec_prefixes());
    }
    s.append("]");
    s.append(kept);
    s.append("(?:@");
    let u = config.username();
    s.append(u.as_str());
    s.append(")?");
    if anchored {
        s.append("$");
    }
    proof {
        assert(s@ =~= spec_command(config.spec_username(), config.spec_prefixes(), pattern@));
    }
    Filter::Regex(s)
}

/// A filter matching events from one chat.
pub fn chat(chat_id: i64) -> (r: Filter)
    ensures
        r == Filter::Chat(chat_id),
{
    Filter::Chat(chat_id)
}

/// A filter testing the event's query string against a regular expression.
pub fn regex(expr: &'static str) -> (r: Filter)
    ensures
        r matches Filter::Regex(s) && s@ == expr@,
{
    Filter::Regex(expr.to_owned())
}

/// A filter matching messages whose text equals `equal` exactly.
pub fn text(equal: &'static str) -> (r: Filter)
    ensures
        r matches Filter::Text(s) && s@ == equal@,
{
    Filter::Text(equal.to_owned())
}

} // verus!
