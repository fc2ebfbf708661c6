//! JSON values and JSON string text.

use vstd::prelude::*;
use vstd::string::*;

use crate::text;

verus! {

/// A JSON value. Numbers keep the text they were written with; the members of an object keep
/// their order.
#[derive(Debug)]
pub enum Json {
    Null,
    Bool(bool),
    Number(String),
    Text(String),
    List(Vec<Json>),
    Object(Vec<(String, Json)>),
}

/// How one character is written inside a JSON string.
pub open spec fn escaped(c: char) -> Seq<char> {
    if c == '"' {
        seq!['\\', '"']
    } else if c == '\\' {
        seq!['\\', '\\']
    } else if c as u32 == 0x08 {
        seq!['\\', 'b']
    } else if c as u32 == 0x09 {
        seq!['\\', 't']
    } else if c as u32 == 0x0a {
        seq!['\\', 'n']
    } else if c as u32 == 0x0c {
        seq!['\\', 'f']
    } else if c as u32 == 0x0d {
        seq!['\\', 'r']
    } else if (c as u32) < 0x20 {
        seq![
            '\\',
            'u',
            '0',
            '0',
            text::hex_char(c as int / 16),
            text::hex_char(c as int % 16),
        ]
    } else {
        seq![c]
    }
}

/// The characters of a text as they are written inside a JSON string.
pub open spec fn escaped_text(s: Seq<char>) -> Seq<char>
    decreases s.len(),
{
    if s.len() == 0 {
        Seq::empty()
    } else {
        escaped_text(s.drop_last()) + escaped(s.last())
    }
}

/// A text as a JSON string: its characters, escaped where they have to be, in quotes.
pub open spec fn quoted(s: Seq<char>) -> Seq<char> {
    seq!['"'] + escaped_text(s) + seq!['"']
}

/// `serde_json::to_string` of a string: quotes around the characters, with `"`, `\` and the
/// control characters below U+0020 escaped and everything else as it is.
#[verifier::external_body]
pub(crate) fn quote(s: &str) -> (r: String)
    ensures
        r@ == quoted(s@),
{
    serde_json::to_string(s).unwrap_or_default()
}

/// Whether a character stands for itself inside a JSON string.
pub open spec fn is_plain(c: char) -> bool {
    c != '"' && c != '\\' && c as u32 >= 0x20
}

/// A text without quotes, backslashes and control characters is quoted as it is.
pub proof fn law_plain_text_is_not_escaped(s: Seq<char>)
    requires
        forall|i: int| 0 <= i < s.len() ==> is_plain(#[trigger] s[i]),
    ensures
        quoted(s) == seq!['"'] + s + seq!['"'],
{
    lemma_plain(s);
}

proof fn lemma_plain(s: Seq<char>)
    requires
        forall|i: int| 0 <= i < s.len() ==> is_plain(#[trigger] s[i]),
    ensures
        escaped_text(s) == s,
    decreases s.len(),
{
    if s.len() > 0 {
        assert forall|i: int| 0 <= i < s.drop_last().len() implies is_plain(
            #[trigger] s.drop_last()[i],
        ) by {
            assert(s.drop_last()[i] == s[i]);
        }
        lemma_plain(s.drop_last());
        assert(is_plain(s[s.len() - 1]));
        assert(escaped_text(s) =~= s);
    } else {
        assert(escaped_text(s) =~= s);
    }
}

/// A quoted text can be told from what surrounds it: it begins and ends with a quote, and inside
/// there is neither a control character nor a quote without a backslash in front.
pub proof fn law_quoted_text_is_closed(s: Seq<char>, i: int)
    requires
        0 < i < quoted(s).len() - 1,
    ensures
        quoted(s)[0] == '"',
        quoted(s).last() == '"',
        quoted(s)[i] as u32 >= 0x20,
        quoted(s)[i] == '"' ==> quoted(s)[i - 1] == '\\',
    decreases s.len(),
{
    let inner = escaped_text(s);
    assert(s.len() > 0);
    assert(quoted(s)[i] == inner[i - 1]);
    let before = escaped_text(s.drop_last());
    let own = escaped(s.last());
    assert(inner == before + own);
    if i - 1 < before.len() {
        let shorter = quoted(s.drop_last());
        assert(shorter.len() == before.len() + 2);
        law_quoted_text_is_closed(s.drop_last(), i);
        assert(shorter[i] == before[i - 1]);
        assert(inner[i - 1] == before[i - 1]);
        if i > 1 {
            assert(shorter[i - 1] == before[i - 2]);
            assert(quoted(s)[i - 1] == inner[i - 2]);
        } else {
            assert(shorter[0] == '"');
            assert(quoted(s)[0] == '"');
        }
    } else {
        let k = i - 1 - before.len();
        assert(0 <= k < own.len());
        assert(inner[i - 1] == own[k]);
        if k > 0 {
            assert(quoted(s)[i - 1] == inner[i - 2]);
            assert(inner[i - 2] == own[k - 1]);
        }
        lemma_escaped(s.last(), k);
    }
}

/// What an escaped character is made of.
proof fn lemma_escaped(c: char, k: int)
    requires
        0 <= k < escaped(c).len(),
    ensures
        escaped(c)[0] != '"',
        escaped(c).len() == 1 || escaped(c)[0] == '\\',
        escaped(c)[k] as u32 >= 0x20,
        escaped(c)[k] == '"' ==> k == 1 && escaped(c)[0] == '\\',
{
    if (c as u32) < 0x20 {
        assert(0 <= c as int / 16 < 2);
        assert(0 <= c as int % 16 < 16);
    }
    assert(k == 0 || k == 1 || k == 2 || k == 3 || k == 4 || k == 5);
}

/// How a character is written: a quote, a backslash and a control character behind a backslash,
/// with the short forms where there is one, and any other as it is.
pub proof fn law_escapes(c: char)
    ensures
        c == '"' ==> escaped(c) == seq!['\\', '"'],
        c == '\\' ==> escaped(c) == seq!['\\', '\\'],
        c as u32 == 8 ==> escaped(c) == seq!['\\', 'b'],
        c as u32 == 9 ==> escaped(c) == seq!['\\', 't'],
        c as u32 == 10 ==> escaped(c) == seq!['\\', 'n'],
        c as u32 == 12 ==> escaped(c) == seq!['\\', 'f'],
        c as u32 == 13 ==> escaped(c) == seq!['\\', 'r'],
        (c as u32) < 0x20 ==> escaped(c)[0] == '\\' && (escaped(c).len() == 2 || escaped(c).len()
            == 6),
        c as u32 >= 0x20 && c != '"' && c != '\\' ==> escaped(c) == seq![c],
{
}

} // verus!
