//! The two serde_json calls that the chat makes on plain strings.

use vstd::prelude::*;

verus! {

/// The hexadecimal digit of `n` (below 16), lower case.
pub open spec fn hex_digit(n: int) -> char {
    if n == 0 { '0' }
    else if n == 1 { '1' }
    else if n == 2 { '2' }
    else if n == 3 { '3' }
    else if n == 4 { '4' }
    else if n == 5 { '5' }
    else if n == 6 { '6' }
    else if n == 7 { '7' }
    else if n == 8 { '8' }
    else if n == 9 { '9' }
    else if n == 10 { 'a' }
    else if n == 11 { 'b' }
    else if n == 12 { 'c' }
    else if n == 13 { 'd' }
    else if n == 14 { 'e' }
    else { 'f' }
}

/// How serde_json writes one character inside a JSON string: a quote, a
/// backslash and the control characters below U+0020 are escaped (the short
/// forms `\b \t \n \f \r` where JSON has them, else `\u00XX` in lower-case
/// hexadecimal); every other character stands for itself.
pub open spec fn json_escape_char(c: char) -> Seq<char> {
    let n = c as int;
    if c == '"' {
        seq!['\\', '"']
    } else if c == '\\' {
        seq!['\\', '\\']
    } else if n == 0x8 {
        seq!['\\', 'b']
    } else if n == 0x9 {
        seq!['\\', 't']
    } else if n == 0xa {
        seq!['\\', 'n']
    } else if n == 0xc {
        seq!['\\', 'f']
    } else if n == 0xd {
        seq!['\\', 'r']
    } else if n < 0x20 {
        seq!['\\', 'u', '0', '0', hex_digit(n / 16), hex_digit(n % 16)]
    } else {
        seq![c]
    }
}

/// The characters of `s`, each escaped as inside a JSON string.
pub open spec fn json_escape(s: Seq<char>) -> Seq<char>
    decreases s.len(),
{
    if s.len() == 0 {
        Seq::empty()
    } else {
        json_escape_char(s[0]) + json_escape(s.drop_first())
    }
}

/// The JSON text of a string as `serde_json::to_string` writes it: the
/// escaped characters between double quotes.
pub open spec fn json_string(s: Seq<char>) -> Seq<char> {
    seq!['"'] + json_escape(s) + seq!['"']
}

/// The string that `serde_json::from_str::<String>` reads from a JSON text,
/// or `None` where it reports an error.
pub uninterp spec fn json_string_decoding(text: Seq<char>) -> Option<Seq<char>>;

/// Calls `serde_json::to_string` on a string. Claimed: it succeeds (the
/// writer is a `Vec`, and a `str` has no failing case), it writes
/// `json_string(s)` (serde_json's escape table), and
/// `serde_json::from_str::<String>` reads `s` back from that text (its
/// string reader undoes exactly those escapes).
#[verifier::external_body]
pub(crate) fn encode_json_string(s: &str) -> (res: String)
    ensures
        res@ == json_string(s@),
        json_string_decoding(res@) == Some(s@),
{
    serde_json::to_string(s).expect("serde_json writes every str")
}

/// Calls `serde_json::from_str::<String>` on a text. Claimed: the result is
/// the named decoding of `text`, and `None` exactly where serde_json returns an
/// error. Which texts are valid JSON strings is left unsaid.
#[verifier::external_body]
pub(crate) fn decode_json_string(text: &str) -> (res: Option<String>)
    ensures
        match res {
            Some(t) => json_string_decoding(text@) == Some(t@),
            None => json_string_decoding(text@) is None,
        },
{
    serde_json::from_str::<String>(text).ok()
}

proof fn lemma_hex_digit_injective(a: int, b: int)
    requires
        0 <= a < 16,
        0 <= b < 16,
        hex_digit(a) == hex_digit(b),
    ensures
        a == b,
{
}

proof fn lemma_escape_char_shape(c: char)
    ensures
        json_escape_char(c).len() >= 1,
        json_escape_char(c)[0] == '\\' <==> (c == '"' || c == '\\' || (c as int) < 0x20),
        json_escape_char(c)[0] != '\\' ==> json_escape_char(c) == seq![c],
        json_escape_char(c)[0] == '\\' ==> json_escape_char(c).len() >= 2,
{
}

/// Escaped characters can be told apart from the front: where the escapes
/// of two characters, each followed by anything, give the same text, the
/// characters are the same.
proof fn lemma_escape_char_prefix(c1: char, c2: char, r1: Seq<char>, r2: Seq<char>)
    requires
        json_escape_char(c1) + r1 == json_escape_char(c2) + r2,
    ensures
        c1 == c2,
        r1 == r2,
{
    let e1 = json_escape_char(c1);
    let e2 = json_escape_char(c2);
    let x = e1 + r1;
    lemma_escape_char_shape(c1);
    lemma_escape_char_shape(c2);
    assert(x[0] == e1[0]);
    assert(x[0] == e2[0]);
    if e1[0] == '\\' {
        assert(x[1] == e1[1]);
        assert(x[1] == e2[1]);
        let n1 = c1 as int;
        let n2 = c2 as int;
        if e1[1] == 'u' {
            assert(e1.len() == 6 && e2.len() == 6);
            assert(x[4] == e1[4] && x[4] == e2[4]);
            assert(x[5] == e1[5] && x[5] == e2[5]);
            lemma_hex_digit_injective(n1 / 16, n2 / 16);
            lemma_hex_digit_injective(n1 % 16, n2 % 16);
            assert(n1 == n2);
        }
        assert(c1 == c2);
    }
    assert(e1 == e2);
    assert(r1 =~= x.subrange(e1.len() as int, x.len() as int));
    assert(r2 =~= x.subrange(e2.len() as int, x.len() as int));
}

/// The escaped text determines the string: different strings never escape
/// to the same text.
pub proof fn json_escape_injective(a: Seq<char>, b: Seq<char>)
    requires
        json_escape(a) == json_escape(b),
    ensures
        a == b,
    decreases a.len(),
{
    if a.len() == 0 {
        if b.len() > 0 {
            lemma_escape_char_shape(b[0]);
        }
        assert(a =~= b);
    } else {
        lemma_escape_char_shape(a[0]);
        if b.len() == 0 {
            assert(json_escape(a).len() > 0);
        } else {
            lemma_escape_char_prefix(
                a[0],
                b[0],
                json_escape(a.drop_first()),
                json_escape(b.drop_first()),
            );
            json_escape_injective(a.drop_first(), b.drop_first());
            assert(a =~= seq![a[0]] + a.drop_first());
            assert(b =~= seq![b[0]] + b.drop_first());
        }
    }
}

/// The JSON text of a string determines the string: different strings never
/// get the same text, so a reader of the text sees the whole string.
pub proof fn json_string_injective(a: Seq<char>, b: Seq<char>)
    requires
        json_string(a) == json_string(b),
    ensures
        a == b,
{
    let ja = json_string(a);
    assert(json_escape(a) =~= ja.subrange(1, ja.len() - 1));
    assert(json_escape(b) =~= json_string(b).subrange(1, json_string(b).len() - 1));
    json_escape_injective(a, b);
}

} // verus!
