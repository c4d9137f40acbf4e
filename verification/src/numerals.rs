//! What tokens and numerals look like, character by character.

use vstd::prelude::*;

use crate::cursor;
use crate::hex;
use crate::types::PostId;

verus! {

/// A number below sixteen is written with one of the sixteen digits; a larger one with the digits
/// of its sixteenth part, and the digit of the rest.
pub proof fn law_digits(n: int)
    requires
        0 <= n,
    ensures
        n < 16 ==> hex::digits(n) == seq!["0123456789abcdef"@[n]],
        n >= 16 ==> hex::digits(n) == hex::digits(n / 16).push("0123456789abcdef"@[n % 16]),
{
    reveal_strlit("0123456789abcdef");
}

/// The token for the page after a post is the letter P and the id of the post, written as a number
/// of 32 bits without a sign.
pub proof fn law_token(id: PostId)
    ensures
        cursor::token(id).len() > 1,
        cursor::token(id)[0] == 'P',
        id.0 >= 0 ==> cursor::token(id).skip(1) == hex::digits(id.0 as int),
        id.0 < 0 ==> cursor::token(id).skip(1) == hex::digits(id.0 + 0x1_0000_0000),
{
    hex::lemma_value_of_digits(hex::bits(id.0));
    assert(cursor::token(id).skip(1) =~= hex::digits(hex::bits(id.0)));
}

/// Reading a token passes over its first character, which has to be a single byte, and reads the
/// rest as a numeral.
pub proof fn law_token_is_read(first: char, rest: Seq<char>)
    ensures
        cursor::token_post(Seq::empty()) is None,
        first as int > 127 ==> cursor::token_post(seq![first] + rest) is None,
        first as int <= 127 ==> {
            &&& hex::parsed(rest) is None ==> cursor::token_post(seq![first] + rest) is None
            &&& hex::parsed(rest) is Some ==> cursor::token_post(seq![first] + rest) == Some(
                PostId(hex::parsed(rest)->0),
            )
        },
{
    assert((seq![first] + rest).skip(1) =~= rest);
}

/// Tokens of different posts differ.
pub proof fn law_tokens_differ(a: PostId, b: PostId)
    requires
        a != b,
    ensures
        cursor::token(a) != cursor::token(b),
{
    hex::lemma_value_of_digits(hex::bits(a.0));
    hex::lemma_value_of_digits(hex::bits(b.0));
    law_token(a);
    law_token(b);
    if cursor::token(a) == cursor::token(b) {
        assert(hex::value(hex::digits(hex::bits(a.0))) == hex::value(
            hex::digits(hex::bits(b.0)),
        ));
    }
}

/// A text with no digits is no numeral. One digit, of either case, with or without a sign, is the
/// numeral of its value.
pub proof fn law_short_numerals(c: char)
    ensures
        ({
            let d = if '0' <= c <= '9' {
                c as int - '0' as int
            } else if 'a' <= c <= 'f' {
                c as int - 'a' as int + 10
            } else if 'A' <= c <= 'F' {
                c as int - 'A' as int + 10
            } else {
                -1
            };
            &&& hex::parsed(Seq::empty()) is None
            &&& hex::parsed(seq!['+']) is None
            &&& hex::parsed(seq!['-']) is None
            &&& d < 0 ==> hex::parsed(seq![c]) is None && hex::parsed(seq!['+', c]) is None
                && hex::parsed(seq!['-', c]) is None
            &&& d >= 0 ==> hex::parsed(seq![c]) == Some(d as i32) && hex::parsed(seq!['+', c])
                == Some(d as i32) && hex::parsed(seq!['-', c]) == Some((-d) as i32)
        }),
{
    let one = seq![c];
    assert(seq!['+', c].skip(1) =~= one);
    assert(seq!['-', c].skip(1) =~= one);
    assert(seq!['+'].skip(1) =~= Seq::empty());
    assert(seq!['-'].skip(1) =~= Seq::empty());
    assert(one.drop_last() =~= Seq::empty());
    assert(hex::value(one.drop_last()) == 0);
    if hex::all_digits(one) {
        assert(hex::digit_value(one[0]) is Some);
    }
    if '0' <= c <= '9' || 'a' <= c <= 'f' || 'A' <= c <= 'F' {
        assert(hex::all_digits(one));
    }
}

/// The value of digits is not negative.
proof fn lemma_value_bound(s: Seq<char>)
    requires
        hex::all_digits(s),
    ensures
        0 <= hex::value(s),
    decreases s.len(),
{
    if s.len() > 0 {
        let init = s.drop_last();
        assert forall|i: int| 0 <= i < init.len() implies hex::digit_value(
            #[trigger] init[i],
        ) is Some by {
            assert(hex::digit_value(s[i]) is Some);
        }
        lemma_value_bound(init);
        assert(hex::digit_value(s[s.len() - 1]) is Some);
    }
}

/// A further digit makes a numeral sixteen times as large and adds the value of the digit, or takes
/// it away after a minus sign, as long as the number has 32 bits. Any other character, and a digit
/// that is too many, make it no numeral, and what is no numeral does not become one by a further
/// character.
pub proof fn law_longer_numerals(s: Seq<char>, c: char)
    requires
        s.len() > 0,
        s.len() == 1 ==> s[0] != '+' && s[0] != '-',
    ensures
        ({
            let d = if '0' <= c <= '9' {
                c as int - '0' as int
            } else if 'a' <= c <= 'f' {
                c as int - 'a' as int + 10
            } else if 'A' <= c <= 'F' {
                c as int - 'A' as int + 10
            } else {
                -1
            };
            let n = if s[0] == '-' {
                16 * hex::parsed(s)->0 - d
            } else {
                16 * hex::parsed(s)->0 + d
            };
            if hex::parsed(s) is Some && d >= 0 && i32::MIN <= n <= i32::MAX {
                hex::parsed(s.push(c)) == Some(n as i32)
            } else {
                hex::parsed(s.push(c)) is None
            }
        }),
{
    let t = s.push(c);
    let signed = s[0] == '-' || s[0] == '+';
    let ds = if signed { s.skip(1) } else { s };
    let more = if signed { t.skip(1) } else { t };
    assert(more =~= ds.push(c));
    assert(more.drop_last() =~= ds);
    assert(t[0] == s[0]);
    if hex::all_digits(more) {
        assert forall|i: int| 0 <= i < ds.len() implies hex::digit_value(
            #[trigger] ds[i],
        ) is Some by {
            assert(hex::digit_value(more[i]) is Some);
        }
        assert(hex::digit_value(more[ds.len() as int]) is Some);
        lemma_value_bound(ds);
    }
    if hex::all_digits(ds) && hex::digit_value(c) is Some {
        assert forall|i: int| 0 <= i < more.len() implies hex::digit_value(
            #[trigger] more[i],
        ) is Some by {
            if i < ds.len() {
                assert(hex::digit_value(ds[i]) is Some);
            }
        }
        lemma_value_bound(ds);
    }
}

} // verus!
