//! Numbers in base sixteen.

use vstd::prelude::*;

verus! {

/// The digit for a value below sixteen.
pub open spec fn digit(d: int) -> char {
    if d < 10 {
        (48 + d) as char
    } else {
        (87 + d) as char
    }
}

/// The digits of a number, without leading zeros, in lower case.
pub open spec fn digits(n: int) -> Seq<char>
    decreases n,
{
    if n < 16 {
        seq![digit(n)]
    } else {
        digits(n / 16).push(digit(n % 16))
    }
}

/// The value of a digit. Both cases count.
pub open spec fn digit_value(c: char) -> Option<int> {
    if '0' <= c <= '9' {
        Some(c as int - 48)
    } else if 'a' <= c <= 'f' {
        Some(c as int - 87)
    } else if 'A' <= c <= 'F' {
        Some(c as int - 55)
    } else {
        None
    }
}

/// Every character is a digit.
pub open spec fn all_digits(s: Seq<char>) -> bool {
    forall|i: int| 0 <= i < s.len() ==> digit_value(#[trigger] s[i]) is Some
}

/// The number that the digits write.
pub open spec fn value(s: Seq<char>) -> int
    decreases s.len(),
{
    if s.len() == 0 {
        0
    } else {
        16 * value(s.drop_last()) + digit_value(s.last())->0
    }
}

/// The number that a numeral writes: an optional sign, then at least one digit. There is none
/// where the number is no `i32`.
pub open spec fn parsed(s: Seq<char>) -> Option<i32> {
    let signed = s.len() > 0 && (s[0] == '-' || s[0] == '+');
    let ds = if signed { s.skip(1) } else { s };
    let n = if signed && s[0] == '-' { -value(ds) } else { value(ds) };
    if ds.len() > 0 && all_digits(ds) && i32::MIN <= n <= i32::MAX {
        Some(n as i32)
    } else {
        None
    }
}

/// The bit pattern of an `i32`, read as a number without a sign.
pub open spec fn bits(n: i32) -> int {
    if n < 0 {
        n + 0x1_0000_0000
    } else {
        n as int
    }
}

/// The value of a prefix does not exceed that of the whole.
proof fn lemma_prefix_value(s: Seq<char>, n: int)
    requires
        all_digits(s),
        0 <= n <= s.len(),
    ensures
        0 <= value(s.take(n)) <= value(s),
    decreases s.len(),
{
    if n == s.len() {
        assert(s.take(n) =~= s);
        if n > 0 {
            lemma_prefix_value(s.drop_last(), n - 1);
            assert(digit_value(s[n - 1]) is Some);
        }
    } else {
        let init = s.drop_last();
        assert(all_digits(init));
        lemma_prefix_value(init, n);
        assert(init.take(n) =~= s.take(n));
        assert(digit_value(s[s.len() - 1]) is Some);
    }
}

/// The digits of a number write that number, and there is at least one.
pub proof fn lemma_value_of_digits(n: int)
    requires
        0 <= n,
    ensures
        digits(n).len() > 0,
        all_digits(digits(n)),
        value(digits(n)) == n,
        digits(n)[0] != '-',
        digits(n)[0] != '+',
    decreases n,
{
    if n < 16 {
        let s = digits(n);
        assert(s.drop_last() =~= Seq::<char>::empty());
        assert(value(s.drop_last()) == 0);
    } else {
        lemma_value_of_digits(n / 16);
        let s = digits(n);
        assert(s.drop_last() =~= digits(n / 16));
        assert(s[0] == digits(n / 16)[0]);
    }
}

/// Reading back what was written gives the number, where the number has no sign.
pub proof fn lemma_parse_digits(n: i32)
    requires
        0 <= n,
    ensures
        parsed(digits(bits(n))) == Some(n),
{
    lemma_value_of_digits(n as int);
}

/// The text of a digit.
fn digit_text(d: u32) -> (text: &'static str)
    requires
        d < 16,
    ensures
        text@ == seq![digit(d as int)],
{
    proof {
        reveal_strlit("0");
        reveal_strlit("1");
        reveal_strlit("2");
        reveal_strlit("3");
        reveal_strlit("4");
        reveal_strlit("5");
        reveal_strlit("6");
        reveal_strlit("7");
        reveal_strlit("8");
        reveal_strlit("9");
        reveal_strlit("a");
        reveal_strlit("b");
        reveal_strlit("c");
        reveal_strlit("d");
        reveal_strlit("e");
        reveal_strlit("f");
    }
    let text = match d {
        0 => "0",
        1 => "1",
        2 => "2",
        3 => "3",
        4 => "4",
        5 => "5",
        6 => "6",
        7 => "7",
        8 => "8",
        9 => "9",
        10 => "a",
        11 => "b",
        12 => "c",
        13 => "d",
        14 => "e",
        _ => "f",
    };
    assert(text@ =~= seq![digit(d as int)]);
    text
}

/// Appends the digits of a number.
pub fn push_digits(n: u32, out: &mut String)
    ensures
        final(out)@ == old(out)@ + digits(n as int),
    decreases n,
{
    if n >= 16 {
        push_digits(n / 16, out);
    }
    out.append(digit_text(n % 16));
    assert(out@ =~= old(out)@ + digits(n as int));
}

/// Appends the bit pattern of a number.
pub fn push_bits(n: i32, out: &mut String)
    ensures
        final(out)@ == old(out)@ + digits(bits(n)),
{
    let pattern: u32 = if n < 0 { (n as i64 + 0x1_0000_0000) as u32 } else { n as u32 };
    push_digits(pattern, out);
}

/// The value of a digit.
fn value_of_digit(c: char) -> (v: Option<i64>)
    ensures
        match v {
            Some(d) => digit_value(c) == Some(d as int),
            None => digit_value(c) is None,
        },
{
    let code: u32 = c as u32;
    if '0' <= c && c <= '9' {
        Some((code - 48) as i64)
    } else if 'a' <= c && c <= 'f' {
        Some((code - 87) as i64)
    } else if 'A' <= c && c <= 'F' {
        Some((code - 55) as i64)
    } else {
        None
    }
}

/// Reads a numeral that starts at the given place.
pub fn parse(s: &Vec<char>, from: usize) -> (n: Option<i32>)
    requires
        from <= s@.len(),
    ensures
        n == parsed(s@.skip(from as int)),
{
    let ghost text = s@.skip(from as int);
    let signed = from < s.len() && (s[from] == '-' || s[from] == '+');
    let negative = signed && s[from] == '-';
    let start: usize = if signed { from + 1 } else { from };
    let ghost ds = s@.skip(start as int);
    assert(ds =~= (if signed { text.skip(1) } else { text }));
    if start == s.len() {
        return None;
    }
    let mut sum: i64 = 0;
    let mut i: usize = start;
    while i < s.len()
        invariant
            start <= i <= s@.len(),
            ds == s@.skip(start as int),
            text == s@.skip(from as int),
            signed == (text.len() > 0 && (text[0] == '-' || text[0] == '+')),
            ds == (if signed { text.skip(1) } else { text }),
            all_digits(ds.take(i - start)),
            sum == value(ds.take(i - start)),
            0 <= sum <= 0x8000_0000,
        decreases s.len() - i,
    {
        let ghost seen = ds.take(i - start);
        let ghost more = ds.take(i + 1 - start);
        assert(more.drop_last() =~= seen);
        assert(more.last() == s@[i as int]);
        match value_of_digit(s[i]) {
            Some(d) => {
                assert(0 <= d < 16);
                assert forall|j: int| 0 <= j < more.len() implies digit_value(
                    #[trigger] more[j],
                ) is Some by {
                    if j < seen.len() {
                        assert(more[j] == seen[j]);
                    }
                }
                sum = 16 * sum + d;
                if sum > 0x8000_0000 {
                    proof {
                        if all_digits(ds) {
                            lemma_prefix_value(ds, i + 1 - start);
                        }
                    }
                    return None;
                }
            },
            None => {
                assert(!all_digits(ds)) by {
                    assert(ds[i - start] == s@[i as int]);
                }
                return None;
            },
        }
        i += 1;
    }
    assert(ds.take(i - start) =~= ds);
    if negative {
        Some((-sum) as i32)
    } else if sum <= 0x7fff_ffff {
        Some(sum as i32)
    } else {
        None
    }
}

/// Takes a text apart into characters.
pub fn chars_of(s: &str) -> (chars: Vec<char>)
    ensures
        chars@ == s@,
{
    let mut chars: Vec<char> = Vec::new();
    for c in it: s.chars()
        invariant
            chars@ =~= it.seq().take(it.index() as int),
            it.seq() == s@,
    {
        chars.push(c);
    }
    assert(chars@ =~= s@);
    chars
}

} // verus!
