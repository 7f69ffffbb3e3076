//! Text helpers shared by the topics, aliases and keys of the system:
//! lower-case hexadecimal digits and ASCII case folding.
use vstd::prelude::*;
use vstd::string::*;
use crate::external::push_char;

verus! {

/// The lower-case hexadecimal digit of a value below 16.
pub open spec fn hex_digit(n: int) -> char {
    if n < 10 {
        (48 + n) as char
    } else {
        (87 + n) as char
    }
}

/// The two lower-case hexadecimal digits of a byte, high digit first.
pub open spec fn hex2(b: u8) -> Seq<char> {
    seq![hex_digit(b as int / 16), hex_digit(b as int % 16)]
}

/// The last `n` lower-case hexadecimal digits of `v`, most significant
/// first (leading zeros included).
pub open spec fn hex_digits(v: nat, n: nat) -> Seq<char>
    decreases n,
{
    if n == 0 {
        Seq::empty()
    } else {
        hex_digits(v / 16, (n - 1) as nat).push(hex_digit((v % 16) as int))
    }
}

/// The character with upper-case ASCII letters mapped to lower case.
pub open spec fn lower_char(c: char) -> char {
    if 'A' <= c && c <= 'Z' {
        ((c as int) + 32) as char
    } else {
        c
    }
}

/// The text with every upper-case ASCII letter mapped to lower case.
pub open spec fn ascii_lower(s: Seq<char>) -> Seq<char> {
    s.map_values(|c: char| lower_char(c))
}

/// Appends the lower-case hexadecimal digit of `n` to `s`.
pub(crate) fn push_hex_digit(s: &mut String, n: u8)
    requires
        n < 16,
    ensures
        final(s)@ == old(s)@.push(hex_digit(n as int)),
{
    let c: char = if n < 10 {
        (48 + n) as char
    } else {
        (87 + n) as char
    };
    push_char(s, c);
}

/// Appends the two lower-case hexadecimal digits of `b` to `s`.
pub(crate) fn push_hex2(s: &mut String, b: u8)
    ensures
        final(s)@ == old(s)@ + hex2(b),
{
    push_hex_digit(s, b / 16);
    push_hex_digit(s, b % 16);
    assert(final(s)@ =~= old(s)@ + hex2(b));
}

/// The character with upper-case ASCII letters mapped to lower case.
pub fn to_ascii_lower_char(c: char) -> (l: char)
    ensures
        l == lower_char(c),
{
    if 'A' <= c && c <= 'Z' {
        ((c as u8) + 32) as char
    } else {
        c
    }
}

/// A copy of the text in which every upper-case ASCII letter is mapped to
/// lower case, all other characters kept.
pub fn to_ascii_lowercase(s: &str) -> (l: String)
    ensures
        l@ == ascii_lower(s@),
{
    let n = s.unicode_len();
    let mut out = String::new();
    let mut i: usize = 0;
    while i < n
        invariant
            n == s@.len(),
            i <= n,
            out@ == ascii_lower(s@.subrange(0, i as int)),
        decreases n - i,
    {
        let c = s.get_char(i);
        push_char(&mut out, to_ascii_lower_char(c));
        assert(ascii_lower(s@.subrange(0, i + 1)) =~= ascii_lower(s@.subrange(0, i as int)).push(
            lower_char(c),
        ));
        i = i + 1;
    }
    assert(s@.subrange(0, n as int) =~= s@);
    out
}

/// Lower-casing keeps the length and every character but the upper-case
/// ASCII letters, each of which becomes its lower-case letter; doing it
/// twice is the same as once.
pub proof fn lemma_ascii_lower(s: Seq<char>)
    ensures
        ascii_lower(s).len() == s.len(),
        forall|i: int|
            0 <= i < s.len() && 'A' <= #[trigger] s[i] && s[i] <= 'Z' ==> ascii_lower(s)[i] as int
                == s[i] as int + 32,
        forall|i: int|
            0 <= i < s.len() && !('A' <= #[trigger] s[i] && s[i] <= 'Z') ==> ascii_lower(s)[i]
                == s[i],
        ascii_lower(ascii_lower(s)) == ascii_lower(s),
{
    assert forall|i: int| 0 <= i < s.len() && 'A' <= #[trigger] s[i] && s[i] <= 'Z' implies ascii_lower(
        s,
    )[i] as int == s[i] as int + 32 by {
        assert(((s[i] as int) + 32) as char as int == s[i] as int + 32);
    }
    let l = ascii_lower(s);
    assert forall|i: int| 0 <= i < l.len() implies #[trigger] ascii_lower(l)[i] == l[i] by {
        if 'A' <= s[i] && s[i] <= 'Z' {
            assert(((s[i] as int) + 32) as char as int == s[i] as int + 32);
        }
    }
    assert(ascii_lower(l) =~= l);
}

} // verus!
