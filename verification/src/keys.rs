//! Keys and device UUIDs given as hexadecimal text.
use vstd::prelude::*;
use vstd::string::*;
use vstd::utf8::encode_utf8;
use crate::external::{hex_decode, hex_decode_16, hex_decoded, hex_value};

verus! {

/// The error of a key that is not hexadecimal text.
#[derive(Debug, Clone, Copy, PartialEq, Eq, Structural)]
pub enum KeyError {
    InvalidHex,
}

/// Whether a character has the Unicode `White_Space` property.
pub open spec fn is_white_space(c: char) -> bool {
    ||| '\u{9}' <= c && c <= '\u{d}'
    ||| c == ' '
    ||| c == '\u{85}'
    ||| c == '\u{a0}'
    ||| c == '\u{1680}'
    ||| '\u{2000}' <= c && c <= '\u{200a}'
    ||| c == '\u{2028}'
    ||| c == '\u{2029}'
    ||| c == '\u{202f}'
    ||| c == '\u{205f}'
    ||| c == '\u{3000}'
}

/// The text without its leading white space.
pub open spec fn trim_start(s: Seq<char>) -> Seq<char>
    decreases s.len(),
{
    if s.len() > 0 && is_white_space(s[0]) {
        trim_start(s.drop_first())
    } else {
        s
    }
}

/// The text without its trailing white space.
pub open spec fn trim_end(s: Seq<char>) -> Seq<char>
    decreases s.len(),
{
    if s.len() > 0 && is_white_space(s.last()) {
        trim_end(s.drop_last())
    } else {
        s
    }
}

/// The text without leading and trailing white space.
pub open spec fn trimmed(s: Seq<char>) -> Seq<char> {
    trim_end(trim_start(s))
}

/// The key that a text stands for, once trimmed: its UTF-8 bytes read as
/// hexadecimal digit pairs.
pub open spec fn key_bytes(s: Seq<char>) -> Option<Seq<u8>> {
    hex_decoded(encode_utf8(trimmed(s)))
}

/// Whether a character has the Unicode `White_Space` property.
pub fn white_space(c: char) -> (w: bool)
    ensures
        w == is_white_space(c),
{
    ('\u{9}' <= c && c <= '\u{d}') || c == ' ' || c == '\u{85}' || c == '\u{a0}' || c
        == '\u{1680}' || ('\u{2000}' <= c && c <= '\u{200a}') || c == '\u{2028}' || c == '\u{2029}'
        || c == '\u{202f}' || c == '\u{205f}' || c == '\u{3000}'
}

/// The text without leading and trailing white space.
pub fn trim_white_space(s: &str) -> (t: &str)
    ensures
        t@ == trimmed(s@),
{
    let n = s.unicode_len();
    let mut i: usize = 0;
    assert(s@.subrange(0, n as int) =~= s@);
    while i < n && white_space(s.get_char(i))
        invariant
            n == s@.len(),
            i <= n,
            trim_start(s@.subrange(i as int, n as int)) == trim_start(s@),
        decreases n - i,
    {
        assert(s@.subrange(i as int, n as int).drop_first() =~= s@.subrange(i + 1, n as int));
        i = i + 1;
    }
    assert(s@.subrange(0, n as int) =~= s@);
    let mut j: usize = n;
    while j > i && white_space(s.get_char(j - 1))
        invariant
            n == s@.len(),
            i <= j <= n,
            trim_start(s@) == s@.subrange(i as int, n as int),
            trim_end(s@.subrange(i as int, j as int)) == trimmed(s@),
        decreases j - i,
    {
        assert(s@.subrange(i as int, j as int).drop_last() =~= s@.subrange(i as int, j - 1));
        j = j - 1;
    }
    s.substring_char(i, j)
}

/// The 16-byte key written as hexadecimal text, around which white space is
/// ignored. Text that is not hexadecimal is refused.
pub fn decode_key(s: &str) -> (r: Result<[u8; 16], KeyError>)
    requires
        key_bytes(s@) matches Some(v) ==> v.len() == 16,
    ensures
        key_bytes(s@) matches Some(v) ==> (r matches Ok(k) && k@ == v),
        key_bytes(s@) is None ==> r == Err::<[u8; 16], KeyError>(KeyError::InvalidHex),
{
    let t = trim_white_space(s);
    match hex_decode(t) {
        Some(v) => {
            let k = [
                v[0],
                v[1],
                v[2],
                v[3],
                v[4],
                v[5],
                v[6],
                v[7],
                v[8],
                v[9],
                v[10],
                v[11],
                v[12],
                v[13],
                v[14],
                v[15],
            ];
            assert(k@ =~= v@);
            Ok(k)
        },
        None => Err(KeyError::InvalidHex),
    }
}

/// The UUID that a node announces before it is provisioned, given as 32
/// hexadecimal digits at build time; none when no UUID was given or the text
/// is not such digits.
pub fn unprovisioned_uuid(device_uuid: Option<&str>) -> (u: Option<[u8; 16]>)
    ensures
        device_uuid is None ==> u is None,
        device_uuid matches Some(s) ==> match hex_decoded(s.spec_bytes()) {
            Some(v) => if v.len() == 16 {
                u matches Some(w) && w@ == v
            } else {
                u is None
            },
            None => u is None,
        },
{
    match device_uuid {
        Some(s) => hex_decode_16(s),
        None => None,
    }
}

// ---------------------------------------------------------------------------
// Laws
// ---------------------------------------------------------------------------

/// The ASCII byte of the lower-case hexadecimal digit of a value below 16.
pub open spec fn digit_byte(n: int) -> u8 {
    (if n < 10 {
        48 + n
    } else {
        87 + n
    }) as u8
}

/// The bytes of the lower-case hexadecimal text of a byte sequence, high
/// digit of each byte first.
pub open spec fn hex_text_bytes(k: Seq<u8>) -> Seq<u8> {
    Seq::new(
        2 * k.len(),
        |i: int|
            if i % 2 == 0 {
                digit_byte(k[i / 2] as int / 16)
            } else {
                digit_byte(k[i / 2] as int % 16)
            },
    )
}

/// Reading back the hexadecimal text of any bytes gives those bytes.
pub proof fn lemma_hex_roundtrip(k: Seq<u8>)
    ensures
        hex_decoded(hex_text_bytes(k)) == Some(k),
{
    let t = hex_text_bytes(k);
    assert forall|i: int| 0 <= i < t.len() implies hex_value(#[trigger] t[i]) is Some by {
    }
    assert(!(exists|i: int| 0 <= i < t.len() && hex_value(t[i]) is None));
    let d = hex_decoded(t).unwrap();
    assert forall|i: int| 0 <= i < k.len() implies d[i] == k[i] by {
        assert(t[2 * i] == digit_byte(k[i] as int / 16));
        assert(t[2 * i + 1] == digit_byte(k[i] as int % 16));
        assert(hex_value(t[2 * i]) == Some((k[i] / 16) as u8));
        assert(hex_value(t[2 * i + 1]) == Some((k[i] % 16) as u8));
    }
    assert(d =~= k);
}

/// Trimming twice is the same as trimming once.
pub proof fn lemma_trim_idempotent(s: Seq<char>)
    ensures
        trimmed(trimmed(s)) == trimmed(s),
{
    lemma_trim_start_head(s);
    lemma_trim_start_of_trim_end(trim_start(s));
    lemma_trim_end_fixed(trim_start(s));
}

proof fn lemma_trim_start_head(s: Seq<char>)
    ensures
        trim_start(s).len() > 0 ==> !is_white_space(trim_start(s)[0]),
    decreases s.len(),
{
    if s.len() > 0 && is_white_space(s[0]) {
        lemma_trim_start_head(s.drop_first());
    }
}

proof fn lemma_trim_end_fixed(s: Seq<char>)
    ensures
        trim_end(trim_end(s)) == trim_end(s),
    decreases s.len(),
{
    if s.len() > 0 && is_white_space(s.last()) {
        lemma_trim_end_fixed(s.drop_last());
    }
}

/// Trimming the end of a text that starts with no white space leaves it
/// starting with no white space.
proof fn lemma_trim_start_of_trim_end(s: Seq<char>)
    requires
        s.len() > 0 ==> !is_white_space(s[0]),
    ensures
        trim_start(trim_end(s)) == trim_end(s),
    decreases s.len(),
{
    if s.len() > 0 && is_white_space(s.last()) {
        let d = s.drop_last();
        if d.len() > 0 {
            assert(d[0] == s[0]);
        }
        lemma_trim_start_of_trim_end(d);
    }
}

/// The characters that trimming removes are exactly those with the Unicode
/// `White_Space` property: tab, line feed, vertical tab, form feed, carriage
/// return, space, next line, no-break space, ogham space mark, the spaces
/// from en quad to hair space, line and paragraph separator, narrow
/// no-break space, medium mathematical space and ideographic space; others,
/// such as backspace, the zero-width space or a letter, are kept.
pub proof fn lemma_white_space_chars()
    ensures
        is_white_space('\t'),
        is_white_space('\n'),
        is_white_space('\u{b}'),
        is_white_space('\u{c}'),
        is_white_space('\r'),
        is_white_space(' '),
        is_white_space('\u{85}'),
        is_white_space('\u{a0}'),
        is_white_space('\u{1680}'),
        is_white_space('\u{2000}'),
        is_white_space('\u{2001}'),
        is_white_space('\u{2002}'),
        is_white_space('\u{2003}'),
        is_white_space('\u{2004}'),
        is_white_space('\u{2005}'),
        is_white_space('\u{2006}'),
        is_white_space('\u{2007}'),
        is_white_space('\u{2008}'),
        is_white_space('\u{2009}'),
        is_white_space('\u{200a}'),
        is_white_space('\u{2028}'),
        is_white_space('\u{2029}'),
        is_white_space('\u{202f}'),
        is_white_space('\u{205f}'),
        is_white_space('\u{3000}'),
        !is_white_space('\u{8}'),
        !is_white_space('\u{e}'),
        !is_white_space('\u{1f}'),
        !is_white_space('\u{200b}'),
        !is_white_space('\u{feff}'),
        !is_white_space('0'),
        !is_white_space('a'),
        !is_white_space('F'),
{
}

/// Trimming a text made only of white space leaves nothing.
proof fn lemma_trim_start_all_white(w: Seq<char>)
    requires
        forall|i: int| 0 <= i < w.len() ==> is_white_space(#[trigger] w[i]),
    ensures
        trim_start(w) == Seq::<char>::empty(),
    decreases w.len(),
{
    if w.len() > 0 {
        let r = w.drop_first();
        assert forall|i: int| 0 <= i < r.len() implies is_white_space(#[trigger] r[i]) by {
            assert(r[i] == w[i + 1]);
        }
        lemma_trim_start_all_white(r);
    }
}

/// Leading white space of a joined text comes from its first part while that
/// part has anything left.
proof fn lemma_trim_start_concat(s: Seq<char>, t: Seq<char>)
    ensures
        trim_start(s + t) == (if trim_start(s).len() > 0 {
            trim_start(s) + t
        } else {
            trim_start(t)
        }),
    decreases s.len(),
{
    if s.len() == 0 {
        assert(s + t =~= t);
    } else if is_white_space(s[0]) {
        assert((s + t)[0] == s[0]);
        assert((s + t).drop_first() =~= s.drop_first() + t);
        lemma_trim_start_concat(s.drop_first(), t);
    } else {
        assert((s + t)[0] == s[0]);
    }
}

/// White space appended to a text is trimmed off its end.
proof fn lemma_trim_end_white_suffix(s: Seq<char>, w: Seq<char>)
    requires
        forall|i: int| 0 <= i < w.len() ==> is_white_space(#[trigger] w[i]),
    ensures
        trim_end(s + w) == trim_end(s),
    decreases w.len(),
{
    if w.len() == 0 {
        assert(s + w =~= s);
    } else {
        let u = w.drop_last();
        assert forall|i: int| 0 <= i < u.len() implies is_white_space(#[trigger] u[i]) by {
            assert(u[i] == w[i]);
        }
        assert((s + w).last() == w[w.len() - 1]);
        assert((s + w).drop_last() =~= s + u);
        lemma_trim_end_white_suffix(s, u);
    }
}

/// White space before or after a text does not change what trimming gives,
/// so it does not change the key the text stands for.
pub proof fn lemma_trim_ignores_white_space(lead: Seq<char>, s: Seq<char>, trail: Seq<char>)
    requires
        forall|i: int| 0 <= i < lead.len() ==> is_white_space(#[trigger] lead[i]),
        forall|i: int| 0 <= i < trail.len() ==> is_white_space(#[trigger] trail[i]),
    ensures
        trimmed(lead + s + trail) == trimmed(s),
        key_bytes(lead + s + trail) == key_bytes(s),
{
    lemma_trim_start_all_white(lead);
    lemma_trim_start_concat(lead, s + trail);
    assert(lead + s + trail =~= lead + (s + trail));
    lemma_trim_start_concat(s, trail);
    lemma_trim_start_all_white(trail);
    if trim_start(s).len() > 0 {
        lemma_trim_end_white_suffix(trim_start(s), trail);
    }
}

/// A key read from a file with Windows line endings stands for the same key
/// as the text without them: the carriage return and line feed are trimmed.
pub proof fn lemma_key_ignores_crlf(s: Seq<char>)
    ensures
        key_bytes(s + "\r\n"@) == key_bytes(s),
{
    reveal_strlit("\r\n");
    lemma_white_space_chars();
    let w = "\r\n"@;
    assert(w[0] == '\r' && w[1] == '\n');
    assert(Seq::<char>::empty() + s + w =~= s + w);
    lemma_trim_ignores_white_space(Seq::empty(), s, w);
}

} // verus!
