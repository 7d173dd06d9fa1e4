//! Standard base64 (RFC 4648 alphabet, `=` padding), used to hand screen
//! captures to the user interface.
use vstd::prelude::*;
use crate::text::push_char;

verus! {

/// The character that stands for the six-bit value `v` (`A`-`Z`, `a`-`z`, `0`-`9`, `+`, `/`).
pub open spec fn alphabet(v: int) -> char {
    if v < 26 {
        (65 + v) as char
    } else if v < 52 {
        (97 + (v - 26)) as char
    } else if v < 62 {
        (48 + (v - 52)) as char
    } else if v == 62 {
        '+'
    } else {
        '/'
    }
}

/// The byte at `i` of a group, or zero past its end.
pub open spec fn group_byte(g: Seq<u8>, i: int) -> int {
    if i < g.len() {
        g[i] as int
    } else {
        0
    }
}

/// The four characters that encode a group of one to three bytes; the
/// places of missing bytes are filled with `=`.
pub open spec fn encode_group(g: Seq<u8>) -> Seq<char> {
    let b0 = group_byte(g, 0);
    let b1 = group_byte(g, 1);
    let b2 = group_byte(g, 2);
    seq![
        alphabet(b0 / 4),
        alphabet((b0 % 4) * 16 + b1 / 16),
        if g.len() > 1 { alphabet((b1 % 16) * 4 + b2 / 64) } else { '=' },
        if g.len() > 2 { alphabet(b2 % 64) } else { '=' },
    ]
}

/// Base64 of `data`: its groups of three bytes, the last one possibly
/// shorter, each encoded by `encode_group`, in order.
pub open spec fn spec_base64(data: Seq<u8>) -> Seq<char>
    decreases data.len(),
{
    if data.len() == 0 {
        seq![]
    } else if data.len() <= 3 {
        encode_group(data)
    } else {
        encode_group(data.take(3)) + spec_base64(data.skip(3))
    }
}

/// The characters that base64 output may hold.
pub open spec fn is_base64_char(c: char) -> bool {
    ||| ('A' <= c && c <= 'Z')
    ||| ('a' <= c && c <= 'z')
    ||| ('0' <= c && c <= '9')
    ||| c == '+'
    ||| c == '/'
    ||| c == '='
}

fn sextet_char(v: u32) -> (c: char)
    requires
        v < 64,
    ensures
        c == alphabet(v as int),
{
    if v < 26 {
        ((65 + v) as u8) as char
    } else if v < 52 {
        ((97 + (v - 26)) as u8) as char
    } else if v < 62 {
        ((48 + (v - 52)) as u8) as char
    } else if v == 62 {
        '+'
    } else {
        '/'
    }
}

/// Encodes `data` in base64, three bytes to four characters, padding the
/// last group with `=`.
pub fn base64_encode(data: &[u8]) -> (res: String)
    ensures
        res@ == spec_base64(data@),
{
    let n = data.len();
    let mut out = String::new();
    let mut i: usize = 0;
    assert(data@.skip(0) =~= data@);
    while i < n
        invariant
            i <= n,
            n == data@.len(),
            spec_base64(data@) == out@ + spec_base64(data@.skip(i as int)),
        decreases n - i,
    {
        let ghost rest = data@.skip(i as int);
        let ghost before = out@;
        let rem = n - i;
        let c0 = data[i] as u32;
        let c1 = if rem > 1 { data[i + 1] as u32 } else { 0 };
        let c2 = if rem > 2 { data[i + 2] as u32 } else { 0 };
        let w: u32 = c0 << 16 | c1 << 8 | c2;
        assert(((w >> 18) & 63) == c0 / 4 && ((w >> 12) & 63) == (c0 % 4) * 16 + c1 / 16 && ((w
            >> 6) & 63) == (c1 % 16) * 4 + c2 / 64 && (w & 63) == c2 % 64 && ((w >> 18) & 63) < 64
            && ((w >> 12) & 63) < 64 && ((w >> 6) & 63) < 64 && (w & 63) < 64) by (bit_vector)
            requires
                c0 < 256,
                c1 < 256,
                c2 < 256,
                w == c0 << 16 | c1 << 8 | c2,
        ;
        let ghost g = if rem <= 3 { rest } else { rest.take(3) };
        assert(group_byte(g, 0) == c0);
        assert(group_byte(g, 1) == c1);
        assert(group_byte(g, 2) == c2);
        push_char(&mut out, sextet_char((w >> 18) & 63));
        push_char(&mut out, sextet_char((w >> 12) & 63));
        if rem > 1 {
            push_char(&mut out, sextet_char((w >> 6) & 63));
        } else {
            push_char(&mut out, '=');
        }
        if rem > 2 {
            push_char(&mut out, sextet_char(w & 63));
        } else {
            push_char(&mut out, '=');
        }
        assert(out@ =~= before + encode_group(g));
        if rem > 3 {
            assert(rest.skip(3) =~= data@.skip(i + 3));
            i = i + 3;
        } else {
            assert(data@.skip(n as int) =~= Seq::<u8>::empty());
            i = n;
        }
    }
    out
}

/// The base64 text of `n` bytes has four characters for every started
/// group of three bytes.
pub proof fn lemma_base64_len(data: Seq<u8>)
    ensures
        spec_base64(data).len() == 4 * ((data.len() + 2) / 3),
    decreases data.len(),
{
    if data.len() > 3 {
        lemma_base64_len(data.skip(3));
    }
}

/// Encoding is compositional at group boundaries: when `a` holds a whole
/// number of groups, the encoding of `a + b` is that of `a` followed by that of `b`.
pub proof fn lemma_base64_concat(a: Seq<u8>, b: Seq<u8>)
    requires
        a.len() % 3 == 0,
    ensures
        spec_base64(a + b) == spec_base64(a) + spec_base64(b),
    decreases a.len(),
{
    if a.len() == 0 {
        assert(a + b =~= b);
        assert(spec_base64(a) =~= Seq::<char>::empty());
        assert(spec_base64(a) + spec_base64(b) =~= spec_base64(b));
    } else {
        assert((a + b).take(3) =~= a.take(3));
        assert((a + b).skip(3) =~= a.skip(3) + b);
        lemma_base64_concat(a.skip(3), b);
        if a.len() == 3 {
            assert(a.take(3) =~= a);
            assert(a.skip(3) =~= Seq::<u8>::empty());
            assert(a.skip(3) + b =~= b);
            if b.len() == 0 {
                assert(a + b =~= a);
                assert(spec_base64(b) =~= Seq::<char>::empty());
                assert(spec_base64(a) + spec_base64(b) =~= spec_base64(a));
            }
        } else {
            assert(spec_base64(a + b) =~= encode_group(a.take(3)) + (spec_base64(a.skip(3))
                + spec_base64(b)));
        }
    }
}

proof fn lemma_alphabet_char(v: int)
    requires
        0 <= v < 64,
    ensures
        is_base64_char(alphabet(v)),
        alphabet(v) != '=',
{
}

proof fn lemma_group_chars(g: Seq<u8>)
    requires
        1 <= g.len() <= 3,
    ensures
        forall|j: int| 0 <= j < 4 ==> is_base64_char(#[trigger] encode_group(g)[j]),
{
    let b0 = group_byte(g, 0);
    let b1 = group_byte(g, 1);
    let b2 = group_byte(g, 2);
    lemma_alphabet_char(b0 / 4);
    lemma_alphabet_char((b0 % 4) * 16 + b1 / 16);
    lemma_alphabet_char((b1 % 16) * 4 + b2 / 64);
    lemma_alphabet_char(b2 % 64);
}

/// Every character of base64 output is a letter, a digit, `+`, `/` or `=`.
pub proof fn lemma_base64_charset(data: Seq<u8>)
    ensures
        forall|j: int|
            0 <= j < spec_base64(data).len() ==> is_base64_char(#[trigger] spec_base64(data)[j]),
    decreases data.len(),
{
    if data.len() == 0 {
    } else if data.len() <= 3 {
        lemma_group_chars(data);
    } else {
        lemma_group_chars(data.take(3));
        lemma_base64_charset(data.skip(3));
        let e = spec_base64(data);
        let h = encode_group(data.take(3));
        let t = spec_base64(data.skip(3));
        assert forall|j: int| 0 <= j < e.len() implies is_base64_char(#[trigger] e[j]) by {
            if j < 4 {
                assert(e[j] == h[j]);
            } else {
                assert(e[j] == t[j - 4]);
            }
        }
    }
}

} // verus!
