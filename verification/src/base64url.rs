//! URL-safe base64 without padding, as JSON web keys carry their coordinates.
use base64::engine::general_purpose::URL_SAFE_NO_PAD;
use base64::Engine;
use vstd::prelude::*;

verus! {

/// The URL-safe alphabet: the symbol at position `v` stands for the six-bit value `v`.
pub const ALPHABET: &'static str =
    "ABCDEFGHIJKLMNOPQRSTUVWXYZabcdefghijklmnopqrstuvwxyz0123456789-_";

/// The byte at position `i`; the data is followed by zero bits.
pub open spec fn octet(data: Seq<u8>, i: int) -> int {
    if 0 <= i < data.len() {
        data[i] as int
    } else {
        0
    }
}

/// The 24-bit number that three consecutive bytes spell, most significant first.
pub open spec fn triple(data: Seq<u8>, g: int) -> int {
    octet(data, 3 * g) * 65536 + octet(data, 3 * g + 1) * 256 + octet(data, 3 * g + 2)
}

/// The `j`-th group of six bits of the data, counted from its start.
pub open spec fn sextet(data: Seq<u8>, j: int) -> int {
    let v = triple(data, j / 4);
    if j % 4 == 0 {
        v / 262144
    } else if j % 4 == 1 {
        (v / 4096) % 64
    } else if j % 4 == 2 {
        (v / 64) % 64
    } else {
        v % 64
    }
}

/// How many groups of six bits it takes to cover `n` bytes.
pub open spec fn sextets(n: nat) -> nat {
    (4 * n + 2) / 3
}

/// The encoding: one symbol for each six bits, the last group filled up with zero bits.
pub open spec fn base64url(data: Seq<u8>) -> Seq<char> {
    Seq::new(sextets(data.len()), |j: int| ALPHABET@[sextet(data, j)])
}

/// Calls `Engine::encode` of the engine `URL_SAFE_NO_PAD` of the `base64` crate.
///
/// Trusted: the result holds one symbol of the URL-safe alphabet for each six bits of the
/// input and no padding. `encode` panics where the result would not fit in memory, so the
/// length of the result is bounded.
#[verifier::external_body]
pub(crate) fn encode(data: &[u8]) -> (text: String)
    requires
        sextets(data@.len()) <= isize::MAX,
    ensures
        text@ == base64url(data@),
{
    URL_SAFE_NO_PAD.encode(data)
}

/// The six-bit value of a symbol.
pub open spec fn value_of(c: char) -> int {
    if 'A' <= c <= 'Z' {
        c as int - 'A' as int
    } else if 'a' <= c <= 'z' {
        c as int - 'a' as int + 26
    } else if '0' <= c <= '9' {
        c as int - '0' as int + 52
    } else if c == '-' {
        62
    } else {
        63
    }
}

/// Whether a character may stand in a JSON string as it is.
pub open spec fn is_plain(c: char) -> bool {
    'A' <= c <= 'Z' || 'a' <= c <= 'z' || '0' <= c <= '9' || c == '-' || c == '_'
}

/// The byte at position `i` that a text spells, six bits for each symbol.
pub open spec fn byte_at(text: Seq<char>, i: int) -> int {
    let j = 4 * (i / 3) + i % 3;
    if i % 3 == 0 {
        value_of(text[j]) * 4 + value_of(text[j + 1]) / 16
    } else if i % 3 == 1 {
        (value_of(text[j]) % 16) * 16 + value_of(text[j + 1]) / 4
    } else {
        (value_of(text[j]) % 4) * 64 + value_of(text[j + 1])
    }
}

/// Whether decoding a text gives back the data: it has just enough symbols, each from the
/// alphabet, spells every byte, and leaves the bits behind the last byte zero.
pub open spec fn spells(text: Seq<char>, data: Seq<u8>) -> bool {
    &&& text.len() == (4 * data.len() + 2) / 3
    &&& forall|j: int| 0 <= j < text.len() ==> is_plain(#[trigger] text[j])
    &&& forall|i: int| 0 <= i < data.len() ==> data[i] == #[trigger] byte_at(text, i)
    &&& data.len() % 3 == 1 ==> value_of(text.last()) % 16 == 0
    &&& data.len() % 3 == 2 ==> value_of(text.last()) % 4 == 0
}

/// The alphabet is that of URL-safe base64.
pub proof fn law_alphabet_is_url_safe()
    ensures
        ALPHABET@ == "ABCDEFGHIJKLMNOPQRSTUVWXYZabcdefghijklmnopqrstuvwxyz0123456789-_"@,
{
}

/// Decoding an encoding gives back the data.
pub proof fn law_encoding_can_be_decoded(data: Seq<u8>)
    ensures
        spells(base64url(data), data),
{
    lemma_length(data);
    law_encoding_is_plain(data);
    assert forall|i: int| 0 <= i < data.len() implies data[i] == #[trigger] byte_at(
        base64url(data),
        i,
    ) by {
        lemma_byte(data, i);
    }
    lemma_last_symbol(data);
}

proof fn lemma_byte(data: Seq<u8>, i: int)
    requires
        0 <= i < data.len(),
    ensures
        data[i] == byte_at(base64url(data), i),
{
    let (g, r) = (i / 3, i % 3);
    let j = 4 * g + r;
    assert(i == 3 * g + r);
    assert(j + 1 < sextets(data.len()));
    lemma_octets(data, g);
    lemma_value(data, j);
    lemma_value(data, j + 1);
    if r == 0 {
        assert(octet(data, 3 * g) == data[i]);
    } else if r == 1 {
        assert(octet(data, 3 * g + 1) == data[i]);
    } else {
        assert(octet(data, 3 * g + 2) == data[i]);
    }
}

proof fn lemma_last_symbol(data: Seq<u8>)
    ensures
        data.len() % 3 == 1 ==> value_of(base64url(data).last()) % 16 == 0,
        data.len() % 3 == 2 ==> value_of(base64url(data).last()) % 4 == 0,
{
    lemma_length(data);
    let n = data.len() as int;
    let g = n / 3;
    if n % 3 != 0 {
        let j = sextets(data.len()) - 1;
        lemma_value(data, j);
        assert(base64url(data).last() == base64url(data)[j]);
        lemma_padding(octet(data, 3 * g), octet(data, 3 * g + 1));
        assert(octet(data, 3 * g + 2) == 0);
        if n % 3 == 1 {
            assert(j == 4 * g + 1);
            assert(j / 4 == g && j % 4 == 1);
            assert(octet(data, 3 * g + 1) == 0);
        } else {
            assert(j == 4 * g + 2);
            assert(j / 4 == g && j % 4 == 2);
        }
    }
}

/// The last group of six bits where one or two bytes are missing.
proof fn lemma_padding(p: int, q: int)
    requires
        0 <= p < 256,
        0 <= q < 256,
    ensures
        ((p * 65536) / 4096) % 64 == (p % 4) * 16,
        ((p * 65536 + q * 256) / 64) % 64 == (q % 16) * 4,
{
    assert((p * 65536) / 4096 == p * 16);
    assert((p * 65536 + q * 256) / 64 == p * 1024 + q * 4);
}

proof fn lemma_value(data: Seq<u8>, j: int)
    requires
        0 <= j < sextets(data.len()),
    ensures
        value_of(base64url(data)[j]) == sextet(data, j),
{
    lemma_index(data, j);
    lemma_sextet_range(data, j);
    lemma_symbol(sextet(data, j));
}

proof fn lemma_symbol(v: int)
    requires
        0 <= v < 64,
    ensures
        value_of(ALPHABET@[v]) == v,
        is_plain(ALPHABET@[v]),
{
    reveal_strlit("ABCDEFGHIJKLMNOPQRSTUVWXYZabcdefghijklmnopqrstuvwxyz0123456789-_");
}

proof fn lemma_sextet_range(data: Seq<u8>, j: int)
    requires
        0 <= j,
    ensures
        0 <= sextet(data, j) < 64,
{
}

/// Every symbol of an encoding is a letter, a digit, `-` or `_`, so the text needs no
/// escaping inside a JSON string.
pub proof fn law_encoding_is_plain(data: Seq<u8>)
    ensures
        forall|j: int| 0 <= j < base64url(data).len() ==> is_plain(#[trigger] base64url(data)[j]),
{
    assert forall|j: int| 0 <= j < base64url(data).len() implies is_plain(
        #[trigger] base64url(data)[j],
    ) by {
        lemma_sextet_range(data, j);
        lemma_symbol(sextet(data, j));
    }
}

pub(crate) proof fn lemma_length(data: Seq<u8>)
    ensures
        base64url(data).len() == sextets(data.len()),
{
}

proof fn lemma_index(data: Seq<u8>, j: int)
    requires
        0 <= j < sextets(data.len()),
    ensures
        base64url(data)[j] == ALPHABET@[sextet(data, j)],
{
}

proof fn lemma_same_symbols(a: Seq<u8>, b: Seq<u8>, j: int)
    requires
        base64url(a) == base64url(b),
        a.len() == b.len(),
        0 <= j < sextets(a.len()),
    ensures
        sextet(a, j) == sextet(b, j),
{
    lemma_index(a, j);
    lemma_index(b, j);
    lemma_sextet_range(a, j);
    lemma_sextet_range(b, j);
    lemma_symbol(sextet(a, j));
    lemma_symbol(sextet(b, j));
}

/// No two byte strings share an encoding, so the encoded bytes can be read back.
pub proof fn law_encoding_is_injective(a: Seq<u8>, b: Seq<u8>)
    requires
        base64url(a) == base64url(b),
    ensures
        a == b,
{
    lemma_length(a);
    lemma_length(b);
    assert(a.len() == b.len());
    assert forall|i: int| 0 <= i < a.len() implies a[i] == b[i] by {
        let g = i / 3;
        lemma_same_symbols(a, b, 4 * g);
        lemma_same_symbols(a, b, 4 * g + 1);
        if i % 3 >= 1 {
            lemma_same_symbols(a, b, 4 * g + 2);
        }
        if i % 3 == 2 {
            lemma_same_symbols(a, b, 4 * g + 3);
        }
        lemma_octets(a, g);
        lemma_octets(b, g);
    }
    assert(a =~= b);
}

/// The groups of six bits in the number that three bytes spell.
proof fn lemma_split(p: int, q: int, r: int)
    requires
        0 <= p < 256,
        0 <= q < 256,
        0 <= r < 256,
    ensures
        ({
            let v = p * 65536 + q * 256 + r;
            &&& p == (v / 262144) * 4 + ((v / 4096) % 64) / 16
            &&& q == (((v / 4096) % 64) % 16) * 16 + ((v / 64) % 64) / 4
            &&& r == (((v / 64) % 64) % 4) * 64 + v % 64
        }),
{
    let v = p * 65536 + q * 256 + r;
    assert(v / 64 == p * 1024 + q * 4 + r / 64);
    assert(v / 4096 == p * 16 + q / 16);
    assert(v / 262144 == p / 4);
    assert(v % 64 == r % 64);
    assert((v / 4096) % 64 == (p % 4) * 16 + q / 16);
    assert((v / 64) % 64 == (q % 16) * 4 + r / 64);
}

/// How the bytes of a triple follow from its groups of six bits.
proof fn lemma_octets(data: Seq<u8>, g: int)
    requires
        0 <= g,
    ensures
        octet(data, 3 * g) == sextet(data, 4 * g) * 4 + sextet(data, 4 * g + 1) / 16,
        octet(data, 3 * g + 1) == (sextet(data, 4 * g + 1) % 16) * 16 + sextet(data, 4 * g + 2) / 4,
        octet(data, 3 * g + 2) == (sextet(data, 4 * g + 2) % 4) * 64 + sextet(data, 4 * g + 3),
{
    assert((4 * g) / 4 == g && (4 * g) % 4 == 0);
    assert((4 * g + 1) / 4 == g && (4 * g + 1) % 4 == 1);
    assert((4 * g + 2) / 4 == g && (4 * g + 2) % 4 == 2);
    assert((4 * g + 3) / 4 == g && (4 * g + 3) % 4 == 3);
    lemma_split(octet(data, 3 * g), octet(data, 3 * g + 1), octet(data, 3 * g + 2));
}

} // verus!
