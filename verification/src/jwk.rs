//! From the public key blobs that CNG exports to JSON web keys.
use vstd::prelude::*;
use vstd::slice::slice_subrange;

use crate::base64url;
use crate::types::{Error, ErrorView};

verus! {

/// The text of a key before its X coordinate.
pub const JWK_HEAD: &'static str = "{\"kty\":\"EC\",\"crv\":\"P-256\",\"x\":\"";

/// The text between the coordinates.
pub const JWK_MIDDLE: &'static str = "\",\"y\":\"";

/// The text after the Y coordinate.
pub const JWK_TAIL: &'static str = "\",\"alg\":\"ES256\",\"use\":\"sig\"}";

/// The JSON web key of the P-256 point with the coordinates `x` and `y`.
pub open spec fn jwk(x: Seq<u8>, y: Seq<u8>) -> Seq<char> {
    JWK_HEAD@ + base64url::base64url(x) + JWK_MIDDLE@ + base64url::base64url(y) + JWK_TAIL@
}

/// The length of one coordinate, as the header of a blob gives it in little-endian order.
pub open spec fn coordinate_len(blob: Seq<u8>) -> int {
    blob[4] + 256 * blob[5] + 65536 * blob[6] + 16777216 * blob[7]
}

/// The X coordinate that a blob holds.
pub open spec fn coordinate_x(blob: Seq<u8>) -> Seq<u8> {
    blob.subrange(8, 8 + coordinate_len(blob))
}

/// The Y coordinate that a blob holds.
pub open spec fn coordinate_y(blob: Seq<u8>) -> Seq<u8> {
    blob.subrange(8 + coordinate_len(blob), 8 + 2 * coordinate_len(blob))
}

/// Whether a blob holds its header and both coordinates.
pub open spec fn is_complete(blob: Seq<u8>) -> bool {
    8 <= blob.len() && 8 + 2 * coordinate_len(blob) <= blob.len()
}

/// What becomes of a blob.
pub open spec fn blob_to_jwk(blob: Seq<u8>) -> Result<Seq<char>, ErrorView> {
    if is_complete(blob) {
        Ok(jwk(coordinate_x(blob), coordinate_y(blob)))
    } else if blob.len() < 8 {
        Err(ErrorView::because("ECCPUBLIC blob too short"@))
    } else {
        Err(ErrorView::because("ECCPUBLIC blob truncated"@))
    }
}

/// Convert `BCRYPT_ECCPUBLIC_BLOB` to JWK.
/// Layout: `DWORD dwMagic (4) | DWORD cbKey (4) | BYTE X[cbKey] | BYTE Y[cbKey]`
///
/// No slice holds more than `isize::MAX` bytes.
pub fn eccpublic_blob_to_jwk(blob: &[u8]) -> (res: Result<String, Error>)
    requires
        blob@.len() <= isize::MAX,
    ensures
        match res {
            Ok(text) => blob_to_jwk(blob@) == Ok::<Seq<char>, ErrorView>(text@),
            Err(error) => blob_to_jwk(blob@) == Err::<Seq<char>, ErrorView>(error.deep_view()),
        },
{
    if blob.len() < 8 {
        return Err(Error::from_reason("ECCPUBLIC blob too short"));
    }
    let cb_key: u64 = blob[4] as u64 + 256 * (blob[5] as u64) + 65536 * (blob[6] as u64) + 16777216
        * (blob[7] as u64);
    if (blob.len() as u64) < 8 + cb_key * 2 {
        return Err(Error::from_reason("ECCPUBLIC blob truncated"));
    }
    let n: usize = cb_key as usize;
    let x = base64url::encode(slice_subrange(blob, 8, 8 + n));
    let y = base64url::encode(slice_subrange(blob, 8 + n, 8 + n * 2));
    Ok(
        JWK_HEAD.to_owned().concat(x.as_str()).concat(JWK_MIDDLE).concat(y.as_str()).concat(
            JWK_TAIL,
        ),
    )
}

/// Whether a text is the JSON web key of the P-256 point with the coordinates `x` and `y`:
/// decoding its members gives them back.
pub open spec fn is_key_of(text: Seq<char>, x: Seq<u8>, y: Seq<u8>) -> bool {
    let head = "{\"kty\":\"EC\",\"crv\":\"P-256\",\"x\":\""@;
    let middle = "\",\"y\":\""@;
    let tail = "\",\"alg\":\"ES256\",\"use\":\"sig\"}"@;
    let h = head.len() as int;
    let k = h + (4 * x.len() + 2) / 3;
    let l = k + middle.len();
    let e = l + (4 * y.len() + 2) / 3;
    &&& text == head + text.subrange(h, k) + middle + text.subrange(l, e) + tail
    &&& base64url::spells(text.subrange(h, k), x)
    &&& base64url::spells(text.subrange(l, e), y)
}

/// The key of a complete blob carries its point: the text is that of a P-256 key, decoding
/// its member `x` gives back the bytes behind the header, and decoding its member `y` those
/// that follow.
pub proof fn law_jwk_carries_the_point(blob: Seq<u8>, n: int)
    requires
        8 <= blob.len(),
        n == blob[4] + 256 * blob[5] + 65536 * blob[6] + 16777216 * blob[7],
        8 + 2 * n <= blob.len(),
    ensures
        match blob_to_jwk(blob) {
            Ok(text) => {
                let head = "{\"kty\":\"EC\",\"crv\":\"P-256\",\"x\":\""@;
                let middle = "\",\"y\":\""@;
                let tail = "\",\"alg\":\"ES256\",\"use\":\"sig\"}"@;
                let m = (4 * n + 2) / 3;
                let x = text.subrange(head.len() as int, head.len() + m);
                let y = text.subrange(head.len() + m + middle.len(), head.len() + m + middle.len() + m);
                &&& text == head + x + middle + y + tail
                &&& base64url::spells(x, blob.subrange(8, 8 + n))
                &&& base64url::spells(y, blob.subrange(8 + n, 8 + 2 * n))
                &&& is_key_of(text, blob.subrange(8, 8 + n), blob.subrange(8 + n, 8 + 2 * n))
                &&& forall|i: int|
                    0 <= i < n ==> blob[8 + i] == #[trigger] base64url::byte_at(x, i)
                &&& forall|i: int|
                    0 <= i < n ==> blob[8 + n + i] == #[trigger] base64url::byte_at(y, i)
            },
            Err(_) => false,
        },
{
    let (a, b) = (blob.subrange(8, 8 + n), blob.subrange(8 + n, 8 + 2 * n));
    let head = "{\"kty\":\"EC\",\"crv\":\"P-256\",\"x\":\""@;
    let middle = "\",\"y\":\""@;
    let tail = "\",\"alg\":\"ES256\",\"use\":\"sig\"}"@;
    let (x, y) = (base64url::base64url(a), base64url::base64url(b));
    assert(blob_to_jwk(blob) == Ok::<Seq<char>, ErrorView>(head + x + middle + y + tail));
    lemma_spelled(blob, 8, n);
    lemma_spelled(blob, 8 + n, n);
    lemma_members(head, x, middle, y, tail);
}

proof fn lemma_spelled(blob: Seq<u8>, start: int, n: int)
    requires
        0 <= start,
        0 <= n,
        start + n <= blob.len(),
    ensures
        ({
            let text = base64url::base64url(blob.subrange(start, start + n));
            &&& text.len() == (4 * n + 2) / 3
            &&& base64url::spells(text, blob.subrange(start, start + n))
            &&& forall|i: int|
                0 <= i < n ==> blob[start + i] == #[trigger] base64url::byte_at(text, i)
        }),
{
    let data = blob.subrange(start, start + n);
    let text = base64url::base64url(data);
    base64url::law_encoding_can_be_decoded(data);
    assert forall|i: int| 0 <= i < n implies blob[start + i] == #[trigger] base64url::byte_at(
        text,
        i,
    ) by {
        assert(data[i] == blob[start + i]);
    }
}

proof fn lemma_members(
    head: Seq<char>,
    x: Seq<char>,
    middle: Seq<char>,
    y: Seq<char>,
    tail: Seq<char>,
)
    ensures
        ({
            let text = head + x + middle + y + tail;
            let h = head.len() as int;
            let k = h + x.len() + middle.len();
            &&& text.subrange(h, h + x.len()) == x
            &&& text.subrange(k, k + y.len()) == y
        }),
{
    let text = head + x + middle + y + tail;
    let h = head.len() as int;
    let k = h + x.len() + middle.len();
    assert(text.subrange(h, h + x.len()) =~= x);
    assert(text.subrange(k, k + y.len()) =~= y);
}

/// A blob without its header, or without both coordinates, has no key.
pub proof fn law_incomplete_blob_has_no_key(blob: Seq<u8>)
    ensures
        blob.len() < 8 ==> blob_to_jwk(blob) == Err::<Seq<char>, ErrorView>(
            ErrorView::Reason { reason: "ECCPUBLIC blob too short"@ },
        ),
        8 <= blob.len() < 8 + 2 * (blob[4] + 256 * blob[5] + 65536 * blob[6] + 16777216 * blob[7])
            ==> blob_to_jwk(blob) == Err::<Seq<char>, ErrorView>(
            ErrorView::Reason { reason: "ECCPUBLIC blob truncated"@ },
        ),
{
}

/// A JSON web key determines the point: complete blobs with the same key hold the same
/// coordinates.
pub proof fn law_jwk_determines_point(a: Seq<u8>, b: Seq<u8>)
    requires
        is_complete(a),
        is_complete(b),
        blob_to_jwk(a) == blob_to_jwk(b),
    ensures
        coordinate_x(a) == coordinate_x(b),
        coordinate_y(a) == coordinate_y(b),
{
    let (xa, ya) = (base64url::base64url(coordinate_x(a)), base64url::base64url(coordinate_y(a)));
    let (xb, yb) = (base64url::base64url(coordinate_x(b)), base64url::base64url(coordinate_y(b)));
    let (s, t) = (jwk(coordinate_x(a), coordinate_y(a)), jwk(coordinate_x(b), coordinate_y(b)));
    assert(s == t);
    base64url::lemma_length(coordinate_x(a));
    base64url::lemma_length(coordinate_y(a));
    base64url::lemma_length(coordinate_x(b));
    base64url::lemma_length(coordinate_y(b));
    assert(xa.len() == ya.len());
    assert(xb.len() == yb.len());
    assert(s.len() == JWK_HEAD@.len() + xa.len() + JWK_MIDDLE@.len() + ya.len() + JWK_TAIL@.len());
    assert(t.len() == JWK_HEAD@.len() + xb.len() + JWK_MIDDLE@.len() + yb.len() + JWK_TAIL@.len());
    let h = JWK_HEAD@.len() as int;
    let m = JWK_MIDDLE@.len() as int;
    let n = xa.len() as int;
    assert(xa =~= s.subrange(h, h + n));
    assert(xb =~= t.subrange(h, h + n));
    assert(ya =~= s.subrange(h + n + m, h + n + m + n));
    assert(yb =~= t.subrange(h + n + m, h + n + m + n));
    base64url::law_encoding_is_injective(coordinate_x(a), coordinate_x(b));
    base64url::law_encoding_is_injective(coordinate_y(a), coordinate_y(b));
}

/// Only the length field and the coordinates count: neither the magic number nor what
/// follows the Y coordinate changes the key.
pub proof fn law_magic_and_trailer_are_ignored(a: Seq<u8>, b: Seq<u8>)
    requires
        is_complete(a),
        is_complete(b),
        coordinate_len(a) == coordinate_len(b),
        a.subrange(8, 8 + 2 * coordinate_len(a)) == b.subrange(8, 8 + 2 * coordinate_len(b)),
    ensures
        blob_to_jwk(a) == blob_to_jwk(b),
{
    let n = coordinate_len(a);
    let (s, t) = (a.subrange(8, 8 + 2 * n), b.subrange(8, 8 + 2 * n));
    assert(coordinate_x(a) =~= s.subrange(0, n));
    assert(coordinate_x(b) =~= t.subrange(0, n));
    assert(coordinate_y(a) =~= s.subrange(n, 2 * n));
    assert(coordinate_y(b) =~= t.subrange(n, 2 * n));
}

} // verus!
