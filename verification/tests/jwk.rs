use hardware_keys::jwk::eccpublic_blob_to_jwk;
use hardware_keys::Error;

/// A blob with the magic number of P-256 and a length field.
fn header(length: [u8; 4]) -> Vec<u8> {
    let mut blob = vec![0x45, 0x43, 0x53, 0x31];
    blob.extend_from_slice(&length);
    blob
}

fn reason(text: &str) -> Error {
    Error::Reason { reason: text.to_string() }
}

fn key(x: &str, y: &str) -> String {
    format!(
        "{{\"kty\":\"EC\",\"crv\":\"P-256\",\"x\":\"{}\",\"y\":\"{}\",\"alg\":\"ES256\",\"use\":\"sig\"}}",
        x, y
    )
}

#[test]
fn p256_blob_becomes_jwk() {
    let mut blob = header([32, 0, 0, 0]);
    blob.extend(0u8..32);
    blob.extend(224u8..=255);
    assert_eq!(blob.len(), 72);
    assert_eq!(
        eccpublic_blob_to_jwk(&blob),
        Ok("{\"kty\":\"EC\",\"crv\":\"P-256\",\
            \"x\":\"AAECAwQFBgcICQoLDA0ODxAREhMUFRYXGBkaGxwdHh8\",\
            \"y\":\"4OHi4-Tl5ufo6err7O3u7_Dx8vP09fb3-Pn6-_z9_v8\",\
            \"alg\":\"ES256\",\"use\":\"sig\"}"
            .to_string())
    );
}

#[test]
fn coordinates_use_the_url_safe_alphabet_without_padding() {
    let mut blob = header([2, 0, 0, 0]);
    blob.extend_from_slice(&[0xfb, 0xff, 0x01, 0x02]);
    assert_eq!(eccpublic_blob_to_jwk(&blob), Ok(key("-_8", "AQI")));

    let mut blob = header([1, 0, 0, 0]);
    blob.extend_from_slice(&[0x00, 0xfb]);
    assert_eq!(eccpublic_blob_to_jwk(&blob), Ok(key("AA", "-w")));

    let mut blob = header([3, 0, 0, 0]);
    blob.extend_from_slice(&[0xff, 0xef, 0xbe, 0x4d, 0x61, 0x6e]);
    assert_eq!(eccpublic_blob_to_jwk(&blob), Ok(key("_---", "TWFu")));
}

#[test]
fn coordinates_may_be_empty() {
    assert_eq!(eccpublic_blob_to_jwk(&header([0, 0, 0, 0])), Ok(key("", "")));
}

#[test]
fn blob_without_header_is_too_short() {
    assert_eq!(eccpublic_blob_to_jwk(&[]), Err(reason("ECCPUBLIC blob too short")));
    assert_eq!(eccpublic_blob_to_jwk(&[1, 2, 3]), Err(reason("ECCPUBLIC blob too short")));
    assert_eq!(eccpublic_blob_to_jwk(&[0; 7]), Err(reason("ECCPUBLIC blob too short")));
}

#[test]
fn blob_without_both_coordinates_is_truncated() {
    let mut blob = header([32, 0, 0, 0]);
    blob.extend_from_slice(&[7; 63]);
    assert_eq!(eccpublic_blob_to_jwk(&blob), Err(reason("ECCPUBLIC blob truncated")));
    blob.push(7);
    assert!(eccpublic_blob_to_jwk(&blob).is_ok());
}

#[test]
fn length_field_is_little_endian() {
    let mut blob = header([0, 1, 0, 0]);
    blob.extend_from_slice(&[0; 511]);
    assert_eq!(eccpublic_blob_to_jwk(&blob), Err(reason("ECCPUBLIC blob truncated")));
    blob.push(0);
    let zeros = "A".repeat(342);
    assert_eq!(eccpublic_blob_to_jwk(&blob), Ok(key(&zeros, &zeros)));

    assert_eq!(
        eccpublic_blob_to_jwk(&header([255, 255, 255, 255])),
        Err(reason("ECCPUBLIC blob truncated"))
    );
}

#[test]
fn magic_number_and_trailing_bytes_do_not_count() {
    let mut a = vec![0, 0, 0, 0, 1, 0, 0, 0];
    a.extend_from_slice(&[9, 8]);
    let mut b = header([1, 0, 0, 0]);
    b.extend_from_slice(&[9, 8, 77, 78]);
    assert_eq!(eccpublic_blob_to_jwk(&a), eccpublic_blob_to_jwk(&b));
}

#[test]
fn different_points_have_different_keys() {
    let mut seen = Vec::new();
    for x in 0u8..=255 {
        let mut blob = header([1, 0, 0, 0]);
        blob.extend_from_slice(&[x, 255 - x]);
        let text = match eccpublic_blob_to_jwk(&blob) {
            Ok(text) => text,
            Err(_) => panic!("complete blob refused"),
        };
        assert!(!seen.contains(&text));
        seen.push(text);
    }
}
