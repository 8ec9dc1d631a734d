//! The calls into outside crates: base64, CRC-32, MD5, AES-128 and JSON text.
//!
//! Each function here is trusted: Verus believes its contract without reading
//! its body. The contracts name what the outside crate computes and state only
//! what its documentation or source plainly shows.
use cipher::{BlockEncryptMut, KeyInit};
use vstd::prelude::*;

use crate::text::crc32;

verus! {

/// What `base64::engine::general_purpose::STANDARD.decode` returns for `input`;
/// `None` when it reports a decode error.
pub uninterp spec fn base64_standard_decoded(input: Seq<u8>) -> Option<Seq<u8>>;

/// The character of a 6-bit value in the standard base64 alphabet.
pub open spec fn base64_char(v: int) -> char {
    if v < 26 {
        (65 + v) as char
    } else if v < 52 {
        (97 + v - 26) as char
    } else if v < 62 {
        (48 + v - 52) as char
    } else if v == 62 {
        '+'
    } else {
        '/'
    }
}

/// Standard base64 with padding (RFC 4648): each group of three bytes becomes
/// four characters, and a last group of one or two bytes is padded with `=`.
pub open spec fn base64_standard_encoded(b: Seq<u8>) -> Seq<char>
    decreases b.len(),
{
    let x = b[0] as int;
    let y = b[1] as int;
    let z = b[2] as int;
    if b.len() == 0 {
        Seq::empty()
    } else if b.len() == 1 {
        seq![base64_char(x / 4), base64_char((x % 4) * 16), '=', '=']
    } else if b.len() == 2 {
        seq![base64_char(x / 4), base64_char((x % 4) * 16 + y / 16), base64_char((y % 16) * 4), '=']
    } else {
        seq![
            base64_char(x / 4),
            base64_char((x % 4) * 16 + y / 16),
            base64_char((y % 16) * 4 + z / 64),
            base64_char(z % 64),
        ] + base64_standard_encoded(b.skip(3))
    }
}

/// The MD5 digest that `md5::Md5::digest` computes for `input`.
pub uninterp spec fn md5_digest(input: Seq<u8>) -> Seq<u8>;

/// The ciphertext of `aes::Aes128` with `key`, in ECB mode with PKCS#7 padding,
/// as `cipher::BlockEncryptMut::encrypt_padded_vec_mut` computes it.
pub uninterp spec fn aes128_ecb_pkcs7(key: Seq<u8>, message: Seq<u8>) -> Seq<u8>;

/// The compact text that `serde_json` writes for an object with the given string,
/// number and boolean members and one member `nested_key` holding an object of
/// string members.
pub uninterp spec fn json_object_text(
    strings: Seq<(Seq<char>, Seq<char>)>,
    numbers: Seq<(Seq<char>, u64)>,
    flags: Seq<(Seq<char>, bool)>,
    nested_key: Seq<char>,
    nested: Seq<(Seq<char>, Seq<char>)>,
) -> Seq<char>;

/// Decodes standard base64 (`base64` crate, `STANDARD` engine). The result
/// is the crate's, named `base64_standard_decoded`; a decode error becomes `None`.
#[verifier::external_body]
pub(crate) fn base64_decode(input: &[u8]) -> (r: Option<Vec<u8>>)
    ensures
        match r {
            Some(v) => base64_standard_decoded(input@) == Some(v@),
            None => base64_standard_decoded(input@) is None,
        },
{
    base64::Engine::decode(&base64::engine::general_purpose::STANDARD, input).ok()
}

/// Encodes standard base64 with padding (`base64` crate, `STANDARD` engine),
/// which is `base64_standard_encoded`; the crate panics only when the output
/// length overflows, which the bound rules out.
#[verifier::external_body]
pub(crate) fn base64_encode(input: &[u8]) -> (r: String)
    requires
        input@.len() <= usize::MAX / 2,
    ensures
        r@ == base64_standard_encoded(input@),
{
    base64::Engine::encode(&base64::engine::general_purpose::STANDARD, input)
}

/// The IEEE CRC-32 of `bytes` as `crc32fast::hash` computes it; the crate documents
/// it as the IEEE checksum, stated here by the bitwise definition `crc32`.
#[verifier::external_body]
pub(crate) fn crc32_fast(bytes: &[u8]) -> (r: u32)
    ensures
        r == crc32(bytes@),
{
    crc32fast::hash(bytes)
}

/// The 16-byte MD5 digest of `input` (`md-5` crate, `Md5::digest`).
#[verifier::external_body]
pub(crate) fn md5(input: &[u8]) -> (r: Vec<u8>)
    ensures
        r@ == md5_digest(input@),
        r@.len() == 16,
{
    <md5::Md5 as md5::Digest>::digest(input).to_vec()
}

/// AES-128 in ECB mode with PKCS#7 padding (`aes` and `cipher` crates). Padding
/// adds one to sixteen bytes, so the ciphertext is the next multiple of 16 above
/// the message length.
#[verifier::external_body]
pub(crate) fn aes128_ecb_pkcs7_encrypt(key: &[u8; 16], message: &[u8]) -> (r: Vec<u8>)
    requires
        message@.len() <= usize::MAX / 2,
    ensures
        r@ == aes128_ecb_pkcs7(key@, message@),
        r@.len() == (message@.len() / 16 + 1) * 16,
{
    aes::Aes128::new(key.into()).encrypt_padded_vec_mut::<cipher::block_padding::Pkcs7>(message)
}

/// The compact JSON text (`serde_json`) of an object with the given members. The
/// result is the crate's, named `json_object_text`.
#[verifier::external_body]
pub(crate) fn json_object(
    strings: &Vec<(String, String)>,
    numbers: &Vec<(String, u64)>,
    flags: &Vec<(String, bool)>,
    nested_key: &str,
    nested: &Vec<(String, String)>,
) -> (r: String)
    ensures
        r@ == json_object_text(
            strings.deep_view(),
            numbers.deep_view(),
            flags.deep_view(),
            nested_key@,
            nested.deep_view(),
        ),
{
    let mut object = serde_json::Map::new();
    for (k, v) in strings.iter() {
        object.insert(k.clone(), v.clone().into());
    }
    for (k, v) in numbers.iter() {
        object.insert(k.clone(), (*v).into());
    }
    for (k, v) in flags.iter() {
        object.insert(k.clone(), (*v).into());
    }
    let inner: serde_json::Map<_, _> = nested.iter().map(|(k, v)| (k.clone(), v.clone().into())).collect();
    object.insert(nested_key.to_string(), inner.into());
    serde_json::Value::Object(object).to_string()
}

} // verus!
