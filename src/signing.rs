use hmac::Mac;
use vstd::prelude::*;
use vstd::string::StringSliceAdditionalSpecFns;

verus! {

/// The HMAC-SHA256 tag of `body` under `key`.
pub uninterp spec fn hmac_sha256(key: Seq<u8>, body: Seq<u8>) -> Seq<u8>;

/// The lowercase hexadecimal digit for a value below 16.
pub open spec fn hex_digit(v: u8) -> char {
    if v < 10 {
        (('0' as u8) + v) as char
    } else {
        (('a' as u8) + (v - 10)) as char
    }
}

/// Two lowercase hexadecimal digits per byte, high nibble first.
pub open spec fn hex_lower(bytes: Seq<u8>) -> Seq<char>
    decreases bytes.len(),
{
    if bytes.len() == 0 {
        Seq::empty()
    } else {
        let b = bytes.last();
        hex_lower(bytes.drop_last()) + seq![hex_digit(b / 16), hex_digit(b % 16)]
    }
}

/// The signature sent with a payload: the hex form of its HMAC-SHA256 tag.
pub open spec fn signature(key: Seq<u8>, body: Seq<u8>) -> Seq<char> {
    hex_lower(hmac_sha256(key, body))
}

/// Relies on hmac's `Mac` for `Hmac<Sha256>` (new_from_slice, update,
/// finalize): the tag depends on key and body alone and is 32 bytes long.
/// `new_from_slice` accepts keys of every length for this MAC.
#[verifier::external_body]
fn hmac_sha256_tag(key: &[u8], body: &[u8]) -> (r: Vec<u8>)
    ensures
        r@ == hmac_sha256(key@, body@),
        r@.len() == 32,
{
    let mut mac = <hmac::Hmac<sha2::Sha256> as Mac>::new_from_slice(key)
        .expect("HMAC accepts keys of any length");
    mac.update(body);
    mac.finalize().into_bytes().to_vec()
}

/// Relies on hex::encode: two lowercase digits per byte, in order.
#[verifier::external_body]
fn to_hex(bytes: &[u8]) -> (r: String)
    ensures
        r@ == hex_lower(bytes@),
{
    hex::encode(bytes)
}

/// Signs the exact bytes of a payload with the project key: the lowercase hex
/// HMAC-SHA256 of `body` keyed by the UTF-8 bytes of `key`.
pub fn sign(key: &str, body: &[u8]) -> (r: String)
    ensures
        r@ == signature(key.spec_bytes(), body@),
        r@.len() == 64,
{
    let tag = hmac_sha256_tag(key.as_bytes(), body);
    proof {
        lemma_hex_len(tag@);
    }
    to_hex(tag.as_slice())
}

proof fn lemma_hex_len(bytes: Seq<u8>)
    ensures
        hex_lower(bytes).len() == 2 * bytes.len(),
    decreases bytes.len(),
{
    if bytes.len() > 0 {
        lemma_hex_len(bytes.drop_last());
    }
}

proof fn lemma_hex_digit_injective(a: u8, b: u8)
    requires
        a < 16,
        b < 16,
        hex_digit(a) == hex_digit(b),
    ensures
        a == b,
{
}

/// Hex encoding loses nothing: distinct byte strings have distinct encodings.
pub proof fn lemma_hex_injective(a: Seq<u8>, b: Seq<u8>)
    requires
        hex_lower(a) == hex_lower(b),
    ensures
        a == b,
    decreases a.len(),
{
    lemma_hex_len(a);
    lemma_hex_len(b);
    if a.len() > 0 {
        let ha = hex_lower(a);
        let hb = hex_lower(b);
        let n = ha.len();
        let (x, y) = (a.last(), b.last());
        assert(ha[n - 2] == hex_digit(x / 16));
        assert(hb[n - 2] == hex_digit(y / 16));
        assert(ha[n - 1] == hex_digit(x % 16));
        assert(hb[n - 1] == hex_digit(y % 16));
        lemma_hex_digit_injective(x / 16, y / 16);
        lemma_hex_digit_injective(x % 16, y % 16);
        lemma_hex_len(a.drop_last());
        lemma_hex_len(b.drop_last());
        assert(hex_lower(a.drop_last()) =~= ha.subrange(0, n - 2));
        assert(hex_lower(b.drop_last()) =~= hb.subrange(0, n - 2));
        lemma_hex_injective(a.drop_last(), b.drop_last());
        assert(a =~= a.drop_last().push(x));
        assert(b =~= b.drop_last().push(y));
    } else {
        assert(a =~= b);
    }
}

/// Signing is deterministic: the same key and bytes give the same signature;
/// and it keeps every difference of the tag: bodies whose HMAC tags differ get
/// different signatures.
pub proof fn lemma_sign_laws(key: Seq<u8>, b1: Seq<u8>, b2: Seq<u8>)
    ensures
        b1 == b2 ==> signature(key, b1) == signature(key, b2),
        hmac_sha256(key, b1) != hmac_sha256(key, b2) ==> signature(key, b1) != signature(
            key,
            b2,
        ),
{
    if signature(key, b1) == signature(key, b2) {
        lemma_hex_injective(hmac_sha256(key, b1), hmac_sha256(key, b2));
    }
}

} // verus!
