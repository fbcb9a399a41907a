//! The signer: HMAC-SHA256 over a payload, written out as lowercase hex.

use vstd::prelude::*;

verus! {

/// The longest key or payload, in bytes, that is handed to the HMAC.
pub const MAX_HMAC_INPUT: u64 = 0x1000_0000_0000_0000;

/// The number of bytes of an HMAC-SHA256 tag.
pub const TAG_LEN: usize = 32;

/// The number of characters of a signature.
pub const SIGNATURE_LEN: usize = 64;

/// The HMAC-SHA256 tag of `data` under `key`, as `ring` computes it.
pub uninterp spec fn hmac_sha256(key: Seq<u8>, data: Seq<u8>) -> Seq<u8>;

/// The ASCII code of one lowercase hex digit.
pub open spec fn hex_digit(n: int) -> u8 {
    if n < 10 {
        (48 + n) as u8
    } else {
        (87 + n) as u8
    }
}

/// The half of a byte that stands at place `i` of its hex form.
pub open spec fn nibble(data: Seq<u8>, i: int) -> int {
    if i % 2 == 0 {
        data[i / 2] as int / 16
    } else {
        data[i / 2] as int % 16
    }
}

/// Lowercase hex as bytes: two digits for each byte, the high half first.
pub open spec fn hex_bytes(data: Seq<u8>) -> Seq<u8> {
    Seq::new(2 * data.len(), |i: int| hex_digit(nibble(data, i)))
}

/// Lowercase hex as text.
pub open spec fn hex_text(data: Seq<u8>) -> Seq<char> {
    Seq::new(2 * data.len(), |i: int| hex_digit(nibble(data, i)) as char)
}

/// The signature of a payload under a key.
pub open spec fn signature(key: Seq<u8>, payload: Seq<u8>) -> Seq<char> {
    hex_text(hmac_sha256(key, payload))
}

/// Signing key material. It is kept apart from the API key, which is sent in
/// the clear, and offers no way to print it.
pub struct SecretKey {
    bytes: Vec<u8>,
}

impl View for SecretKey {
    type V = Seq<u8>;

    closed spec fn view(&self) -> Seq<u8> {
        self.bytes@
    }
}

impl SecretKey {
    /// Key material from its bytes.
    pub fn new(bytes: Vec<u8>) -> (key: SecretKey)
        requires
            bytes@.len() <= MAX_HMAC_INPUT,
        ensures
            key@ == bytes@,
    {
        SecretKey { bytes }
    }

    #[verifier::type_invariant]
    spec fn fits(self) -> bool {
        self.bytes@.len() <= MAX_HMAC_INPUT
    }
}

/// The error of writing a signature into a buffer that is not exactly
/// [`SIGNATURE_LEN`] bytes long.
#[derive(Clone, Copy, Debug, PartialEq, Eq)]
pub struct InvalidSignatureBuffer {
    pub len: usize,
}

#[verifier::external_type_specification]
#[verifier::external_body]
pub struct ExFromHexError(hex::FromHexError);

/// Computes a tag with `ring::hmac::sign` under a key made by
/// `ring::hmac::Key::new` for `HMAC_SHA256`. Both panic only on an input of
/// 2^61 bytes or more, which the bound leaves out. The tag is named, not
/// computed, in the contract; its length is that of a SHA-256 digest.
#[verifier::external_body]
fn hmac_tag(key: &[u8], data: &[u8]) -> (tag: Vec<u8>)
    requires
        key@.len() <= MAX_HMAC_INPUT,
        data@.len() <= MAX_HMAC_INPUT,
    ensures
        tag@ == hmac_sha256(key@, data@),
        tag@.len() == TAG_LEN,
{
    let key = ring::hmac::Key::new(ring::hmac::HMAC_SHA256, key);
    ring::hmac::sign(&key, data).as_ref().to_vec()
}

/// `hex::encode`: every byte becomes two lowercase hex digits.
#[verifier::external_body]
fn hex_encode(data: &[u8]) -> (s: String)
    ensures
        s@ == hex_text(data@),
{
    hex::encode(data)
}

/// `hex::encode_to_slice`: fails, writing nothing, unless the output is
/// exactly twice as long as the input; otherwise fills it with the lowercase
/// hex digits of the input. The bound keeps twice the length of the input
/// within the range of a length.
#[verifier::external_body]
fn hex_encode_to_slice(input: &[u8], output: &mut [u8]) -> (r: Result<(), hex::FromHexError>)
    requires
        input@.len() <= 0x7fff_ffff,
    ensures
        r is Ok <==> old(output)@.len() == 2 * input@.len(),
        r is Ok ==> final(output)@ == hex_bytes(input@),
        r is Err ==> final(output)@ == old(output)@,
{
    hex::encode_to_slice(input, output)
}

/// Signs `data`: the hex form of its HMAC-SHA256 tag under the key.
pub fn gen_signature(data: &[u8], secret_key: &SecretKey) -> (sig: String)
    requires
        data@.len() <= MAX_HMAC_INPUT,
    ensures
        sig@ == signature(secret_key@, data@),
        sig@.len() == SIGNATURE_LEN,
{
    proof {
        use_type_invariant(secret_key);
    }
    let tag = hmac_tag(secret_key.bytes.as_slice(), data);
    hex_encode(tag.as_slice())
}

/// Signs `input` into a buffer of the caller, which must be exactly
/// [`SIGNATURE_LEN`] bytes long; a buffer of another length is left as it was.
pub fn gen_signature_to_slice(input: &[u8], output: &mut [u8], secret_key: &SecretKey) -> (r:
    Result<(), InvalidSignatureBuffer>)
    requires
        input@.len() <= MAX_HMAC_INPUT,
    ensures
        r is Ok <==> old(output)@.len() == SIGNATURE_LEN,
        r is Ok ==> final(output)@ == hex_bytes(hmac_sha256(secret_key@, input@)),
        r is Err ==> final(output)@ == old(output)@ && r->Err_0.len == old(output)@.len(),
{
    proof {
        use_type_invariant(secret_key);
    }
    let len = output.len();
    let tag = hmac_tag(secret_key.bytes.as_slice(), input);
    match hex_encode_to_slice(tag.as_slice(), output) {
        Ok(()) => Ok(()),
        Err(_) => Err(InvalidSignatureBuffer { len }),
    }
}

/// Hex text tells apart any two byte sequences.
pub proof fn lemma_hex_text_injective(a: Seq<u8>, b: Seq<u8>)
    requires
        hex_text(a) == hex_text(b),
    ensures
        a == b,
{
    assert(hex_text(a).len() == 2 * a.len());
    assert(hex_text(b).len() == 2 * b.len());
    assert forall|i: int| 0 <= i < a.len() implies a[i] == b[i] by {
        let hi_a = hex_text(a)[2 * i];
        let hi_b = hex_text(b)[2 * i];
        let lo_a = hex_text(a)[2 * i + 1];
        let lo_b = hex_text(b)[2 * i + 1];
        assert(hi_a == hi_b && lo_a == lo_b);
        assert(nibble(a, 2 * i) == a[i] as int / 16);
        assert(nibble(a, 2 * i + 1) == a[i] as int % 16);
        assert(nibble(b, 2 * i) == b[i] as int / 16);
        assert(nibble(b, 2 * i + 1) == b[i] as int % 16);
        assert(hi_a as u8 == hex_digit(a[i] as int / 16));
        assert(hi_b as u8 == hex_digit(b[i] as int / 16));
        assert(lo_a as u8 == hex_digit(a[i] as int % 16));
        assert(lo_b as u8 == hex_digit(b[i] as int % 16));
    }
    assert(a =~= b);
}

/// Signing is a function of key and payload: equal inputs give equal
/// signatures, whenever and wherever they are signed.
pub proof fn lemma_signature_deterministic(
    key1: Seq<u8>,
    payload1: Seq<u8>,
    key2: Seq<u8>,
    payload2: Seq<u8>,
)
    requires
        key1 == key2,
        payload1 == payload2,
    ensures
        signature(key1, payload1) == signature(key2, payload2),
{
}

/// Two payloads get the same signature under a key exactly when their tags
/// agree: the hex form loses nothing of the tag.
pub proof fn lemma_signature_differs_with_tag(key: Seq<u8>, payload1: Seq<u8>, payload2: Seq<u8>)
    ensures
        signature(key, payload1) == signature(key, payload2) <==> hmac_sha256(key, payload1)
            == hmac_sha256(key, payload2),
{
    if signature(key, payload1) == signature(key, payload2) {
        lemma_hex_text_injective(hmac_sha256(key, payload1), hmac_sha256(key, payload2));
    }
}

/// A signature is made of lowercase hex digits only.
pub proof fn lemma_hex_text_is_lowercase_hex(data: Seq<u8>, i: int)
    requires
        0 <= i < 2 * data.len(),
    ensures
        ({
            let c = hex_text(data)[i];
            ('0' <= c && c <= '9') || ('a' <= c && c <= 'f')
        }),
{
    let n = nibble(data, i);
    assert(0 <= n < 16);
}

} // verus!
