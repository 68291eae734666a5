//! The signature verifier: HMAC-SHA1 signature headers for source-host
//! deliveries, RSA-SHA1 detached signatures for CI-provider deliveries, and
//! the random per-project webhook secret.
//!
//! The digests themselves come from openssl behind trusted wrappers; what a
//! digest's bytes are is named, never restated. Everything around the calls
//! (hex formatting, header construction, the accept/reject decision) is
//! verified.

use vstd::prelude::*;

verus! {

/// The HMAC-SHA1 digest of `data` under `key`: a function of the two alone,
/// computed by openssl. Nothing is assumed of its bytes beyond its length.
pub uninterp spec fn hmac_sha1_of(key: Seq<u8>, data: Seq<u8>) -> Seq<u8>;

/// Whether `sig` is a valid RSA-SHA1 signature over `data` by the public key
/// in `key_pem`: a function of the three alone, decided by openssl.
pub uninterp spec fn rsa_sha1_verified(key_pem: Seq<u8>, data: Seq<u8>, sig: Seq<u8>) -> bool;

/// Relies on openssl's `PKey::hmac` and `Signer::new` with
/// `MessageDigest::sha1`: the HMAC-SHA1 digest of `data` under `key`,
/// 20 bytes, depending on `key` and `data` alone. `None` only on an
/// internal failure of the crypto library. `PKey::hmac` asserts that the
/// key length fits a C int, so longer keys are excluded here and guarded
/// by the callers.
#[verifier::external_body]
fn hmac_sha1(key: &[u8], data: &[u8]) -> (r: Option<Vec<u8>>)
    requires
        key@.len() < 0x8000_0000,
    ensures
        r matches Some(mac) ==> mac@ == hmac_sha1_of(key@, data@) && hmac_sha1_of(
            key@,
            data@,
        ).len() == 20,
        r is None ==> hmac_sha1_of(key@, data@).len() == 20,
{
    let pkey = openssl::pkey::PKey::hmac(key).ok()?;
    let digest = openssl::hash::MessageDigest::sha1();
    let mut signer = openssl::sign::Signer::new(digest, &pkey).ok()?;
    signer.update(data).ok()?;
    signer.sign_to_vec().ok()
}

/// Relies on openssl's `memcmp::eq`: true iff the two slices hold the same
/// bytes, in time independent of their contents. It panics on unequal
/// lengths, so those are excluded here and checked by the caller.
#[verifier::external_body]
fn ct_bytes_eq(a: &[u8], b: &[u8]) -> (r: bool)
    requires
        a@.len() == b@.len(),
    ensures
        r == (a@ == b@),
{
    openssl::memcmp::eq(a, b)
}

/// Relies on openssl's `Rsa::public_key_from_pem`, `PKey::from_rsa` and
/// `Verifier::new` with `MessageDigest::sha1`: whether `sig` is a valid
/// RSA-SHA1 signature over `data` by the key in `key_pem`, a deterministic
/// function of the three. `None` when the key is not a valid PEM RSA public
/// key or the library fails internally. Reading the PEM asserts that its
/// length fits a C int, so longer inputs are excluded here and guarded by
/// the caller.
#[verifier::external_body]
pub fn rsa_sha1_verify(key_pem: &[u8], data: &[u8], sig: &[u8]) -> (r: Option<bool>)
    requires
        key_pem@.len() < 0x8000_0000,
    ensures
        r matches Some(b) ==> b == rsa_sha1_verified(key_pem@, data@, sig@),
{
    let rsa = openssl::rsa::Rsa::public_key_from_pem(key_pem).ok()?;
    let pkey = openssl::pkey::PKey::from_rsa(rsa).ok()?;
    let digest = openssl::hash::MessageDigest::sha1();
    let mut verifier = openssl::sign::Verifier::new(digest, &pkey).ok()?;
    verifier.update(data).ok()?;
    verifier.verify(sig).ok()
}

/// Whether `c` is an ASCII letter or digit.
pub open spec fn is_alnum_char(c: char) -> bool {
    (48 <= c as u32 <= 57) || (65 <= c as u32 <= 90) || (97 <= c as u32 <= 122)
}

/// Relies on rand's `Alphanumeric` distribution and `SampleString`: 20
/// characters drawn uniformly from a-z, A-Z and 0-9. The value is random;
/// only its shape is stated.
#[verifier::external_body]
pub fn generate_webhook_secret() -> (r: String)
    ensures
        r@.len() == 20,
        forall|i: int| 0 <= i < r@.len() ==> is_alnum_char(#[trigger] r@[i]),
{
    rand::distr::SampleString::sample_string(&rand::distr::Alphanumeric, &mut rand::rng(), 20)
}

/// The lowercase hex digit for a value below 16, as an ASCII byte.
pub open spec fn hex_digit(n: u8) -> u8 {
    if n < 10 {
        (48 + n) as u8
    } else {
        (87 + n) as u8
    }
}

/// The lowercase hex encoding of `bytes`: two digits per byte, high nibble
/// first.
pub open spec fn hex_of(bytes: Seq<u8>) -> Seq<u8> {
    Seq::new(
        2 * bytes.len(),
        |i: int|
            if i % 2 == 0 {
                hex_digit((bytes[i / 2] >> 4u8) as u8)
            } else {
                hex_digit((bytes[i / 2] & 0xfu8) as u8)
            },
    )
}

pub(crate) fn hex_digit_ex(n: u8) -> (r: u8)
    requires
        n < 16,
    ensures
        r == hex_digit(n),
{
    if n < 10 {
        48 + n
    } else {
        87 + n
    }
}

/// Encode `data` as lowercase hex.
pub fn hex_bytes(data: &[u8]) -> (r: Vec<u8>)
    ensures
        r@ == hex_of(data@),
{
    let mut out: Vec<u8> = Vec::new();
    let mut i: usize = 0;
    while i < data.len()
        invariant
            i <= data@.len(),
            out@.len() == 2 * i,
            forall|j: int| 0 <= j < out@.len() ==> out@[j] == hex_of(data@)[j],
        decreases data@.len() - i,
    {
        let b = data[i];
        let hi = b >> 4;
        let lo = b & 0xf;
        proof {
            assert(b >> 4u8 < 16 && b & 0xfu8 < 16) by (bit_vector);
        }
        out.push(hex_digit_ex(hi));
        out.push(hex_digit_ex(lo));
        i = i + 1;
    }
    proof {
        assert(out@ =~= hex_of(data@));
    }
    out
}

/// The ASCII bytes of `"sha1="`, the prefix of every source-host signature
/// header.
pub open spec fn sha1_prefix() -> Seq<u8> {
    seq![115u8, 104u8, 97u8, 49u8, 61u8]
}

/// The signature header the source host sends for `body` under a project
/// whose webhook secret has bytes `secret`: `"sha1="` followed by the hex of
/// the HMAC-SHA1 digest.
pub open spec fn expected_sig_header(secret: Seq<u8>, body: Seq<u8>) -> Seq<u8> {
    sha1_prefix() + hex_of(hmac_sha1_of(secret, body))
}

/// Whether a delivery carrying the signature header bytes `header` is
/// authentic for `body` under `secret`.
pub open spec fn github_signature_ok(secret: Seq<u8>, body: Seq<u8>, header: Seq<u8>) -> bool {
    header == expected_sig_header(secret, body)
}

/// Compute the signature header for `body` under `secret`, as the source
/// host would. `None` only on an internal failure of the crypto library.
pub fn github_signature_header(secret: &[u8], body: &[u8]) -> (r: Option<Vec<u8>>)
    requires
        secret@.len() < 0x8000_0000,
    ensures
        hmac_sha1_of(secret@, body@).len() == 20,
        r matches Some(v) ==> v@ == expected_sig_header(secret@, body@),
{
    let mac = match hmac_sha1(secret, body) {
        Some(m) => m,
        None => return None,
    };
    let mut out: Vec<u8> = Vec::new();
    out.push(115);
    out.push(104);
    out.push(97);
    out.push(49);
    out.push(61);
    let hex = hex_bytes(mac.as_slice());
    let mut i: usize = 0;
    while i < hex.len()
        invariant
            i <= hex@.len(),
            out@ == sha1_prefix() + hex@.subrange(0, i as int),
        decreases hex@.len() - i,
    {
        out.push(hex[i]);
        proof {
            assert(sha1_prefix() + hex@.subrange(0, i as int) + seq![hex@[i as int]] =~= sha1_prefix()
                + hex@.subrange(0, i + 1 as int));
        }
        i = i + 1;
    }
    proof {
        assert(out@ =~= sha1_prefix() + hex@.subrange(0, hex@.len() as int));
        assert(hex@.subrange(0, hex@.len() as int) =~= hex@);
    }
    Some(out)
}

/// Decide whether the presented header bytes equal the expected ones, in
/// constant time. Exact: true iff the bytes agree.
pub fn signature_matches(expected: &[u8], header: &[u8]) -> (r: bool)
    ensures
        r == (header@ == expected@),
{
    if header.len() != expected.len() {
        false
    } else {
        ct_bytes_eq(header, expected)
    }
}

/// Verify a source-host delivery: `Some(true)` iff `header` is exactly the
/// signature header for `body` under `secret`. `None` only on an internal
/// failure of the crypto library; the decision itself is exact.
pub fn verify_github_signature(secret: &[u8], body: &[u8], header: &[u8]) -> (r: Option<bool>)
    requires
        secret@.len() < 0x8000_0000,
    ensures
        hmac_sha1_of(secret@, body@).len() == 20,
        r matches Some(b) ==> b == github_signature_ok(secret@, body@, header@),
{
    match github_signature_header(secret, body) {
        Some(expected) => Some(signature_matches(expected.as_slice(), header)),
        None => None,
    }
}

/// Law: a delivery whose signature header is exactly the one computed from
/// the project's secret over the received body is accepted.
pub proof fn lemma_correct_signature_accepted(secret: Seq<u8>, body: Seq<u8>)
    ensures
        github_signature_ok(secret, body, expected_sig_header(secret, body)),
{
}

/// Hex encoding is injective: distinct byte sequences have distinct
/// encodings.
pub proof fn lemma_hex_injective(a: Seq<u8>, b: Seq<u8>)
    requires
        a != b,
    ensures
        hex_of(a) != hex_of(b),
{
    if a.len() != b.len() {
        assert(hex_of(a).len() != hex_of(b).len());
    } else {
        assert(exists|j: int| 0 <= j < a.len() && a[j] != b[j]) by {
            if forall|j: int| 0 <= j < a.len() ==> a[j] == b[j] {
                assert(a =~= b);
            }
        }
        let j = choose|j: int| 0 <= j < a.len() && a[j] != b[j];
        let x = a[j];
        let y = b[j];
        assert(x >> 4u8 != y >> 4u8 || x & 0xfu8 != y & 0xfu8) by (bit_vector)
            requires
                x != y,
        ;
        assert(x >> 4u8 < 16 && y >> 4u8 < 16 && x & 0xfu8 < 16 && y & 0xfu8 < 16)
            by (bit_vector);
        if x >> 4u8 != y >> 4u8 {
            assert(hex_of(a)[2 * j] == hex_digit((x >> 4u8) as u8));
            assert(hex_of(b)[2 * j] == hex_digit((y >> 4u8) as u8));
            assert(hex_of(a)[2 * j] != hex_of(b)[2 * j]);
        } else {
            assert(hex_of(a)[2 * j + 1] == hex_digit((x & 0xfu8) as u8));
            assert(hex_of(b)[2 * j + 1] == hex_digit((y & 0xfu8) as u8));
            assert(hex_of(a)[2 * j + 1] != hex_of(b)[2 * j + 1]);
        }
    }
}

/// Law: a signature header computed over one body never verifies a body
/// whose digest under the same secret differs. This is the strongest form
/// of tamper rejection the library can state: that every single-bit change
/// of the body changes the digest is a property of HMAC-SHA1 itself, which
/// stays with the crypto library and is not restated here.
pub proof fn lemma_tampered_body_rejected(secret: Seq<u8>, body: Seq<u8>, tampered: Seq<u8>)
    requires
        hmac_sha1_of(secret, tampered) != hmac_sha1_of(secret, body),
    ensures
        !github_signature_ok(secret, tampered, expected_sig_header(secret, body)),
{
    let d1 = hmac_sha1_of(secret, tampered);
    let d2 = hmac_sha1_of(secret, body);
    lemma_hex_injective(d1, d2);
    if expected_sig_header(secret, tampered) == expected_sig_header(secret, body) {
        assert(expected_sig_header(secret, tampered).len() == 5 + hex_of(d1).len());
        assert(expected_sig_header(secret, body).len() == 5 + hex_of(d2).len());
        assert(hex_of(d1).len() == hex_of(d2).len());
        assert(hex_of(d1) =~= hex_of(d2)) by {
            assert(forall|k: int|
                0 <= k < hex_of(d1).len() ==> hex_of(d1)[k] == expected_sig_header(
                    secret,
                    tampered,
                )[5 + k] && hex_of(d2)[k] == expected_sig_header(secret, body)[5 + k]);
        }
        assert(false);
    }
}

/// Law: any header that differs from the computed one — in length, or in any
/// single byte — is rejected.
pub proof fn lemma_altered_signature_rejected(
    secret: Seq<u8>,
    body: Seq<u8>,
    header: Seq<u8>,
    i: int,
)
    requires
        header.len() != expected_sig_header(secret, body).len() || (0 <= i < header.len()
            && header[i] != expected_sig_header(secret, body)[i]),
    ensures
        !github_signature_ok(secret, body, header),
{
}

} // verus!
