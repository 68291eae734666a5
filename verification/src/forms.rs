//! Decoding of inbound request data: form-encoded bodies and query strings,
//! UTF-8 payloads, base64 signature headers, repository identifiers of the
//! form `owner/name`, and percent-encoding for outbound redirect URLs.

use vstd::prelude::*;

use crate::models::project::{opt_view, str_eq};
use vstd::utf8::{decode_utf8, valid_utf8};

verus! {

/// The key/value pairs a form-encoded body decodes to, in order: a function
/// of the bytes alone, computed by the url crate. What percent-decoding does
/// to each field is not restated here.
pub uninterp spec fn form_fields_of(body: Seq<u8>) -> Seq<(Seq<char>, Seq<char>)>;

/// The value of a decoded field list.
pub open spec fn fields_view(v: Seq<(String, String)>) -> Seq<(Seq<char>, Seq<char>)> {
    Seq::new(v.len(), |i: int| (v[i].0@, v[i].1@))
}

/// Relies on `form_urlencoded::parse` of the url crate: splits a
/// form-encoded body into its decoded key/value pairs, in order, a function
/// of the bytes alone.
#[verifier::external_body]
pub fn parse_form(body: &[u8]) -> (r: Vec<(String, String)>)
    ensures
        r@.len() == form_fields_of(body@).len(),
        forall|i: int|
            0 <= i < r@.len() ==> (#[trigger] r@[i]).0@ == form_fields_of(body@)[i].0
                && r@[i].1@ == form_fields_of(body@)[i].1,
{
    url::form_urlencoded::parse(body).into_owned().collect()
}

/// The first value bound to `name`, if any.
pub open spec fn lookup_field(fields: Seq<(Seq<char>, Seq<char>)>, name: Seq<char>) -> Option<
    Seq<char>,
>
    decreases fields.len(),
{
    if fields.len() == 0 {
        None
    } else if fields[0].0 == name {
        Some(fields[0].1)
    } else {
        lookup_field(fields.drop_first(), name)
    }
}

proof fn lemma_lookup_found(fields: Seq<(Seq<char>, Seq<char>)>, name: Seq<char>, i: int)
    requires
        0 <= i < fields.len(),
        fields[i].0 == name,
        forall|j: int| 0 <= j < i ==> (#[trigger] fields[j]).0 != name,
    ensures
        lookup_field(fields, name) == Some(fields[i].1),
    decreases i,
{
    if i == 0 {
    } else {
        assert(fields[0].0 != name);
        lemma_lookup_found(fields.drop_first(), name, i - 1);
    }
}

proof fn lemma_lookup_missing(fields: Seq<(Seq<char>, Seq<char>)>, name: Seq<char>)
    requires
        forall|j: int| 0 <= j < fields.len() ==> (#[trigger] fields[j]).0 != name,
    ensures
        lookup_field(fields, name) is None,
    decreases fields.len(),
{
    if fields.len() == 0 {
    } else {
        lemma_lookup_missing(fields.drop_first(), name);
    }
}

/// Find the first value bound to `name` in a decoded field list.
pub fn find_field(fields: &Vec<(String, String)>, name: &str) -> (r: Option<String>)
    ensures
        opt_view(r) == lookup_field(fields_view(fields@), name@),
{
    let ghost fv = fields_view(fields@);
    let mut i: usize = 0;
    while i < fields.len()
        invariant
            i <= fields@.len(),
            fv == fields_view(fields@),
            forall|j: int| 0 <= j < i ==> (#[trigger] fv[j]).0 != name@,
        decreases fields@.len() - i,
    {
        if str_eq(fields[i].0.as_str(), name) {
            let v = fields[i].1.clone();
            proof {
                lemma_lookup_found(fv, name@, i as int);
            }
            return Some(v);
        }
        i = i + 1;
    }
    proof {
        lemma_lookup_missing(fv, name@);
    }
    None
}

/// Relies on `String::from_utf8`: succeeds exactly on valid UTF-8 and
/// decodes the bytes, changing nothing.
#[verifier::external_body]
pub fn utf8_string(bytes: &[u8]) -> (r: Option<String>)
    ensures
        r is Some <==> valid_utf8(bytes@),
        r matches Some(s) ==> s@ == decode_utf8(bytes@),
{
    match String::from_utf8(bytes.to_vec()) {
        Ok(s) => Some(s),
        Err(_) => None,
    }
}

/// ASCII bytes are valid UTF-8 and decode to one character per byte.
pub proof fn lemma_ascii_utf8(bytes: Seq<u8>)
    requires
        forall|i: int| 0 <= i < bytes.len() ==> bytes[i] < 128,
    ensures
        valid_utf8(bytes),
        decode_utf8(bytes).len() == bytes.len(),
        forall|i: int| 0 <= i < bytes.len() ==> decode_utf8(bytes)[i] == bytes[i] as char,
    decreases bytes.len(),
{
    broadcast use vstd::utf8::char_u32_cast;

    if bytes.len() == 0 {
    } else {
        let b = bytes[0];
        assert(vstd::utf8::is_leading_byte_width_1(b));
        assert(b < 128 ==> (b & 0x7fu8) as u32 == b as u32) by (bit_vector);
        assert(vstd::utf8::decode_first_codepoint(bytes) == b as u32);
        assert(vstd::utf8::valid_first_scalar(bytes));
        assert(vstd::utf8::length_of_first_scalar(bytes) == 1);
        let rest = vstd::utf8::pop_first_scalar(bytes);
        assert(rest =~= bytes.drop_first());
        lemma_ascii_utf8(rest);
        assert(valid_utf8(bytes));
        let d = decode_utf8(bytes);
        assert(d == seq![(b as u32) as char] + decode_utf8(rest));
        assert((b as u32) as char == b as char);
        assert forall|i: int| 0 <= i < bytes.len() implies d[i] == bytes[i] as char by {
            if i == 0 {
            } else {
                assert(d[i] == decode_utf8(rest)[i - 1]);
                assert(rest[i - 1] == bytes[i]);
            }
        }
    }
}

/// Turn all-ASCII bytes into the string they spell.
pub fn ascii_string(bytes: Vec<u8>) -> (r: String)
    requires
        forall|i: int| 0 <= i < bytes@.len() ==> bytes@[i] < 128,
    ensures
        r@.len() == bytes@.len(),
        forall|i: int| 0 <= i < bytes@.len() ==> r@[i] == bytes@[i] as char,
{
    proof {
        lemma_ascii_utf8(bytes@);
    }
    match utf8_string(bytes.as_slice()) {
        Some(s) => s,
        None => {
            proof {
                assert(false);
            }
            String::new()
        },
    }
}

/// What the standard base64 alphabet decodes `s` to, or nothing where `s`
/// is not base64: a function of the bytes alone, computed by the base64
/// crate.
pub uninterp spec fn base64_of(s: Seq<u8>) -> Option<Seq<u8>>;

/// Relies on the base64 crate's `Engine::decode` with the `STANDARD`
/// engine: a function of the input alone, failing exactly where the input
/// is not standard base64.
#[verifier::external_body]
pub fn base64_decode(s: &[u8]) -> (r: Option<Vec<u8>>)
    ensures
        r matches Some(v) ==> base64_of(s@) == Some(v@),
        r is None ==> base64_of(s@) is None,
{
    match base64::Engine::decode(&base64::engine::general_purpose::STANDARD, s) {
        Ok(v) => Some(v),
        Err(_) => None,
    }
}

/// Whether `s` is `owner/name` with a non-empty owner before the first
/// slash and a non-empty remainder after it.
pub open spec fn repo_ident_ok(s: Seq<char>) -> bool {
    exists|i: int|
        0 < i < s.len() - 1 && #[trigger] s[i] == '/' && (forall|j: int|
            0 <= j < i ==> s[j] != '/')
}

/// Split `owner/name` at the first slash. Rejected exactly when the owner
/// or the name would be empty, or no slash occurs.
pub fn split_repo_ident(s: &str) -> (r: Option<(String, String)>)
    ensures
        r matches Some(p) ==> p.0@.len() > 0 && p.1@.len() > 0 && s@ =~= p.0@ + seq!['/']
            + p.1@ && (forall|j: int| 0 <= j < p.0@.len() ==> p.0@[j] != '/'),
        r is Some <==> repo_ident_ok(s@),
{
    let len = s.unicode_len();
    let mut i: usize = 0;
    while i < len
        invariant
            len == s@.len(),
            i <= len,
            forall|j: int| 0 <= j < i ==> s@[j] != '/',
        decreases len - i,
    {
        if s.get_char(i) == '/' {
            if i == 0 || i + 1 == len {
                proof {
                    assert forall|k: int|
                        !(0 < k < s@.len() - 1 && #[trigger] s@[k] == '/' && (forall|j: int|
                            0 <= j < k ==> s@[j] != '/')) by {
                        if 0 < k < s@.len() - 1 && s@[k] == '/' {
                            if k < i {
                            } else if k > i {
                                assert(s@[i as int] == '/');
                            }
                        }
                    }
                }
                return None;
            }
            let owner = s.substring_char(0, i);
            let name = s.substring_char(i + 1, len);
            proof {
                assert(s@ =~= owner@ + seq!['/'] + name@);
            }
            return Some((String::from_str(owner), String::from_str(name)));
        }
        i = i + 1;
    }
    proof {
        assert forall|k: int|
            !(0 < k < s@.len() - 1 && #[trigger] s@[k] == '/' && (forall|j: int|
                0 <= j < k ==> s@[j] != '/')) by {}
    }
    None
}

/// The position of the first slash in `s`; meaningful only where one
/// exists.
pub open spec fn first_slash(s: Seq<char>) -> int {
    choose|i: int|
        0 <= i < s.len() && s[i] == '/' && (forall|j: int| 0 <= j < i ==> s[j] != '/')
}

/// The owner part of `owner/name`: everything before the first slash.
pub open spec fn ident_owner(s: Seq<char>) -> Seq<char> {
    s.subrange(0, first_slash(s))
}

/// The name part of `owner/name`: everything after the first slash.
pub open spec fn ident_name(s: Seq<char>) -> Seq<char> {
    s.subrange(first_slash(s) + 1, s.len() as int)
}

/// A decomposition at a slash-free, non-empty owner is the decomposition at
/// the first slash.
pub proof fn lemma_ident_parts(s: Seq<char>, owner: Seq<char>, name: Seq<char>)
    requires
        owner.len() > 0,
        !owner.contains('/'),
        s == owner + "/"@ + name,
    ensures
        first_slash(s) == owner.len(),
        ident_owner(s) == owner,
        ident_name(s) == name,
{
    reveal_strlit("/");
    assert("/"@ =~= seq!['/']);
    let k = owner.len() as int;
    assert(s[k] == '/');
    assert forall|j: int| 0 <= j < k implies s[j] != '/' by {
        assert(s[j] == owner[j]);
        if s[j] == '/' {
            assert(owner.contains('/'));
        }
    }
    let i = first_slash(s);
    assert(0 <= i < s.len() && s[i] == '/' && (forall|j: int| 0 <= j < i ==> s[j] != '/'));
    if i < k {
        assert(s[i] != '/');
    } else if i > k {
        assert(s[k] != '/');
    }
    assert(ident_owner(s) =~= owner);
    assert(ident_name(s) =~= name);
}

/// Whether a byte may stand for itself in a query-string value.
pub open spec fn unreserved_byte(b: u8) -> bool {
    (48 <= b <= 57) || (65 <= b <= 90) || (97 <= b <= 122) || b == 45 || b == 46 || b == 95
        || b == 126
}

/// The percent-encoding of one byte: itself where unreserved, otherwise
/// `%` and two uppercase-free hex digits.
pub open spec fn enc_byte(b: u8) -> Seq<u8> {
    if unreserved_byte(b) {
        seq![b]
    } else {
        seq![37u8, crate::crypto::hex_digit((b >> 4u8) as u8), crate::crypto::hex_digit(
            (b & 0xfu8) as u8,
        )]
    }
}

/// The percent-encoding of a byte sequence.
pub open spec fn urlencoded(bytes: Seq<u8>) -> Seq<u8>
    decreases bytes.len(),
{
    if bytes.len() == 0 {
        Seq::empty()
    } else {
        enc_byte(bytes[0]) + urlencoded(bytes.drop_first())
    }
}

proof fn lemma_urlencoded_snoc(bytes: Seq<u8>, b: u8)
    ensures
        urlencoded(bytes.push(b)) =~= urlencoded(bytes) + enc_byte(b),
    decreases bytes.len(),
{
    if bytes.len() == 0 {
        assert(bytes.push(b).drop_first() =~= Seq::empty());
        assert(bytes =~= Seq::<u8>::empty());
    } else {
        assert(bytes.push(b).drop_first() =~= bytes.drop_first().push(b));
        lemma_urlencoded_snoc(bytes.drop_first(), b);
    }
}

/// Every byte of a percent-encoding is ASCII.
pub proof fn lemma_urlencoded_ascii(bytes: Seq<u8>)
    ensures
        forall|i: int| 0 <= i < urlencoded(bytes).len() ==> urlencoded(bytes)[i] < 128,
    decreases bytes.len(),
{
    if bytes.len() > 0 {
        let b = bytes[0];
        assert(b >> 4u8 < 16 && b & 0xfu8 < 16) by (bit_vector);
        lemma_urlencoded_ascii(bytes.drop_first());
        assert forall|i: int| 0 <= i < urlencoded(bytes).len() implies urlencoded(bytes)[i]
            < 128 by {
            assert(urlencoded(bytes) == enc_byte(b) + urlencoded(bytes.drop_first()));
            if i < enc_byte(b).len() {
                assert(urlencoded(bytes)[i] == enc_byte(b)[i]);
            } else {
                assert(urlencoded(bytes)[i] == urlencoded(bytes.drop_first())[i - enc_byte(
                    b,
                ).len()]);
            }
        }
    }
}

/// Percent-encode `bytes` for use in a query-string value.
pub fn urlencode(bytes: &[u8]) -> (r: Vec<u8>)
    ensures
        r@ =~= urlencoded(bytes@),
{
    let mut out: Vec<u8> = Vec::new();
    let mut i: usize = 0;
    while i < bytes.len()
        invariant
            i <= bytes@.len(),
            out@ =~= urlencoded(bytes@.subrange(0, i as int)),
        decreases bytes@.len() - i,
    {
        let b = bytes[i];
        let unres = (48 <= b && b <= 57) || (65 <= b && b <= 90) || (97 <= b && b <= 122) || b
            == 45 || b == 46 || b == 95 || b == 126;
        if unres {
            out.push(b);
        } else {
            let hi = b >> 4;
            let lo = b & 0xf;
            proof {
                assert(b >> 4u8 < 16 && b & 0xfu8 < 16) by (bit_vector);
            }
            out.push(37);
            out.push(crate::crypto::hex_digit_ex(hi));
            out.push(crate::crypto::hex_digit_ex(lo));
        }
        proof {
            assert(bytes@.subrange(0, i + 1) =~= bytes@.subrange(0, i as int).push(
                bytes@[i as int],
            ));
            lemma_urlencoded_snoc(bytes@.subrange(0, i as int), bytes@[i as int]);
        }
        i = i + 1;
    }
    proof {
        assert(bytes@.subrange(0, bytes@.len() as int) =~= bytes@);
    }
    out
}

/// The percent-encoding of a string's UTF-8 bytes, as characters.
pub open spec fn enc_chars(s: Seq<char>) -> Seq<char> {
    Seq::new(
        urlencoded(vstd::utf8::encode_utf8(s)).len(),
        |i: int| urlencoded(vstd::utf8::encode_utf8(s))[i] as char,
    )
}

/// Percent-encode a string for use in a query-string value.
pub fn urlencode_str(s: &str) -> (r: String)
    ensures
        r@ =~= enc_chars(s@),
{
    let b = s.as_bytes_vec();
    let e = urlencode(b.as_slice());
    proof {
        lemma_urlencoded_ascii(b@);
    }
    let out = ascii_string(e);
    proof {
        assert(out@ =~= enc_chars(s@));
    }
    out
}

/// The decimal digits of a non-negative number, as ASCII bytes.
pub open spec fn dec_digits(n: int) -> Seq<u8>
    decreases n,
{
    if n < 10 {
        seq![(48 + n) as u8]
    } else {
        dec_digits(n / 10).push((48 + n % 10) as u8)
    }
}

/// The decimal digits of a non-negative number, as characters.
pub open spec fn dec_chars(n: int) -> Seq<char> {
    Seq::new(dec_digits(n).len(), |i: int| dec_digits(n)[i] as char)
}

proof fn lemma_dec_digits_ascii(n: int)
    requires
        0 <= n,
    ensures
        forall|i: int| 0 <= i < dec_digits(n).len() ==> dec_digits(n)[i] < 128,
    decreases n,
{
    if n >= 10 {
        lemma_dec_digits_ascii(n / 10);
        assert forall|i: int| 0 <= i < dec_digits(n).len() implies dec_digits(n)[i] < 128 by {
            if i < dec_digits(n / 10).len() {
                assert(dec_digits(n)[i] == dec_digits(n / 10)[i]);
            }
        }
    }
}

fn dec_bytes(n: u32) -> (r: Vec<u8>)
    ensures
        r@ =~= dec_digits(n as int),
    decreases n,
{
    if n < 10 {
        let mut v: Vec<u8> = Vec::new();
        v.push(48 + (n as u8));
        v
    } else {
        let mut v = dec_bytes(n / 10);
        v.push(48 + ((n % 10) as u8));
        v
    }
}

/// Format a number in decimal.
pub fn u32_string(n: u32) -> (r: String)
    ensures
        r@ =~= dec_chars(n as int),
{
    let v = dec_bytes(n);
    proof {
        lemma_dec_digits_ascii(n as int);
    }
    ascii_string(v)
}

} // verus!
