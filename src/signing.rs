use vstd::prelude::*;
use vstd::string::*;
use vstd::utf8::encode_utf8;

use crate::text::{hex_digit, hex_encode, hex_text};

verus! {

/// Inputs longer than this many bytes are not signed.
pub const MAX_SIGNED_LEN: u64 = 0x0fff_ffff_ffff_ffff;

/// The HMAC-SHA-256 tag of `message` under `key`.
pub uninterp spec fn hmac_sha256_of(key: Seq<u8>, message: Seq<u8>) -> Seq<u8>;

/// Relies on ring::hmac::Key::new and ring::hmac::sign with HMAC_SHA256:
/// the tag is a function of the key and the message. ring panics only when
/// an input's length in bits overflows 64 bits, which `requires` rules out.
#[verifier::external_body]
fn hmac_sha256(key: &[u8], message: &[u8]) -> (r: Vec<u8>)
    requires
        key@.len() <= MAX_SIGNED_LEN,
        message@.len() <= MAX_SIGNED_LEN,
    ensures
        r@ == hmac_sha256_of(key@, message@),
{
    let k = ring::hmac::Key::new(ring::hmac::HMAC_SHA256, key);
    ring::hmac::sign(&k, message).as_ref().to_vec()
}

/// The string that is signed: login, timestamp and body, concatenated.
pub open spec fn signed_message(login: Seq<char>, date: Seq<char>, body: Seq<char>) -> Seq<char> {
    login + date + body
}

/// `V2-HMAC-SHA256, Signature: ` followed by the hexadecimal HMAC-SHA-256
/// tag of the UTF-8 bytes of `message` under the UTF-8 bytes of `secret`.
pub open spec fn signature_text(secret: Seq<char>, message: Seq<char>) -> Seq<char> {
    "V2-HMAC-SHA256, Signature: "@ + hex_text(hmac_sha256_of(encode_utf8(secret), encode_utf8(message)))
}

/// The Authorization header value for an HMAC tag: the scheme name and
/// the tag in lower-case hexadecimal.
pub fn authorization_value(tag: &[u8]) -> (r: String)
    ensures
        r@ == "V2-HMAC-SHA256, Signature: "@ + hex_text(tag@),
{
    let prefix = "V2-HMAC-SHA256, Signature: ";
    let mut header = String::from_str(prefix);
    header.append(hex_encode(tag).as_str());
    header
}

/// The Authorization header value for `body` sent at `date` by `login`;
/// `None` when an input is too long to be signed.
pub fn sign_request(login: &str, secret: &str, date: &str, body: &str) -> (r: Option<String>)
    ensures
        r matches Some(s) ==> s@ == signature_text(secret@, signed_message(login@, date@, body@)),
        r is None <==> (encode_utf8(secret@).len() > MAX_SIGNED_LEN || encode_utf8(
            signed_message(login@, date@, body@),
        ).len() > MAX_SIGNED_LEN),
{
    let mut message = String::from_str(login);
    message.append(date);
    message.append(body);
    let key = secret.as_bytes();
    let bytes = message.as_str().as_bytes();
    if key.len() as u64 > MAX_SIGNED_LEN || bytes.len() as u64 > MAX_SIGNED_LEN {
        return None;
    }
    let tag = hmac_sha256(key, bytes);
    Some(authorization_value(tag.as_slice()))
}

/// Signing is a function of its inputs: equal credentials, timestamp and
/// body give equal signatures.
pub proof fn lemma_signature_deterministic(
    secret1: Seq<char>,
    login1: Seq<char>,
    date1: Seq<char>,
    body1: Seq<char>,
    secret2: Seq<char>,
    login2: Seq<char>,
    date2: Seq<char>,
    body2: Seq<char>,
)
    requires
        secret1 == secret2,
        login1 == login2,
        date1 == date2,
        body1 == body2,
    ensures
        signature_text(secret1, signed_message(login1, date1, body1)) == signature_text(
            secret2,
            signed_message(login2, date2, body2),
        ),
{
}

proof fn lemma_hex_text_len(b: Seq<u8>)
    ensures
        hex_text(b).len() == 2 * b.len(),
    decreases b.len(),
{
    if b.len() > 0 {
        lemma_hex_text_len(b.drop_last());
    }
}

/// Distinct tags give distinct hexadecimal texts.
proof fn lemma_hex_text_injective(a: Seq<u8>, b: Seq<u8>)
    requires
        hex_text(a) == hex_text(b),
    ensures
        a == b,
    decreases a.len(),
{
    lemma_hex_text_len(a);
    lemma_hex_text_len(b);
    if a.len() > 0 {
        let ha = hex_text(a);
        let n = ha.len();
        lemma_hex_text_len(a.drop_last());
        lemma_hex_text_len(b.drop_last());
        assert(hex_text(a.drop_last()) =~= ha.subrange(0, n - 2));
        assert(hex_text(b.drop_last()) =~= ha.subrange(0, n - 2));
        lemma_hex_text_injective(a.drop_last(), b.drop_last());
        let x = a.last() as int;
        let y = b.last() as int;
        assert(ha[n - 2] == hex_digit(x / 16) && ha[n - 2] == hex_digit(y / 16));
        assert(ha[n - 1] == hex_digit(x % 16) && ha[n - 1] == hex_digit(y % 16));
        assert(x / 16 == y / 16) by {
            assert(0 <= x / 16 < 16 && 0 <= y / 16 < 16);
        }
        assert(x % 16 == y % 16);
        assert(x == 16 * (x / 16) + x % 16);
        assert(y == 16 * (y / 16) + y % 16);
        assert(a =~= a.drop_last().push(a.last()));
        assert(b =~= b.drop_last().push(b.last()));
    }
}

/// Two signatures are equal only when their HMAC tags are: the header
/// adds nothing that could make different tags collide.
pub proof fn lemma_signature_reflects_tag(
    secret1: Seq<char>,
    message1: Seq<char>,
    secret2: Seq<char>,
    message2: Seq<char>,
)
    requires
        hmac_sha256_of(encode_utf8(secret1), encode_utf8(message1)) != hmac_sha256_of(
            encode_utf8(secret2),
            encode_utf8(message2),
        ),
    ensures
        signature_text(secret1, message1) != signature_text(secret2, message2),
{
    let p = "V2-HMAC-SHA256, Signature: "@;
    let t1 = hex_text(hmac_sha256_of(encode_utf8(secret1), encode_utf8(message1)));
    let t2 = hex_text(hmac_sha256_of(encode_utf8(secret2), encode_utf8(message2)));
    if signature_text(secret1, message1) == signature_text(secret2, message2) {
        assert((p + t1).subrange(p.len() as int, (p + t1).len() as int) =~= t1);
        assert((p + t2).subrange(p.len() as int, (p + t2).len() as int) =~= t2);
        lemma_hex_text_injective(
            hmac_sha256_of(encode_utf8(secret1), encode_utf8(message1)),
            hmac_sha256_of(encode_utf8(secret2), encode_utf8(message2)),
        );
    }
}

/// Changing exactly one of login, timestamp and body changes the signed
/// message.
pub proof fn lemma_signed_message_changes(
    login1: Seq<char>,
    date1: Seq<char>,
    body1: Seq<char>,
    login2: Seq<char>,
    date2: Seq<char>,
    body2: Seq<char>,
)
    requires
        (login1 != login2 && date1 == date2 && body1 == body2) || (login1 == login2 && date1
            != date2 && body1 == body2) || (login1 == login2 && date1 == date2 && body1 != body2),
    ensures
        signed_message(login1, date1, body1) != signed_message(login2, date2, body2),
{
    let m1 = signed_message(login1, date1, body1);
    let m2 = signed_message(login2, date2, body2);
    if m1 == m2 {
        if login1 != login2 {
            let tail = date1 + body1;
            assert(m1 =~= login1 + tail);
            assert(m2 =~= login2 + tail);
            assert(login1 =~= m1.subrange(0, m1.len() - tail.len()));
            assert(login2 =~= m2.subrange(0, m2.len() - tail.len()));
        } else if date1 != date2 {
            assert(date1 =~= m1.subrange(login1.len() as int, m1.len() - body1.len()));
            assert(date2 =~= m2.subrange(login2.len() as int, m2.len() - body2.len()));
        } else {
            let head = login1 + date1;
            assert(m1 =~= head + body1);
            assert(m2 =~= head + body2);
            assert(body1 =~= m1.subrange(head.len() as int, m1.len() as int));
            assert(body2 =~= m2.subrange(head.len() as int, m2.len() as int));
        }
    }
}

} // verus!
