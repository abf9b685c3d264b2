//! The secret of the exchange's interface, and what is signed with it.
use vstd::prelude::*;
use crate::text;

verus! {

/// What the base64 engines make of a text: the URL-safe alphabet or the standard one, with
/// padding or without.
pub uninterp spec fn decoded(url_safe: bool, padded: bool, s: Seq<char>) -> Option<Seq<u8>>;

/// What the standard base64 engine makes of bytes.
pub uninterp spec fn encoded(bytes: Seq<u8>) -> Seq<char>;

/// The HMAC-SHA256 of a message under a key.
pub uninterp spec fn mac(key: Seq<u8>, message: Seq<char>) -> Seq<u8>;

/// Calls `Engine::decode` on one of the engines `STANDARD`, `STANDARD_NO_PAD`, `URL_SAFE` and
/// `URL_SAFE_NO_PAD`. The bytes, or that there are none, are a function of the engine and the
/// text and are named [`decoded`].
#[verifier::external_body]
fn base64_decode(url_safe: bool, padded: bool, s: &str) -> (r: Option<Vec<u8>>)
    ensures
        match r {
            Some(bytes) => decoded(url_safe, padded, s@) == Some(bytes@),
            None => decoded(url_safe, padded, s@) is None,
        },
{
    let engine = match (url_safe, padded) {
        (false, true) => base64::engine::general_purpose::STANDARD,
        (false, false) => base64::engine::general_purpose::STANDARD_NO_PAD,
        (true, true) => base64::engine::general_purpose::URL_SAFE,
        (true, false) => base64::engine::general_purpose::URL_SAFE_NO_PAD,
    };
    base64::Engine::decode(&engine, s).ok()
}

/// Calls `Engine::encode` on the engine `STANDARD`. The text is a function of the bytes and is
/// named [`encoded`].
#[verifier::external_body]
fn base64_encode(bytes: &Vec<u8>) -> (r: String)
    ensures
        r@ == encoded(bytes@),
{
    base64::Engine::encode(&base64::engine::general_purpose::STANDARD, bytes)
}

/// Calls `Hmac::<Sha256>::new_from_slice`, which takes a key of any length, and then `update`
/// with the UTF-8 bytes of the message and `finalize`. The 32 bytes are a function of the key and
/// the message and are named [`mac`].
#[verifier::external_body]
fn hmac_sha256(key: &Vec<u8>, message: &str) -> (r: Vec<u8>)
    ensures
        r@ == mac(key@, message@),
        r@.len() == 32,
{
    let mut state = <hmac::Hmac<sha2::Sha256> as hmac::Mac>::new_from_slice(key).expect("any key");
    hmac::Mac::update(&mut state, message.as_bytes());
    hmac::Mac::finalize(state).into_bytes().to_vec()
}

/// The characters that a secret may hold.
pub open spec fn is_secret_char(c: char) -> bool {
    ||| '0' <= c <= '9'
    ||| 'a' <= c <= 'z'
    ||| 'A' <= c <= 'Z'
    ||| c == '+'
    ||| c == '/'
    ||| c == '='
    ||| c == '-'
    ||| c == '_'
}

fn secret_char(c: char) -> (r: bool)
    ensures
        r == is_secret_char(c),
{
    ('0' <= c && c <= '9') || ('a' <= c && c <= 'z') || ('A' <= c && c <= 'Z') || c == '+' || c
        == '/' || c == '=' || c == '-' || c == '_'
}

/// The characters of a text that a secret may hold.
pub open spec fn secret_chars(s: Seq<char>) -> Seq<char>
    decreases s.len(),
{
    if s.len() == 0 {
        Seq::empty()
    } else if is_secret_char(s.last()) {
        secret_chars(s.drop_last()).push(s.last())
    } else {
        secret_chars(s.drop_last())
    }
}

fn keep_secret_chars(s: &str) -> (r: String)
    ensures
        r@ == secret_chars(s@),
{
    let chars = text::chars_of(s);
    let mut out = String::new();
    let mut i: usize = 0;
    assert(out@ =~= Seq::<char>::empty());
    while i < chars.len()
        invariant
            i <= chars.len(),
            chars@ == s@,
            out@ == secret_chars(s@.take(i as int)),
        decreases chars.len() - i,
    {
        assert(s@.take(i + 1).drop_last() =~= s@.take(i as int));
        assert(s@.take(i + 1).last() == s@[i as int]);
        if secret_char(chars[i]) {
            out.push(chars[i]);
        }
        i = i + 1;
    }
    assert(s@.take(s@.len() as int) =~= s@);
    out
}

pub open spec fn or_else(a: Option<Seq<u8>>, b: Option<Seq<u8>>) -> Option<Seq<u8>> {
    match a {
        Some(v) => Some(v),
        None => b,
    }
}

/// The bytes of a secret that was cleaned: read with the standard alphabet, then with the
/// URL-safe one, each with and without padding, and then with the standard one again, after the
/// characters that the two differ in were exchanged.
pub open spec fn secret_bytes(s: Seq<char>) -> Option<Seq<u8>> {
    let standard = text::replaced(text::replaced(s, '-', '+'), '_', '/');
    or_else(
        decoded(false, true, s),
        or_else(
            decoded(false, false, s),
            or_else(
                decoded(true, true, s),
                or_else(
                    decoded(true, false, s),
                    or_else(decoded(false, true, standard), decoded(false, false, standard)),
                ),
            ),
        ),
    )
}

/// Reads the secret.
pub fn decode_api_secret(secret: &str) -> (r: Result<Vec<u8>, String>)
    ensures
        ({
            let clean = secret_chars(text::trimmed(secret@));
            match r {
                Ok(bytes) => clean.len() > 0 && secret_bytes(clean) == Some(bytes@),
                Err(message) => if clean.len() == 0 {
                    message@ == "POLYMARKET_API_SECRET is empty"@
                } else {
                    secret_bytes(clean) is None && message@
                        == "POLYMARKET_API_SECRET is not valid base64/base64url"@
                },
            }
        }),
{
    let clean = keep_secret_chars(text::trim(secret));
    let s = clean.as_str();
    if s.is_empty() {
        return Err("POLYMARKET_API_SECRET is empty".to_owned());
    }
    match base64_decode(false, true, s) {
        Some(bytes) => {
            return Ok(bytes);
        },
        None => {},
    }
    match base64_decode(false, false, s) {
        Some(bytes) => {
            return Ok(bytes);
        },
        None => {},
    }
    match base64_decode(true, true, s) {
        Some(bytes) => {
            return Ok(bytes);
        },
        None => {},
    }
    match base64_decode(true, false, s) {
        Some(bytes) => {
            return Ok(bytes);
        },
        None => {},
    }
    let plus = text::replace_char(s, '-', '+');
    let standard = text::replace_char(plus.as_str(), '_', '/');
    match base64_decode(false, true, standard.as_str()) {
        Some(bytes) => {
            return Ok(bytes);
        },
        None => {},
    }
    match base64_decode(false, false, standard.as_str()) {
        Some(bytes) => {
            return Ok(bytes);
        },
        None => {},
    }
    Err("POLYMARKET_API_SECRET is not valid base64/base64url".to_owned())
}

/// A base64 text in the URL-safe alphabet.
pub open spec fn url_safe_form(s: Seq<char>) -> Seq<char> {
    text::replaced(text::replaced(s, '+', '-'), '/', '_')
}

/// Turns a base64 text into the URL-safe alphabet.
pub fn to_url_safe(s: &str) -> (r: String)
    ensures
        r@ == url_safe_form(s@),
{
    let dashed = text::replace_char(s, '+', '-');
    text::replace_char(dashed.as_str(), '/', '_')
}

/// The signature of a message.
pub open spec fn signature_of(key: Seq<u8>, message: Seq<char>) -> Seq<char> {
    url_safe_form(encoded(mac(key, message)))
}

pub fn build_poly_hmac_signature(secret_bytes: &Vec<u8>, message: &str) -> (r: String)
    ensures
        r@ == signature_of(secret_bytes@, message@),
{
    let bytes = hmac_sha256(secret_bytes, message);
    let base64 = base64_encode(&bytes);
    to_url_safe(base64.as_str())
}

/// A text in the URL-safe alphabet holds none of the characters that the standard one adds.
pub proof fn url_safe_form_is_url_safe(s: Seq<char>)
    ensures
        url_safe_form(s).len() == s.len(),
        forall|i: int|
            0 <= i < s.len() ==> (#[trigger] url_safe_form(s)[i]) != '+' && url_safe_form(s)[i]
                != '/',
{
}

/// The characters of a secret are those of base64 in either alphabet, its padding among them; they are
/// kept in their order, and all others are dropped.
pub proof fn other_characters_are_dropped(s: Seq<char>, c: char)
    ensures
        is_secret_char(c) <==> ('a' <= c <= 'z') || ('A' <= c <= 'Z') || ('0' <= c <= '9') || c
            == '+' || c == '/' || c == '-' || c == '_' || c == '=',
        is_secret_char(c) ==> secret_chars(s.push(c)) == secret_chars(s).push(c),
        !is_secret_char(c) ==> secret_chars(s.push(c)) == secret_chars(s),
        secret_chars(Seq::empty()).len() == 0,
        (forall|i: int| 0 <= i < s.len() ==> is_secret_char(#[trigger] s[i])) ==> secret_chars(s)
            == s,
    decreases s.len(),
{
    assert(s.push(c).drop_last() =~= s);
    if s.len() > 0 && forall|i: int| 0 <= i < s.len() ==> is_secret_char(#[trigger] s[i]) {
        let t = s.drop_last();
        assert forall|i: int| 0 <= i < t.len() implies is_secret_char(#[trigger] t[i]) by {
            assert(t[i] == s[i]);
        }
        other_characters_are_dropped(t, c);
        assert(is_secret_char(s[s.len() - 1]));
        assert(t.push(s.last()) =~= s);
    } else if s.len() == 0 {
        assert(secret_chars(s) =~= s);
    }
}

/// A secret is read with the first way that works: the standard alphabet before the URL-safe one, and
/// with padding before without; at last the characters in which the two differ are exchanged. It
/// cannot be read only where none of the ways works.
pub proof fn first_reading_that_works_is_taken(s: Seq<char>, standard: Seq<char>)
    requires
        standard.len() == s.len(),
        forall|i: int|
            0 <= i < s.len() ==> #[trigger] standard[i] == (if s[i] == '-' {
                '+'
            } else if s[i] == '_' {
                '/'
            } else {
                s[i]
            }),
    ensures
        decoded(false, true, s) is Some ==> secret_bytes(s) == decoded(false, true, s),
        decoded(false, true, s) is None && decoded(false, false, s) is Some ==> secret_bytes(s)
            == decoded(false, false, s),
        decoded(false, true, s) is None && decoded(false, false, s) is None && decoded(
            true,
            true,
            s,
        ) is Some ==> secret_bytes(s) == decoded(true, true, s),
        decoded(false, true, s) is None && decoded(false, false, s) is None && decoded(
            true,
            true,
            s,
        ) is None && decoded(true, false, s) is Some ==> secret_bytes(s) == decoded(true, false, s),
        decoded(false, true, s) is None && decoded(false, false, s) is None && decoded(
            true,
            true,
            s,
        ) is None && decoded(true, false, s) is None ==> secret_bytes(s) == (if decoded(
            false,
            true,
            standard,
        ) is Some {
            decoded(false, true, standard)
        } else {
            decoded(false, false, standard)
        }),
{
    assert(standard =~= text::replaced(text::replaced(s, '-', '+'), '_', '/'));
}

/// In the URL-safe alphabet a dash stands for the plus sign and a low line for the slash; every other
/// character is the same in both.
pub proof fn alphabets_differ_in_two_characters(s: Seq<char>, i: int)
    requires
        0 <= i < s.len(),
    ensures
        s[i] == '+' ==> url_safe_form(s)[i] == '-',
        s[i] == '/' ==> url_safe_form(s)[i] == '_',
        s[i] != '+' && s[i] != '/' ==> url_safe_form(s)[i] == s[i],
{
}

} // verus!
