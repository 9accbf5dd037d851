//! Tokens the system issues itself, and the salted hashes it stores in their
//! place.

use sha2::Digest;
use vstd::prelude::*;
use vstd::string::*;

verus! {

/// The SHA-256 digest of a message, as `sha2` computes it.
pub uninterp spec fn sha256(message: Seq<u8>) -> Seq<u8>;

/// Number of bytes in a SHA-256 digest.
pub const DIGEST_BYTES: usize = 32;

/// Number of characters in a stored hash: two per digest byte.
pub const HASH_CHARS: usize = 64;

/// Number of characters in an issued token.
pub const TOKEN_CHARS: usize = 36;

/// Calls `sha2::Sha256::digest` on the message. Trusted: the bytes returned
/// are the SHA-256 digest of the message, and there are 32 of them.
#[verifier::external_body]
fn sha256_digest(message: &[u8]) -> (digest: Vec<u8>)
    ensures
        digest@ == sha256(message@),
        digest@.len() == DIGEST_BYTES,
{
    sha2::Sha256::digest(message).to_vec()
}

/// Calls `uuid::Uuid::new_v4` and renders the identifier with `to_string`.
/// Trusted: whatever identifier is drawn, its text has the hyphenated form
/// and shows version 4 and the RFC variant.
#[verifier::external_body]
pub(crate) fn random_uuid_text() -> (text: String)
    ensures
        is_random_uuid(text@),
{
    uuid::Uuid::new_v4().to_string()
}

/// The digit that stands for a value below sixteen in lower-case
/// hexadecimal.
pub open spec fn hex_digit(nibble: int) -> char {
    "0123456789abcdef"@[nibble]
}

/// Whether a character is a lower-case hexadecimal digit.
pub open spec fn is_hex_digit(c: char) -> bool {
    exists|nibble: int| 0 <= nibble < 16 && c == #[trigger] hex_digit(nibble)
}

/// Lower-case hexadecimal rendering of bytes: two digits per byte, the high
/// half first.
pub open spec fn hex_lower(bytes: Seq<u8>) -> Seq<char> {
    Seq::new(
        2 * bytes.len(),
        |i: int|
            if i % 2 == 0 {
                hex_digit(bytes[i / 2] as int / 16)
            } else {
                hex_digit(bytes[i / 2] as int % 16)
            },
    )
}

/// The hyphenated form of a UUID: 36 characters, hyphens in the four places
/// that separate the groups of 8, 4, 4, 4 and 12, and lower-case hexadecimal
/// digits elsewhere.
pub open spec fn is_hyphenated_uuid(text: Seq<char>) -> bool {
    &&& text.len() == TOKEN_CHARS
    &&& forall|i: int|
        0 <= i < text.len() ==> if i == 8 || i == 13 || i == 18 || i == 23 {
            text[i] == '-'
        } else {
            is_hex_digit(#[trigger] text[i])
        }
}

/// The hyphenated form of a random UUID: the version digit is `4`, and the
/// variant digit is one of `8`, `9`, `a` and `b`.
pub open spec fn is_random_uuid(text: Seq<char>) -> bool {
    &&& is_hyphenated_uuid(text)
    &&& text[14] == '4'
    &&& (text[19] == '8' || text[19] == '9' || text[19] == 'a' || text[19] == 'b')
}

/// The message that is hashed for a token and a salt: the bytes of the
/// token, then the bytes of the salt.
pub open spec fn salted_message(token: Seq<char>, salt: Seq<char>) -> Seq<u8> {
    vstd::utf8::encode_utf8(token) + vstd::utf8::encode_utf8(salt)
}

/// The hash stored for a token under a salt.
pub open spec fn token_hash(token: Seq<char>, salt: Seq<char>) -> Seq<char> {
    hex_lower(sha256(salted_message(token, salt)))
}

/// The one-character text of a hexadecimal digit.
fn digit_text(nibble: u8) -> (text: &'static str)
    requires
        nibble < 16,
    ensures
        text@ == seq![hex_digit(nibble as int)],
{
    proof {
        reveal_strlit("0123456789abcdef");
        reveal_strlit("0");
        reveal_strlit("1");
        reveal_strlit("2");
        reveal_strlit("3");
        reveal_strlit("4");
        reveal_strlit("5");
        reveal_strlit("6");
        reveal_strlit("7");
        reveal_strlit("8");
        reveal_strlit("9");
        reveal_strlit("a");
        reveal_strlit("b");
        reveal_strlit("c");
        reveal_strlit("d");
        reveal_strlit("e");
        reveal_strlit("f");
    }
    let text = match nibble {
        0 => "0",
        1 => "1",
        2 => "2",
        3 => "3",
        4 => "4",
        5 => "5",
        6 => "6",
        7 => "7",
        8 => "8",
        9 => "9",
        10 => "a",
        11 => "b",
        12 => "c",
        13 => "d",
        14 => "e",
        _ => "f",
    };
    assert(text@ =~= seq![hex_digit(nibble as int)]);
    text
}

/// Renders bytes in lower-case hexadecimal.
pub fn to_hex_lower(bytes: &[u8]) -> (text: String)
    ensures
        text@ == hex_lower(bytes@),
        text@.len() == 2 * bytes@.len(),
{
    let mut text = String::new();
    let mut done: usize = 0;
    while done < bytes.len()
        invariant
            done <= bytes@.len(),
            text@ == hex_lower(bytes@.take(done as int)),
        decreases bytes@.len() - done,
    {
        let byte = bytes[done];
        let high: u8 = byte / 16;
        let low: u8 = byte % 16;
        let ghost before = text@;
        text.append(digit_text(high));
        text.append(digit_text(low));
        proof {
            let shorter = bytes@.take(done as int);
            let longer = bytes@.take(done as int + 1);
            assert(text@ == before + seq![hex_digit(high as int)] + seq![hex_digit(low as int)]);
            assert forall|i: int| 0 <= i < 2 * longer.len() implies text@[i] == hex_lower(
                longer,
            )[i] by {
                if i < 2 * shorter.len() {
                    assert(longer[i / 2] == shorter[i / 2]);
                    assert(text@[i] == before[i]);
                } else {
                    assert(longer[i / 2] == byte);
                }
            }
            assert(text@ =~= hex_lower(longer));
        }
        done = done + 1;
    }
    assert(bytes@.take(done as int) =~= bytes@);
    text
}

/// Appends the bytes of `tail` to those of `head`.
fn concat_bytes(head: &[u8], tail: &[u8]) -> (all: Vec<u8>)
    ensures
        all@ == head@ + tail@,
{
    let mut all: Vec<u8> = Vec::new();
    let mut i: usize = 0;
    while i < head.len()
        invariant
            i <= head@.len(),
            all@ == head@.take(i as int),
        decreases head@.len() - i,
    {
        all.push(head[i]);
        assert(all@ =~= head@.take(i as int + 1));
        i = i + 1;
    }
    assert(head@.take(i as int) =~= head@);
    let mut j: usize = 0;
    while j < tail.len()
        invariant
            j <= tail@.len(),
            all@ == head@ + tail@.take(j as int),
        decreases tail@.len() - j,
    {
        all.push(tail[j]);
        assert(all@ =~= head@ + tail@.take(j as int + 1));
        j = j + 1;
    }
    assert(tail@.take(j as int) =~= tail@);
    all
}

/// Issues tokens and computes the hashes that are stored for them.
pub struct TokenService;

impl TokenService {
    /// Draws a fresh random token. Two calls need not agree; every token is
    /// a random UUID in hyphenated form.
    pub fn generate_api_token() -> (token: String)
        ensures
            is_random_uuid(token@),
            token@.len() == TOKEN_CHARS,
    {
        random_uuid_text()
    }

    /// Hashes a token under a salt: the SHA-256 digest of the token's bytes
    /// followed by the salt's, in lower-case hexadecimal.
    pub fn hash_token(token: &str, salt: &str) -> (hash: String)
        ensures
            hash@ == token_hash(token@, salt@),
            hash@.len() == HASH_CHARS,
    {
        let message = concat_bytes(token.as_bytes(), salt.as_bytes());
        let digest = sha256_digest(message.as_slice());
        to_hex_lower(digest.as_slice())
    }
}

/// The hexadecimal digits of distinct values below sixteen are distinct.
pub proof fn lemma_hex_digit_injective(a: int, b: int)
    requires
        0 <= a < 16,
        0 <= b < 16,
        hex_digit(a) == hex_digit(b),
    ensures
        a == b,
{
    reveal_strlit("0123456789abcdef");
}

/// Hexadecimal rendering loses nothing: equal renderings come from equal
/// bytes.
pub proof fn lemma_hex_lower_injective(a: Seq<u8>, b: Seq<u8>)
    requires
        hex_lower(a) == hex_lower(b),
    ensures
        a == b,
{
    assert(hex_lower(a).len() == 2 * a.len());
    assert(hex_lower(b).len() == 2 * b.len());
    assert forall|k: int| 0 <= k < a.len() implies a[k] == b[k] by {
        let x = a[k] as int;
        let y = b[k] as int;
        assert(hex_lower(a)[2 * k] == hex_digit(x / 16));
        assert(hex_lower(b)[2 * k] == hex_digit(y / 16));
        assert(hex_lower(a)[2 * k + 1] == hex_digit(x % 16));
        assert(hex_lower(b)[2 * k + 1] == hex_digit(y % 16));
        lemma_hex_digit_injective(x / 16, y / 16);
        lemma_hex_digit_injective(x % 16, y % 16);
    }
    assert(a =~= b);
}

/// Different tokens under one salt, and one token under different salts,
/// give different messages to hash.
pub proof fn lemma_salted_message_injective(
    token: Seq<char>,
    salt: Seq<char>,
    other_token: Seq<char>,
    other_salt: Seq<char>,
)
    ensures
        token != other_token ==> salted_message(token, salt) != salted_message(other_token, salt),
        salt != other_salt ==> salted_message(token, salt) != salted_message(token, other_salt),
{
    let t = vstd::utf8::encode_utf8(token);
    let u = vstd::utf8::encode_utf8(other_token);
    let s = vstd::utf8::encode_utf8(salt);
    let r = vstd::utf8::encode_utf8(other_salt);
    vstd::utf8::encode_utf8_decode_utf8(token);
    vstd::utf8::encode_utf8_decode_utf8(other_token);
    vstd::utf8::encode_utf8_decode_utf8(salt);
    vstd::utf8::encode_utf8_decode_utf8(other_salt);
    if t + s == u + s {
        assert((t + s).len() == (u + s).len());
        assert(t =~= (t + s).take(t.len() as int));
        assert(u =~= (u + s).take(u.len() as int));
    }
    if t + s == t + r {
        assert(s =~= (t + s).skip(t.len() as int));
        assert(r =~= (t + r).skip(t.len() as int));
    }
}

/// Hashing is a function of the token and the salt: two hashes computed
/// from the same token and salt are the same text.
pub proof fn law_hash_is_deterministic(
    token: Seq<char>,
    salt: Seq<char>,
    first: Seq<char>,
    second: Seq<char>,
)
    requires
        first == token_hash(token, salt),
        second == token_hash(token, salt),
    ensures
        first == second,
{
}

/// Two hashes agree exactly where SHA-256 gives the two salted messages the
/// same digest. A different token, or a different salt, always gives a
/// different message, so such hashes differ unless SHA-256 itself collides
/// on the two messages.
pub proof fn law_hash_differs_unless_digest_collides(
    token: Seq<char>,
    salt: Seq<char>,
    other_token: Seq<char>,
    other_salt: Seq<char>,
)
    ensures
        token_hash(token, salt) == token_hash(other_token, other_salt) <==> sha256(
            salted_message(token, salt),
        ) == sha256(salted_message(other_token, other_salt)),
        token != other_token ==> salted_message(token, salt) != salted_message(other_token, salt),
        salt != other_salt ==> salted_message(token, salt) != salted_message(token, other_salt),
{
    lemma_salted_message_injective(token, salt, other_token, other_salt);
    if token_hash(token, salt) == token_hash(other_token, other_salt) {
        lemma_hex_lower_injective(
            sha256(salted_message(token, salt)),
            sha256(salted_message(other_token, other_salt)),
        );
    }
}

} // verus!
