//! Exercise content, and the cipher that hides its answers.

use vstd::prelude::*;
use base64::Engine;

verus! {

#[verifier::external_type_specification]
#[verifier::external_body]
pub struct ExDecodeError(base64::DecodeError);

#[verifier::external_type_specification]
#[verifier::external_body]
pub struct ExFromUtf8Error(std::string::FromUtf8Error);

/// The key that the answer cipher uses.
pub const XXTEA_KEY: &'static str = "12345";

/// An exercise: its text, its interaction, and its answers once known.
#[derive(Debug, Clone)]
pub struct Exercise {
    pub instructions: String,
    pub general_question: String,
    pub interaction: Interaction,
    pub answers: Option<Vec<String>>,
}

/// The interactive part of an exercise.
#[derive(Debug, Clone)]
pub struct Interaction {
    pub ty: InteractionType,
    pub questions: Vec<Question>,
    pub correct: Vec<Correct>,
}

/// The kind of an [`Interaction`].
#[derive(PartialEq, Eq, Structural, Clone, Copy, Debug)]
pub enum InteractionType {
    Cloze,
}

/// A question of an [`Interaction`].
#[derive(Debug, Clone)]
pub struct Question {
    pub id: u32,
    pub data: QuestionData,
    pub wordlist: Vec<String>,
}

/// The text of a [`Question`].
#[derive(Debug, Clone)]
pub struct QuestionData {
    pub text: String,
}

/// The accepted answers to a question, each hidden by the answer cipher.
#[derive(Debug, Clone)]
pub struct Correct {
    pub id: u32,
    pub answers: Vec<Vec<XxteaEncrypted>>,
}

/// An answer revealed from its ciphered form.
#[derive(Debug, Clone)]
pub struct XxteaEncrypted(pub String);

/// Error raised while revealing an answer.
#[derive(Debug)]
pub enum ExerciseError {
    /// The ciphertext is not standard base64.
    Base64(base64::DecodeError),
    /// The revealed bytes are not UTF-8.
    Utf8(std::string::FromUtf8Error),
}

/// What standard base64 (with padding) decodes `s` to, if `s` is valid.
pub uninterp spec fn base64_decoded(s: Seq<char>) -> Option<Seq<u8>>;

/// Relies on `base64`'s `STANDARD` engine and its `decode`: the bytes that the
/// text encodes, or an error when it is not valid. Every four symbols give at
/// most three bytes.
#[verifier::external_body]
fn base64_decode(s: &str) -> (r: Result<Vec<u8>, base64::DecodeError>)
    ensures
        r is Ok <==> base64_decoded(s@) is Some,
        r matches Ok(b) ==> base64_decoded(s@) == Some(b@) && b@.len() <= s@.len(),
{
    base64::engine::general_purpose::STANDARD.decode(s)
}

/// What XXTEA decryption without length framing makes of `data` under `key`.
pub uninterp spec fn xxtea_decrypted(data: Seq<u8>, key: Seq<char>) -> Seq<u8>;

/// Relies on `xxtea::decrypt_raw`: the decryption of whole 32-bit words, the
/// input padded with zeros to a multiple of four bytes. It divides by the word
/// count, so the input must not be empty, and counts bytes in a `u32`.
#[verifier::external_body]
fn xxtea_decrypt(data: &Vec<u8>, key: &str) -> (r: Vec<u8>)
    requires
        0 < data@.len() <= 0xffff_fffc,
    ensures
        r@ == xxtea_decrypted(data@, key@),
{
    xxtea::decrypt_raw(data, key)
}

/// The characters of ASCII bytes.
pub open spec fn ascii_chars(b: Seq<u8>) -> Seq<char> {
    b.map_values(|x: u8| x as char)
}

/// Relies on `String::from_utf8`: ASCII bytes are valid UTF-8, each the
/// character of the same code.
#[verifier::external_body]
fn utf8_string(b: Vec<u8>) -> (r: Result<String, std::string::FromUtf8Error>)
    ensures
        (forall|i: int| 0 <= i < b@.len() ==> b@[i] < 128) ==> r is Ok,
        (forall|i: int| 0 <= i < b@.len() ==> b@[i] < 128) && r is Ok ==> r->Ok_0@
            == ascii_chars(b@),
{
    String::from_utf8(b)
}

/// Whether an answer keeps byte `b`: an ASCII letter or digit, an ASCII
/// punctuation mark, or the space.
pub open spec fn kept_byte(b: u8) -> bool {
    // '0'..='9', 'A'..='Z', 'a'..='z'
    ||| (48 <= b <= 57 || 65 <= b <= 90 || 97 <= b <= 122)
    // '!'..='/', ':'..='@', '['..='`', '{'..='~'
    ||| (33 <= b <= 47 || 58 <= b <= 64 || 91 <= b <= 96 || 123 <= b <= 126)
    // ' '
    ||| b == 32
}

fn is_kept_byte(b: u8) -> (r: bool)
    ensures
        r == kept_byte(b),
{
    (48 <= b && b <= 57) || (65 <= b && b <= 90) || (97 <= b && b <= 122) || (33 <= b && b <= 47)
        || (58 <= b && b <= 64) || (91 <= b && b <= 96) || (123 <= b && b <= 126) || b == 32
}

/// The bytes of `s` that an answer keeps, in order.
pub open spec fn kept(s: Seq<u8>) -> Seq<u8>
    decreases s.len(),
{
    if s.len() == 0 {
        Seq::empty()
    } else if kept_byte(s.last()) {
        kept(s.drop_last()).push(s.last())
    } else {
        kept(s.drop_last())
    }
}

/// The text of a revealed answer: the bytes it keeps, as characters.
pub fn answer_text(plain: Vec<u8>) -> (r: String)
    ensures
        r@ == ascii_chars(kept(plain@)),
{
    let mut out: Vec<u8> = Vec::new();
    let mut i: usize = 0;
    while i < plain.len()
        invariant
            i <= plain@.len(),
            out@ == kept(plain@.take(i as int)),
            forall|j: int| 0 <= j < out@.len() ==> out@[j] < 128,
        decreases plain@.len() - i,
    {
        assert(plain@.take(i as int + 1).drop_last() =~= plain@.take(i as int));
        let b = plain[i];
        if is_kept_byte(b) {
            out.push(b);
        }
        i = i + 1;
    }
    assert(plain@.take(i as int) =~= plain@);
    match utf8_string(out) {
        Ok(s) => s,
        Err(_) => {
            assert(false);
            String::new()
        },
    }
}

/// The answer hidden in the decoded bytes of a ciphertext: nothing for no
/// bytes, else the kept bytes of their decryption.
pub open spec fn revealed(bytes: Seq<u8>) -> Seq<char> {
    if bytes.len() == 0 {
        Seq::empty()
    } else {
        ascii_chars(kept(xxtea_decrypted(bytes, XXTEA_KEY@)))
    }
}

impl XxteaEncrypted {
    /// Reveals an answer: decodes the base64 text, decrypts it with the
    /// exercise key, and keeps the printable ASCII bytes.
    pub fn try_from(ciphertext: String) -> (r: Result<XxteaEncrypted, ExerciseError>)
        requires
            ciphertext@.len() <= 0xffff_fffc,
        ensures
            r matches Err(e) ==> e is Base64,
            r is Err <==> base64_decoded(ciphertext@) is None,
            r matches Ok(x) ==> base64_decoded(ciphertext@) matches Some(b) && x.0@ == revealed(b),
    {
        let bytes = match base64_decode(ciphertext.as_str()) {
            Ok(b) => b,
            Err(e) => return Err(ExerciseError::Base64(e)),
        };
        if bytes.len() == 0 {
            return Ok(XxteaEncrypted(String::new()));
        }
        let plain = xxtea_decrypt(&bytes, XXTEA_KEY);
        Ok(XxteaEncrypted(answer_text(plain)))
    }
}

} // verus!
