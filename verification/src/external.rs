//! The outside items that the library calls or carries, with the contracts
//! that the library relies on.  Each contract below states what the named
//! outside function does, as its source shows it; nothing here is proved.
use vstd::prelude::*;

verus! {

/// An error of the SQLite bindings, carried through unchanged.
#[verifier::external_type_specification]
#[verifier::external_body]
pub struct ExSqliteError(rusqlite::Error);

/// An error of the JSON codec, carried through unchanged.
#[verifier::external_type_specification]
#[verifier::external_body]
pub struct ExJsonError(serde_json::Error);

/// An error of the bitcoin consensus decoder, carried through unchanged.
#[verifier::external_type_specification]
#[verifier::external_body]
pub struct ExEncodeError(bitcoin::consensus::encode::Error);

/// Every character of `s` is an ASCII letter.
pub open spec fn ascii_letters(s: Seq<char>) -> bool {
    forall|i: int| 0 <= i < s.len() ==> ('a' <= #[trigger] s[i] <= 'z' || 'A' <= s[i] <= 'Z')
}

/// `s` between two double quotes: a JSON string with nothing to escape.
pub open spec fn json_quoted(s: Seq<char>) -> Seq<char> {
    seq!['"'] + s + seq!['"']
}

/// `t` is a double quote, ASCII letters, and a double quote.
pub open spec fn is_quoted_letters(t: Seq<char>) -> bool {
    &&& t.len() >= 2
    &&& t[0] == '"'
    &&& t[t.len() - 1] == '"'
    &&& ascii_letters(t.subrange(1, t.len() - 1))
}

/// The string that `serde_json::from_str::<String>` reads from a JSON
/// text, or `None` where it fails.
pub uninterp spec fn json_string_value(text: Seq<char>) -> Option<Seq<char>>;

/// Whether `bitcoin::consensus::deserialize::<Transaction>` accepts the
/// bytes.
pub uninterp spec fn is_transaction_encoding(raw: Seq<u8>) -> bool;

/// `serde_json::to_string` on a string slice of ASCII letters.  It writes
/// the string as a JSON string into a `Vec`, which cannot fail; ASCII
/// letters need no escape, so the text is the string between double
/// quotes.
#[verifier::external_body]
pub(crate) fn json_encode_str(s: &str) -> (r: Result<String, serde_json::Error>)
    requires
        ascii_letters(s@),
    ensures
        r is Ok,
        r matches Ok(t) ==> t@ == json_quoted(s@),
{
    serde_json::to_string(s)
}

/// `serde_json::from_str::<String>`.  A double quote, ASCII letters and a
/// double quote read back as those letters.  What else it accepts (other
/// escapes, surrounding white space) is left to the name
/// `json_string_value`, and which error it gives is not stated.
#[verifier::external_body]
pub(crate) fn json_decode_str(text: &str) -> (r: Result<String, serde_json::Error>)
    ensures
        r is Ok <==> json_string_value(text@) is Some,
        r matches Ok(s) ==> json_string_value(text@) == Some(s@),
        r is Ok || !is_quoted_letters(text@),
        r matches Ok(s) ==> (is_quoted_letters(text@) ==> s@ == text@.subrange(1, text@.len() - 1)),
{
    serde_json::from_str::<String>(text)
}

/// `bitcoin::consensus::deserialize::<Txid>`: it reads exactly 32 bytes
/// and fails unless they are all of the input; the id holds those bytes in
/// order.
#[verifier::external_body]
pub(crate) fn decode_txid(bytes: &[u8]) -> (r: Result<Vec<u8>, bitcoin::consensus::encode::Error>)
    ensures
        r is Ok <==> bytes@.len() == 32,
        r matches Ok(t) ==> t@ == bytes@,
{
    match bitcoin::consensus::deserialize::<bitcoin::Txid>(bytes) {
        Ok(t) => Ok(bitcoin::hashes::Hash::into_inner(t).to_vec()),
        Err(e) => Err(e),
    }
}

/// `bitcoin::consensus::deserialize::<Transaction>`, keeping only whether
/// it succeeds and its error.
#[verifier::external_body]
pub(crate) fn check_transaction(raw: &[u8]) -> (r: Result<(), bitcoin::consensus::encode::Error>)
    ensures
        r is Ok <==> is_transaction_encoding(raw@),
{
    match bitcoin::consensus::deserialize::<bitcoin::Transaction>(raw) {
        Ok(_) => Ok(()),
        Err(e) => Err(e),
    }
}

} // verus!
