//! How keychains, transaction ids and transactions are written into the
//! store and read back from it.
use vstd::prelude::*;
use crate::error::{StoreError, ErrorKind};
use crate::external::{
    ascii_letters, check_transaction, decode_txid, is_quoted_letters, is_transaction_encoding,
    json_decode_str, json_encode_str, json_quoted, json_string_value,
};
use crate::types::KeychainKind;

verus! {

/// The name of a keychain.
pub open spec fn keychain_name(k: KeychainKind) -> Seq<char> {
    match k {
        KeychainKind::External => "External"@,
        KeychainKind::Internal => "Internal"@,
    }
}

/// The text that the store records for a keychain: its name as a JSON
/// string.
pub open spec fn keychain_text(k: KeychainKind) -> Seq<char> {
    json_quoted(keychain_name(k))
}

/// The keychain that a recorded text names, or the error that reading it
/// gives.  The text is read as a JSON string; the string must be the name of
/// a keychain.
pub open spec fn keychain_from_text(t: Seq<char>) -> Result<KeychainKind, ErrorKind> {
    let value = if is_quoted_letters(t) {
        Some(t.subrange(1, t.len() - 1))
    } else {
        json_string_value(t)
    };
    match value {
        Some(s) => if s == "External"@ {
            Ok(KeychainKind::External)
        } else if s == "Internal"@ {
            Ok(KeychainKind::Internal)
        } else {
            Err(ErrorKind::UnknownKeychain(s))
        },
        None => Err(ErrorKind::Json),
    }
}

/// A keychain read back, with errors taken by their kind.
pub open spec fn keychain_result(r: Result<KeychainKind, StoreError>) -> Result<KeychainKind, ErrorKind> {
    match r {
        Ok(k) => Ok(k),
        Err(e) => Err(e@),
    }
}

/// The two names are ASCII letters and differ.
pub proof fn lemma_keychain_names()
    ensures
        ascii_letters("External"@),
        ascii_letters("Internal"@),
        "External"@ != "Internal"@,
        "External"@.len() == 8,
        "Internal"@.len() == 8,
{
    reveal_strlit("External");
    reveal_strlit("Internal");
    assert("External"@[0] != "Internal"@[0]);
}

/// The name of a keychain.
fn keychain_name_str(k: KeychainKind) -> (r: &'static str)
    ensures
        r@ == keychain_name(k),
{
    match k {
        KeychainKind::External => "External",
        KeychainKind::Internal => "Internal",
    }
}

/// The text that the store records for a keychain.
pub fn encode_keychain(k: KeychainKind) -> (r: String)
    ensures
        r@ == keychain_text(k),
{
    proof {
        lemma_keychain_names();
    }
    let name = keychain_name_str(k);
    match json_encode_str(name) {
        Ok(t) => t,
        Err(_) => {
            // The encoder does not fail on a string.
            assert(false);
            String::new()
        },
    }
}

/// Reads a keychain back from the text that the store recorded.
pub fn decode_keychain(text: &str) -> (r: Result<KeychainKind, StoreError>)
    ensures
        keychain_result(r) == keychain_from_text(text@),
{
    match json_decode_str(text) {
        Ok(s) => {
            let external = "External".to_owned();
            let internal = "Internal".to_owned();
            if s == external {
                Ok(KeychainKind::External)
            } else if s == internal {
                Ok(KeychainKind::Internal)
            } else {
                Err(StoreError::UnknownKeychain(s))
            }
        },
        Err(e) => Err(StoreError::Json(e)),
    }
}

/// A keychain reads back as itself.
pub proof fn lemma_keychain_round_trip(k: KeychainKind)
    ensures
        keychain_from_text(keychain_text(k)) == Ok::<KeychainKind, ErrorKind>(k),
{
    lemma_keychain_names();
    let t = keychain_text(k);
    assert(t.subrange(1, t.len() - 1) =~= keychain_name(k));
    assert(is_quoted_letters(t));
}

/// Distinct keychains are recorded as distinct texts.
pub proof fn lemma_keychain_text_injective(a: KeychainKind, b: KeychainKind)
    ensures
        keychain_text(a) == keychain_text(b) ==> a == b,
{
    lemma_keychain_round_trip(a);
    lemma_keychain_round_trip(b);
}

/// A transaction id read back from recorded bytes: the bytes themselves,
/// which must be 32.
pub open spec fn txid_from_bytes(b: Seq<u8>) -> Result<Seq<u8>, ErrorKind> {
    if b.len() == 32 {
        Ok(b)
    } else {
        Err(ErrorKind::Encode)
    }
}

/// Reads a transaction id from recorded bytes.
pub fn decode_txid_bytes(b: &[u8]) -> (r: Result<Vec<u8>, StoreError>)
    ensures
        match r {
            Ok(t) => txid_from_bytes(b@) == Ok::<Seq<u8>, ErrorKind>(t@),
            Err(e) => txid_from_bytes(b@) == Err::<Seq<u8>, ErrorKind>(e@),
        },
{
    match decode_txid(b) {
        Ok(t) => Ok(t),
        Err(e) => Err(StoreError::Encode(e)),
    }
}

/// A transaction read back from recorded bytes: the bytes themselves, which
/// must decode as a transaction.
pub open spec fn transaction_from_bytes(b: Seq<u8>) -> Result<Seq<u8>, ErrorKind> {
    if is_transaction_encoding(b) {
        Ok(b)
    } else {
        Err(ErrorKind::Encode)
    }
}

/// Reads a transaction from recorded bytes.
pub fn decode_transaction(b: Vec<u8>) -> (r: Result<Vec<u8>, StoreError>)
    ensures
        match r {
            Ok(t) => transaction_from_bytes(b@) == Ok::<Seq<u8>, ErrorKind>(t@),
            Err(e) => transaction_from_bytes(b@) == Err::<Seq<u8>, ErrorKind>(e@),
        },
{
    match check_transaction(b.as_slice()) {
        Ok(()) => Ok(b),
        Err(e) => Err(StoreError::Encode(e)),
    }
}

} // verus!
