//! The wallet's records, as the store keeps and returns them.
//!
//! Scripts, transaction ids and transactions are held as their byte
//! encodings: a script by its bytes, a transaction id by its 32 bytes, a
//! transaction by its consensus encoding.
use vstd::prelude::*;

verus! {

/// Which of the wallet's two descriptors an item belongs to.
#[derive(Clone, Copy, Debug, PartialEq, Eq, Structural, Hash)]
pub enum KeychainKind {
    /// The descriptor of receiving addresses.
    External,
    /// The descriptor of change addresses.
    Internal,
}

/// A block's height and timestamp.
#[derive(Clone, Copy, Debug, PartialEq, Eq, Structural)]
pub struct BlockTime {
    pub height: u32,
    pub timestamp: u64,
}

/// The block that the wallet was last synced to.
#[derive(Clone, Copy, Debug, PartialEq, Eq, Structural)]
pub struct SyncTime {
    pub block_time: BlockTime,
}

/// A reference to an output of a transaction.
#[derive(Debug, Clone, PartialEq, Eq)]
pub struct OutPoint {
    /// The id of the transaction, as its 32 bytes.
    pub txid: Vec<u8>,
    /// The index of the output in that transaction.
    pub vout: u32,
}

/// An output: an amount locked by a script.
#[derive(Debug, Clone, PartialEq, Eq)]
pub struct TxOut {
    pub value: u64,
    pub script_pubkey: Vec<u8>,
}

/// An output that belongs to the wallet.
#[derive(Debug, Clone, PartialEq, Eq)]
pub struct LocalUtxo {
    pub outpoint: OutPoint,
    pub txout: TxOut,
    pub keychain: KeychainKind,
    pub is_spent: bool,
}

/// What the wallet knows of one of its transactions.
#[derive(Debug, Clone, PartialEq, Eq)]
pub struct TransactionDetails {
    /// The consensus encoding of the transaction, where it is known.
    pub transaction: Option<Vec<u8>>,
    /// The id of the transaction, as its 32 bytes.
    pub txid: Vec<u8>,
    pub received: u64,
    pub sent: u64,
    pub fee: Option<u64>,
    /// The block that confirmed it, if one did.
    pub confirmation_time: Option<BlockTime>,
}

/// The mathematical value of a `LocalUtxo`.
pub struct UtxoView {
    pub txid: Seq<u8>,
    pub vout: u32,
    pub value: u64,
    pub script_pubkey: Seq<u8>,
    pub keychain: KeychainKind,
    pub is_spent: bool,
}

/// The mathematical value of a `TransactionDetails`.
pub struct DetailsView {
    pub transaction: Option<Seq<u8>>,
    pub txid: Seq<u8>,
    pub received: u64,
    pub sent: u64,
    pub fee: Option<u64>,
    pub confirmation_time: Option<BlockTime>,
}

/// The contents of an optional byte vector.
pub open spec fn opt_bytes(o: Option<Vec<u8>>) -> Option<Seq<u8>> {
    match o {
        Some(v) => Some(v@),
        None => None,
    }
}

impl View for LocalUtxo {
    type V = UtxoView;

    open spec fn view(&self) -> UtxoView {
        UtxoView {
            txid: self.outpoint.txid@,
            vout: self.outpoint.vout,
            value: self.txout.value,
            script_pubkey: self.txout.script_pubkey@,
            keychain: self.keychain,
            is_spent: self.is_spent,
        }
    }
}

impl View for TransactionDetails {
    type V = DetailsView;

    open spec fn view(&self) -> DetailsView {
        DetailsView {
            transaction: opt_bytes(self.transaction),
            txid: self.txid@,
            received: self.received,
            sent: self.sent,
            fee: self.fee,
            confirmation_time: self.confirmation_time,
        }
    }
}

/// The confirmation of a transaction as the store records it: a height and
/// a timestamp, each of which may be missing.  A confirmation is known only
/// where both are there.
pub open spec fn confirmation_of(height: Option<u32>, timestamp: Option<u64>) -> Option<BlockTime> {
    match (height, timestamp) {
        (Some(h), Some(t)) => Some(BlockTime { height: h, timestamp: t }),
        _ => None,
    }
}

/// Puts a recorded height and timestamp back together into a confirmation.
pub fn confirmation_from_columns(height: Option<u32>, timestamp: Option<u64>) -> (r: Option<BlockTime>)
    ensures
        r == confirmation_of(height, timestamp),
{
    match (height, timestamp) {
        (Some(height), Some(timestamp)) => Some(BlockTime { height, timestamp }),
        _ => None,
    }
}

/// Splits a confirmation into the height and the timestamp that the store
/// records for it.
pub fn confirmation_columns(c: Option<BlockTime>) -> (r: (Option<u64>, Option<u32>))
    ensures
        r == (match c {
            Some(b) => (Some(b.timestamp), Some(b.height)),
            None => (None::<u64>, None::<u32>),
        }),
{
    match c {
        Some(b) => (Some(b.timestamp), Some(b.height)),
        None => (None, None),
    }
}

} // verus!
