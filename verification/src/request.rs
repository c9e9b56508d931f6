//! The operations of the store, and what they answer.
use vstd::prelude::*;
use crate::error::{ErrorKind, StoreError};
use crate::types::{
    opt_bytes, DetailsView, KeychainKind, LocalUtxo, OutPoint, SyncTime, TransactionDetails,
    UtxoView,
};

verus! {

/// An operation of the store.
#[derive(Debug)]
pub enum Request {
    /// Records `script` as the script at path (`keychain`, `child`).
    SetScriptPubkey { script: Vec<u8>, keychain: KeychainKind, child: u32 },
    /// Records an output of the wallet.
    SetUtxo { utxo: LocalUtxo },
    /// Records an encoded transaction under `txid`, the id that
    /// `Transaction::txid` gives it, replacing the encoding on record for
    /// that id.
    SetRawTx { txid: Vec<u8>, transaction: Vec<u8> },
    /// Records the details of a transaction, replacing those on record for
    /// their id, then, where the details hold an encoded transaction, records
    /// it as `SetRawTx` does under `transaction_txid`, the id that
    /// `Transaction::txid` gives it.
    SetTx { details: TransactionDetails, transaction_txid: Vec<u8> },
    /// Records the last derivation index of a keychain.
    SetLastIndex { keychain: KeychainKind, value: u32 },
    /// Records the sync time.
    SetSyncTime { sync_time: SyncTime },
    /// Forgets the script at a path, answering with it.
    DelScriptPubkeyFromPath { keychain: KeychainKind, child: u32 },
    /// Forgets the path of a script, answering with it.
    DelPathFromScriptPubkey { script: Vec<u8> },
    /// Forgets the output at an outpoint, answering with it.
    DelUtxo { outpoint: OutPoint },
    /// Forgets the encoded transaction of an id, answering with it.
    DelRawTx { txid: Vec<u8> },
    /// Forgets the details of a transaction id (and its encoding, where
    /// `include_raw`), answering with the details.
    DelTx { txid: Vec<u8>, include_raw: bool },
    /// Forgets the last derivation index of a keychain, answering with it.
    DelLastIndex { keychain: KeychainKind },
    /// Forgets the sync time, answering with it.
    DelSyncTime,
    /// Checks a descriptor checksum against the one on record for a
    /// keychain, recording it where there is none.
    CheckDescriptorChecksum { keychain: KeychainKind, bytes: Vec<u8> },
    /// Every script, or every script of a keychain.
    IterScriptPubkeys { keychain: Option<KeychainKind> },
    /// Every output.
    IterUtxos,
    /// Every encoded transaction.
    IterRawTxs,
    /// Every set of details (with their transactions, where `include_raw`).
    IterTxs { include_raw: bool },
    /// The script at a path.
    GetScriptPubkeyFromPath { keychain: KeychainKind, child: u32 },
    /// The path of a script.
    GetPathFromScriptPubkey { script: Vec<u8> },
    /// The output at an outpoint.
    GetUtxo { outpoint: OutPoint },
    /// The encoded transaction of an id.
    GetRawTx { txid: Vec<u8> },
    /// The details of a transaction id (with the transaction, where
    /// `include_raw`).
    GetTx { txid: Vec<u8>, include_raw: bool },
    /// The last derivation index of a keychain.
    GetLastIndex { keychain: KeychainKind },
    /// The sync time.
    GetSyncTime,
    /// Advances the last derivation index of a keychain by one (to 0 where
    /// there is none), answering with the new index.
    IncrementLastIndex { keychain: KeychainKind },
    /// Makes what was written durable; every write already is.
    Flush,
}

/// The mathematical value of an `OutPoint`.
pub struct OutPointView {
    pub txid: Seq<u8>,
    pub vout: u32,
}

impl View for OutPoint {
    type V = OutPointView;

    open spec fn view(&self) -> OutPointView {
        OutPointView { txid: self.txid@, vout: self.vout }
    }
}

/// The mathematical value of a `Request`.
pub enum RequestView {
    SetScriptPubkey { script: Seq<u8>, keychain: KeychainKind, child: u32 },
    SetUtxo { utxo: UtxoView },
    SetRawTx { txid: Seq<u8>, transaction: Seq<u8> },
    SetTx { details: DetailsView, transaction_txid: Seq<u8> },
    SetLastIndex { keychain: KeychainKind, value: u32 },
    SetSyncTime { sync_time: SyncTime },
    DelScriptPubkeyFromPath { keychain: KeychainKind, child: u32 },
    DelPathFromScriptPubkey { script: Seq<u8> },
    DelUtxo { outpoint: OutPointView },
    DelRawTx { txid: Seq<u8> },
    DelTx { txid: Seq<u8>, include_raw: bool },
    DelLastIndex { keychain: KeychainKind },
    DelSyncTime,
    CheckDescriptorChecksum { keychain: KeychainKind, bytes: Seq<u8> },
    IterScriptPubkeys { keychain: Option<KeychainKind> },
    IterUtxos,
    IterRawTxs,
    IterTxs { include_raw: bool },
    GetScriptPubkeyFromPath { keychain: KeychainKind, child: u32 },
    GetPathFromScriptPubkey { script: Seq<u8> },
    GetUtxo { outpoint: OutPointView },
    GetRawTx { txid: Seq<u8> },
    GetTx { txid: Seq<u8>, include_raw: bool },
    GetLastIndex { keychain: KeychainKind },
    GetSyncTime,
    IncrementLastIndex { keychain: KeychainKind },
    Flush,
}

impl View for Request {
    type V = RequestView;

    open spec fn view(&self) -> RequestView {
        match self {
            Request::SetScriptPubkey { script, keychain, child } => RequestView::SetScriptPubkey {
                script: script@,
                keychain: *keychain,
                child: *child,
            },
            Request::SetUtxo { utxo } => RequestView::SetUtxo { utxo: utxo@ },
            Request::SetRawTx { txid, transaction } => RequestView::SetRawTx {
                txid: txid@,
                transaction: transaction@,
            },
            Request::SetTx { details, transaction_txid } => RequestView::SetTx {
                details: details@,
                transaction_txid: transaction_txid@,
            },
            Request::SetLastIndex { keychain, value } => RequestView::SetLastIndex {
                keychain: *keychain,
                value: *value,
            },
            Request::SetSyncTime { sync_time } => RequestView::SetSyncTime { sync_time: *sync_time },
            Request::DelScriptPubkeyFromPath { keychain, child } =>
                RequestView::DelScriptPubkeyFromPath { keychain: *keychain, child: *child },
            Request::DelPathFromScriptPubkey { script } => RequestView::DelPathFromScriptPubkey {
                script: script@,
            },
            Request::DelUtxo { outpoint } => RequestView::DelUtxo { outpoint: outpoint@ },
            Request::DelRawTx { txid } => RequestView::DelRawTx { txid: txid@ },
            Request::DelTx { txid, include_raw } => RequestView::DelTx {
                txid: txid@,
                include_raw: *include_raw,
            },
            Request::DelLastIndex { keychain } => RequestView::DelLastIndex { keychain: *keychain },
            Request::DelSyncTime => RequestView::DelSyncTime,
            Request::CheckDescriptorChecksum { keychain, bytes } =>
                RequestView::CheckDescriptorChecksum { keychain: *keychain, bytes: bytes@ },
            Request::IterScriptPubkeys { keychain } => RequestView::IterScriptPubkeys {
                keychain: *keychain,
            },
            Request::IterUtxos => RequestView::IterUtxos,
            Request::IterRawTxs => RequestView::IterRawTxs,
            Request::IterTxs { include_raw } => RequestView::IterTxs { include_raw: *include_raw },
            Request::GetScriptPubkeyFromPath { keychain, child } =>
                RequestView::GetScriptPubkeyFromPath { keychain: *keychain, child: *child },
            Request::GetPathFromScriptPubkey { script } => RequestView::GetPathFromScriptPubkey {
                script: script@,
            },
            Request::GetUtxo { outpoint } => RequestView::GetUtxo { outpoint: outpoint@ },
            Request::GetRawTx { txid } => RequestView::GetRawTx { txid: txid@ },
            Request::GetTx { txid, include_raw } => RequestView::GetTx {
                txid: txid@,
                include_raw: *include_raw,
            },
            Request::GetLastIndex { keychain } => RequestView::GetLastIndex { keychain: *keychain },
            Request::GetSyncTime => RequestView::GetSyncTime,
            Request::IncrementLastIndex { keychain } => RequestView::IncrementLastIndex {
                keychain: *keychain,
            },
            Request::Flush => RequestView::Flush,
        }
    }
}

/// What an operation answers.
#[derive(Debug, Clone, PartialEq, Eq)]
pub enum Output {
    /// Nothing (writes, checks).
    Unit,
    Script(Option<Vec<u8>>),
    Path(Option<(KeychainKind, u32)>),
    Utxo(Option<LocalUtxo>),
    Transaction(Option<Vec<u8>>),
    Details(Option<TransactionDetails>),
    Index(Option<u32>),
    SyncTime(Option<SyncTime>),
    Scripts(Vec<Vec<u8>>),
    Utxos(Vec<LocalUtxo>),
    Transactions(Vec<Vec<u8>>),
    DetailsList(Vec<TransactionDetails>),
    /// The derivation index that an increment reached.
    NextIndex(u32),
}

/// The mathematical value of an `Output`.
pub enum OutputView {
    Unit,
    Script(Option<Seq<u8>>),
    Path(Option<(KeychainKind, u32)>),
    Utxo(Option<UtxoView>),
    Transaction(Option<Seq<u8>>),
    Details(Option<DetailsView>),
    Index(Option<u32>),
    SyncTime(Option<SyncTime>),
    Scripts(Seq<Seq<u8>>),
    Utxos(Seq<UtxoView>),
    Transactions(Seq<Seq<u8>>),
    DetailsList(Seq<DetailsView>),
    NextIndex(u32),
}

/// The mathematical value of an optional output.
pub open spec fn opt_utxo(o: Option<LocalUtxo>) -> Option<UtxoView> {
    match o {
        Some(u) => Some(u@),
        None => None,
    }
}

/// The mathematical value of optional details.
pub open spec fn opt_details(o: Option<TransactionDetails>) -> Option<DetailsView> {
    match o {
        Some(d) => Some(d@),
        None => None,
    }
}

impl View for Output {
    type V = OutputView;

    open spec fn view(&self) -> OutputView {
        match self {
            Output::Unit => OutputView::Unit,
            Output::Script(s) => OutputView::Script(opt_bytes(*s)),
            Output::Path(p) => OutputView::Path(*p),
            Output::Utxo(u) => OutputView::Utxo(opt_utxo(*u)),
            Output::Transaction(t) => OutputView::Transaction(opt_bytes(*t)),
            Output::Details(d) => OutputView::Details(opt_details(*d)),
            Output::Index(i) => OutputView::Index(*i),
            Output::SyncTime(s) => OutputView::SyncTime(*s),
            Output::Scripts(v) => OutputView::Scripts(v@.map_values(|b: Vec<u8>| b@)),
            Output::Utxos(v) => OutputView::Utxos(v@.map_values(|u: LocalUtxo| u@)),
            Output::Transactions(v) => OutputView::Transactions(v@.map_values(|b: Vec<u8>| b@)),
            Output::DetailsList(v) => OutputView::DetailsList(
                v@.map_values(|d: TransactionDetails| d@),
            ),
            Output::NextIndex(i) => OutputView::NextIndex(*i),
        }
    }
}

/// An answer, with errors taken by their kind.
pub open spec fn answer_view(r: Result<Output, StoreError>) -> Result<OutputView, ErrorKind> {
    match r {
        Ok(o) => Ok(o@),
        Err(e) => Err(e@),
    }
}

} // verus!
