//! The laws of the store: what its operations give, run one after the
//! other against tables whose statements do what `model::apply` says.
pub mod drive;
pub mod indices;
pub mod scripts;
pub mod transactions;
pub mod utxos;
pub mod migration;
pub mod history;
pub mod statements;
