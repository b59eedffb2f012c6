use vstd::prelude::*;

use crate::exposition::{decimal, push_decimal};

verus! {

/// Kinds of failure of the wallet front end.
#[derive(Clone, PartialEq, Eq, Debug)]
pub enum ErrorKind {
    /// Secp Error
    Secp,
    /// Filewallet error
    FileWallet(&'static str),
    /// Error when formatting json
    IO,
    /// Error when formatting json
    Format,
    /// Error originating from hyper.
    Hyper,
    /// Error originating from hyper uri parsing.
    Uri,
    /// Attempt to use duplicate transaction id in separate transactions
    DuplicateTransactionId,
    /// Wallet seed already exists
    WalletSeedExists(String),
    /// Wallet seed doesn't exist
    WalletSeedDoesntExist,
    /// Enc/Decryption Error
    Encryption,
    /// BIP 39 word list
    Mnemonic,
    /// Cannot instantiate walllet
    CannotInstantiateWalllet,
    /// Cannot start listening
    ListenError,
    /// Account error
    AccountError(String),
    /// Cannot init wallet
    CannotInitWallet,
    /// Cannot send slate
    CannotSendSlate,
    /// Cannot send invoice
    CannotSendInvoice,
    /// Cannot receive slate
    CannotReceiveSlate,
    /// Cannot finalize slate
    CannotFinalizeSlate,
    /// Cannot derive keychain
    CannotDeriveKeychain,
    /// Cannot repair wallet
    WalletRepairError,
    /// Cannot restore wallet
    WalletRestoreError,
    /// Cannot cancel transaction
    CannotCancelTransaction,
    /// Cannot repost transaction
    CannotRepostTransaction,
    /// Cannot get transaction list
    CannotGetTransactions,
    /// Cannot get outputs list
    CannotGetOutputs,
    /// Cannot get info
    CannotGetInfo,
    /// Command line argument error
    ArgumentError(String),
    /// Other
    GenericError(String),
}


impl ErrorKind {
    /// The text shown for this kind of error.
    pub open spec fn spec_message(&self) -> Seq<char> {
        match self {
            ErrorKind::Secp => "Secp error"@,
            ErrorKind::FileWallet(f0) => "Wallet data error: "@ + f0@,
            ErrorKind::IO => "IO error"@,
            ErrorKind::Format => "Serde JSON error"@,
            ErrorKind::Hyper => "Hyper error"@,
            ErrorKind::Uri => "Uri parsing error"@,
            ErrorKind::DuplicateTransactionId => "Duplicate transaction ID error"@,
            ErrorKind::WalletSeedExists(f0) => "Wallet seed file exists: "@ + f0@,
            ErrorKind::WalletSeedDoesntExist => "Wallet seed doesn't exist error"@,
            ErrorKind::Encryption => "Enc/Decryption error (check password?)"@,
            ErrorKind::Mnemonic => "BIP39 Mnemonic (word list) Error"@,
            ErrorKind::CannotInstantiateWalllet => "Cannot instantiate walllet"@,
            ErrorKind::ListenError => "Cannot start listening"@,
            ErrorKind::AccountError(_) => "Account error"@,
            ErrorKind::CannotInitWallet => "Cannot init wallet"@,
            ErrorKind::CannotSendSlate => "Cannot send slate"@,
            ErrorKind::CannotSendInvoice => "Cannot send invoice"@,
            ErrorKind::CannotReceiveSlate => "Cannot receive slate"@,
            ErrorKind::CannotFinalizeSlate => "Cannot finalize slate"@,
            ErrorKind::CannotDeriveKeychain => "Cannot derive keychain"@,
            ErrorKind::WalletRepairError => "Cannot repair wallet"@,
            ErrorKind::WalletRestoreError => "Cannot restore wallet"@,
            ErrorKind::CannotCancelTransaction => "Cannot cancel transaction"@,
            ErrorKind::CannotRepostTransaction => "Cannot repost transaction"@,
            ErrorKind::CannotGetTransactions => "Cannot get transaction list"@,
            ErrorKind::CannotGetOutputs => "Cannot get outputs list"@,
            ErrorKind::CannotGetInfo => "Cannot get info"@,
            ErrorKind::ArgumentError(f0) => f0@,
            ErrorKind::GenericError(f0) => "Generic error: "@ + f0@,
        }
    }

    /// The text shown for this kind of error.
    pub fn message(&self) -> (r: String)
        ensures
            r@ == self.spec_message(),
    {
        let mut r = String::new();
        match self {
            ErrorKind::Secp => {
                r.append("Secp error");
            },
            ErrorKind::FileWallet(f0) => {
                r.append("Wallet data error: ");
                r.append(f0);
            },
            ErrorKind::IO => {
                r.append("IO error");
            },
            ErrorKind::Format => {
                r.append("Serde JSON error");
            },
            ErrorKind::Hyper => {
                r.append("Hyper error");
            },
            ErrorKind::Uri => {
                r.append("Uri parsing error");
            },
            ErrorKind::DuplicateTransactionId => {
                r.append("Duplicate transaction ID error");
            },
            ErrorKind::WalletSeedExists(f0) => {
                r.append("Wallet seed file exists: ");
                r.append(f0.as_str());
            },
            ErrorKind::WalletSeedDoesntExist => {
                r.append("Wallet seed doesn't exist error");
            },
            ErrorKind::Encryption => {
                r.append("Enc/Decryption error (check password?)");
            },
            ErrorKind::Mnemonic => {
                r.append("BIP39 Mnemonic (word list) Error");
            },
            ErrorKind::CannotInstantiateWalllet => {
                r.append("Cannot instantiate walllet");
            },
            ErrorKind::ListenError => {
                r.append("Cannot start listening");
            },
            ErrorKind::AccountError(_) => {
                r.append("Account error");
            },
            ErrorKind::CannotInitWallet => {
                r.append("Cannot init wallet");
            },
            ErrorKind::CannotSendSlate => {
                r.append("Cannot send slate");
            },
            ErrorKind::CannotSendInvoice => {
                r.append("Cannot send invoice");
            },
            ErrorKind::CannotReceiveSlate => {
                r.append("Cannot receive slate");
            },
            ErrorKind::CannotFinalizeSlate => {
                r.append("Cannot finalize slate");
            },
            ErrorKind::CannotDeriveKeychain => {
                r.append("Cannot derive keychain");
            },
            ErrorKind::WalletRepairError => {
                r.append("Cannot repair wallet");
            },
            ErrorKind::WalletRestoreError => {
                r.append("Cannot restore wallet");
            },
            ErrorKind::CannotCancelTransaction => {
                r.append("Cannot cancel transaction");
            },
            ErrorKind::CannotRepostTransaction => {
                r.append("Cannot repost transaction");
            },
            ErrorKind::CannotGetTransactions => {
                r.append("Cannot get transaction list");
            },
            ErrorKind::CannotGetOutputs => {
                r.append("Cannot get outputs list");
            },
            ErrorKind::CannotGetInfo => {
                r.append("Cannot get info");
            },
            ErrorKind::ArgumentError(f0) => {
                r.append(f0.as_str());
            },
            ErrorKind::GenericError(f0) => {
                r.append("Generic error: ");
                r.append(f0.as_str());
            },
        }
        r
    }
}

} // verus!
