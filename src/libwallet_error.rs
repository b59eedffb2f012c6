use vstd::prelude::*;

use crate::exposition::{decimal, push_decimal};

verus! {

/// Kinds of failure of the wallet library.
#[derive(Clone, PartialEq, Eq, Debug)]
pub enum ErrorKind {
    /// Not enough funds
    NotEnoughFunds {
        /// available funds
        available: u64,
        /// Display friendly
        available_disp: String,
        /// Needed funds
        needed: u64,
        /// Display friendly
        needed_disp: String,
    },
    /// Fee dispute
    FeeDispute {
        /// sender fee
        sender_fee: u64,
        /// display friendly
        sender_fee_disp: String,
        /// recipient fee
        recipient_fee: u64,
        /// display friendly
        recipient_fee_disp: String,
    },
    /// Fee Exceeds amount
    FeeExceedsAmount {
        /// sender amount
        sender_amount: u64,
        /// display friendly
        sender_amount_disp: String,
        /// recipient fee
        recipient_fee: u64,
        /// display friendly
        recipient_fee_disp: String,
    },
    /// API Error
    ClientCallback(String),
    /// Secp Error
    Secp,
    /// Callback implementation error conversion
    CallbackImpl(&'static str),
    /// Wallet backend error
    Backend(String),
    /// Callback implementation error conversion
    Restore,
    /// An error in the format of the JSON structures exchanged by the wallet
    Format(String),
    /// Error when contacting a node through its API
    Node,
    /// Error contacting wallet API
    WalletComms(String),
    /// Error originating from hyper.
    Hyper,
    /// Error originating from hyper uri parsing.
    Uri,
    /// Signature error
    Signature(&'static str),
    /// Attempt to use duplicate transaction id in separate transactions
    DuplicateTransactionId,
    /// Wallet seed already exists
    WalletSeedExists,
    /// Wallet seed doesn't exist
    WalletSeedDoesntExist,
    /// Wallet seed doesn't exist
    WalletSeedDecryption,
    /// Transaction doesn't exist
    TransactionDoesntExist(String),
    /// Transaction already rolled back
    TransactionNotCancellable(String),
    /// Cancellation error
    TransactionCancellationError(&'static str),
    /// Cancellation error
    TransactionDumpError(&'static str),
    /// Attempt to repost a transaction that's already confirmed
    TransactionAlreadyConfirmed,
    /// Transaction has already been received
    TransactionAlreadyReceived(String),
    /// Attempt to repost a transaction that's not completed and stored
    TransactionBuildingNotCompleted(u32),
    /// Invalid BIP-32 Depth
    InvalidBIP32Depth,
    /// Attempt to add an account that exists
    AccountLabelAlreadyExists(String),
    /// Cannot send slate
    SlateSendError,
    /// Cannot receive slate
    SlateReceiveError,
    /// Cannot finalize slate
    SlateFinalizeError,
    /// Cannot add output to slate
    SlateAddOutputError,
    /// Cannot add input to slate
    SlateAddInputError,
    /// Cannot verify slate message
    SlateMessageVerificationError,
    /// Cannot get stored transaction
    CannotGetStoredTransaction,
    /// Cannot store transaction
    CannotStoreTransaction,
    /// Cannot save transaction in file
    CannotDumpTransaction,
    /// Cannot derive key
    CannotDeriveKeys,
    /// Cannot restore wallet
    WalletRestoreError,
    /// Reference unknown account label
    UnknownAccountLabel(String),
    /// Other
    GenericError(String),
}


impl ErrorKind {
    /// The text shown for this kind of error.
    pub open spec fn spec_message(&self) -> Seq<char> {
        match self {
            ErrorKind::NotEnoughFunds { needed_disp, available_disp, .. } => "Not enough funds. Required: "@ + needed_disp@ + ", Available: "@ + available_disp@,
            ErrorKind::FeeDispute { sender_fee_disp, recipient_fee_disp, .. } => "Fee dispute: sender fee "@ + sender_fee_disp@ + ", recipient fee "@ + recipient_fee_disp@,
            ErrorKind::FeeExceedsAmount { sender_amount_disp, recipient_fee, .. } => "Fee exceeds amount: sender amount "@ + sender_amount_disp@ + ", recipient fee "@ + decimal(recipient_fee as nat),
            ErrorKind::ClientCallback(f0) => "Client Callback Error: "@ + f0@,
            ErrorKind::Secp => "Secp error"@,
            ErrorKind::CallbackImpl(_) => "Trait Implementation error"@,
            ErrorKind::Backend(f0) => "Wallet store error: "@ + f0@,
            ErrorKind::Restore => "Restore Error"@,
            ErrorKind::Format(f0) => "JSON format error: "@ + f0@,
            ErrorKind::Node => "Node API error"@,
            ErrorKind::WalletComms(f0) => "Wallet Communication Error: "@ + f0@,
            ErrorKind::Hyper => "Hyper error"@,
            ErrorKind::Uri => "Uri parsing error"@,
            ErrorKind::Signature(_) => "Signature error"@,
            ErrorKind::DuplicateTransactionId => "Duplicate transaction ID error"@,
            ErrorKind::WalletSeedExists => "Wallet seed exists error"@,
            ErrorKind::WalletSeedDoesntExist => "Wallet seed doesn't exist error"@,
            ErrorKind::WalletSeedDecryption => "Wallet seed decryption error"@,
            ErrorKind::TransactionDoesntExist(f0) => "Transaction "@ + f0@ + " doesn't exist"@,
            ErrorKind::TransactionNotCancellable(f0) => "Transaction "@ + f0@ + " cannot be cancelled"@,
            ErrorKind::TransactionCancellationError(f0) => "Cancellation Error: "@ + f0@,
            ErrorKind::TransactionDumpError(f0) => "Tx dump Error: "@ + f0@,
            ErrorKind::TransactionAlreadyConfirmed => "Transaction already confirmed error"@,
            ErrorKind::TransactionAlreadyReceived(f0) => "Transaction "@ + f0@ + " has already been received"@,
            ErrorKind::TransactionBuildingNotCompleted(f0) => "Transaction building not completed: "@ + decimal(f0 as nat),
            ErrorKind::InvalidBIP32Depth => "Invalid BIP32 Depth (must be 1 or greater)"@,
            ErrorKind::AccountLabelAlreadyExists(f0) => "Account Label '"@ + f0@ + "' already exists"@,
            ErrorKind::SlateSendError => "Cannot send slate"@,
            ErrorKind::SlateReceiveError => "Cannot receive slate"@,
            ErrorKind::SlateFinalizeError => "Cannot finalize slate"@,
            ErrorKind::SlateAddOutputError => "Cannot add output to slate"@,
            ErrorKind::SlateAddInputError => "Cannot add input to slate"@,
            ErrorKind::SlateMessageVerificationError => "Cannot verify slate message"@,
            ErrorKind::CannotGetStoredTransaction => "Cannot get stored transaction"@,
            ErrorKind::CannotStoreTransaction => "Cannot store transaction"@,
            ErrorKind::CannotDumpTransaction => "Cannot save transaction in file"@,
            ErrorKind::CannotDeriveKeys => "Cannot derive key"@,
            ErrorKind::WalletRestoreError => "Cannot restore wallet"@,
            ErrorKind::UnknownAccountLabel(f0) => "Unknown Account Label '"@ + f0@ + "'"@,
            ErrorKind::GenericError(f0) => "Generic error: "@ + f0@,
        }
    }

    /// The text shown for this kind of error.
    pub fn message(&self) -> (r: String)
        ensures
            r@ == self.spec_message(),
    {
        let mut r = String::new();
        match self {
            ErrorKind::NotEnoughFunds { needed_disp, available_disp, .. } => {
                r.append("Not enough funds. Required: ");
                r.append(needed_disp.as_str());
                r.append(", Available: ");
                r.append(available_disp.as_str());
            },
            ErrorKind::FeeDispute { sender_fee_disp, recipient_fee_disp, .. } => {
                r.append("Fee dispute: sender fee ");
                r.append(sender_fee_disp.as_str());
                r.append(", recipient fee ");
                r.append(recipient_fee_disp.as_str());
            },
            ErrorKind::FeeExceedsAmount { sender_amount_disp, recipient_fee, .. } => {
                r.append("Fee exceeds amount: sender amount ");
                r.append(sender_amount_disp.as_str());
                r.append(", recipient fee ");
                push_decimal(&mut r, *recipient_fee as u64);
            },
            ErrorKind::ClientCallback(f0) => {
                r.append("Client Callback Error: ");
                r.append(f0.as_str());
            },
            ErrorKind::Secp => {
                r.append("Secp error");
            },
            ErrorKind::CallbackImpl(_) => {
                r.append("Trait Implementation error");
            },
            ErrorKind::Backend(f0) => {
                r.append("Wallet store error: ");
                r.append(f0.as_str());
            },
            ErrorKind::Restore => {
                r.append("Restore Error");
            },
            ErrorKind::Format(f0) => {
                r.append("JSON format error: ");
                r.append(f0.as_str());
            },
            ErrorKind::Node => {
                r.append("Node API error");
            },
            ErrorKind::WalletComms(f0) => {
                r.append("Wallet Communication Error: ");
                r.append(f0.as_str());
            },
            ErrorKind::Hyper => {
                r.append("Hyper error");
            },
            ErrorKind::Uri => {
                r.append("Uri parsing error");
            },
            ErrorKind::Signature(_) => {
                r.append("Signature error");
            },
            ErrorKind::DuplicateTransactionId => {
                r.append("Duplicate transaction ID error");
            },
            ErrorKind::WalletSeedExists => {
                r.append("Wallet seed exists error");
            },
            ErrorKind::WalletSeedDoesntExist => {
                r.append("Wallet seed doesn't exist error");
            },
            ErrorKind::WalletSeedDecryption => {
                r.append("Wallet seed decryption error");
            },
            ErrorKind::TransactionDoesntExist(f0) => {
                r.append("Transaction ");
                r.append(f0.as_str());
                r.append(" doesn't exist");
            },
            ErrorKind::TransactionNotCancellable(f0) => {
                r.append("Transaction ");
                r.append(f0.as_str());
                r.append(" cannot be cancelled");
            },
            ErrorKind::TransactionCancellationError(f0) => {
                r.append("Cancellation Error: ");
                r.append(f0);
            },
            ErrorKind::TransactionDumpError(f0) => {
                r.append("Tx dump Error: ");
                r.append(f0);
            },
            ErrorKind::TransactionAlreadyConfirmed => {
                r.append("Transaction already confirmed error");
            },
            ErrorKind::TransactionAlreadyReceived(f0) => {
                r.append("Transaction ");
                r.append(f0.as_str());
                r.append(" has already been received");
            },
            ErrorKind::TransactionBuildingNotCompleted(f0) => {
                r.append("Transaction building not completed: ");
                push_decimal(&mut r, *f0 as u64);
            },
            ErrorKind::InvalidBIP32Depth => {
                r.append("Invalid BIP32 Depth (must be 1 or greater)");
            },
            ErrorKind::AccountLabelAlreadyExists(f0) => {
                r.append("Account Label '");
                r.append(f0.as_str());
                r.append("' already exists");
            },
            ErrorKind::SlateSendError => {
                r.append("Cannot send slate");
            },
            ErrorKind::SlateReceiveError => {
                r.append("Cannot receive slate");
            },
            ErrorKind::SlateFinalizeError => {
                r.append("Cannot finalize slate");
            },
            ErrorKind::SlateAddOutputError => {
                r.append("Cannot add output to slate");
            },
            ErrorKind::SlateAddInputError => {
                r.append("Cannot add input to slate");
            },
            ErrorKind::SlateMessageVerificationError => {
                r.append("Cannot verify slate message");
            },
            ErrorKind::CannotGetStoredTransaction => {
                r.append("Cannot get stored transaction");
            },
            ErrorKind::CannotStoreTransaction => {
                r.append("Cannot store transaction");
            },
            ErrorKind::CannotDumpTransaction => {
                r.append("Cannot save transaction in file");
            },
            ErrorKind::CannotDeriveKeys => {
                r.append("Cannot derive key");
            },
            ErrorKind::WalletRestoreError => {
                r.append("Cannot restore wallet");
            },
            ErrorKind::UnknownAccountLabel(f0) => {
                r.append("Unknown Account Label '");
                r.append(f0.as_str());
                r.append("'");
            },
            ErrorKind::GenericError(f0) => {
                r.append("Generic error: ");
                r.append(f0.as_str());
            },
        }
        r
    }
}

} // verus!
