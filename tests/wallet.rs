use grin_metrics::file_adapter::FileWalletCommAdapter;
use grin_metrics::libwallet_error;
use grin_metrics::null_facade;
use grin_metrics::wallet_error;

#[test]
fn file_adapter_is_asynchronous_only() {
    let a = FileWalletCommAdapter::new();
    assert!(!a.supports_sync());
}

#[test]
fn error_kinds_compare_by_content() {
    assert_eq!(
        libwallet_error::ErrorKind::Format("x".to_string()),
        libwallet_error::ErrorKind::Format("x".to_string())
    );
    assert_ne!(
        libwallet_error::ErrorKind::SlateSendError,
        libwallet_error::ErrorKind::SlateReceiveError
    );
    assert_eq!(
        wallet_error::ErrorKind::FileWallet("seed"),
        wallet_error::ErrorKind::FileWallet("seed").clone()
    );
}

#[test]
fn null_facade_accepts_every_call() {
    for _ in 0..10_000 {
        null_facade::register_int_gauge("g", "help");
        null_facade::register_gauge("f", "help");
        null_facade::register_int_counter("c", "help");
        null_facade::int_gauge_inc("g");
        null_facade::int_gauge_dec("g");
        null_facade::int_gauge_add("g", 3);
        null_facade::int_gauge_sub("g", 3);
        null_facade::int_gauge_set("g", 3);
        null_facade::int_counter_inc("c");
    }
    null_facade::start();
}

#[test]
fn library_error_messages() {
    let k = libwallet_error::ErrorKind::NotEnoughFunds {
        available: 5,
        available_disp: "0.000000005".to_string(),
        needed: 9,
        needed_disp: "0.000000009".to_string(),
    };
    assert_eq!(k.message(), "Not enough funds. Required: 0.000000009, Available: 0.000000005");
    let k = libwallet_error::ErrorKind::FeeExceedsAmount {
        sender_amount: 1,
        sender_amount_disp: "1 grin".to_string(),
        recipient_fee: 250,
        recipient_fee_disp: "250 nano".to_string(),
    };
    assert_eq!(k.message(), "Fee exceeds amount: sender amount 1 grin, recipient fee 250");
    assert_eq!(
        libwallet_error::ErrorKind::TransactionBuildingNotCompleted(7).message(),
        "Transaction building not completed: 7"
    );
    assert_eq!(
        libwallet_error::ErrorKind::Signature("bad").message(),
        "Signature error"
    );
    assert_eq!(libwallet_error::ErrorKind::SlateSendError.message(), "Cannot send slate");
    assert_eq!(
        libwallet_error::ErrorKind::AccountLabelAlreadyExists("main".to_string()).message(),
        "Account Label 'main' already exists"
    );
}

#[test]
fn front_end_error_messages() {
    assert_eq!(
        wallet_error::ErrorKind::FileWallet("no seed").message(),
        "Wallet data error: no seed"
    );
    assert_eq!(wallet_error::ErrorKind::IO.message(), "IO error");
    assert_eq!(
        wallet_error::ErrorKind::ArgumentError("bad arg".to_string()).message(),
        "bad arg"
    );
    assert_eq!(
        wallet_error::ErrorKind::CannotInstantiateWalllet.message(),
        "Cannot instantiate walllet"
    );
}
