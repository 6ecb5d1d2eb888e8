use raydium_amm::authority::SigningAuthority;
use raydium_amm::account::{AccountMeta, Address};
use raydium_amm::log::{DepositLog, InitLog, LogType, SwapBaseInLog, SwapBaseOutLog, WithdrawLog};

#[test]
fn derive_twice_gives_the_same_seed_set() {
    let first = SigningAuthority::derive(b"amm authority", 255);
    let second = SigningAuthority::derive(b"amm authority", 255);
    assert_eq!(first.signer_seeds(), second.signer_seeds());
    assert_eq!(first.signer_seeds(), vec![b"amm authority".to_vec(), vec![255u8]]);
}

#[test]
fn derive_with_another_nonce_gives_another_seed_set() {
    let first = SigningAuthority::derive(b"amm authority", 255);
    let second = SigningAuthority::derive(b"amm authority", 254);
    assert_ne!(first.signer_seeds(), second.signer_seeds());
}

#[test]
fn derive_from_an_empty_seed_keeps_two_seeds() {
    let authority = SigningAuthority::derive(b"", 0);
    assert_eq!(authority.signer_seeds(), vec![Vec::<u8>::new(), vec![0u8]]);
}

#[test]
fn log_type_tags_run_from_zero_to_four() {
    assert_eq!(LogType::Init.into_u8(), 0);
    assert_eq!(LogType::Deposit.into_u8(), 1);
    assert_eq!(LogType::Withdraw.into_u8(), 2);
    assert_eq!(LogType::SwapBaseIn.into_u8(), 3);
    assert_eq!(LogType::SwapBaseOut.into_u8(), 4);
}

#[test]
fn log_type_round_trips_through_its_tag() {
    for tag in 0u8..=4 {
        assert_eq!(LogType::from_u8(tag).into_u8(), tag);
    }
    assert_eq!(LogType::from_u8(3), LogType::SwapBaseIn);
}

#[test]
fn account_entries_are_writable_or_read_only() {
    let key = Address { bytes: [7u8; 32] };
    assert_eq!(AccountMeta::new(key, true), AccountMeta { pubkey: key, is_signer: true, is_writable: true });
    assert_eq!(AccountMeta::new(key, false), AccountMeta { pubkey: key, is_signer: false, is_writable: true });
    assert_eq!(
        AccountMeta::new_readonly(key, true),
        AccountMeta { pubkey: key, is_signer: true, is_writable: false }
    );
    assert_eq!(
        AccountMeta::new_readonly(key, false),
        AccountMeta { pubkey: key, is_signer: false, is_writable: false }
    );
}

#[test]
fn event_records_start_out_empty() {
    assert_eq!(InitLog::default().market.bytes, [0u8; 32]);
    assert_eq!(DepositLog::default().calc_pnl_x, 0);
    assert_eq!(WithdrawLog::default().out_pc, 0);
    assert_eq!(SwapBaseInLog::default().out_amount, 0);
    assert_eq!(SwapBaseOutLog::default().deduct_in, 0);
    assert_eq!(raydium_amm::log::LOG_SIZE, 256);
}
