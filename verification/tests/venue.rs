use raydium_amm::account::{AccountMeta, AccountRef, Address};
use raydium_amm::dex::{new_order, OrderKind, OrderSide, SelfTrade, NEVER_EXPIRES};
use raydium_amm::invokers::Invokers;
use serum_dex::instruction::MarketInstruction;
use std::num::NonZeroU64;

fn address(tag: u8) -> Address {
    let mut bytes = [0u8; 32];
    bytes[0] = tag;
    bytes[31] = tag;
    Address { bytes }
}

fn account(tag: u8) -> AccountRef {
    AccountRef { key: address(tag), is_signer: false, is_writable: true }
}

fn writable(tag: u8) -> AccountMeta {
    AccountMeta { pubkey: address(tag), is_signer: false, is_writable: true }
}

fn readonly(tag: u8) -> AccountMeta {
    AccountMeta { pubkey: address(tag), is_signer: false, is_writable: false }
}

fn signing(tag: u8) -> AccountMeta {
    AccountMeta { pubkey: address(tag), is_signer: true, is_writable: false }
}

fn order_metas() -> Vec<AccountMeta> {
    vec![
        writable(1),
        writable(2),
        writable(3),
        writable(4),
        writable(5),
        writable(6),
        writable(7),
        signing(8),
        writable(9),
        writable(10),
        readonly(11),
        readonly(12),
    ]
}

fn order_handles() -> Vec<AccountRef> {
    (0u8..=12).map(account).collect()
}

fn order_terms_bytes() -> Vec<u8> {
    let mut terms = Vec::new();
    terms.extend_from_slice(&[1, 0, 0, 0]);
    terms.extend_from_slice(&[0x39, 0x30, 0, 0, 0, 0, 0, 0]);
    terms.extend_from_slice(&[7, 0, 0, 0, 0, 0, 0, 0]);
    terms.extend_from_slice(&[0, 0, 0, 0, 1, 0, 0, 0]);
    terms.extend_from_slice(&[1, 0, 0, 0]);
    terms.extend_from_slice(&[2, 0, 0, 0]);
    terms.extend_from_slice(&[0xef, 0xcd, 0xab, 0x89, 0x67, 0x45, 0x23, 0x01]);
    terms.extend_from_slice(&[0xff, 0xff]);
    terms
}

fn place(referral: Option<&AccountRef>) -> raydium_amm::invocation::Invocation {
    Invokers::invoke_dex_new_order_v3(
        account(0),
        account(1),
        account(2),
        account(3),
        account(4),
        account(5),
        account(6),
        account(7),
        account(8),
        account(9),
        account(10),
        account(11),
        account(12),
        referral,
        b"amm authority",
        253,
        OrderSide::Ask,
        12345,
        7,
        1 << 32,
        OrderKind::PostOnly,
        0x0123456789abcdef,
        u16::MAX,
    )
    .unwrap()
}

fn replace(referral: Option<&AccountRef>) -> raydium_amm::invocation::Invocation {
    Invokers::invoke_dex_replace_order_by_client_id(
        account(0),
        account(1),
        account(2),
        account(3),
        account(4),
        account(5),
        account(6),
        account(7),
        account(8),
        account(9),
        account(10),
        account(11),
        account(12),
        referral,
        b"amm authority",
        253,
        OrderSide::Ask,
        12345,
        7,
        1 << 32,
        OrderKind::PostOnly,
        0x0123456789abcdef,
        u16::MAX,
    )
    .unwrap()
}

#[test]
fn init_open_orders_names_the_rent_sysvar_by_its_address() {
    let call =
        Invokers::invoke_dex_init_open_orders(account(0), account(1), account(2), account(3), account(4), b"s", 9)
            .unwrap();
    assert_eq!(call.instruction.program_id, address(0));
    assert_eq!(
        call.instruction.accounts,
        vec![
            writable(1),
            signing(2),
            readonly(3),
            AccountMeta {
                pubkey: Address { bytes: solana_program::sysvar::rent::id().to_bytes() },
                is_signer: false,
                is_writable: false
            },
        ]
    );
    assert_eq!(
        solana_program::sysvar::rent::id().to_bytes(),
        [
            6u8, 167, 213, 23, 25, 44, 92, 81, 33, 140, 201, 76, 61, 74, 241, 127, 88, 218, 238, 8, 155, 161,
            253, 68, 227, 219, 217, 138, 0, 0, 0, 0
        ]
    );
    assert_eq!(call.instruction.data, vec![0, 15, 0, 0, 0]);
    assert_eq!(call.accounts, vec![account(0), account(1), account(2), account(3), account(4)]);
    assert_eq!(call.signer.unwrap().signer_seeds(), vec![b"s".to_vec(), vec![9u8]]);
}

#[test]
fn close_open_orders_names_owner_before_destination() {
    let call =
        Invokers::invoke_dex_close_open_orders(account(0), account(1), account(2), account(3), account(4), b"s", 9)
            .unwrap();
    assert_eq!(call.instruction.program_id, address(0));
    assert_eq!(call.instruction.accounts, vec![writable(1), signing(2), writable(3), readonly(4)]);
    assert_eq!(call.instruction.data, vec![0, 14, 0, 0, 0]);
    assert_eq!(call.accounts, vec![account(0), account(1), account(2), account(3), account(4)]);
    assert_eq!(call.signer.unwrap().signer_seeds(), vec![b"s".to_vec(), vec![9u8]]);
}

#[test]
fn new_order_without_referral_has_twelve_entries() {
    let call = place(None);
    assert_eq!(call.instruction.program_id, address(0));
    assert_eq!(call.instruction.accounts, order_metas());
    let mut data = vec![0u8, 10, 0, 0, 0];
    data.extend_from_slice(&order_terms_bytes());
    data.extend_from_slice(&[0xff, 0xff, 0xff, 0xff, 0xff, 0xff, 0xff, 0x7f]);
    assert_eq!(call.instruction.data, data);
    assert_eq!(call.accounts, order_handles());
    assert_eq!(call.signer.unwrap().signer_seeds(), vec![b"amm authority".to_vec(), vec![253u8]]);
}

#[test]
fn new_order_with_referral_appends_it_last() {
    let referral = account(13);
    let call = place(Some(&referral));
    let mut metas = order_metas();
    metas.push(readonly(13));
    assert_eq!(call.instruction.accounts, metas);
    let mut handles = order_handles();
    handles.push(referral);
    assert_eq!(call.accounts, handles);
}

#[test]
fn new_order_cancels_the_resting_order_on_self_trade() {
    let call = place(None);
    assert_eq!(call.instruction.data.len(), 59);
    assert_eq!(call.instruction.data[51..], i64::MAX.to_le_bytes());
    let decoded = MarketInstruction::unpack(&call.instruction.data[..51]).unwrap();
    match decoded {
        MarketInstruction::NewOrderV3(order) => {
            assert_eq!(order.side, serum_dex::matching::Side::Ask);
            assert_eq!(order.limit_price, NonZeroU64::new(12345).unwrap());
            assert_eq!(order.max_coin_qty, NonZeroU64::new(7).unwrap());
            assert_eq!(order.max_native_pc_qty_including_fees, NonZeroU64::new(1 << 32).unwrap());
            assert_eq!(order.self_trade_behavior, serum_dex::instruction::SelfTradeBehavior::CancelProvide);
            assert_eq!(order.order_type, serum_dex::matching::OrderType::PostOnly);
            assert_eq!(order.client_order_id, 0x0123456789abcdef);
            assert_eq!(order.limit, u16::MAX);
        }
        other => panic!("decoded as {:?}", other),
    }
}

#[test]
fn new_order_encodes_each_side_and_kind() {
    let cases = [
        (OrderSide::Bid, OrderKind::Limit, 0u8, 0u8),
        (OrderSide::Bid, OrderKind::ImmediateOrCancel, 0, 1),
        (OrderSide::Ask, OrderKind::PostOnly, 1, 2),
    ];
    for (side, kind, side_code, kind_code) in cases {
        let call = Invokers::invoke_dex_new_order_v3(
            account(0),
            account(1),
            account(2),
            account(3),
            account(4),
            account(5),
            account(6),
            account(7),
            account(8),
            account(9),
            account(10),
            account(11),
            account(12),
            None,
            b"s",
            1,
            side,
            1,
            1,
            1,
            kind,
            0,
            1,
        )
        .unwrap();
        let data = call.instruction.data;
        assert_eq!(data.len(), 59);
        assert_eq!(data[51..], NEVER_EXPIRES.to_le_bytes());
        assert_eq!(data[5..9], [side_code, 0, 0, 0]);
        assert_eq!(data[33..37], [1, 0, 0, 0]);
        assert_eq!(data[37..41], [kind_code, 0, 0, 0]);
    }
}

#[test]
fn replace_order_carries_its_own_code_and_never_expires() {
    let call = replace(None);
    assert_eq!(call.instruction.program_id, address(0));
    assert_eq!(call.instruction.accounts, order_metas());
    let mut data = vec![0u8, 19, 0, 0, 0];
    data.extend_from_slice(&order_terms_bytes());
    data.extend_from_slice(&[0xff, 0xff, 0xff, 0xff, 0xff, 0xff, 0xff, 0x7f]);
    assert_eq!(call.instruction.data, data);
    assert_eq!(call.accounts, order_handles());
    assert_eq!(call.signer.unwrap().signer_seeds(), vec![b"amm authority".to_vec(), vec![253u8]]);
    assert_eq!(NEVER_EXPIRES, i64::MAX);
}

#[test]
fn replace_order_names_the_accounts_of_a_new_order() {
    let referral = account(13);
    for referral in [None, Some(&referral)] {
        let placed = place(referral);
        let replaced = replace(referral);
        assert_eq!(placed.instruction.program_id, replaced.instruction.program_id);
        assert_eq!(placed.instruction.accounts, replaced.instruction.accounts);
        assert_eq!(placed.accounts, replaced.accounts);
        assert_eq!(placed.instruction.data.len(), replaced.instruction.data.len());
        assert_eq!(placed.instruction.data[5..], replaced.instruction.data[5..]);
        assert_eq!(placed.instruction.data[..5], [0, 10, 0, 0, 0]);
        assert_eq!(replaced.instruction.data[..5], [0, 19, 0, 0, 0]);
        assert_eq!(placed.signer.unwrap().signer_seeds(), replaced.signer.unwrap().signer_seeds());
    }
}

#[test]
fn replace_order_instruction_takes_policy_and_expiry_as_given() {
    let referral = address(13);
    let built = Invokers::replace_order_by_client_id(
        &address(1),
        &address(2),
        &address(3),
        &address(4),
        &address(5),
        &address(6),
        &address(7),
        &address(8),
        &address(9),
        &address(10),
        &address(11),
        &address(12),
        Some(&referral),
        &address(0),
        OrderSide::Bid,
        1,
        2,
        OrderKind::ImmediateOrCancel,
        3,
        SelfTrade::AbortTransaction,
        4,
        5,
        -2,
    )
    .unwrap();
    let mut metas = order_metas();
    metas.push(readonly(13));
    assert_eq!(built.program_id, address(0));
    assert_eq!(built.accounts, metas);
    let mut data = vec![0u8, 19, 0, 0, 0];
    data.extend_from_slice(&[0, 0, 0, 0]);
    data.extend_from_slice(&1u64.to_le_bytes());
    data.extend_from_slice(&2u64.to_le_bytes());
    data.extend_from_slice(&5u64.to_le_bytes());
    data.extend_from_slice(&[2, 0, 0, 0]);
    data.extend_from_slice(&[1, 0, 0, 0]);
    data.extend_from_slice(&3u64.to_le_bytes());
    data.extend_from_slice(&[4, 0]);
    data.extend_from_slice(&(-2i64).to_le_bytes());
    assert_eq!(built.data, data);
}

#[test]
fn cancel_order_encodes_side_and_order_id() {
    let call = Invokers::invoke_dex_cancel_order_v2(
        account(0),
        account(1),
        account(2),
        account(3),
        account(4),
        account(5),
        account(6),
        b"s",
        9,
        OrderSide::Ask,
        0x0102030405060708090a0b0c0d0e0f10,
    )
    .unwrap();
    assert_eq!(call.instruction.program_id, address(0));
    assert_eq!(
        call.instruction.accounts,
        vec![writable(1), writable(2), writable(3), writable(4), signing(5), writable(6)]
    );
    assert_eq!(
        call.instruction.data,
        vec![0, 11, 0, 0, 0, 1, 0, 0, 0, 16, 15, 14, 13, 12, 11, 10, 9, 8, 7, 6, 5, 4, 3, 2, 1]
    );
    assert_eq!(
        call.accounts,
        vec![account(0), account(1), account(2), account(3), account(4), account(5), account(6)]
    );
    assert_eq!(call.signer.unwrap().signer_seeds(), vec![b"s".to_vec(), vec![9u8]]);
}

#[test]
fn cancel_by_client_ids_carries_eight_slots() {
    let ids = [1u64, 2, 3, 0, 0, u64::MAX, 0x0102030405060708, 0];
    let call = Invokers::invoke_dex_cancel_orders_by_client_order_ids(
        account(0),
        account(1),
        account(2),
        account(3),
        account(4),
        account(5),
        account(6),
        b"s",
        9,
        ids,
    )
    .unwrap();
    assert_eq!(call.instruction.program_id, address(0));
    assert_eq!(
        call.instruction.accounts,
        vec![writable(1), writable(2), writable(3), writable(4), signing(5), writable(6)]
    );
    let mut data = vec![0u8, 18, 0, 0, 0];
    for id in ids {
        data.extend_from_slice(&id.to_le_bytes());
    }
    assert_eq!(data.len(), 69);
    assert_eq!(call.instruction.data, data);
    assert_eq!(
        call.accounts,
        vec![account(0), account(1), account(2), account(3), account(4), account(5), account(6)]
    );
    assert_eq!(call.signer.unwrap().signer_seeds(), vec![b"s".to_vec(), vec![9u8]]);
}

#[test]
fn cancel_by_client_ids_accepts_ids_that_match_nothing() {
    let call = Invokers::invoke_dex_cancel_orders_by_client_order_ids(
        account(0),
        account(1),
        account(2),
        account(3),
        account(4),
        account(5),
        account(6),
        b"s",
        9,
        [0u64; 8],
    );
    assert!(call.is_ok());
    assert_eq!(call.unwrap().instruction.data.len(), 69);
}

fn settle(referrer: Option<&AccountRef>) -> raydium_amm::invocation::Invocation {
    Invokers::invoke_dex_settle_funds(
        account(0),
        account(1),
        account(2),
        account(3),
        account(4),
        account(5),
        account(6),
        account(7),
        account(8),
        account(9),
        referrer,
        b"s",
        9,
    )
    .unwrap()
}

#[test]
fn settle_funds_without_referrer_passes_ten_accounts() {
    let call = settle(None);
    assert_eq!(call.accounts.len(), 10);
    assert_eq!(call.accounts, (0u8..=9).map(account).collect::<Vec<_>>());
    assert_eq!(call.instruction.program_id, address(0));
    assert_eq!(
        call.instruction.accounts,
        vec![
            writable(1),
            writable(2),
            signing(3),
            writable(4),
            writable(5),
            writable(6),
            writable(7),
            readonly(8),
            readonly(9),
        ]
    );
    assert_eq!(call.instruction.data, vec![0, 5, 0, 0, 0]);
    assert_eq!(call.signer.unwrap().signer_seeds(), vec![b"s".to_vec(), vec![9u8]]);
}

#[test]
fn settle_funds_with_referrer_passes_it_as_the_eleventh() {
    let referrer = account(10);
    let call = settle(Some(&referrer));
    assert_eq!(call.accounts.len(), 11);
    assert_eq!(call.accounts[..10], settle(None).accounts[..]);
    assert_eq!(call.accounts[10], referrer);
    assert_eq!(call.instruction.accounts.len(), 10);
    assert_eq!(call.instruction.accounts[..9], settle(None).instruction.accounts[..]);
    assert_eq!(call.instruction.accounts[9], writable(10));
}

#[test]
fn new_order_then_settle_share_the_open_orders_account_and_vaults() {
    let order = place(None);
    let settled = Invokers::invoke_dex_settle_funds(
        account(0),
        account(1),
        account(2),
        account(8),
        account(9),
        account(10),
        account(20),
        account(21),
        account(22),
        account(11),
        None,
        b"amm authority",
        253,
    )
    .unwrap();
    assert_eq!(order.instruction.accounts[0], settled.instruction.accounts[0]);
    assert_eq!(order.instruction.accounts[1], settled.instruction.accounts[1]);
    assert_eq!(order.instruction.accounts[7], settled.instruction.accounts[2]);
    assert_eq!(order.instruction.accounts[8], settled.instruction.accounts[3]);
    assert_eq!(order.instruction.accounts[9], settled.instruction.accounts[4]);
}

#[test]
fn new_order_instruction_takes_policy_and_expiry_as_given() {
    let built = new_order(
        &address(1),
        &address(2),
        &address(3),
        &address(4),
        &address(5),
        &address(6),
        &address(7),
        &address(8),
        &address(9),
        &address(10),
        &address(11),
        &address(12),
        Some(address(13)),
        &address(0),
        OrderSide::Bid,
        1,
        2,
        OrderKind::ImmediateOrCancel,
        3,
        SelfTrade::AbortTransaction,
        4,
        5,
        -2,
    )
    .unwrap();
    let mut metas = order_metas();
    metas.push(readonly(13));
    assert_eq!(built.program_id, address(0));
    assert_eq!(built.accounts, metas);
    let mut data = vec![0u8, 10, 0, 0, 0];
    data.extend_from_slice(&[0, 0, 0, 0]);
    data.extend_from_slice(&1u64.to_le_bytes());
    data.extend_from_slice(&2u64.to_le_bytes());
    data.extend_from_slice(&5u64.to_le_bytes());
    data.extend_from_slice(&[2, 0, 0, 0]);
    data.extend_from_slice(&[1, 0, 0, 0]);
    data.extend_from_slice(&3u64.to_le_bytes());
    data.extend_from_slice(&[4, 0]);
    data.extend_from_slice(&(-2i64).to_le_bytes());
    assert_eq!(built.data, data);
}

#[test]
fn new_order_with_the_smallest_expiry_encodes_its_sign_bit() {
    let built = new_order(
        &address(1),
        &address(2),
        &address(3),
        &address(4),
        &address(5),
        &address(6),
        &address(7),
        &address(8),
        &address(9),
        &address(10),
        &address(11),
        &address(12),
        None,
        &address(0),
        OrderSide::Ask,
        1,
        1,
        OrderKind::Limit,
        0,
        SelfTrade::DecrementTake,
        0,
        1,
        i64::MIN,
    )
    .unwrap();
    assert_eq!(built.accounts, order_metas());
    assert_eq!(built.data.len(), 59);
    assert_eq!(built.data[51..], [0, 0, 0, 0, 0, 0, 0, 0x80]);
    assert_eq!(built.data[33..37], [0, 0, 0, 0]);
}
