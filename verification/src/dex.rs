//! The order-book venue's instructions and their wire form.

use crate::account::{
    meta_views, readonly, writable, AccountMeta, Address, DescriptorView, OperationDescriptor,
};
use crate::bridge::{from_outside, outside_key};
use crate::wire::put;
use serum_dex::error::DexError;
use std::num::NonZeroU64;
use vstd::bytes::{
    lemma_auto_spec_u128_to_from_le_bytes, lemma_auto_spec_u16_to_from_le_bytes,
    lemma_auto_spec_u32_to_from_le_bytes, lemma_auto_spec_u64_to_from_le_bytes,
    spec_u128_to_le_bytes, spec_u16_to_le_bytes, spec_u32_to_le_bytes, spec_u64_to_le_bytes,
    u16_to_le_bytes, u32_to_le_bytes, u64_to_le_bytes,
};
use vstd::prelude::*;

verus! {

/// The venue's order side.
#[verifier::external_type_specification]
#[verifier::external_body]
pub struct ExSide(serum_dex::matching::Side);

/// The venue's order type.
#[verifier::external_type_specification]
#[verifier::external_body]
pub struct ExOrderType(serum_dex::matching::OrderType);

/// The venue's self-trade behavior.
#[verifier::external_type_specification]
#[verifier::external_body]
pub struct ExSelfTradeBehavior(serum_dex::instruction::SelfTradeBehavior);

/// The side of an order.
#[derive(Clone, Copy, Debug, PartialEq, Eq)]
pub enum OrderSide {
    /// Buy.
    Bid,
    /// Sell.
    Ask,
}

/// How an order meets the book.
#[derive(Clone, Copy, Debug, PartialEq, Eq)]
pub enum OrderKind {
    /// Rests on the book for what is not matched.
    Limit,
    /// Matches what it can and drops the rest.
    ImmediateOrCancel,
    /// Rests on the book or is refused; never matches.
    PostOnly,
}

/// What the venue does when an order would match its owner's own resting
/// order.
#[derive(Clone, Copy, Debug, PartialEq, Eq)]
pub enum SelfTrade {
    /// Reduce both orders without a trade.
    DecrementTake,
    /// Cancel the resting order.
    CancelProvide,
    /// Fail the whole transaction.
    AbortTransaction,
}

impl OrderSide {
    /// The number that stands for the side on the wire.
    pub open spec fn code(self) -> u32 {
        match self {
            OrderSide::Bid => 0u32,
            OrderSide::Ask => 1u32,
        }
    }

    /// The number that stands for the side on the wire.
    pub fn wire_code(self) -> (code: u32)
        ensures
            code == self.code(),
    {
        match self {
            OrderSide::Bid => 0u32,
            OrderSide::Ask => 1u32,
        }
    }
}

impl OrderKind {
    /// The number that stands for the kind on the wire.
    pub open spec fn code(self) -> u32 {
        match self {
            OrderKind::Limit => 0u32,
            OrderKind::ImmediateOrCancel => 1u32,
            OrderKind::PostOnly => 2u32,
        }
    }

    /// The number that stands for the kind on the wire.
    pub fn wire_code(self) -> (code: u32)
        ensures
            code == self.code(),
    {
        match self {
            OrderKind::Limit => 0u32,
            OrderKind::ImmediateOrCancel => 1u32,
            OrderKind::PostOnly => 2u32,
        }
    }
}

impl SelfTrade {
    /// The number that stands for the policy on the wire.
    pub open spec fn code(self) -> u32 {
        match self {
            SelfTrade::DecrementTake => 0u32,
            SelfTrade::CancelProvide => 1u32,
            SelfTrade::AbortTransaction => 2u32,
        }
    }

    /// The number that stands for the policy on the wire.
    pub fn wire_code(self) -> (code: u32)
        ensures
            code == self.code(),
    {
        match self {
            SelfTrade::DecrementTake => 0u32,
            SelfTrade::CancelProvide => 1u32,
            SelfTrade::AbortTransaction => 2u32,
        }
    }
}

/// The expiry of an order that never expires.
pub const NEVER_EXPIRES: i64 = 0x7fff_ffff_ffff_ffffi64;

/// The address of the rent sysvar.
pub open spec fn rent_sysvar_id() -> Seq<u8> {
    seq![
        6u8, 167, 213, 23, 25, 44, 92, 81, 33, 140, 201, 76, 61, 74, 241, 127,
        88, 218, 238, 8, 155, 161, 253, 68, 227, 219, 217, 138, 0, 0, 0, 0,
    ]
}

/// The head of every venue instruction: the version byte 0 and the
/// operation code in four little-endian bytes.
pub open spec fn operation_head(code: u32) -> Seq<u8> {
    seq![0u8] + spec_u32_to_le_bytes(code)
}

/// The terms of an order on the wire, each number in little-endian bytes.
pub open spec fn order_terms(
    side: OrderSide,
    limit_price: u64,
    max_coin_qty: u64,
    max_native_pc_qty_including_fees: u64,
    self_trade_behavior: SelfTrade,
    order_type: OrderKind,
    client_order_id: u64,
    limit: u16,
) -> Seq<u8> {
    spec_u32_to_le_bytes(side.code()) + spec_u64_to_le_bytes(limit_price) + spec_u64_to_le_bytes(
        max_coin_qty,
    ) + spec_u64_to_le_bytes(max_native_pc_qty_including_fees) + spec_u32_to_le_bytes(
        self_trade_behavior.code(),
    ) + spec_u32_to_le_bytes(order_type.code()) + spec_u64_to_le_bytes(client_order_id)
        + spec_u16_to_le_bytes(limit)
}

/// The accounts of an order, placed or replaced: twelve in fixed order, and
/// the referral account behind them where there is one.
pub open spec fn order_accounts(
    market: Seq<u8>,
    open_orders: Seq<u8>,
    request_queue: Seq<u8>,
    event_queue: Seq<u8>,
    bids: Seq<u8>,
    asks: Seq<u8>,
    payer: Seq<u8>,
    owner: Seq<u8>,
    coin_vault: Seq<u8>,
    pc_vault: Seq<u8>,
    token_program: Seq<u8>,
    rent: Seq<u8>,
    referral: Option<Seq<u8>>,
) -> Seq<crate::account::AccountView> {
    let fixed = seq![
        writable(market, false),
        writable(open_orders, false),
        writable(request_queue, false),
        writable(event_queue, false),
        writable(bids, false),
        writable(asks, false),
        writable(payer, false),
        readonly(owner, true),
        writable(coin_vault, false),
        writable(pc_vault, false),
        readonly(token_program, false),
        readonly(rent, false),
    ];
    match referral {
        Some(key) => fixed.push(readonly(key, false)),
        None => fixed,
    }
}

/// The 64 bits of an expiry in two's complement.
pub open spec fn expiry_bits(max_ts: i64) -> u64 {
    if max_ts >= 0 {
        max_ts as u64
    } else {
        (max_ts + 0x1_0000_0000_0000_0000) as u64
    }
}

/// The data of `ReplaceOrderByClientId`: the operation code 19, the terms
/// of the order, and its expiry in eight little-endian bytes.
pub open spec fn replace_order_data(terms: Seq<u8>, max_ts: i64) -> Seq<u8> {
    operation_head(19) + terms + spec_u64_to_le_bytes(expiry_bits(max_ts))
}

/// The data of `CancelOrdersByClientIds`: the operation code 18 and the
/// eight ids, each in eight little-endian bytes.
pub open spec fn cancel_by_client_ids_data(ids: Seq<u64>) -> Seq<u8>
    recommends
        ids.len() == 8,
{
    operation_head(18) + spec_u64_to_le_bytes(ids[0]) + spec_u64_to_le_bytes(ids[1])
        + spec_u64_to_le_bytes(ids[2]) + spec_u64_to_le_bytes(ids[3]) + spec_u64_to_le_bytes(
        ids[4],
    ) + spec_u64_to_le_bytes(ids[5]) + spec_u64_to_le_bytes(ids[6]) + spec_u64_to_le_bytes(ids[7])
}

/// The accounts of a cancellation: six in fixed order.
pub open spec fn cancel_accounts(
    market: Seq<u8>,
    bids: Seq<u8>,
    asks: Seq<u8>,
    open_orders: Seq<u8>,
    owner: Seq<u8>,
    event_queue: Seq<u8>,
) -> Seq<crate::account::AccountView> {
    seq![
        writable(market, false),
        writable(bids, false),
        writable(asks, false),
        writable(open_orders, false),
        readonly(owner, true),
        writable(event_queue, false),
    ]
}

/// The wire form has fixed widths: a head of 5 bytes, the terms of an order
/// in 46, a cancellation by the venue's id in 25 in all and one by client
/// ids, with its eight slots, in 69.
pub proof fn wire_widths(
    code: u32,
    side: OrderSide,
    limit_price: u64,
    max_coin_qty: u64,
    max_native_pc_qty_including_fees: u64,
    self_trade_behavior: SelfTrade,
    order_type: OrderKind,
    client_order_id: u64,
    limit: u16,
    order_id: u128,
    ids: Seq<u64>,
)
    ensures
        operation_head(code).len() == 5,
        operation_head(code)[0] == 0,
        order_terms(
            side,
            limit_price,
            max_coin_qty,
            max_native_pc_qty_including_fees,
            self_trade_behavior,
            order_type,
            client_order_id,
            limit,
        ).len() == 46,
        cancel_order_data(side, order_id).len() == 25,
        cancel_by_client_ids_data(ids).len() == 69,
{
    lemma_auto_spec_u16_to_from_le_bytes();
    lemma_auto_spec_u32_to_from_le_bytes();
    lemma_auto_spec_u64_to_from_le_bytes();
    lemma_auto_spec_u128_to_from_le_bytes();
}

/// The wire form keeps every term of an order: two orders with the same
/// encoded terms agree in side, price, both quantities, self-trade policy,
/// kind, client order id and limit.
pub proof fn order_terms_determine_the_order(
    side_a: OrderSide,
    limit_price_a: u64,
    max_coin_qty_a: u64,
    max_native_pc_qty_a: u64,
    self_trade_a: SelfTrade,
    order_type_a: OrderKind,
    client_order_id_a: u64,
    limit_a: u16,
    side_b: OrderSide,
    limit_price_b: u64,
    max_coin_qty_b: u64,
    max_native_pc_qty_b: u64,
    self_trade_b: SelfTrade,
    order_type_b: OrderKind,
    client_order_id_b: u64,
    limit_b: u16,
)
    requires
        order_terms(
            side_a,
            limit_price_a,
            max_coin_qty_a,
            max_native_pc_qty_a,
            self_trade_a,
            order_type_a,
            client_order_id_a,
            limit_a,
        ) == order_terms(
            side_b,
            limit_price_b,
            max_coin_qty_b,
            max_native_pc_qty_b,
            self_trade_b,
            order_type_b,
            client_order_id_b,
            limit_b,
        ),
    ensures
        side_a == side_b,
        limit_price_a == limit_price_b,
        max_coin_qty_a == max_coin_qty_b,
        max_native_pc_qty_a == max_native_pc_qty_b,
        self_trade_a == self_trade_b,
        order_type_a == order_type_b,
        client_order_id_a == client_order_id_b,
        limit_a == limit_b,
{
    lemma_auto_spec_u16_to_from_le_bytes();
    lemma_auto_spec_u32_to_from_le_bytes();
    lemma_auto_spec_u64_to_from_le_bytes();
    let a = order_terms(
        side_a,
        limit_price_a,
        max_coin_qty_a,
        max_native_pc_qty_a,
        self_trade_a,
        order_type_a,
        client_order_id_a,
        limit_a,
    );
    let b = order_terms(
        side_b,
        limit_price_b,
        max_coin_qty_b,
        max_native_pc_qty_b,
        self_trade_b,
        order_type_b,
        client_order_id_b,
        limit_b,
    );
    assert(a.subrange(0, 4) =~= spec_u32_to_le_bytes(side_a.code()));
    assert(b.subrange(0, 4) =~= spec_u32_to_le_bytes(side_b.code()));
    assert(a.subrange(4, 12) =~= spec_u64_to_le_bytes(limit_price_a));
    assert(b.subrange(4, 12) =~= spec_u64_to_le_bytes(limit_price_b));
    assert(a.subrange(12, 20) =~= spec_u64_to_le_bytes(max_coin_qty_a));
    assert(b.subrange(12, 20) =~= spec_u64_to_le_bytes(max_coin_qty_b));
    assert(a.subrange(20, 28) =~= spec_u64_to_le_bytes(max_native_pc_qty_a));
    assert(b.subrange(20, 28) =~= spec_u64_to_le_bytes(max_native_pc_qty_b));
    assert(a.subrange(28, 32) =~= spec_u32_to_le_bytes(self_trade_a.code()));
    assert(b.subrange(28, 32) =~= spec_u32_to_le_bytes(self_trade_b.code()));
    assert(a.subrange(32, 36) =~= spec_u32_to_le_bytes(order_type_a.code()));
    assert(b.subrange(32, 36) =~= spec_u32_to_le_bytes(order_type_b.code()));
    assert(a.subrange(36, 44) =~= spec_u64_to_le_bytes(client_order_id_a));
    assert(b.subrange(36, 44) =~= spec_u64_to_le_bytes(client_order_id_b));
    assert(a.subrange(44, 46) =~= spec_u16_to_le_bytes(limit_a));
    assert(b.subrange(44, 46) =~= spec_u16_to_le_bytes(limit_b));
    assert(side_a.code() == side_b.code());
    assert(self_trade_a.code() == self_trade_b.code());
    assert(order_type_a.code() == order_type_b.code());
}

/// Replacing an order and placing one send the same order: for the same
/// terms and expiry the data of the two have the same length and agree in
/// every byte behind the head, and the heads differ, in the operation code.
pub proof fn replace_order_differs_from_new_order_in_the_code(terms: Seq<u8>, max_ts: i64)
    ensures
        replace_order_data(terms, max_ts).len() == new_order_data(terms, max_ts).len(),
        replace_order_data(terms, max_ts).len() == 5 + terms.len() + 8,
        forall|i: int|
            5 <= i < 5 + terms.len() + 8 ==> replace_order_data(terms, max_ts)[i]
                == #[trigger] new_order_data(terms, max_ts)[i],
        new_order_data(terms, max_ts).subrange(0, 5) == operation_head(10),
        replace_order_data(terms, max_ts).subrange(0, 5) == operation_head(19),
        operation_head(10) != operation_head(19),
        new_order_data(terms, max_ts).subrange(5, 5 + terms.len() as int) == terms,
        new_order_data(terms, max_ts).subrange(
            5 + terms.len() as int,
            5 + terms.len() as int + 8,
        ) == spec_u64_to_le_bytes(expiry_bits(max_ts)),
{
    lemma_auto_spec_u32_to_from_le_bytes();
    lemma_auto_spec_u64_to_from_le_bytes();
    let placed = new_order_data(terms, max_ts);
    let replaced = replace_order_data(terms, max_ts);
    assert(placed.subrange(0, 5) =~= operation_head(10));
    assert(replaced.subrange(0, 5) =~= operation_head(19));
    assert(placed.subrange(5, 5 + terms.len() as int) =~= terms);
    assert(placed.subrange(5 + terms.len() as int, 5 + terms.len() as int + 8)
        =~= spec_u64_to_le_bytes(expiry_bits(max_ts)));
    if operation_head(10) == operation_head(19) {
        assert(operation_head(10).subrange(1, 5) =~= spec_u32_to_le_bytes(10));
        assert(operation_head(19).subrange(1, 5) =~= spec_u32_to_le_bytes(19));
    }
}

/// Starts the data of a venue instruction with its head.
fn start_operation(code: u32) -> (data: Vec<u8>)
    ensures
        data@ == operation_head(code),
{
    let mut data: Vec<u8> = Vec::new();
    data.push(0u8);
    put(&mut data, u32_to_le_bytes(code));
    proof {
        assert(data@ =~= operation_head(code));
    }
    data
}

/// Encodes the terms of an order.
pub fn pack_order_terms(
    side: OrderSide,
    limit_price: u64,
    max_coin_qty: u64,
    max_native_pc_qty_including_fees: u64,
    self_trade_behavior: SelfTrade,
    order_type: OrderKind,
    client_order_id: u64,
    limit: u16,
) -> (terms: Vec<u8>)
    ensures
        terms@ == order_terms(
            side,
            limit_price,
            max_coin_qty,
            max_native_pc_qty_including_fees,
            self_trade_behavior,
            order_type,
            client_order_id,
            limit,
        ),
{
    let mut terms: Vec<u8> = u32_to_le_bytes(side.wire_code());
    put(&mut terms, u64_to_le_bytes(limit_price));
    put(&mut terms, u64_to_le_bytes(max_coin_qty));
    put(&mut terms, u64_to_le_bytes(max_native_pc_qty_including_fees));
    put(&mut terms, u32_to_le_bytes(self_trade_behavior.wire_code()));
    put(&mut terms, u32_to_le_bytes(order_type.wire_code()));
    put(&mut terms, u64_to_le_bytes(client_order_id));
    put(&mut terms, u16_to_le_bytes(limit));
    terms
}

/// The bits of an expiry.
fn bits_of_expiry(max_ts: i64) -> (bits: u64)
    ensures
        bits == expiry_bits(max_ts),
{
    if max_ts >= 0 {
        max_ts as u64
    } else {
        let below: u64 = (-(max_ts + 1)) as u64;
        u64::MAX - below
    }
}

/// Encodes `ReplaceOrderByClientId` over the encoded terms of the order.
pub fn pack_replace_order(terms: Vec<u8>, max_ts: i64) -> (data: Vec<u8>)
    ensures
        data@ == replace_order_data(terms@, max_ts),
{
    let mut data = start_operation(19);
    put(&mut data, terms);
    put(&mut data, u64_to_le_bytes(bits_of_expiry(max_ts)));
    data
}

/// Encodes `CancelOrdersByClientIds` over its eight id slots.
pub fn pack_cancel_by_client_ids(client_order_ids: &[u64; 8]) -> (data: Vec<u8>)
    ensures
        data@ == cancel_by_client_ids_data(client_order_ids@),
{
    let mut data = start_operation(18);
    put(&mut data, u64_to_le_bytes(client_order_ids[0]));
    put(&mut data, u64_to_le_bytes(client_order_ids[1]));
    put(&mut data, u64_to_le_bytes(client_order_ids[2]));
    put(&mut data, u64_to_le_bytes(client_order_ids[3]));
    put(&mut data, u64_to_le_bytes(client_order_ids[4]));
    put(&mut data, u64_to_le_bytes(client_order_ids[5]));
    put(&mut data, u64_to_le_bytes(client_order_ids[6]));
    put(&mut data, u64_to_le_bytes(client_order_ids[7]));
    data
}

/// Builds the `CancelOrdersByClientIds` instruction over the accounts of a
/// cancellation. It carries eight id slots, whatever they hold, in 69 bytes
/// of data, and building never fails.
pub fn cancel_orders_by_client_order_ids(
    program: &Address,
    market: &Address,
    bids: &Address,
    asks: &Address,
    open_orders: &Address,
    owner: &Address,
    event_queue: &Address,
    client_order_ids: [u64; 8],
) -> (built: Result<OperationDescriptor, DexError>)
    ensures
        built is Ok,
        built matches Ok(ix) ==> ix@ == (DescriptorView {
            program_id: program@,
            accounts: cancel_accounts(market@, bids@, asks@, open_orders@, owner@, event_queue@),
            data: cancel_by_client_ids_data(client_order_ids@),
        }),
        built matches Ok(ix) ==> ix@.data.len() == 69,
{
    let data = pack_cancel_by_client_ids(&client_order_ids);
    let accounts = vec![
        AccountMeta::new(*market, false),
        AccountMeta::new(*bids, false),
        AccountMeta::new(*asks, false),
        AccountMeta::new(*open_orders, false),
        AccountMeta::new_readonly(*owner, true),
        AccountMeta::new(*event_queue, false),
    ];
    proof {
        assert(meta_views(accounts@) =~= cancel_accounts(
            market@,
            bids@,
            asks@,
            open_orders@,
            owner@,
            event_queue@,
        ));
        lemma_auto_spec_u32_to_from_le_bytes();
        lemma_auto_spec_u64_to_from_le_bytes();
    }
    Ok(OperationDescriptor { program_id: *program, accounts, data })
}

/// The `InitOpenOrders` instruction: the operation code 15 over the
/// open-orders account, its owner, the market and the rent sysvar, and the
/// market's authority behind them where there is one.
pub open spec fn init_open_orders_instruction(
    program: Seq<u8>,
    open_orders: Seq<u8>,
    owner: Seq<u8>,
    market: Seq<u8>,
    market_authority: Option<Seq<u8>>,
) -> DescriptorView {
    let fixed = seq![
        writable(open_orders, false),
        readonly(owner, true),
        readonly(market, false),
        readonly(rent_sysvar_id(), false),
    ];
    DescriptorView {
        program_id: program,
        accounts: match market_authority {
            Some(key) => fixed.push(readonly(key, true)),
            None => fixed,
        },
        data: operation_head(15),
    }
}

/// The `CloseOpenOrders` instruction: the operation code 14.
pub open spec fn close_open_orders_instruction(
    program: Seq<u8>,
    open_orders: Seq<u8>,
    owner: Seq<u8>,
    destination: Seq<u8>,
    market: Seq<u8>,
) -> DescriptorView {
    DescriptorView {
        program_id: program,
        accounts: seq![
            writable(open_orders, false),
            readonly(owner, true),
            writable(destination, false),
            readonly(market, false),
        ],
        data: operation_head(14),
    }
}

/// The `SettleFunds` instruction: the operation code 5 over nine accounts
/// in fixed order, and the referrer's wallet behind them where there is
/// one.
pub open spec fn settle_funds_instruction(
    program: Seq<u8>,
    market: Seq<u8>,
    token_program: Seq<u8>,
    open_orders: Seq<u8>,
    owner: Seq<u8>,
    coin_vault: Seq<u8>,
    coin_wallet: Seq<u8>,
    pc_vault: Seq<u8>,
    pc_wallet: Seq<u8>,
    referrer_pc_wallet: Option<Seq<u8>>,
    vault_signer: Seq<u8>,
) -> DescriptorView {
    let fixed = seq![
        writable(market, false),
        writable(open_orders, false),
        readonly(owner, true),
        writable(coin_vault, false),
        writable(pc_vault, false),
        writable(coin_wallet, false),
        writable(pc_wallet, false),
        readonly(vault_signer, false),
        readonly(token_program, false),
    ];
    DescriptorView {
        program_id: program,
        accounts: match referrer_pc_wallet {
            Some(key) => fixed.push(writable(key, false)),
            None => fixed,
        },
        data: operation_head(5),
    }
}

/// The data of `CancelOrderV2`: the operation code 11, the side and the
/// venue's order id in sixteen little-endian bytes.
pub open spec fn cancel_order_data(side: OrderSide, order_id: u128) -> Seq<u8> {
    operation_head(11) + spec_u32_to_le_bytes(side.code()) + spec_u128_to_le_bytes(order_id)
}

/// The data of `NewOrderV3` as the venue's builder writes it: the operation
/// code 10 and the terms of the order.
pub open spec fn new_order_terms_data(terms: Seq<u8>) -> Seq<u8> {
    operation_head(10) + terms
}

/// The data of `NewOrderV3`: the operation code 10, the terms of the order,
/// and its expiry in eight little-endian bytes.
pub open spec fn new_order_data(terms: Seq<u8>, max_ts: i64) -> Seq<u8> {
    operation_head(10) + terms + spec_u64_to_le_bytes(expiry_bits(max_ts))
}

/// The variant of `serum_dex::matching::Side` of the same name.
#[verifier::external_body]
pub(crate) fn outside_side(side: OrderSide) -> serum_dex::matching::Side {
    match side {
        OrderSide::Bid => serum_dex::matching::Side::Bid,
        OrderSide::Ask => serum_dex::matching::Side::Ask,
    }
}

/// The variant of `serum_dex::matching::OrderType` of the same name.
#[verifier::external_body]
pub(crate) fn outside_order_type(order_type: OrderKind) -> serum_dex::matching::OrderType {
    match order_type {
        OrderKind::Limit => serum_dex::matching::OrderType::Limit,
        OrderKind::ImmediateOrCancel => serum_dex::matching::OrderType::ImmediateOrCancel,
        OrderKind::PostOnly => serum_dex::matching::OrderType::PostOnly,
    }
}

/// The variant of `serum_dex::instruction::SelfTradeBehavior` of the same
/// name.
#[verifier::external_body]
pub(crate) fn outside_self_trade(
    behavior: SelfTrade,
) -> serum_dex::instruction::SelfTradeBehavior {
    match behavior {
        SelfTrade::DecrementTake => serum_dex::instruction::SelfTradeBehavior::DecrementTake,
        SelfTrade::CancelProvide => serum_dex::instruction::SelfTradeBehavior::CancelProvide,
        SelfTrade::AbortTransaction => serum_dex::instruction::SelfTradeBehavior::AbortTransaction,
    }
}

/// `serum_dex::instruction::init_open_orders`: always the `InitOpenOrders`
/// instruction, which names the rent sysvar by its fixed address.
#[verifier::external_body]
pub(crate) fn init_open_orders(
    program: &Address,
    open_orders: &Address,
    owner: &Address,
    market: &Address,
    market_authority: Option<Address>,
) -> (built: Result<OperationDescriptor, DexError>)
    ensures
        built is Ok,
        built matches Ok(ix) ==> ix@ == init_open_orders_instruction(
            program@,
            open_orders@,
            owner@,
            market@,
            match market_authority {
                Some(key) => Some(key@),
                None => None,
            },
        ),
{
    let (program, open_orders) = (outside_key(program), outside_key(open_orders));
    let (owner, market) = (outside_key(owner), outside_key(market));
    let authority = market_authority.map(|key| outside_key(&key));
    serum_dex::instruction::init_open_orders(&program, &open_orders, &owner, &market, authority.as_ref())
        .map(from_outside)
}

/// `serum_dex::instruction::close_open_orders`: always the
/// `CloseOpenOrders` instruction.
#[verifier::external_body]
pub(crate) fn close_open_orders(
    program: &Address,
    open_orders: &Address,
    owner: &Address,
    destination: &Address,
    market: &Address,
) -> (built: Result<OperationDescriptor, DexError>)
    ensures
        built is Ok,
        built matches Ok(ix) ==> ix@ == close_open_orders_instruction(
            program@,
            open_orders@,
            owner@,
            destination@,
            market@,
        ),
{
    let (program, open_orders) = (outside_key(program), outside_key(open_orders));
    let (owner, market) = (outside_key(owner), outside_key(market));
    let destination = outside_key(destination);
    serum_dex::instruction::close_open_orders(&program, &open_orders, &owner, &destination, &market)
        .map(from_outside)
}

/// `serum_dex::instruction::new_order`: always the `NewOrderV3`
/// instruction over the accounts of an order, with the terms in the
/// venue's fixed-width little-endian encoding and nothing behind them. The
/// three quantities are handed over as non-zero numbers.
#[verifier::external_body]
pub(crate) fn new_order_terms(
    market: &Address,
    open_orders: &Address,
    request_queue: &Address,
    event_queue: &Address,
    bids: &Address,
    asks: &Address,
    payer: &Address,
    owner: &Address,
    coin_vault: &Address,
    pc_vault: &Address,
    token_program: &Address,
    rent: &Address,
    referral: Option<Address>,
    program: &Address,
    side: OrderSide,
    limit_price: u64,
    max_coin_qty: u64,
    order_type: OrderKind,
    client_order_id: u64,
    self_trade_behavior: SelfTrade,
    limit: u16,
    max_native_pc_qty_including_fees: u64,
) -> (built: Result<OperationDescriptor, DexError>)
    requires
        limit_price != 0,
        max_coin_qty != 0,
        max_native_pc_qty_including_fees != 0,
    ensures
        built is Ok,
        built matches Ok(ix) ==> ix@ == (DescriptorView {
            program_id: program@,
            accounts: order_accounts(
                market@,
                open_orders@,
                request_queue@,
                event_queue@,
                bids@,
                asks@,
                payer@,
                owner@,
                coin_vault@,
                pc_vault@,
                token_program@,
                rent@,
                match referral {
                    Some(key) => Some(key@),
                    None => None,
                },
            ),
            data: new_order_terms_data(
                order_terms(
                    side,
                    limit_price,
                    max_coin_qty,
                    max_native_pc_qty_including_fees,
                    self_trade_behavior,
                    order_type,
                    client_order_id,
                    limit,
                ),
            ),
        }),
{
    let k = outside_key;
    let referral = referral.map(|key| k(&key));
    let price = NonZeroU64::new(limit_price).unwrap();
    let coin = NonZeroU64::new(max_coin_qty).unwrap();
    let pc = NonZeroU64::new(max_native_pc_qty_including_fees).unwrap();
    serum_dex::instruction::new_order(
        &k(market), &k(open_orders), &k(request_queue), &k(event_queue), &k(bids), &k(asks),
        &k(payer), &k(owner), &k(coin_vault), &k(pc_vault), &k(token_program), &k(rent),
        referral.as_ref(), &k(program), outside_side(side), price, coin,
        outside_order_type(order_type), client_order_id, outside_self_trade(self_trade_behavior),
        limit, pc,
    ).map(from_outside)
}

/// Builds the `NewOrderV3` instruction: the venue's builder writes the
/// accounts and the terms, and the expiry goes behind the terms in eight
/// little-endian bytes. Building never fails.
pub fn new_order(
    market: &Address,
    open_orders: &Address,
    request_queue: &Address,
    event_queue: &Address,
    bids: &Address,
    asks: &Address,
    payer: &Address,
    owner: &Address,
    coin_vault: &Address,
    pc_vault: &Address,
    token_program: &Address,
    rent: &Address,
    referral: Option<Address>,
    program: &Address,
    side: OrderSide,
    limit_price: u64,
    max_coin_qty: u64,
    order_type: OrderKind,
    client_order_id: u64,
    self_trade_behavior: SelfTrade,
    limit: u16,
    max_native_pc_qty_including_fees: u64,
    max_ts: i64,
) -> (built: Result<OperationDescriptor, DexError>)
    requires
        limit_price != 0,
        max_coin_qty != 0,
        max_native_pc_qty_including_fees != 0,
    ensures
        built is Ok,
        built matches Ok(ix) ==> ix@ == (DescriptorView {
            program_id: program@,
            accounts: order_accounts(
                market@,
                open_orders@,
                request_queue@,
                event_queue@,
                bids@,
                asks@,
                payer@,
                owner@,
                coin_vault@,
                pc_vault@,
                token_program@,
                rent@,
                match referral {
                    Some(key) => Some(key@),
                    None => None,
                },
            ),
            data: new_order_data(
                order_terms(
                    side,
                    limit_price,
                    max_coin_qty,
                    max_native_pc_qty_including_fees,
                    self_trade_behavior,
                    order_type,
                    client_order_id,
                    limit,
                ),
                max_ts,
            ),
        }),
{
    let built = new_order_terms(
        market,
        open_orders,
        request_queue,
        event_queue,
        bids,
        asks,
        payer,
        owner,
        coin_vault,
        pc_vault,
        token_program,
        rent,
        referral,
        program,
        side,
        limit_price,
        max_coin_qty,
        order_type,
        client_order_id,
        self_trade_behavior,
        limit,
        max_native_pc_qty_including_fees,
    );
    match built {
        Ok(terms_only) => {
            let OperationDescriptor { program_id, accounts, data } = terms_only;
            let mut data = data;
            put(&mut data, u64_to_le_bytes(bits_of_expiry(max_ts)));
            Ok(OperationDescriptor { program_id, accounts, data })
        },
        Err(reason) => Err(reason),
    }
}

/// `serum_dex::instruction::cancel_order`: always the `CancelOrderV2`
/// instruction over the accounts of a cancellation.
#[verifier::external_body]
pub(crate) fn cancel_order(
    program: &Address,
    market: &Address,
    bids: &Address,
    asks: &Address,
    open_orders: &Address,
    owner: &Address,
    event_queue: &Address,
    side: OrderSide,
    order_id: u128,
) -> (built: Result<OperationDescriptor, DexError>)
    ensures
        built is Ok,
        built matches Ok(ix) ==> ix@ == (DescriptorView {
            program_id: program@,
            accounts: cancel_accounts(market@, bids@, asks@, open_orders@, owner@, event_queue@),
            data: cancel_order_data(side, order_id),
        }),
{
    let k = outside_key;
    serum_dex::instruction::cancel_order(
        &k(program), &k(market), &k(bids), &k(asks), &k(open_orders), &k(owner), &k(event_queue),
        outside_side(side), order_id,
    ).map(from_outside)
}

/// `serum_dex::instruction::settle_funds`: always the `SettleFunds`
/// instruction.
#[verifier::external_body]
pub(crate) fn settle_funds(
    program: &Address,
    market: &Address,
    token_program: &Address,
    open_orders: &Address,
    owner: &Address,
    coin_vault: &Address,
    coin_wallet: &Address,
    pc_vault: &Address,
    pc_wallet: &Address,
    referrer_pc_wallet: Option<Address>,
    vault_signer: &Address,
) -> (built: Result<OperationDescriptor, DexError>)
    ensures
        built is Ok,
        built matches Ok(ix) ==> ix@ == settle_funds_instruction(
            program@,
            market@,
            token_program@,
            open_orders@,
            owner@,
            coin_vault@,
            coin_wallet@,
            pc_vault@,
            pc_wallet@,
            match referrer_pc_wallet {
                Some(key) => Some(key@),
                None => None,
            },
            vault_signer@,
        ),
{
    let k = outside_key;
    let referrer = referrer_pc_wallet.map(|key| k(&key));
    serum_dex::instruction::settle_funds(
        &k(program), &k(market), &k(token_program), &k(open_orders), &k(owner), &k(coin_vault),
        &k(coin_wallet), &k(pc_vault), &k(pc_wallet), referrer.as_ref(), &k(vault_signer),
    ).map(from_outside)
}

} // verus!
