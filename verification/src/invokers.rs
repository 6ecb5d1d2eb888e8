//! The calls that the market maker makes into the custody service and the
//! order-book venue, each composed with its accounts in protocol order.

use crate::account::{
    account_views, meta_views, AccountMeta, AccountRef, Address, DescriptorView,
    OperationDescriptor,
};
use crate::authority::{signer_seed_set, SigningAuthority};
use crate::dex::{
    cancel_accounts, cancel_by_client_ids_data, cancel_order_data, close_open_orders_instruction,
    init_open_orders_instruction, new_order_data, order_accounts, order_terms,
    pack_order_terms, pack_replace_order, replace_order_data,
    settle_funds_instruction, OrderKind, OrderSide, SelfTrade, NEVER_EXPIRES,
};
use crate::invocation::{Invocation, InvocationView, InvokeError};
use crate::token::{
    associated_token_address, burn_instruction, close_account_instruction,
    create_associated_instruction, mint_to_instruction, set_authority_instruction,
    token_program_id, transfer_instruction, AuthorityType,
};
use serum_dex::error::DexError;
use vstd::prelude::*;

verus! {

/// The address of an account that may be absent.
pub open spec fn optional_key(account: Option<&AccountRef>) -> Option<Seq<u8>> {
    match account {
        Some(a) => Some(a.key@),
        None => None,
    }
}

/// `fixed`, and the optional account behind it where there is one.
pub open spec fn with_optional(
    fixed: Seq<crate::account::AccountView>,
    account: Option<&AccountRef>,
) -> Seq<crate::account::AccountView> {
    match account {
        Some(a) => fixed.push(a@),
        None => fixed,
    }
}

/// The address behind an optional reference.
pub open spec fn optional_address(key: Option<&Address>) -> Option<Seq<u8>> {
    match key {
        Some(k) => Some(k@),
        None => None,
    }
}

/// The accounts passed with an order, placed or replaced: the venue's
/// program, the twelve accounts of the order, and the referral account
/// behind them where there is one.
pub open spec fn order_handles(
    dex_program: AccountRef,
    market: AccountRef,
    open_orders: AccountRef,
    req_q: AccountRef,
    event_q: AccountRef,
    bids: AccountRef,
    asks: AccountRef,
    payer: AccountRef,
    open_orders_owner: AccountRef,
    coin_vault: AccountRef,
    pc_vault: AccountRef,
    token_program: AccountRef,
    rent_account: AccountRef,
    srm_account_referral: Option<&AccountRef>,
) -> Seq<crate::account::AccountView> {
    with_optional(
        seq![
            dex_program@,
            market@,
            open_orders@,
            req_q@,
            event_q@,
            bids@,
            asks@,
            payer@,
            open_orders_owner@,
            coin_vault@,
            pc_vault@,
            token_program@,
            rent_account@,
        ],
        srm_account_referral,
    )
}

/// The call over what the custody service's builder returned: its
/// instruction with the accounts and the signer, or its reason unchanged.
fn custody_call(
    built: Result<OperationDescriptor, InvokeError>,
    accounts: Vec<AccountRef>,
    signer: Option<SigningAuthority>,
) -> (call: Result<Invocation, InvokeError>)
    ensures
        call is Ok <==> built is Ok,
        call matches Ok(c) ==> built is Ok && c.instruction == built->Ok_0 && c.accounts
            == accounts && c.signer == signer,
        call matches Err(e) ==> built is Err && e == built->Err_0,
{
    match built {
        Ok(instruction) => Ok(Invocation { instruction, accounts, signer }),
        Err(reason) => Err(reason),
    }
}

/// The call over what the venue's builder returned: its instruction with
/// the accounts and the signer, or its reason unchanged.
fn venue_call(
    built: Result<OperationDescriptor, DexError>,
    accounts: Vec<AccountRef>,
    signer: Option<SigningAuthority>,
) -> (call: Result<Invocation, InvokeError>)
    ensures
        call is Ok <==> built is Ok,
        call matches Ok(c) ==> built is Ok && c.instruction == built->Ok_0 && c.accounts
            == accounts && c.signer == signer,
        call matches Err(e) ==> built is Err && e == InvokeError::Dex(built->Err_0),
{
    match built {
        Ok(instruction) => Ok(Invocation { instruction, accounts, signer }),
        Err(reason) => Err(InvokeError::Dex(reason)),
    }
}

/// The address of an optional account, where there is one.
fn key_of(account: Option<&AccountRef>) -> (key: Option<Address>)
    ensures
        match key {
            Some(k) => Some(k@),
            None => None,
        } == optional_key(account),
{
    match account {
        Some(a) => Some(a.key),
        None => None,
    }
}

/// The composer of the market maker's cross-program calls.
pub struct Invokers {}

impl Invokers {
    /// Composes the creation of the custody account bound to a wallet and a
    /// mint. Nobody signs but the payer; the runtime refuses the call where
    /// the account exists already.
    pub fn create_ata_spl_token(
        associated_account: AccountRef,
        funding_account: AccountRef,
        wallet_account: AccountRef,
        token_mint_account: AccountRef,
        token_program_account: AccountRef,
        ata_program_account: AccountRef,
        system_program_account: AccountRef,
    ) -> (call: Result<Invocation, InvokeError>)
        ensures
            call is Ok,
            call matches Ok(c) ==> c@ == (InvocationView {
                instruction: create_associated_instruction(
                    funding_account.key@,
                    associated_token_address(
                        wallet_account.key@,
                        token_mint_account.key@,
                        token_program_account.key@,
                    ),
                    wallet_account.key@,
                    token_mint_account.key@,
                    token_program_account.key@,
                ),
                accounts: seq![
                    associated_account@,
                    funding_account@,
                    wallet_account@,
                    token_mint_account@,
                    token_program_account@,
                    ata_program_account@,
                    system_program_account@,
                ],
                signer: None,
            }),
            call matches Ok(c) ==> (associated_account.key@ == associated_token_address(
                wallet_account.key@,
                token_mint_account.key@,
                token_program_account.key@,
            ) && ata_program_account.key@ == crate::token::associated_token_program_id()
                && system_program_account.key@ == crate::token::system_program_id())
                ==> c.is_complete(),
    {
        let instruction = crate::token::create_associated_token_account(
            &funding_account.key,
            &wallet_account.key,
            &token_mint_account.key,
            &token_program_account.key,
        );
        let accounts = vec![
            associated_account,
            funding_account,
            wallet_account,
            token_mint_account,
            token_program_account,
            ata_program_account,
            system_program_account,
        ];
        proof {
            assert(account_views(accounts@) =~= seq![
                associated_account@,
                funding_account@,
                wallet_account@,
                token_mint_account@,
                token_program_account@,
                ata_program_account@,
                system_program_account@,
            ]);
        }
        let call = Invocation { instruction, accounts, signer: None };
        proof {
            let handles = call@.accounts;
            let named = call@.instruction.accounts;
            if associated_account.key@ == associated_token_address(
                wallet_account.key@,
                token_mint_account.key@,
                token_program_account.key@,
            ) && ata_program_account.key@ == crate::token::associated_token_program_id()
                && system_program_account.key@ == crate::token::system_program_id() {
                assert(handles[1].key == named[0].key);
                assert(handles[0].key == named[1].key);
                assert(handles[2].key == named[2].key);
                assert(handles[3].key == named[3].key);
                assert(handles[6].key == named[4].key);
                assert(handles[4].key == named[5].key);
                assert(handles[5].key == call@.instruction.program_id);
                assert(call.is_complete());
            }
        }
        Ok(call)
    }

    /// Composes a `Burn` signed by the holder's own wallet.
    pub fn token_burn(
        token_program: AccountRef,
        burn_account: AccountRef,
        mint: AccountRef,
        owner: AccountRef,
        burn_amount: u64,
    ) -> (call: Result<Invocation, InvokeError>)
        ensures
            call is Ok <==> token_program.key@ == token_program_id(),
            call matches Ok(c) ==> c@ == (InvocationView {
                instruction: burn_instruction(
                    token_program.key@,
                    burn_account.key@,
                    mint.key@,
                    owner.key@,
                    burn_amount,
                ),
                accounts: seq![burn_account@, mint@, owner@, token_program@],
                signer: None,
            }),
            call matches Err(e) ==> e == InvokeError::IncorrectProgramId,
            call matches Ok(c) ==> c.is_complete(),
    {
        let built = crate::token::burn(
            &token_program.key,
            &burn_account.key,
            &mint.key,
            &owner.key,
            burn_amount,
        );
        let accounts = vec![burn_account, mint, owner, token_program];
        proof {
            assert(account_views(accounts@) =~= seq![burn_account@, mint@, owner@, token_program@]);
        }
        let call = custody_call(built, accounts, None);
        proof {
            if call is Ok {
                call->Ok_0.aligned_is_complete(0, 3);
            }
        }
        call
    }

    /// Composes a `CloseAccount` signed by the program's own authority: the
    /// reserve of the emptied account goes to `destination_account`.
    pub fn token_close_with_authority(
        token_program: AccountRef,
        close_account: AccountRef,
        destination_account: AccountRef,
        authority: AccountRef,
        amm_seed: &[u8],
        nonce: u8,
    ) -> (call: Result<Invocation, InvokeError>)
        ensures
            call is Ok <==> token_program.key@ == token_program_id(),
            call matches Ok(c) ==> c@ == (InvocationView {
                instruction: close_account_instruction(
                    token_program.key@,
                    close_account.key@,
                    destination_account.key@,
                    authority.key@,
                ),
                accounts: seq![close_account@, destination_account@, authority@, token_program@],
                signer: Some(signer_seed_set(amm_seed@, nonce)),
            }),
            call matches Err(e) ==> e == InvokeError::IncorrectProgramId,
            call matches Ok(c) ==> c.is_complete(),
    {
        let signer = SigningAuthority::derive(amm_seed, nonce);
        let built = crate::token::close_account(
            &token_program.key,
            &close_account.key,
            &destination_account.key,
            &authority.key,
        );
        let accounts = vec![close_account, destination_account, authority, token_program];
        proof {
            assert(account_views(accounts@) =~= seq![
                close_account@,
                destination_account@,
                authority@,
                token_program@,
            ]);
        }
        let call = custody_call(built, accounts, Some(signer));
        proof {
            if call is Ok {
                call->Ok_0.aligned_is_complete(0, 3);
            }
        }
        call
    }

    /// Composes a `Burn` signed by the program's own authority.
    pub fn token_burn_with_authority(
        token_program: AccountRef,
        burn_account: AccountRef,
        mint: AccountRef,
        authority: AccountRef,
        amm_seed: &[u8],
        nonce: u8,
        burn_amount: u64,
    ) -> (call: Result<Invocation, InvokeError>)
        ensures
            call is Ok <==> token_program.key@ == token_program_id(),
            call matches Ok(c) ==> c@ == (InvocationView {
                instruction: burn_instruction(
                    token_program.key@,
                    burn_account.key@,
                    mint.key@,
                    authority.key@,
                    burn_amount,
                ),
                accounts: seq![burn_account@, mint@, authority@, token_program@],
                signer: Some(signer_seed_set(amm_seed@, nonce)),
            }),
            call matches Err(e) ==> e == InvokeError::IncorrectProgramId,
            call matches Ok(c) ==> c.is_complete(),
    {
        let signer = SigningAuthority::derive(amm_seed, nonce);
        let built = crate::token::burn(
            &token_program.key,
            &burn_account.key,
            &mint.key,
            &authority.key,
            burn_amount,
        );
        let accounts = vec![burn_account, mint, authority, token_program];
        proof {
            assert(account_views(accounts@) =~= seq![
                burn_account@,
                mint@,
                authority@,
                token_program@,
            ]);
        }
        let call = custody_call(built, accounts, Some(signer));
        proof {
            if call is Ok {
                call->Ok_0.aligned_is_complete(0, 3);
            }
        }
        call
    }

    /// Composes a `MintTo` signed by the program's own authority, which
    /// must be the mint's mint authority.
    pub fn token_mint_to(
        token_program: AccountRef,
        mint: AccountRef,
        destination: AccountRef,
        authority: AccountRef,
        amm_seed: &[u8],
        nonce: u8,
        amount: u64,
    ) -> (call: Result<Invocation, InvokeError>)
        ensures
            call is Ok <==> token_program.key@ == token_program_id(),
            call matches Ok(c) ==> c@ == (InvocationView {
                instruction: mint_to_instruction(
                    token_program.key@,
                    mint.key@,
                    destination.key@,
                    authority.key@,
                    amount,
                ),
                accounts: seq![mint@, destination@, authority@, token_program@],
                signer: Some(signer_seed_set(amm_seed@, nonce)),
            }),
            call matches Err(e) ==> e == InvokeError::IncorrectProgramId,
            call matches Ok(c) ==> c.is_complete(),
    {
        let signer = SigningAuthority::derive(amm_seed, nonce);
        let built = crate::token::mint_to(
            &token_program.key,
            &mint.key,
            &destination.key,
            &authority.key,
            amount,
        );
        let accounts = vec![mint, destination, authority, token_program];
        proof {
            assert(account_views(accounts@) =~= seq![
                mint@,
                destination@,
                authority@,
                token_program@,
            ]);
        }
        let call = custody_call(built, accounts, Some(signer));
        proof {
            if call is Ok {
                call->Ok_0.aligned_is_complete(0, 3);
            }
        }
        call
    }

    /// Composes a `Transfer` signed by the owner's own wallet.
    pub fn token_transfer(
        token_program: AccountRef,
        source: AccountRef,
        destination: AccountRef,
        owner: AccountRef,
        deposit_amount: u64,
    ) -> (call: Result<Invocation, InvokeError>)
        ensures
            call is Ok <==> token_program.key@ == token_program_id(),
            call matches Ok(c) ==> c@ == (InvocationView {
                instruction: transfer_instruction(
                    token_program.key@,
                    source.key@,
                    destination.key@,
                    owner.key@,
                    deposit_amount,
                ),
                accounts: seq![source@, destination@, owner@, token_program@],
                signer: None,
            }),
            call matches Err(e) ==> e == InvokeError::IncorrectProgramId,
            call matches Ok(c) ==> c.is_complete(),
    {
        let built = crate::token::transfer(
            &token_program.key,
            &source.key,
            &destination.key,
            &owner.key,
            deposit_amount,
        );
        let accounts = vec![source, destination, owner, token_program];
        proof {
            assert(account_views(accounts@) =~= seq![
                source@,
                destination@,
                owner@,
                token_program@,
            ]);
        }
        let call = custody_call(built, accounts, None);
        proof {
            if call is Ok {
                call->Ok_0.aligned_is_complete(0, 3);
            }
        }
        call
    }

    /// Composes a `Transfer` signed by the program's own authority.
    pub fn token_transfer_with_authority(
        token_program: AccountRef,
        source: AccountRef,
        destination: AccountRef,
        authority: AccountRef,
        amm_seed: &[u8],
        nonce: u8,
        amount: u64,
    ) -> (call: Result<Invocation, InvokeError>)
        ensures
            call is Ok <==> token_program.key@ == token_program_id(),
            call matches Ok(c) ==> c@ == (InvocationView {
                instruction: transfer_instruction(
                    token_program.key@,
                    source.key@,
                    destination.key@,
                    authority.key@,
                    amount,
                ),
                accounts: seq![source@, destination@, authority@, token_program@],
                signer: Some(signer_seed_set(amm_seed@, nonce)),
            }),
            call matches Err(e) ==> e == InvokeError::IncorrectProgramId,
            call matches Ok(c) ==> c.is_complete(),
    {
        let signer = SigningAuthority::derive(amm_seed, nonce);
        let built = crate::token::transfer(
            &token_program.key,
            &source.key,
            &destination.key,
            &authority.key,
            amount,
        );
        let accounts = vec![source, destination, authority, token_program];
        proof {
            assert(account_views(accounts@) =~= seq![
                source@,
                destination@,
                authority@,
                token_program@,
            ]);
        }
        let call = custody_call(built, accounts, Some(signer));
        proof {
            if call is Ok {
                call->Ok_0.aligned_is_complete(0, 3);
            }
        }
        call
    }

    /// Composes a `SetAuthority` signed by the program's own authority: the
    /// role over the mint or custody account passes to `new_authority`.
    pub fn token_set_authority(
        token_program: AccountRef,
        account: AccountRef,
        authority: AccountRef,
        new_authority: AccountRef,
        amm_seed: &[u8],
        authority_nonce: u8,
        authority_type: AuthorityType,
    ) -> (call: Result<Invocation, InvokeError>)
        ensures
            call is Ok <==> token_program.key@ == token_program_id(),
            call matches Ok(c) ==> c@ == (InvocationView {
                instruction: set_authority_instruction(
                    token_program.key@,
                    account.key@,
                    Some(new_authority.key@),
                    authority_type,
                    authority.key@,
                ),
                accounts: seq![account@, authority@, token_program@],
                signer: Some(signer_seed_set(amm_seed@, authority_nonce)),
            }),
            call matches Err(e) ==> e == InvokeError::IncorrectProgramId,
            call matches Ok(c) ==> c.is_complete(),
    {
        let signer = SigningAuthority::derive(amm_seed, authority_nonce);
        let built = crate::token::set_authority(
            &token_program.key,
            &account.key,
            Some(new_authority.key),
            authority_type,
            &authority.key,
        );
        let accounts = vec![account, authority, token_program];
        proof {
            assert(account_views(accounts@) =~= seq![account@, authority@, token_program@]);
        }
        let call = custody_call(built, accounts, Some(signer));
        proof {
            if call is Ok {
                call->Ok_0.aligned_is_complete(0, 2);
            }
        }
        call
    }

    /// Composes an `InitOpenOrders` signed by the program's own authority:
    /// the open-orders account is registered for its owner and the market.
    pub fn invoke_dex_init_open_orders(
        dex_program: AccountRef,
        open_orders: AccountRef,
        open_orders_owner: AccountRef,
        market: AccountRef,
        rent_sysvar: AccountRef,
        amm_seed: &[u8],
        nonce: u8,
    ) -> (call: Result<Invocation, InvokeError>)
        ensures
            call is Ok,
            call matches Ok(c) ==> c@ == (InvocationView {
                instruction: init_open_orders_instruction(
                    dex_program.key@,
                    open_orders.key@,
                    open_orders_owner.key@,
                    market.key@,
                    None,
                ),
                accounts: seq![
                    dex_program@,
                    open_orders@,
                    open_orders_owner@,
                    market@,
                    rent_sysvar@,
                ],
                signer: Some(signer_seed_set(amm_seed@, nonce)),
            }),
            call matches Ok(c) ==> rent_sysvar.key@ == crate::dex::rent_sysvar_id() ==> c.is_complete(),
    {
        let signer = SigningAuthority::derive(amm_seed, nonce);
        let built = crate::dex::init_open_orders(
            &dex_program.key,
            &open_orders.key,
            &open_orders_owner.key,
            &market.key,
            None,
        );
        let accounts = vec![dex_program, open_orders, open_orders_owner, market, rent_sysvar];
        proof {
            assert(account_views(accounts@) =~= seq![
                dex_program@,
                open_orders@,
                open_orders_owner@,
                market@,
                rent_sysvar@,
            ]);
        }
        let call = venue_call(built, accounts, Some(signer));
        proof {
            if call is Ok && rent_sysvar.key@ == crate::dex::rent_sysvar_id() {
                call->Ok_0.aligned_is_complete(1, 0);
            }
        }
        call
    }

    /// Composes a `CloseOpenOrders` signed by the program's own authority:
    /// the open-orders account is deregistered and its reserve goes to
    /// `destination`.
    pub fn invoke_dex_close_open_orders(
        dex_program: AccountRef,
        open_orders: AccountRef,
        open_orders_owner: AccountRef,
        destination: AccountRef,
        market: AccountRef,
        amm_seed: &[u8],
        nonce: u8,
    ) -> (call: Result<Invocation, InvokeError>)
        ensures
            call is Ok,
            call matches Ok(c) ==> c@ == (InvocationView {
                instruction: close_open_orders_instruction(
                    dex_program.key@,
                    open_orders.key@,
                    open_orders_owner.key@,
                    destination.key@,
                    market.key@,
                ),
                accounts: seq![
                    dex_program@,
                    open_orders@,
                    open_orders_owner@,
                    destination@,
                    market@,
                ],
                signer: Some(signer_seed_set(amm_seed@, nonce)),
            }),
            call matches Ok(c) ==> c.is_complete(),
    {
        let signer = SigningAuthority::derive(amm_seed, nonce);
        let built = crate::dex::close_open_orders(
            &dex_program.key,
            &open_orders.key,
            &open_orders_owner.key,
            &destination.key,
            &market.key,
        );
        let accounts = vec![dex_program, open_orders, open_orders_owner, destination, market];
        proof {
            assert(account_views(accounts@) =~= seq![
                dex_program@,
                open_orders@,
                open_orders_owner@,
                destination@,
                market@,
            ]);
        }
        let call = venue_call(built, accounts, Some(signer));
        proof {
            if call is Ok {
                call->Ok_0.aligned_is_complete(1, 0);
            }
        }
        call
    }

    /// Builds the `ReplaceOrderByClientId` instruction: the order of the
    /// owner that carries `client_order_id`, if one rests on the book, is
    /// cancelled, and the new order is placed. The instruction names the
    /// twelve accounts of an order in fixed order, and the referral account
    /// behind them only where there is one.
    pub fn replace_order_by_client_id(
        market: &Address,
        open_orders_account: &Address,
        request_queue: &Address,
        event_queue: &Address,
        market_bids: &Address,
        market_asks: &Address,
        order_payer: &Address,
        open_orders_account_owner: &Address,
        coin_vault: &Address,
        pc_vault: &Address,
        spl_token_program_id: &Address,
        rent_sysvar_id: &Address,
        srm_account_referral: Option<&Address>,
        program_id: &Address,
        side: OrderSide,
        limit_price: u64,
        max_coin_qty: u64,
        order_type: OrderKind,
        client_order_id: u64,
        self_trade_behavior: SelfTrade,
        limit: u16,
        max_native_pc_qty_including_fees: u64,
        max_ts: i64,
    ) -> (built: Result<OperationDescriptor, DexError>)
        requires
            limit_price != 0,
            max_coin_qty != 0,
            max_native_pc_qty_including_fees != 0,
        ensures
            built is Ok,
            built matches Ok(ix) ==> ix@ == (DescriptorView {
                program_id: program_id@,
                accounts: order_accounts(
                    market@,
                    open_orders_account@,
                    request_queue@,
                    event_queue@,
                    market_bids@,
                    market_asks@,
                    order_payer@,
                    open_orders_account_owner@,
                    coin_vault@,
                    pc_vault@,
                    spl_token_program_id@,
                    rent_sysvar_id@,
                    optional_address(srm_account_referral),
                ),
                data: replace_order_data(
                    order_terms(
                        side,
                        limit_price,
                        max_coin_qty,
                        max_native_pc_qty_including_fees,
                        self_trade_behavior,
                        order_type,
                        client_order_id,
                        limit,
                    ),
                    max_ts,
                ),
            }),
    {
        let terms = pack_order_terms(
            side,
            limit_price,
            max_coin_qty,
            max_native_pc_qty_including_fees,
            self_trade_behavior,
            order_type,
            client_order_id,
            limit,
        );
        let data = pack_replace_order(terms, max_ts);
        let mut accounts = vec![
            AccountMeta::new(*market, false),
            AccountMeta::new(*open_orders_account, false),
            AccountMeta::new(*request_queue, false),
            AccountMeta::new(*event_queue, false),
            AccountMeta::new(*market_bids, false),
            AccountMeta::new(*market_asks, false),
            AccountMeta::new(*order_payer, false),
            AccountMeta::new_readonly(*open_orders_account_owner, true),
            AccountMeta::new(*coin_vault, false),
            AccountMeta::new(*pc_vault, false),
            AccountMeta::new_readonly(*spl_token_program_id, false),
            AccountMeta::new_readonly(*rent_sysvar_id, false),
        ];
        if let Some(key) = srm_account_referral {
            accounts.push(AccountMeta::new_readonly(*key, false));
        }
        proof {
            assert(meta_views(accounts@) =~= order_accounts(
                market@,
                open_orders_account@,
                request_queue@,
                event_queue@,
                market_bids@,
                market_asks@,
                order_payer@,
                open_orders_account_owner@,
                coin_vault@,
                pc_vault@,
                spl_token_program_id@,
                rent_sysvar_id@,
                optional_address(srm_account_referral),
            ));
        }
        Ok(OperationDescriptor { program_id: *program_id, accounts, data })
    }

    /// Composes a `ReplaceOrderByClientId` signed by the program's own
    /// authority. The order cancels the owner's resting order where the two
    /// would match, and never expires.
    pub fn invoke_dex_replace_order_by_client_id(
        dex_program: AccountRef,
        market: AccountRef,
        open_orders: AccountRef,
        req_q: AccountRef,
        event_q: AccountRef,
        bids: AccountRef,
        asks: AccountRef,
        payer: AccountRef,
        open_orders_owner: AccountRef,
        coin_vault: AccountRef,
        pc_vault: AccountRef,
        token_program: AccountRef,
        rent_account: AccountRef,
        srm_account_referral: Option<&AccountRef>,
        amm_seed: &[u8],
        nonce: u8,
        side: OrderSide,
        limit_price: u64,
        max_coin_qty: u64,
        max_native_pc_qty_including_fees: u64,
        order_type: OrderKind,
        client_order_id: u64,
        limit: u16,
    ) -> (call: Result<Invocation, InvokeError>)
        requires
            limit_price != 0,
            max_coin_qty != 0,
            max_native_pc_qty_including_fees != 0,
        ensures
            call is Ok,
            call matches Ok(c) ==> c@ == (InvocationView {
                instruction: (DescriptorView {
                    program_id: dex_program.key@,
                    accounts: order_accounts(
                        market.key@,
                        open_orders.key@,
                        req_q.key@,
                        event_q.key@,
                        bids.key@,
                        asks.key@,
                        payer.key@,
                        open_orders_owner.key@,
                        coin_vault.key@,
                        pc_vault.key@,
                        token_program.key@,
                        rent_account.key@,
                        optional_key(srm_account_referral),
                    ),
                    data: replace_order_data(
                        order_terms(
                            side,
                            limit_price,
                            max_coin_qty,
                            max_native_pc_qty_including_fees,
                            SelfTrade::CancelProvide,
                            order_type,
                            client_order_id,
                            limit,
                        ),
                        NEVER_EXPIRES,
                    ),
                }),
                accounts: order_handles(
                    dex_program,
                    market,
                    open_orders,
                    req_q,
                    event_q,
                    bids,
                    asks,
                    payer,
                    open_orders_owner,
                    coin_vault,
                    pc_vault,
                    token_program,
                    rent_account,
                    srm_account_referral,
                ),
                signer: Some(signer_seed_set(amm_seed@, nonce)),
            }),
            call matches Ok(c) ==> c.is_complete(),
    {
        let signer = SigningAuthority::derive(amm_seed, nonce);
        let referral = match srm_account_referral {
            Some(account) => Some(&account.key),
            None => None,
        };
        let built = Self::replace_order_by_client_id(
            &market.key,
            &open_orders.key,
            &req_q.key,
            &event_q.key,
            &bids.key,
            &asks.key,
            &payer.key,
            &open_orders_owner.key,
            &coin_vault.key,
            &pc_vault.key,
            &token_program.key,
            &rent_account.key,
            referral,
            &dex_program.key,
            side,
            limit_price,
            max_coin_qty,
            order_type,
            client_order_id,
            SelfTrade::CancelProvide,
            limit,
            max_native_pc_qty_including_fees,
            NEVER_EXPIRES,
        );
        let mut accounts = vec![
            dex_program,
            market,
            open_orders,
            req_q,
            event_q,
            bids,
            asks,
            payer,
            open_orders_owner,
            coin_vault,
            pc_vault,
            token_program,
            rent_account,
        ];
        if let Some(srm_account) = srm_account_referral {
            accounts.push(*srm_account);
        }
        proof {
            assert(account_views(accounts@) =~= order_handles(
                    dex_program,
                    market,
                    open_orders,
                    req_q,
                    event_q,
                    bids,
                    asks,
                    payer,
                    open_orders_owner,
                    coin_vault,
                    pc_vault,
                    token_program,
                    rent_account,
                srm_account_referral,
            ));
        }
        let call = venue_call(built, accounts, Some(signer));
        proof {
            if call is Ok {
                call->Ok_0.aligned_is_complete(1, 0);
            }
        }
        call
    }

    /// Composes a `NewOrderV3` signed by the program's own authority. The
    /// order cancels the owner's resting order where the two would match,
    /// and never expires: its expiry is the largest there is. `limit`
    /// bounds the price levels that the venue touches in the call.
    pub fn invoke_dex_new_order_v3(
        dex_program: AccountRef,
        market: AccountRef,
        open_orders: AccountRef,
        req_q: AccountRef,
        event_q: AccountRef,
        bids: AccountRef,
        asks: AccountRef,
        payer: AccountRef,
        open_orders_owner: AccountRef,
        coin_vault: AccountRef,
        pc_vault: AccountRef,
        token_program: AccountRef,
        rent_account: AccountRef,
        srm_account_referral: Option<&AccountRef>,
        amm_seed: &[u8],
        nonce: u8,
        side: OrderSide,
        limit_price: u64,
        max_coin_qty: u64,
        max_native_pc_qty_including_fees: u64,
        order_type: OrderKind,
        client_order_id: u64,
        limit: u16,
    ) -> (call: Result<Invocation, InvokeError>)
        requires
            limit_price != 0,
            max_coin_qty != 0,
            max_native_pc_qty_including_fees != 0,
        ensures
            call is Ok,
            call matches Ok(c) ==> c@ == (InvocationView {
                instruction: (DescriptorView {
                    program_id: dex_program.key@,
                    accounts: order_accounts(
                        market.key@,
                        open_orders.key@,
                        req_q.key@,
                        event_q.key@,
                        bids.key@,
                        asks.key@,
                        payer.key@,
                        open_orders_owner.key@,
                        coin_vault.key@,
                        pc_vault.key@,
                        token_program.key@,
                        rent_account.key@,
                        optional_key(srm_account_referral),
                    ),
                    data: new_order_data(
                        order_terms(
                            side,
                            limit_price,
                            max_coin_qty,
                            max_native_pc_qty_including_fees,
                            SelfTrade::CancelProvide,
                            order_type,
                            client_order_id,
                            limit,
                        ),
                        NEVER_EXPIRES,
                    ),
                }),
                accounts: order_handles(
                    dex_program,
                    market,
                    open_orders,
                    req_q,
                    event_q,
                    bids,
                    asks,
                    payer,
                    open_orders_owner,
                    coin_vault,
                    pc_vault,
                    token_program,
                    rent_account,
                    srm_account_referral,
                ),
                signer: Some(signer_seed_set(amm_seed@, nonce)),
            }),
            call matches Ok(c) ==> c.is_complete(),
    {
        let signer = SigningAuthority::derive(amm_seed, nonce);
        let built = crate::dex::new_order(
            &market.key,
            &open_orders.key,
            &req_q.key,
            &event_q.key,
            &bids.key,
            &asks.key,
            &payer.key,
            &open_orders_owner.key,
            &coin_vault.key,
            &pc_vault.key,
            &token_program.key,
            &rent_account.key,
            key_of(srm_account_referral),
            &dex_program.key,
            side,
            limit_price,
            max_coin_qty,
            order_type,
            client_order_id,
            SelfTrade::CancelProvide,
            limit,
            max_native_pc_qty_including_fees,
            NEVER_EXPIRES,
        );
        let mut accounts = vec![
            dex_program,
            market,
            open_orders,
            req_q,
            event_q,
            bids,
            asks,
            payer,
            open_orders_owner,
            coin_vault,
            pc_vault,
            token_program,
            rent_account,
        ];
        if let Some(srm_account) = srm_account_referral {
            accounts.push(*srm_account);
        }
        proof {
            assert(account_views(accounts@) =~= order_handles(
                    dex_program,
                    market,
                    open_orders,
                    req_q,
                    event_q,
                    bids,
                    asks,
                    payer,
                    open_orders_owner,
                    coin_vault,
                    pc_vault,
                    token_program,
                    rent_account,
                srm_account_referral,
            ));
        }
        let call = venue_call(built, accounts, Some(signer));
        proof {
            if call is Ok {
                call->Ok_0.aligned_is_complete(1, 0);
            }
        }
        call
    }

    /// Composes a `CancelOrderV2` signed by the program's own authority:
    /// one resting order is cancelled by the id the venue gave it.
    pub fn invoke_dex_cancel_order_v2(
        dex_program: AccountRef,
        market: AccountRef,
        bids: AccountRef,
        asks: AccountRef,
        open_orders: AccountRef,
        open_orders_owner: AccountRef,
        event_q: AccountRef,
        amm_seed: &[u8],
        nonce: u8,
        side: OrderSide,
        order_id: u128,
    ) -> (call: Result<Invocation, InvokeError>)
        ensures
            call is Ok,
            call matches Ok(c) ==> c@ == (InvocationView {
                instruction: (DescriptorView {
                    program_id: dex_program.key@,
                    accounts: cancel_accounts(
                        market.key@,
                        bids.key@,
                        asks.key@,
                        open_orders.key@,
                        open_orders_owner.key@,
                        event_q.key@,
                    ),
                    data: cancel_order_data(side, order_id),
                }),
                accounts: seq![
                    dex_program@,
                    market@,
                    bids@,
                    asks@,
                    open_orders@,
                    open_orders_owner@,
                    event_q@,
                ],
                signer: Some(signer_seed_set(amm_seed@, nonce)),
            }),
            call matches Ok(c) ==> c.is_complete(),
    {
        let signer = SigningAuthority::derive(amm_seed, nonce);
        let built = crate::dex::cancel_order(
            &dex_program.key,
            &market.key,
            &bids.key,
            &asks.key,
            &open_orders.key,
            &open_orders_owner.key,
            &event_q.key,
            side,
            order_id,
        );
        let accounts = vec![
            dex_program,
            market,
            bids,
            asks,
            open_orders,
            open_orders_owner,
            event_q,
        ];
        proof {
            assert(account_views(accounts@) =~= seq![
                dex_program@,
                market@,
                bids@,
                asks@,
                open_orders@,
                open_orders_owner@,
                event_q@,
            ]);
        }
        let call = venue_call(built, accounts, Some(signer));
        proof {
            if call is Ok {
                call->Ok_0.aligned_is_complete(1, 0);
            }
        }
        call
    }

    /// Composes a `CancelOrdersByClientIds` signed by the program's own
    /// authority. The call carries eight id slots, whatever they hold: an
    /// id that no live order of the account carries is for the venue to
    /// pass over, and composing never fails.
    pub fn invoke_dex_cancel_orders_by_client_order_ids(
        dex_program: AccountRef,
        market: AccountRef,
        bids: AccountRef,
        asks: AccountRef,
        open_orders: AccountRef,
        open_orders_owner: AccountRef,
        event_q: AccountRef,
        amm_seed: &[u8],
        nonce: u8,
        client_order_ids: [u64; 8],
    ) -> (call: Result<Invocation, InvokeError>)
        ensures
            call is Ok,
            call matches Ok(c) ==> c@ == (InvocationView {
                instruction: (DescriptorView {
                    program_id: dex_program.key@,
                    accounts: cancel_accounts(
                        market.key@,
                        bids.key@,
                        asks.key@,
                        open_orders.key@,
                        open_orders_owner.key@,
                        event_q.key@,
                    ),
                    data: cancel_by_client_ids_data(client_order_ids@),
                }),
                accounts: seq![
                    dex_program@,
                    market@,
                    bids@,
                    asks@,
                    open_orders@,
                    open_orders_owner@,
                    event_q@,
                ],
                signer: Some(signer_seed_set(amm_seed@, nonce)),
            }),
            call matches Ok(c) ==> c@.instruction.data.len() == 69,
            call matches Ok(c) ==> c.is_complete(),
    {
        let signer = SigningAuthority::derive(amm_seed, nonce);
        let built = crate::dex::cancel_orders_by_client_order_ids(
            &dex_program.key,
            &market.key,
            &bids.key,
            &asks.key,
            &open_orders.key,
            &open_orders_owner.key,
            &event_q.key,
            client_order_ids,
        );
        let accounts = vec![
            dex_program,
            market,
            bids,
            asks,
            open_orders,
            open_orders_owner,
            event_q,
        ];
        proof {
            assert(account_views(accounts@) =~= seq![
                dex_program@,
                market@,
                bids@,
                asks@,
                open_orders@,
                open_orders_owner@,
                event_q@,
            ]);
        }
        let call = venue_call(built, accounts, Some(signer));
        proof {
            if call is Ok {
                call->Ok_0.aligned_is_complete(1, 0);
            }
        }
        call
    }

    /// Composes a `SettleFunds` signed by the program's own authority:
    /// proceeds and unfilled remainders move from the venue's vaults into
    /// the program's wallets. The call passes ten accounts in fixed order,
    /// and the referrer's wallet as the eleventh and last only where there
    /// is one.
    pub fn invoke_dex_settle_funds(
        dex_program: AccountRef,
        market: AccountRef,
        open_orders: AccountRef,
        owner: AccountRef,
        coin_vault: AccountRef,
        pc_vault: AccountRef,
        coin_wallet: AccountRef,
        pc_wallet: AccountRef,
        vault_signer: AccountRef,
        spl_token_program: AccountRef,
        referrer_pc_wallet: Option<&AccountRef>,
        amm_seed: &[u8],
        nonce: u8,
    ) -> (call: Result<Invocation, InvokeError>)
        ensures
            call is Ok,
            call matches Ok(c) ==> c@ == (InvocationView {
                instruction: settle_funds_instruction(
                    dex_program.key@,
                    market.key@,
                    spl_token_program.key@,
                    open_orders.key@,
                    owner.key@,
                    coin_vault.key@,
                    coin_wallet.key@,
                    pc_vault.key@,
                    pc_wallet.key@,
                    optional_key(referrer_pc_wallet),
                    vault_signer.key@,
                ),
                accounts: with_optional(
                    seq![
                        dex_program@,
                        market@,
                        open_orders@,
                        owner@,
                        coin_vault@,
                        pc_vault@,
                        coin_wallet@,
                        pc_wallet@,
                        vault_signer@,
                        spl_token_program@,
                    ],
                    referrer_pc_wallet,
                ),
                signer: Some(signer_seed_set(amm_seed@, nonce)),
            }),
            call matches Ok(c) ==> c@.accounts.len() == (if referrer_pc_wallet is Some {
                11int
            } else {
                10int
            }),
            call matches Ok(c) ==> referrer_pc_wallet matches Some(referrer) ==> c@.accounts.last()
                == referrer@,
            call matches Ok(c) ==> c.is_complete(),
    {
        let signer = SigningAuthority::derive(amm_seed, nonce);
        let built = crate::dex::settle_funds(
            &dex_program.key,
            &market.key,
            &spl_token_program.key,
            &open_orders.key,
            &owner.key,
            &coin_vault.key,
            &coin_wallet.key,
            &pc_vault.key,
            &pc_wallet.key,
            key_of(referrer_pc_wallet),
            &vault_signer.key,
        );
        let mut accounts = vec![
            dex_program,
            market,
            open_orders,
            owner,
            coin_vault,
            pc_vault,
            coin_wallet,
            pc_wallet,
            vault_signer,
            spl_token_program,
        ];
        if let Some(referrer_pc_account) = referrer_pc_wallet {
            accounts.push(*referrer_pc_account);
        }
        proof {
            assert(account_views(accounts@) =~= with_optional(
                seq![
                    dex_program@,
                    market@,
                    open_orders@,
                    owner@,
                    coin_vault@,
                    pc_vault@,
                    coin_wallet@,
                    pc_wallet@,
                    vault_signer@,
                    spl_token_program@,
                ],
                referrer_pc_wallet,
            ));
        }
        let call = venue_call(built, accounts, Some(signer));
        proof {
            if call is Ok {
                call->Ok_0.aligned_is_complete(1, 0);
            }
        }
        call
    }
}

} // verus!
