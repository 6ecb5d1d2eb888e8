use raydium_amm::account::{AccountMeta, AccountRef, Address};
use raydium_amm::invocation::InvokeError;
use raydium_amm::invokers::Invokers;
use raydium_amm::token::AuthorityType;

fn address(tag: u8) -> Address {
    let mut bytes = [0u8; 32];
    bytes[0] = tag;
    bytes[31] = tag;
    Address { bytes }
}

fn account(tag: u8) -> AccountRef {
    AccountRef { key: address(tag), is_signer: false, is_writable: true }
}

fn token_program() -> AccountRef {
    AccountRef { key: Address { bytes: spl_token::id().to_bytes() }, is_signer: false, is_writable: false }
}

fn writable(key: Address) -> AccountMeta {
    AccountMeta { pubkey: key, is_signer: false, is_writable: true }
}

fn signing(key: Address) -> AccountMeta {
    AccountMeta { pubkey: key, is_signer: true, is_writable: false }
}

#[test]
fn transfer_names_source_destination_owner_and_encodes_the_amount() {
    let call = Invokers::token_transfer(token_program(), account(1), account(2), account(3), 0x0102030405060708)
        .unwrap();
    assert_eq!(call.instruction.program_id, token_program().key);
    assert_eq!(
        call.instruction.accounts,
        vec![writable(address(1)), writable(address(2)), signing(address(3))]
    );
    assert_eq!(call.instruction.data, vec![3, 8, 7, 6, 5, 4, 3, 2, 1]);
    assert_eq!(call.accounts, vec![account(1), account(2), account(3), token_program()]);
    assert!(call.signer.is_none());
}

#[test]
fn transfer_back_swaps_source_and_destination() {
    let there = Invokers::token_transfer(token_program(), account(1), account(2), account(3), 500).unwrap();
    let back = Invokers::token_transfer(token_program(), account(2), account(1), account(3), 500).unwrap();
    assert_eq!(there.instruction.data, back.instruction.data);
    assert_eq!(there.instruction.accounts[0], back.instruction.accounts[1]);
    assert_eq!(there.instruction.accounts[1], back.instruction.accounts[0]);
    assert_eq!(there.instruction.accounts[2], back.instruction.accounts[2]);
}

#[test]
fn transfer_to_another_program_is_refused() {
    let call = Invokers::token_transfer(account(9), account(1), account(2), account(3), 1);
    assert!(matches!(call, Err(InvokeError::IncorrectProgramId)));
}

#[test]
fn transfer_with_authority_signs_with_seed_and_nonce() {
    let call = Invokers::token_transfer_with_authority(
        token_program(),
        account(1),
        account(2),
        account(3),
        b"amm authority",
        254,
        u64::MAX,
    )
    .unwrap();
    assert_eq!(call.instruction.data, vec![3, 255, 255, 255, 255, 255, 255, 255, 255]);
    assert_eq!(
        call.instruction.accounts,
        vec![writable(address(1)), writable(address(2)), signing(address(3))]
    );
    assert_eq!(call.accounts, vec![account(1), account(2), account(3), token_program()]);
    let seeds = call.signer.unwrap().signer_seeds();
    assert_eq!(seeds, vec![b"amm authority".to_vec(), vec![254u8]]);
}

#[test]
fn transfer_with_authority_to_another_program_is_refused() {
    let call =
        Invokers::token_transfer_with_authority(account(9), account(1), account(2), account(3), b"s", 1, 1);
    assert!(matches!(call, Err(InvokeError::IncorrectProgramId)));
}

#[test]
fn burn_names_account_then_mint() {
    let call = Invokers::token_burn(token_program(), account(4), account(5), account(6), 1).unwrap();
    assert_eq!(
        call.instruction.accounts,
        vec![writable(address(4)), writable(address(5)), signing(address(6))]
    );
    assert_eq!(call.instruction.data, vec![8, 1, 0, 0, 0, 0, 0, 0, 0]);
    assert_eq!(call.accounts, vec![account(4), account(5), account(6), token_program()]);
    assert!(call.signer.is_none());
    assert!(matches!(
        Invokers::token_burn(account(9), account(4), account(5), account(6), 1),
        Err(InvokeError::IncorrectProgramId)
    ));
}

#[test]
fn burn_with_authority_signs() {
    let call =
        Invokers::token_burn_with_authority(token_program(), account(4), account(5), account(6), b"seed", 7, 256)
            .unwrap();
    assert_eq!(call.instruction.data, vec![8, 0, 1, 0, 0, 0, 0, 0, 0]);
    assert_eq!(call.accounts, vec![account(4), account(5), account(6), token_program()]);
    assert_eq!(call.signer.unwrap().signer_seeds(), vec![b"seed".to_vec(), vec![7u8]]);
    assert!(matches!(
        Invokers::token_burn_with_authority(account(9), account(4), account(5), account(6), b"seed", 7, 256),
        Err(InvokeError::IncorrectProgramId)
    ));
}

#[test]
fn mint_to_names_mint_then_destination() {
    let call =
        Invokers::token_mint_to(token_program(), account(4), account(5), account(6), b"seed", 7, 1000).unwrap();
    assert_eq!(
        call.instruction.accounts,
        vec![writable(address(4)), writable(address(5)), signing(address(6))]
    );
    assert_eq!(call.instruction.data, vec![7, 232, 3, 0, 0, 0, 0, 0, 0]);
    assert_eq!(call.accounts, vec![account(4), account(5), account(6), token_program()]);
    assert_eq!(call.signer.unwrap().signer_seeds(), vec![b"seed".to_vec(), vec![7u8]]);
    assert!(matches!(
        Invokers::token_mint_to(account(9), account(4), account(5), account(6), b"seed", 7, 1000),
        Err(InvokeError::IncorrectProgramId)
    ));
}

#[test]
fn close_carries_the_bare_operation_code() {
    let call =
        Invokers::token_close_with_authority(token_program(), account(4), account(5), account(6), b"seed", 0)
            .unwrap();
    assert_eq!(
        call.instruction.accounts,
        vec![writable(address(4)), writable(address(5)), signing(address(6))]
    );
    assert_eq!(call.instruction.data, vec![9]);
    assert_eq!(call.accounts, vec![account(4), account(5), account(6), token_program()]);
    assert_eq!(call.signer.unwrap().signer_seeds(), vec![b"seed".to_vec(), vec![0u8]]);
    assert!(matches!(
        Invokers::token_close_with_authority(account(9), account(4), account(5), account(6), b"seed", 0),
        Err(InvokeError::IncorrectProgramId)
    ));
}

#[test]
fn set_authority_encodes_the_role_and_the_new_authority() {
    let roles = [
        (AuthorityType::MintTokens, 0u8),
        (AuthorityType::FreezeAccount, 1),
        (AuthorityType::AccountOwner, 2),
        (AuthorityType::CloseAccount, 3),
    ];
    for (role, code) in roles {
        let call =
            Invokers::token_set_authority(token_program(), account(4), account(5), account(6), b"seed", 3, role)
                .unwrap();
        let mut data = vec![6u8, code, 1];
        data.extend_from_slice(&address(6).bytes);
        assert_eq!(call.instruction.data, data);
        assert_eq!(call.instruction.accounts, vec![writable(address(4)), signing(address(5))]);
        assert_eq!(call.accounts, vec![account(4), account(5), token_program()]);
        assert_eq!(call.signer.unwrap().signer_seeds(), vec![b"seed".to_vec(), vec![3u8]]);
    }
    assert!(matches!(
        Invokers::token_set_authority(
            account(9),
            account(4),
            account(5),
            account(6),
            b"seed",
            3,
            AuthorityType::AccountOwner
        ),
        Err(InvokeError::IncorrectProgramId)
    ));
}

#[test]
fn associated_account_creation_names_the_derived_address() {
    let call = Invokers::create_ata_spl_token(
        account(1),
        account(2),
        account(3),
        account(4),
        token_program(),
        account(6),
        account(7),
    )
    .unwrap();
    let derived = spl_associated_token_account::get_associated_token_address_with_program_id(
        &solana_program::pubkey::Pubkey::new_from_array(address(3).bytes),
        &solana_program::pubkey::Pubkey::new_from_array(address(4).bytes),
        &spl_token::id(),
    );
    assert_eq!(call.instruction.program_id.bytes, spl_associated_token_account::id().to_bytes());
    assert_eq!(
        call.instruction.program_id.bytes,
        [
            140u8, 151, 37, 143, 78, 36, 137, 241, 187, 61, 16, 41, 20, 142, 13, 131, 11, 90, 19, 153, 218,
            255, 16, 132, 4, 142, 123, 216, 219, 233, 248, 89
        ]
    );
    assert_eq!(
        call.instruction.accounts,
        vec![
            AccountMeta { pubkey: address(2), is_signer: true, is_writable: true },
            writable(Address { bytes: derived.to_bytes() }),
            AccountMeta { pubkey: address(3), is_signer: false, is_writable: false },
            AccountMeta { pubkey: address(4), is_signer: false, is_writable: false },
            AccountMeta { pubkey: Address { bytes: [0u8; 32] }, is_signer: false, is_writable: false },
            AccountMeta { pubkey: token_program().key, is_signer: false, is_writable: false },
        ]
    );
    assert_eq!(call.instruction.data, vec![0u8]);
    assert_eq!(
        call.accounts,
        vec![account(1), account(2), account(3), account(4), token_program(), account(6), account(7)]
    );
    assert!(call.signer.is_none());
}

#[test]
fn the_custody_program_has_its_known_address() {
    assert_eq!(
        spl_token::id().to_bytes(),
        [
            6u8, 221, 246, 225, 215, 101, 161, 147, 217, 203, 225, 70, 206, 235, 121, 172, 28, 180, 133, 237,
            95, 91, 55, 145, 58, 140, 245, 133, 126, 255, 0, 169
        ]
    );
}
