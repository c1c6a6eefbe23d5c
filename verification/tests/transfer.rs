use anchor_lang::prelude::Pubkey;
use anchor_lang::solana_program::{system_instruction, system_program};
use omerta_presale::{
    invest_sol, AccountMeta, Address, Instruction, Invest, InvestmentData, PresaleInfo,
};

fn live_presale() -> PresaleInfo {
    PresaleInfo {
        goal: 1000,
        token_mint: Address::new([5; 32]),
        amount_raised: 0,
        start_time: 100,
        end_time: 200,
        price_per_token: 10,
        is_live: true,
        authority: Address::new([1; 32]),
    }
}

fn contribute(from: Address, presale_key: Address, value: u64) -> Instruction {
    let mut ctx =
        Invest { data: InvestmentData::default(), from, presale: live_presale(), presale_key };
    let ix = invest_sol(&mut ctx, value, 150).unwrap();
    assert_eq!(ctx.from, from);
    assert_eq!(ctx.presale_key, presale_key);
    ix
}

#[test]
fn contribution_returns_the_system_transfer() {
    let from = Address::new([2; 32]);
    let custody = Address::new([9; 32]);
    let ix = contribute(from, custody, 50);
    assert_eq!(ix.program_id, Address::new([0; 32]));
    assert_eq!(
        ix.accounts,
        vec![
            AccountMeta { pubkey: from, is_signer: true, is_writable: true },
            AccountMeta { pubkey: custody, is_signer: false, is_writable: true },
        ]
    );
    assert_eq!(ix.data, vec![2, 0, 0, 0, 50, 0, 0, 0, 0, 0, 0, 0]);
}

#[test]
fn transfer_amount_is_little_endian() {
    let ix = contribute(Address::new([2; 32]), Address::new([9; 32]), 0x0102_0304_0506_0708);
    assert_eq!(ix.data, vec![2, 0, 0, 0, 8, 7, 6, 5, 4, 3, 2, 1]);
}

#[test]
fn transfer_is_what_the_system_program_expects() {
    let mut from = [0u8; 32];
    let mut custody = [0u8; 32];
    for i in 0..32 {
        from[i] = i as u8;
        custody[i] = 255 - i as u8;
    }
    let ix = contribute(Address::new(from), Address::new(custody), 1_000_000_007);
    let expected = system_instruction::transfer(
        &Pubkey::new_from_array(from),
        &Pubkey::new_from_array(custody),
        1_000_000_007,
    );
    assert_eq!(ix.program_id.bytes, system_program::id().to_bytes());
    assert_eq!(ix.program_id.bytes, expected.program_id.to_bytes());
    assert_eq!(ix.data, expected.data);
    assert_eq!(ix.accounts.len(), expected.accounts.len());
    for (got, want) in ix.accounts.iter().zip(expected.accounts.iter()) {
        assert_eq!(got.pubkey.bytes, want.pubkey.to_bytes());
        assert_eq!(got.is_signer, want.is_signer);
        assert_eq!(got.is_writable, want.is_writable);
    }
}
