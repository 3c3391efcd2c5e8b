use yi::instructions::{create_yi_token, stake, unstake};
use yi::{
    Address, CreateYiToken, ErrorCode, Mint, Stake, TokenAccount, TokenInstruction, Unstake,
    YiToken, MILLIBPS_PER_WHOLE,
};

fn address(tag: u8) -> Address {
    let mut bytes = [tag; 32];
    bytes[31] = 0xEE;
    Address { bytes }
}

const VAULT: u8 = 1;
const YI_MINT: u8 = 2;
const UNDERLYING_MINT: u8 = 3;
const POOL: u8 = 4;
const USER: u8 = 5;
const USER_UNDERLYING: u8 = 6;
const USER_YI: u8 = 7;
const STRANGER: u8 = 9;

fn token_account(key: u8, mint: u8, owner: u8, amount: u64) -> TokenAccount {
    TokenAccount {
        key: address(key),
        mint: address(mint),
        owner: address(owner),
        amount,
        delegate: None,
        close_authority: None,
    }
}

fn yi_mint(supply: u64, decimals: u8) -> Mint {
    Mint {
        key: address(YI_MINT),
        mint_authority: Some(address(VAULT)),
        freeze_authority: Some(address(VAULT)),
        supply,
        decimals,
    }
}

fn underlying_mint(decimals: u8) -> Mint {
    Mint {
        key: address(UNDERLYING_MINT),
        mint_authority: Some(address(STRANGER)),
        freeze_authority: None,
        supply: 1_000_000_000,
        decimals,
    }
}

fn creation() -> CreateYiToken {
    CreateYiToken {
        mint: yi_mint(0, 6),
        yi_token: address(VAULT),
        bump: 253,
        underlying_token_mint: underlying_mint(6),
        underlying_tokens: token_account(POOL, UNDERLYING_MINT, VAULT, 0),
    }
}

fn record(stake_fee_millibps: u32, unstake_fee_millibps: u32) -> YiToken {
    YiToken {
        mint: address(YI_MINT),
        bump: 253,
        _padding: [0; 7],
        underlying_token_mint: address(UNDERLYING_MINT),
        underlying_tokens: address(POOL),
        stake_fee_millibps,
        unstake_fee_millibps,
    }
}

fn staking(balance: u64, supply: u64) -> Stake {
    Stake {
        yi_token_key: address(VAULT),
        yi_token: record(0, 0),
        yi_mint: yi_mint(supply, 6),
        source_tokens: token_account(USER_UNDERLYING, UNDERLYING_MINT, USER, 1_000_000_000),
        source_authority: address(USER),
        yi_underlying_tokens: token_account(POOL, UNDERLYING_MINT, VAULT, balance),
        destination_yi_tokens: token_account(USER_YI, YI_MINT, USER, 0),
    }
}

fn unstaking(balance: u64, supply: u64) -> Unstake {
    Unstake {
        yi_token_key: address(VAULT),
        yi_token: record(0, 0),
        yi_mint: yi_mint(supply, 6),
        source_yi_tokens: token_account(USER_YI, YI_MINT, USER, supply),
        source_authority: address(USER),
        yi_underlying_tokens: token_account(POOL, UNDERLYING_MINT, VAULT, balance),
        destination_underlying_tokens: token_account(USER_UNDERLYING, UNDERLYING_MINT, USER, 0),
    }
}

fn deposit_of(amount: u64) -> TokenInstruction {
    TokenInstruction::Transfer {
        from: address(USER_UNDERLYING),
        to: address(POOL),
        authority: address(USER),
        amount,
        signed_by_vault: false,
    }
}

fn mint_of(amount: u64) -> TokenInstruction {
    TokenInstruction::MintTo {
        mint: address(YI_MINT),
        to: address(USER_YI),
        authority: address(VAULT),
        amount,
        signed_by_vault: true,
    }
}

fn burn_of(amount: u64) -> TokenInstruction {
    TokenInstruction::Burn {
        mint: address(YI_MINT),
        from: address(USER_YI),
        authority: address(USER),
        amount,
        signed_by_vault: false,
    }
}

fn withdrawal_of(amount: u64) -> TokenInstruction {
    TokenInstruction::Transfer {
        from: address(POOL),
        to: address(USER_UNDERLYING),
        authority: address(VAULT),
        amount,
        signed_by_vault: true,
    }
}

#[test]
fn addresses_compare_by_bytes() {
    assert!(address(1).same(&address(1)));
    assert!(!address(1).same(&address(2)));
    let mut last_differs = address(1);
    last_differs.bytes[31] = 0;
    assert!(!address(1).same(&last_differs));
    let mut first_differs = address(1);
    first_differs.bytes[0] = 0;
    assert!(!address(1).same(&first_differs));
    assert_eq!(address(8).to_vec(), address(8).bytes.to_vec());
    assert_eq!(Address::zero().bytes, [0u8; 32]);
}

#[test]
fn create_without_fees_writes_the_record() {
    let created = yi::create_yi_token(&creation()).unwrap();
    assert_eq!(created, record(0, 0));
    assert_eq!(created.mint, address(YI_MINT));
    assert_eq!(created.bump, 253);
    assert_eq!(created.underlying_token_mint, address(UNDERLYING_MINT));
    assert_eq!(created.underlying_tokens, address(POOL));
}

#[test]
fn create_accepts_every_fee_up_to_the_whole() {
    for fee in [0, 1, 2_500_000, MILLIBPS_PER_WHOLE - 1, MILLIBPS_PER_WHOLE] {
        assert_eq!(
            yi::create_yi_token_with_fees(&creation(), fee, 0),
            Ok(record(fee, 0))
        );
        assert_eq!(
            yi::create_yi_token_with_fees(&creation(), 0, fee),
            Ok(record(0, fee))
        );
        assert_eq!(
            yi::create_yi_token_with_fees(&creation(), fee, fee),
            Ok(record(fee, fee))
        );
    }
}

#[test]
fn create_refuses_a_fee_above_the_whole() {
    for fee in [MILLIBPS_PER_WHOLE + 1, 20_000_000, u32::MAX] {
        assert_eq!(
            yi::create_yi_token_with_fees(&creation(), fee, 0),
            Err(ErrorCode::InvalidStakeFee)
        );
        assert_eq!(
            yi::create_yi_token_with_fees(&creation(), 0, fee),
            Err(ErrorCode::InvalidUnstakeFee)
        );
        assert_eq!(
            yi::create_yi_token_with_fees(&creation(), fee, fee),
            Err(ErrorCode::InvalidStakeFee)
        );
        assert_eq!(
            create_yi_token::handler(&creation(), 7, 0, fee),
            Err(ErrorCode::InvalidUnstakeFee)
        );
        assert_eq!(
            creation().create_yi_token(7, fee, 0),
            Err(ErrorCode::InvalidStakeFee)
        );
    }
}

#[test]
fn handler_records_the_bump_it_is_given() {
    let created = create_yi_token::handler(&creation(), 7, 10, 20).unwrap();
    assert_eq!(created.bump, 7);
    assert_eq!(created.stake_fee_millibps, 10);
    assert_eq!(created.unstake_fee_millibps, 20);
    assert_eq!(created._padding, [0u8; 7]);
}

#[test]
fn create_refuses_mismatched_decimals() {
    let mut accounts = creation();
    accounts.underlying_token_mint = underlying_mint(6);
    accounts.mint = yi_mint(0, 9);
    assert_eq!(accounts.validate(), Err(ErrorCode::DecimalMismatch));
    assert_eq!(yi::create_yi_token(&accounts), Err(ErrorCode::DecimalMismatch));
    assert_eq!(
        yi::create_yi_token_with_fees(&accounts, 1, 1),
        Err(ErrorCode::DecimalMismatch)
    );
}

#[test]
fn create_refuses_a_mint_with_supply() {
    let mut accounts = creation();
    accounts.mint.supply = 1;
    assert_eq!(accounts.validate(), Err(ErrorCode::InvalidAccountState));
    assert_eq!(
        yi::create_yi_token(&accounts),
        Err(ErrorCode::InvalidAccountState)
    );
    // the state of the mint is looked at before the decimals
    accounts.mint.decimals = 9;
    assert_eq!(
        yi::create_yi_token_with_fees(&accounts, 0, 0),
        Err(ErrorCode::InvalidAccountState)
    );
}

#[test]
fn create_refuses_a_mint_the_vault_does_not_control() {
    let mut accounts = creation();
    accounts.mint.mint_authority = Some(address(STRANGER));
    assert_eq!(accounts.validate(), Err(ErrorCode::InvalidAccountState));

    let mut accounts = creation();
    accounts.mint.mint_authority = None;
    assert_eq!(accounts.validate(), Err(ErrorCode::InvalidAccountState));

    let mut accounts = creation();
    accounts.mint.freeze_authority = Some(address(STRANGER));
    assert_eq!(accounts.validate(), Err(ErrorCode::InvalidAccountState));

    let mut accounts = creation();
    accounts.mint.freeze_authority = None;
    assert_eq!(accounts.validate(), Err(ErrorCode::InvalidAccountState));
}

#[test]
fn create_refuses_a_pool_that_is_not_fresh() {
    let mut accounts = creation();
    accounts.underlying_tokens.amount = 1;
    assert_eq!(accounts.validate(), Err(ErrorCode::InvalidAccountState));

    let mut accounts = creation();
    accounts.underlying_tokens.delegate = Some(address(STRANGER));
    assert_eq!(accounts.validate(), Err(ErrorCode::InvalidAccountState));

    let mut accounts = creation();
    accounts.underlying_tokens.close_authority = Some(address(STRANGER));
    assert_eq!(accounts.validate(), Err(ErrorCode::InvalidAccountState));

    let mut accounts = creation();
    accounts.underlying_tokens.owner = address(USER);
    assert_eq!(accounts.validate(), Err(ErrorCode::InvalidAccountState));

    let mut accounts = creation();
    accounts.underlying_tokens.mint = address(YI_MINT);
    assert_eq!(accounts.validate(), Err(ErrorCode::InvalidAccountState));

    assert_eq!(creation().validate(), Ok(()));
    assert!(creation().underlying_tokens.is_zero_token_account());
}

#[test]
fn stake_at_par_mints_the_deposit() {
    let accounts = staking(700_000, 700_000);
    assert_eq!(
        yi::stake(&accounts, 100_000),
        Ok(vec![deposit_of(100_000), mint_of(100_000)])
    );
    let after = unstaking(800_000, 800_000);
    assert_eq!(
        yi::unstake(&after, 100_000),
        Ok(vec![burn_of(100_000), withdrawal_of(100_000)])
    );
}

#[test]
fn stake_into_a_fresh_vault_mints_one_for_one() {
    assert_eq!(
        yi::stake(&staking(0, 0), 700_000),
        Ok(vec![deposit_of(700_000), mint_of(700_000)])
    );
}

#[test]
fn stake_reads_the_rate_before_the_deposit() {
    // 100 * 2000 / 1000, not 100 * 2000 / 1100
    assert_eq!(
        yi::stake(&staking(1000, 2000), 100),
        Ok(vec![deposit_of(100), mint_of(200)])
    );
    let mut accounts = staking(1000, 2000);
    accounts.yi_token.stake_fee_millibps = 2_500_000;
    assert_eq!(
        yi::stake(&accounts, 100),
        Ok(vec![deposit_of(100), mint_of(50)])
    );
}

#[test]
fn unstake_reads_the_rate_before_the_burn() {
    // 100 * 1000 / 2000, not 100 * 1000 / 1900
    assert_eq!(
        yi::unstake(&unstaking(1000, 2000), 100),
        Ok(vec![burn_of(100), withdrawal_of(50)])
    );
    let mut accounts = unstaking(1000, 2000);
    accounts.yi_token.unstake_fee_millibps = 5_000_000;
    assert_eq!(
        yi::unstake(&accounts, 100),
        Ok(vec![burn_of(100), withdrawal_of(25)])
    );
    // the last redeemer drains the pool, whatever the fee
    assert_eq!(
        yi::unstake(&accounts, 2000),
        Ok(vec![burn_of(2000), withdrawal_of(1000)])
    );
}

#[test]
fn staking_nothing_moves_nothing() {
    assert_eq!(yi::stake(&staking(700_000, 700_000), 0), Ok(vec![]));
    assert_eq!(stake::handler(&staking(0, 0), 0), Ok(vec![]));
    assert_eq!(yi::unstake(&unstaking(700_000, 700_000), 0), Ok(vec![]));
    assert_eq!(unstake::handler(&unstaking(0, 0), 0), Ok(vec![]));
}

#[test]
fn the_steps_of_a_stake() {
    let accounts = staking(1000, 2000);
    assert_eq!(accounts.deposit_underlying(5), deposit_of(5));
    assert_eq!(accounts.mint_yi_tokens(6), mint_of(6));
    assert_eq!(accounts.stake(100), Ok(vec![deposit_of(100), mint_of(200)]));
    assert_eq!(accounts.stake(0), Ok(vec![deposit_of(0), mint_of(0)]));
    assert_eq!(stake::handler(&accounts, 100), accounts.stake(100));
}

#[test]
fn the_steps_of_an_unstake() {
    let accounts = unstaking(1000, 2000);
    assert_eq!(accounts.burn_yi_tokens(5), burn_of(5));
    assert_eq!(accounts.withdraw_underlying(6), withdrawal_of(6));
    assert_eq!(
        accounts.unstake(100),
        Ok(vec![burn_of(100), withdrawal_of(50)])
    );
    assert_eq!(accounts.unstake(0), Ok(vec![burn_of(0), withdrawal_of(0)]));
    assert_eq!(unstake::handler(&accounts, 100), accounts.unstake(100));
}

#[test]
fn stake_that_overflows_is_refused() {
    assert_eq!(
        yi::stake(&staking(1, 2), u64::MAX),
        Err(ErrorCode::ArithmeticOverflow)
    );
}

#[test]
fn unstake_of_more_than_the_supply_is_refused() {
    assert_eq!(
        yi::unstake(&unstaking(1000, 2000), 2001),
        Err(ErrorCode::ArithmeticOverflow)
    );
    assert_eq!(
        yi::unstake(&unstaking(0, 0), 700_000),
        Err(ErrorCode::ArithmeticOverflow)
    );
}

#[test]
fn stake_refuses_accounts_not_bound_to_the_vault() {
    assert_eq!(staking(1, 1).validate(), Ok(()));

    let mut accounts = staking(1, 1);
    accounts.yi_mint.key = address(STRANGER);
    assert_eq!(accounts.validate(), Err(ErrorCode::InvalidAccountState));
    assert_eq!(yi::stake(&accounts, 1), Err(ErrorCode::InvalidAccountState));
    // the accounts are checked even where nothing is staked
    assert_eq!(yi::stake(&accounts, 0), Err(ErrorCode::InvalidAccountState));

    let mut accounts = staking(1, 1);
    accounts.source_tokens.mint = address(YI_MINT);
    assert_eq!(yi::stake(&accounts, 1), Err(ErrorCode::InvalidAccountState));

    let mut accounts = staking(1, 1);
    accounts.source_authority = address(STRANGER);
    assert_eq!(yi::stake(&accounts, 1), Err(ErrorCode::InvalidAccountState));

    let mut accounts = staking(1, 1);
    accounts.yi_underlying_tokens.key = address(USER_UNDERLYING);
    assert_eq!(yi::stake(&accounts, 1), Err(ErrorCode::InvalidAccountState));

    let mut accounts = staking(1, 1);
    accounts.destination_yi_tokens.mint = address(UNDERLYING_MINT);
    assert_eq!(yi::stake(&accounts, 1), Err(ErrorCode::InvalidAccountState));
}

#[test]
fn unstake_refuses_accounts_not_bound_to_the_vault() {
    assert_eq!(unstaking(1, 1).validate(), Ok(()));

    let mut accounts = unstaking(1, 1);
    accounts.yi_mint.key = address(STRANGER);
    assert_eq!(accounts.validate(), Err(ErrorCode::InvalidAccountState));
    assert_eq!(yi::unstake(&accounts, 1), Err(ErrorCode::InvalidAccountState));
    assert_eq!(yi::unstake(&accounts, 0), Err(ErrorCode::InvalidAccountState));

    let mut accounts = unstaking(1, 1);
    accounts.source_yi_tokens.mint = address(UNDERLYING_MINT);
    assert_eq!(yi::unstake(&accounts, 1), Err(ErrorCode::InvalidAccountState));

    let mut accounts = unstaking(1, 1);
    accounts.source_authority = address(STRANGER);
    assert_eq!(yi::unstake(&accounts, 1), Err(ErrorCode::InvalidAccountState));

    let mut accounts = unstaking(1, 1);
    accounts.yi_underlying_tokens.key = address(USER_UNDERLYING);
    assert_eq!(yi::unstake(&accounts, 1), Err(ErrorCode::InvalidAccountState));

    let mut accounts = unstaking(1, 1);
    accounts.destination_underlying_tokens.mint = address(YI_MINT);
    assert_eq!(yi::unstake(&accounts, 1), Err(ErrorCode::InvalidAccountState));
}
