use cp_swap::cp_swap::amm_config::AmmConfig;
use cp_swap::cp_swap::amm_config_instructions::{
    handle_create_amm_config, handle_update_amm_config, CreateAmmConfig, UpdateAmmConfig,
};
use cp_swap::cp_swap::error::ErrorCode;
use cp_swap::cp_swap::initialize::{handle_initialize, initialize_aborts, Initialize};
use cp_swap::cp_swap::swap_base_input::{
    handle_swap_base_input, swap_base_input_aborts, SwapBaseInput, SwapTransfers,
};
use cp_swap::cp_swap::swap_base_receive::{
    handle_swap_base_receive, swap_base_receive_aborts, SwapBaseReceive,
};
use cp_swap::cp_swap::swap_base_send::{handle_swap_base_send, swap_base_send_aborts, SwapBaseSend};
use cp_swap::cp_swap::utils::check_constant_product;
use cp_swap::cp_swap::withdraw::{handle_withdraw, withdraw_aborts, Withdraw, WithdrawPlan};
use cp_swap::token_mint::{Key, MintTransferFee};
use cp_swap::transfer_fee::TransferFeeInfo;

fn key(b: u8) -> Key {
    Key { bytes: [b; 32] }
}

fn config(bps: u16, fee_side_input: bool) -> AmmConfig {
    AmmConfig {
        disable_create_pool: false,
        swap_fee_rate_in_bps: bps,
        update_authority: Some(key(9)),
        fee_side_input,
    }
}

#[test]
fn create_config_checks_the_rate() {
    let mut accounts = CreateAmmConfig { creator: key(5), amm_config: config(1, true) };
    assert_eq!(handle_create_amm_config(&mut accounts, config(10000, false)), Err(ErrorCode::InvalidFees));
    assert_eq!(accounts.amm_config, config(1, true));
    assert_eq!(handle_create_amm_config(&mut accounts, config(9999, false)), Ok(()));
    assert_eq!(accounts.amm_config, config(9999, false));
}

#[test]
fn update_config_needs_the_authority() {
    let mut accounts = UpdateAmmConfig { update_authority: key(8), amm_config: config(25, true) };
    assert_eq!(
        handle_update_amm_config(&mut accounts, config(30, true)),
        Err(ErrorCode::MismatchUpdateAuthority)
    );
    assert_eq!(accounts.amm_config, config(25, true));
    let mut locked = UpdateAmmConfig {
        update_authority: key(9),
        amm_config: AmmConfig { update_authority: None, ..config(25, true) },
    };
    assert_eq!(
        handle_update_amm_config(&mut locked, config(30, true)),
        Err(ErrorCode::MismatchUpdateAuthority)
    );
    let mut signed = UpdateAmmConfig { update_authority: key(9), amm_config: config(25, true) };
    assert_eq!(handle_update_amm_config(&mut signed, config(10001, true)), Err(ErrorCode::InvalidFees));
    assert_eq!(signed.amm_config, config(25, true));
    assert_eq!(handle_update_amm_config(&mut signed, config(10000, false)), Ok(()));
    assert_eq!(signed.amm_config, config(10000, false));
}

fn initialize_accounts() -> Initialize {
    Initialize {
        amm_config: config(25, true),
        amm_config_key: key(7),
        creator: key(5),
        mint_0: key(1),
        mint_1: key(2),
        mint_0_supported: Ok(()),
        mint_1_supported: Ok(()),
        creator_0_balance: 20_000,
        creator_1_balance: 20_000,
        pool_bump: 254,
        lp_mint_bump: 253,
    }
}

#[test]
fn initialize_mints_the_square_root_less_the_locked_minimum() {
    let plan = handle_initialize(&initialize_accounts(), 10_000, 10_000, 0, 0).unwrap();
    assert_eq!(plan.gross_amount_0, 10_000);
    assert_eq!(plan.gross_amount_1, 10_000);
    assert_eq!(plan.mint_lp_amount, 9_900);
    assert_eq!(plan.pool.lp_supply, 10_000);
    assert_eq!(plan.pool.mint_0, key(1));
    assert_eq!(plan.pool.amm_config, key(7));
    assert_eq!(plan.pool.creator, key(5));
    assert_eq!(plan.pool.bump, 254);
    let rounded = handle_initialize(&initialize_accounts(), 1_000, 1_001, 3, 4).unwrap();
    assert_eq!(rounded.pool.lp_supply, 1_000);
    assert_eq!(rounded.mint_lp_amount, 900);
    assert_eq!(rounded.gross_amount_0, 1_003);
    assert_eq!(rounded.gross_amount_1, 1_005);
    let bare = handle_initialize(&initialize_accounts(), 100, 100, 0, 0).unwrap();
    assert_eq!(bare.mint_lp_amount, 0);
}

#[test]
fn initialize_errors() {
    let disabled = Initialize {
        amm_config: AmmConfig { disable_create_pool: true, ..config(25, true) },
        ..initialize_accounts()
    };
    assert_eq!(handle_initialize(&disabled, 10_000, 10_000, 0, 0).err(), Some(ErrorCode::AmmConfigDisabledForPoolCreation));
    let reversed = Initialize { mint_0: key(2), mint_1: key(1), ..initialize_accounts() };
    assert_eq!(
        handle_initialize(&reversed, 10_000, 10_000, 0, 0).err(),
        Some(ErrorCode::Mint1LexicographicallyGreaterThanOrEqualToMint0)
    );
    let same = Initialize { mint_1: key(1), ..initialize_accounts() };
    assert_eq!(
        handle_initialize(&same, 10_000, 10_000, 0, 0).err(),
        Some(ErrorCode::Mint1LexicographicallyGreaterThanOrEqualToMint0)
    );
    let unsupported = Initialize { mint_1_supported: Err(ErrorCode::MintNotSupported), ..initialize_accounts() };
    assert_eq!(handle_initialize(&unsupported, 10_000, 10_000, 0, 0).err(), Some(ErrorCode::MintNotSupported));
    let poor = Initialize { creator_0_balance: 10_004, ..initialize_accounts() };
    assert_eq!(handle_initialize(&poor, 10_000, 10_000, 5, 0).err(), Some(ErrorCode::InsufficientFunds));
    assert_eq!(handle_initialize(&initialize_accounts(), 50, 50, 0, 0).err(), Some(ErrorCode::InsufficientLiquidity));
    assert!(initialize_aborts(&initialize_accounts(), u64::MAX, 10, 1, 0));
    assert!(!initialize_aborts(&initialize_accounts(), 10_000, 10_000, 0, 0));
}

fn swap_input_accounts(fee_side_input: bool) -> SwapBaseInput {
    SwapBaseInput {
        amm_config: config(25, fee_side_input),
        pool_mint_0: key(1),
        pool_mint_1: key(2),
        input_mint: key(1),
        output_mint: key(2),
        trader_input_balance: 1_000,
        input_vault_amount: 100_000,
        output_vault_amount: 100_000,
        input_mint_fee: MintTransferFee::LegacyToken,
        output_mint_fee: MintTransferFee::LegacyToken,
    }
}

#[test]
fn swap_base_input_fee_on_input() {
    let t = handle_swap_base_input(&swap_input_accounts(true), 1_000, 987).unwrap();
    assert_eq!(t, SwapTransfers { trader_sends: 1_000, pool_sends: 987, k_before: 10_000_000_000 });
    assert!((100_000u128 + 1_000) * (100_000u128 - 987) >= 10_000_000_000);
    assert_eq!(
        handle_swap_base_input(&swap_input_accounts(true), 1_000, 988),
        Err(ErrorCode::NotMinimumOutputAmount)
    );
}

#[test]
fn swap_base_input_fee_on_output() {
    let t = handle_swap_base_input(&swap_input_accounts(false), 1_000, 0).unwrap();
    assert_eq!(t.pool_sends, 987);
    let reversed = SwapBaseInput { input_mint: key(2), output_mint: key(1), ..swap_input_accounts(false) };
    assert_eq!(handle_swap_base_input(&reversed, 1_000, 0).unwrap().pool_sends, 987);
}

#[test]
fn swap_base_input_transfer_fee_on_input_mint() {
    let accounts = SwapBaseInput {
        input_mint_fee: MintTransferFee::Token2022 {
            epoch_fee: Some(TransferFeeInfo { epoch: 0, maximum_fee: 1_000_000_000, transfer_fee_basis_points: 100 }),
        },
        ..swap_input_accounts(true)
    };
    assert_eq!(handle_swap_base_input(&accounts, 1_000, 0).unwrap().pool_sends, 977);
}

#[test]
fn swap_base_input_errors() {
    let stranger = SwapBaseInput { input_mint: key(3), ..swap_input_accounts(true) };
    assert_eq!(handle_swap_base_input(&stranger, 1_000, 0), Err(ErrorCode::MismatchAccounts));
    assert_eq!(handle_swap_base_input(&swap_input_accounts(true), 1_001, 0), Err(ErrorCode::InsufficientFunds));
    let unreadable_in = SwapBaseInput { input_mint_fee: MintTransferFee::Unreadable { error: 7 }, ..swap_input_accounts(true) };
    assert_eq!(handle_swap_base_input(&unreadable_in, 1_000, 0), Err(ErrorCode::ProgramError(7)));
    let unreadable_out = SwapBaseInput { output_mint_fee: MintTransferFee::Unreadable { error: 7 }, ..swap_input_accounts(true) };
    assert_eq!(handle_swap_base_input(&unreadable_out, 1_000, 0), Err(ErrorCode::ProgramError(7)));
    let huge = SwapBaseInput { input_vault_amount: u64::MAX, output_vault_amount: u64::MAX, ..swap_input_accounts(true) };
    assert!(swap_base_input_aborts(&huge, 1_000, 0));
    assert!(!swap_base_input_aborts(&swap_input_accounts(true), 1_000, 0));
}

#[test]
fn constant_product_check() {
    assert_eq!(check_constant_product(10_000_000_000, 101_000, 99_013), Ok(()));
    assert_eq!(check_constant_product(10_000_000_000, 100_000, 100_000), Ok(()));
    assert_eq!(
        check_constant_product(10_000_000_000, 100_000, 99_000),
        Err(ErrorCode::ConstantProductInvariantFailed)
    );
}

fn swap_send_accounts(fee_side_input: bool) -> SwapBaseSend {
    SwapBaseSend {
        amm_config: config(25, fee_side_input),
        amm_config_key: key(7),
        pool_amm_config: key(7),
        pool_mint_0: key(1),
        pool_mint_1: key(2),
        send_mint: key(1),
        receive_mint: key(2),
        trader_send_balance: 1_000,
        send_vault_amount: 100_000,
        receive_vault_amount: 100_000,
        send_mint_fee: MintTransferFee::LegacyToken,
        receive_mint_fee: MintTransferFee::LegacyToken,
    }
}

#[test]
fn swap_base_send_amounts() {
    let t = handle_swap_base_send(&swap_send_accounts(true), 1_000, 987).unwrap();
    assert_eq!(t, SwapTransfers { trader_sends: 1_000, pool_sends: 987, k_before: 10_000_000_000 });
    assert_eq!(handle_swap_base_send(&swap_send_accounts(false), 1_000, 987).unwrap().pool_sends, 987);
}

#[test]
fn swap_base_send_errors() {
    let other_config = SwapBaseSend { pool_amm_config: key(6), ..swap_send_accounts(true) };
    assert_eq!(handle_swap_base_send(&other_config, 1_000, 0), Err(ErrorCode::ConstraintHasOne));
    let stranger = SwapBaseSend { receive_mint: key(3), ..swap_send_accounts(true) };
    assert_eq!(handle_swap_base_send(&stranger, 1_000, 0), Err(ErrorCode::MismatchAccounts));
    assert_eq!(handle_swap_base_send(&swap_send_accounts(true), 2_000, 0), Err(ErrorCode::InsufficientFunds));
    assert_eq!(
        handle_swap_base_send(&swap_send_accounts(true), 1_000, 988),
        Err(ErrorCode::NotMinimumReceiveAmount)
    );
    let empty = SwapBaseSend { send_vault_amount: 0, trader_send_balance: 0, ..swap_send_accounts(true) };
    assert!(swap_base_send_aborts(&empty, 0, 0));
}

fn swap_receive_accounts(fee_side_input: bool) -> SwapBaseReceive {
    SwapBaseReceive {
        amm_config: config(25, fee_side_input),
        amm_config_key: key(7),
        pool_amm_config: key(7),
        pool_mint_0: key(1),
        pool_mint_1: key(2),
        send_mint: key(1),
        receive_mint: key(2),
        send_reserve: 100_000,
        receive_reserve: 100_000,
        send_mint_fee: MintTransferFee::LegacyToken,
        receive_mint_fee: MintTransferFee::LegacyToken,
    }
}

#[test]
fn swap_base_receive_fee_on_send_side() {
    let t = handle_swap_base_receive(&swap_receive_accounts(true), 1_000, 1_014).unwrap();
    assert_eq!(t, SwapTransfers { trader_sends: 1_014, pool_sends: 1_000, k_before: 10_000_000_000 });
    assert!((100_000u128 + 1_014) * (100_000u128 - 1_000) >= 10_000_000_000);
    assert_eq!(
        handle_swap_base_receive(&swap_receive_accounts(true), 1_000, 1_013),
        Err(ErrorCode::ExceedsMaximumLimit)
    );
}

#[test]
fn swap_base_receive_fee_on_receive_side() {
    let t = handle_swap_base_receive(&swap_receive_accounts(false), 1_000, 2_000).unwrap();
    assert_eq!(t.trader_sends, 1_014);
    assert_eq!(t.pool_sends, 1_000);
}

#[test]
fn swap_base_receive_errors() {
    let other_config = SwapBaseReceive { pool_amm_config: key(6), ..swap_receive_accounts(true) };
    assert_eq!(handle_swap_base_receive(&other_config, 1_000, 2_000), Err(ErrorCode::ConstraintHasOne));
    let stranger = SwapBaseReceive { send_mint: key(3), ..swap_receive_accounts(true) };
    assert_eq!(handle_swap_base_receive(&stranger, 1_000, 2_000), Err(ErrorCode::MismatchAccounts));
    let unreadable = SwapBaseReceive { receive_mint_fee: MintTransferFee::Unreadable { error: 7 }, ..swap_receive_accounts(true) };
    assert_eq!(handle_swap_base_receive(&unreadable, 1_000, 2_000), Err(ErrorCode::ProgramError(7)));
    assert!(swap_base_receive_aborts(&swap_receive_accounts(true), 100_000, u64::MAX));
    assert!(!swap_base_receive_aborts(&swap_receive_accounts(true), 1_000, 0));
}

fn withdraw_accounts() -> Withdraw {
    Withdraw {
        amm_config_key: key(7),
        mint_0: key(1),
        mint_1: key(2),
        pool_amm_config: key(7),
        pool_mint_0: key(1),
        pool_mint_1: key(2),
        pool_lp_supply: 1_000,
        lp_token_balance: 100,
        token_0_vault_amount: 5_000,
        token_1_vault_amount: 7_777,
        mint_0_fee: MintTransferFee::LegacyToken,
        mint_1_fee: MintTransferFee::LegacyToken,
    }
}

#[test]
fn withdraw_pays_the_share_rounded_down() {
    let plan = handle_withdraw(&withdraw_accounts(), 500, 777, 100).unwrap();
    assert_eq!(plan, WithdrawPlan { amount_0: 500, amount_1: 777, burn: 100, new_lp_supply: 900 });
    assert!(plan.amount_1 * 1_000 <= 100 * 7_777);
    let a = withdraw_accounts();
    assert!((a.token_0_vault_amount - plan.amount_0) * a.pool_lp_supply >= a.token_0_vault_amount * plan.new_lp_supply);
    assert!((a.token_1_vault_amount - plan.amount_1) * a.pool_lp_supply >= a.token_1_vault_amount * plan.new_lp_supply);
}

#[test]
fn withdraw_errors() {
    assert_eq!(handle_withdraw(&withdraw_accounts(), 501, 0, 100), Err(ErrorCode::NotMinimumReceiveAmount));
    assert_eq!(handle_withdraw(&withdraw_accounts(), 0, 778, 100), Err(ErrorCode::NotMinimumReceiveAmount));
    assert_eq!(handle_withdraw(&withdraw_accounts(), 0, 0, 0), Err(ErrorCode::InvalidAmount));
    assert_eq!(handle_withdraw(&withdraw_accounts(), 0, 0, 101), Err(ErrorCode::InvalidAmount));
    let reversed = Withdraw { mint_0: key(2), mint_1: key(1), ..withdraw_accounts() };
    assert_eq!(
        handle_withdraw(&reversed, 0, 0, 100),
        Err(ErrorCode::Mint1LexicographicallyGreaterThanOrEqualToMint0)
    );
    let other_pool = Withdraw { pool_mint_0: key(0), ..withdraw_accounts() };
    assert_eq!(handle_withdraw(&other_pool, 0, 0, 100), Err(ErrorCode::ConstraintHasOne));
    let unreadable = Withdraw { mint_1_fee: MintTransferFee::Unreadable { error: 7 }, ..withdraw_accounts() };
    assert_eq!(handle_withdraw(&unreadable, 0, 0, 100), Err(ErrorCode::ProgramError(7)));
    let no_supply = Withdraw { pool_lp_supply: 0, ..withdraw_accounts() };
    assert!(withdraw_aborts(&no_supply, 0, 0, 100));
    let short_supply = Withdraw { pool_lp_supply: 50, ..withdraw_accounts() };
    assert!(withdraw_aborts(&short_supply, 0, 0, 100));
    assert!(!withdraw_aborts(&withdraw_accounts(), 0, 0, 100));
}
