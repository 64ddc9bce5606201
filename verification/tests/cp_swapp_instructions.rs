use cp_swap::cp_swapp::deposit::{deposit_aborts, deposit_handler, Deposit, DepositPlan};
use cp_swap::cp_swap::curve_math::CurveMath;
use cp_swap::cp_swapp::error::ErrorCode;
use cp_swap::cp_swapp::initialize::{initialize_handler, Initialize, InitializePlan};
use cp_swap::cp_swapp::pool::Pool;
use cp_swap::cp_swapp::swap_base_input::{
    check_swap_invariant, swap_base_input_aborts, swap_base_input_handler, SwapBaseInput, SwapPlan,
};
use cp_swap::token_mint::{Key, MintTransferFee};
use cp_swap::transfer_fee::TransferFeeInfo;

fn key(b: u8) -> Key {
    Key { bytes: [b; 32] }
}

fn pool() -> Pool {
    Pool { mint_a: key(1), mint_b: key(2), fees_in_ppm: 3_000, bump: 255 }
}

fn swap_accounts() -> SwapBaseInput {
    SwapBaseInput {
        pool_state: pool(),
        input_mint: key(1),
        output_mint: key(2),
        input_vault_amount: 100_000,
        output_vault_amount: 100_000,
        input_mint_fee: MintTransferFee::LegacyToken,
        output_mint_fee: MintTransferFee::LegacyToken,
    }
}

#[test]
fn cpmm_swap_rounds_the_new_reserve_up() {
    let plan = swap_base_input_handler(&swap_accounts(), 3_000, 1_000, 987).unwrap();
    assert_eq!(
        plan,
        SwapPlan {
            exact_input_amount: 1_000,
            input_transfer_fee: 0,
            curve_output_amount: 987,
            output_transfer_fee: 0,
            k_before: 10_000_000_000,
        }
    );
    assert_eq!(check_swap_invariant(plan.k_before, 101_000, 99_013), Ok(()));
    assert_eq!(check_swap_invariant(plan.k_before, 100_000, 99_999), Err(ErrorCode::RequireGteViolated));
}

#[test]
fn cpmm_swap_quotes_the_same_output_as_the_curve() {
    let curve_input = 1_000 - pool().swap_fees(1_000);
    let plan = swap_base_input_handler(&swap_accounts(), 3_000, 1_000, 0).unwrap();
    assert_eq!(
        plan.curve_output_amount,
        CurveMath::calculate_curve_output_amount(100_000, 100_000, 100_000 + curve_input)
    );
}

#[test]
fn cpmm_swap_with_transfer_fees() {
    let accounts = SwapBaseInput {
        input_mint_fee: MintTransferFee::Token2022 {
            epoch_fee: Some(TransferFeeInfo { epoch: 0, maximum_fee: 1_000_000, transfer_fee_basis_points: 100 }),
        },
        output_mint_fee: MintTransferFee::Token2022 {
            epoch_fee: Some(TransferFeeInfo { epoch: 0, maximum_fee: 3, transfer_fee_basis_points: 100 }),
        },
        ..swap_accounts()
    };
    let plan = swap_base_input_handler(&accounts, 3_000, 1_000, 0).unwrap();
    assert_eq!(plan.input_transfer_fee, 10);
    assert_eq!(plan.curve_output_amount, 977);
    assert_eq!(plan.output_transfer_fee, 3);
}

#[test]
fn cpmm_swap_errors() {
    assert_eq!(swap_base_input_handler(&swap_accounts(), 3_000, 1_000, 988), Err(ErrorCode::FailedToExceedMinimum));
    assert_eq!(swap_base_input_handler(&swap_accounts(), 3_000, 0, 0), Err(ErrorCode::InvalidInputAmount));
    let stranger = SwapBaseInput { input_mint: key(3), ..swap_accounts() };
    assert_eq!(swap_base_input_handler(&stranger, 3_000, 1_000, 0), Err(ErrorCode::InvalidPool));
    let reversed = SwapBaseInput { input_mint: key(2), output_mint: key(1), ..swap_accounts() };
    assert_eq!(swap_base_input_handler(&reversed, 1, 1_000, 0), Err(ErrorCode::InvalidPool));
    assert_eq!(swap_base_input_handler(&reversed, 3_000, 1_000, 0).unwrap().curve_output_amount, 987);
    let all_fee = SwapBaseInput { pool_state: Pool { fees_in_ppm: 1_000_000, ..pool() }, ..swap_accounts() };
    assert_eq!(swap_base_input_handler(&all_fee, 3_000, 1_000, 0), Err(ErrorCode::InvalidInputAmount));
    let unreadable = SwapBaseInput { input_mint_fee: MintTransferFee::Unreadable { error: 7 }, ..swap_accounts() };
    assert_eq!(swap_base_input_handler(&unreadable, 3_000, 1_000, 0), Err(ErrorCode::ProgramError(7)));
    let too_much_fee = SwapBaseInput { pool_state: Pool { fees_in_ppm: 2_000_000, ..pool() }, ..swap_accounts() };
    assert!(swap_base_input_aborts(&too_much_fee, 3_000, 1_000, 0));
    assert!(!swap_base_input_aborts(&swap_accounts(), 3_000, 1_000, 0));
}

fn deposit_accounts() -> Deposit {
    Deposit {
        lp_mint_supply: 900,
        token_a_vault_amount: 5_000,
        token_b_vault_amount: 7_777,
        mint_a_fee: MintTransferFee::LegacyToken,
        mint_b_fee: MintTransferFee::LegacyToken,
    }
}

#[test]
fn deposit_rounds_the_share_up() {
    let plan = deposit_handler(&deposit_accounts(), 100, 500, 778).unwrap();
    assert_eq!(
        plan,
        DepositPlan {
            lp_tokens_to_mint: 100,
            gross_deposit_a: 500,
            transfer_fee_a: 0,
            gross_deposit_b: 778,
            transfer_fee_b: 0,
        }
    );
    assert!(778 * 1_000 >= 100 * 7_777);
}

#[test]
fn deposit_adds_transfer_fees() {
    let accounts = Deposit {
        mint_a_fee: MintTransferFee::Token2022 {
            epoch_fee: Some(TransferFeeInfo { epoch: 0, maximum_fee: 7, transfer_fee_basis_points: 10_000 }),
        },
        ..deposit_accounts()
    };
    let plan = deposit_handler(&accounts, 100, 507, 778).unwrap();
    assert_eq!(plan.gross_deposit_a, 507);
    assert_eq!(plan.transfer_fee_a, 7);
}

#[test]
fn deposit_errors() {
    assert_eq!(deposit_handler(&deposit_accounts(), 100, 499, 778), Err(ErrorCode::InsufficientFunds));
    assert_eq!(deposit_handler(&deposit_accounts(), 100, 500, 777), Err(ErrorCode::InsufficientFunds));
    let token_2022 = Deposit { mint_b_fee: MintTransferFee::Token2022 { epoch_fee: None }, ..deposit_accounts() };
    assert_eq!(deposit_handler(&token_2022, 0, 0, 0), Err(ErrorCode::ZeroTradingTokens));
    assert_eq!(deposit_handler(&deposit_accounts(), 0, 0, 0).unwrap().gross_deposit_a, 0);
    let full = Deposit { lp_mint_supply: u64::MAX, ..deposit_accounts() };
    assert!(deposit_aborts(&full, 1, 0, 0));
    assert!(!deposit_aborts(&deposit_accounts(), 100, 0, 0));
}

fn initialize_accounts() -> Initialize {
    Initialize {
        mint_a: key(1),
        mint_b: key(2),
        mint_a_supported: Ok(true),
        mint_b_supported: Ok(true),
        mint_a_fee: MintTransferFee::LegacyToken,
        mint_b_fee: MintTransferFee::LegacyToken,
        creator_token_a_balance: 10_000,
        creator_token_b_balance: 10_000,
    }
}

#[test]
fn cpmm_initialize_mints_the_square_root_less_the_lock() {
    let plan = initialize_handler(&initialize_accounts(), 3_000, 10_000, 10_000).unwrap();
    assert_eq!(plan, InitializePlan { mint_lp_amount: 9_900, transfer_amount_a: 10_000, transfer_amount_b: 10_000 });
}

#[test]
fn cpmm_initialize_errors() {
    let reversed = Initialize { mint_a: key(2), mint_b: key(1), ..initialize_accounts() };
    assert_eq!(initialize_handler(&reversed, 3_000, 10_000, 10_000), Err(ErrorCode::MintAGreaterThanOrEqualMintB));
    assert_eq!(initialize_handler(&initialize_accounts(), 1_000_000, 10_000, 10_000), Err(ErrorCode::InvalidFees));
    let unsupported = Initialize { mint_a_supported: Ok(false), ..initialize_accounts() };
    assert_eq!(
        initialize_handler(&unsupported, 3_000, 10_000, 10_000),
        Err(ErrorCode::AtleastOneOfTheMintsNotSupported)
    );
    let unreadable = Initialize { mint_b_supported: Err(ErrorCode::ProgramError(7)), ..initialize_accounts() };
    assert_eq!(initialize_handler(&unreadable, 3_000, 10_000, 10_000), Err(ErrorCode::ProgramError(7)));
    let rich = Initialize { creator_token_a_balance: 10_001, ..initialize_accounts() };
    assert_eq!(initialize_handler(&rich, 3_000, 10_000, 10_000), Err(ErrorCode::InsufficientFunds));
    let small = Initialize { creator_token_a_balance: 100, creator_token_b_balance: 100, ..initialize_accounts() };
    assert_eq!(initialize_handler(&small, 3_000, 100, 100), Err(ErrorCode::NotEnoughLiquidity));
}
