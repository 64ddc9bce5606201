use cp_swap::cp_swap::amm_config::AmmConfig;
use cp_swap::cp_swap::curve_math::CurveMath;
use cp_swap::cp_swap::error::ErrorCode;
use cp_swap::cp_swap::utils::{amount_after_transfer_fee, amount_before_transfer_fee};
use cp_swap::cp_swapp::deposit::calculate_deposit;
use cp_swap::cp_swapp::error::ErrorCode as CpmmError;
use cp_swap::cp_swapp::pool::Pool;
use cp_swap::cp_swapp::utils::{get_inverse_transfer_fee, get_transfer_fees};
use cp_swap::token_mint::{Key, MintTransferFee};
use cp_swap::transfer_fee::{TransferFeeInfo, MAX_FEE_BASIS_POINTS};

use anchor_spl::token_2022::spl_token_2022::extension::transfer_fee::TransferFee;

fn config(bps: u16, fee_side_input: bool) -> AmmConfig {
    AmmConfig {
        disable_create_pool: false,
        swap_fee_rate_in_bps: bps,
        update_authority: None,
        fee_side_input,
    }
}

fn terms(bps: u16, maximum_fee: u64) -> TransferFeeInfo {
    TransferFeeInfo { epoch: 0, maximum_fee, transfer_fee_basis_points: bps }
}

fn spl_terms(bps: u16, maximum_fee: u64) -> TransferFee {
    TransferFee {
        epoch: 0u64.into(),
        maximum_fee: maximum_fee.into(),
        transfer_fee_basis_points: bps.into(),
    }
}

#[test]
fn curve_k_is_the_product() {
    assert_eq!(CurveMath::calculate_k(10, 20), 200);
    assert_eq!(CurveMath::calculate_k(0, 20), 0);
}

#[test]
fn curve_output_rounds_down_and_keeps_product() {
    let out = CurveMath::calculate_curve_output_amount(100, 100, 110);
    assert_eq!(out, 9);
    assert!(110 * (100 - out) >= 100 * 100);
    assert_eq!(CurveMath::calculate_curve_output_amount(100, 100, 100), 0);
    assert_eq!(CurveMath::calculate_curve_output_amount(0, 100, 5), 100);
}

#[test]
fn curve_input_rounds_up_and_is_least() {
    let input = CurveMath::calculate_curve_input_amount(100, 100, 90);
    assert_eq!(input, 12);
    assert!((100 + input) * 90 >= 100 * 100);
    assert!((100 + input - 1) * 90 < 100 * 100);
    assert_eq!(CurveMath::calculate_curve_input_amount(100, 100, 100), 0);
}

#[test]
fn amm_fee_rounds_up() {
    let c = config(25, true);
    assert_eq!(c.calculate_fee(10000), 25);
    assert_eq!(c.calculate_fee(1), 1);
    assert_eq!(c.calculate_fee(0), 0);
    assert_eq!(c.calculate_post_fee_amount(10000), 9975);
    assert_eq!(config(0, true).calculate_fee(12345), 0);
}

#[test]
fn amm_pre_fee_and_inverse_fee() {
    let c = config(25, true);
    assert_eq!(c.calculate_pre_fee_amount(9975), 10000);
    assert_eq!(c.calculate_inverse_fee(9975), 25);
    assert_eq!(c.calculate_pre_fee_amount(0), 0);
}

#[test]
fn amm_pre_fee_round_trip_delivers() {
    let c = config(30, true);
    let pre = c.calculate_pre_fee_amount(1000);
    assert_eq!(pre, 1004);
    assert_eq!(c.calculate_post_fee_amount(pre), 1000);
    assert!(c.calculate_post_fee_amount(pre - 1) < 1000);
}

#[test]
fn amm_pre_fee_round_trip_is_exact() {
    for bps in [0u16, 1, 25, 30, 2_500, 9_999] {
        let c = config(bps, true);
        for x in [0u64, 1, 7, 999, 1_000, 123_456, 10_000_000_000] {
            let pre = c.calculate_pre_fee_amount(x);
            assert_eq!(pre - c.calculate_fee(pre), x);
        }
    }
}

#[test]
fn amm_fee_side() {
    assert!(!config(25, true).is_fee_side_receive());
    assert!(config(25, false).is_fee_side_receive());
}

#[test]
fn transfer_fee_after_matches_token_2022() {
    let fee = MintTransferFee::Token2022 { epoch_fee: Some(terms(100, 1_000_000)) };
    assert_eq!(amount_after_transfer_fee(&fee, 10000), Some(Ok(9900)));
    assert_eq!(spl_terms(100, 1_000_000).calculate_post_fee_amount(10000), Some(9900));
    let capped = MintTransferFee::Token2022 { epoch_fee: Some(terms(100, 50)) };
    assert_eq!(amount_after_transfer_fee(&capped, 10000), Some(Ok(9950)));
    assert_eq!(amount_after_transfer_fee(&MintTransferFee::LegacyToken, 10000), Some(Ok(10000)));
    assert_eq!(
        amount_after_transfer_fee(&MintTransferFee::Token2022 { epoch_fee: None }, 10000),
        Some(Ok(10000))
    );
    assert_eq!(
        amount_after_transfer_fee(&MintTransferFee::Unreadable { error: 7 }, 10000),
        Some(Err(ErrorCode::ProgramError(7)))
    );
}

#[test]
fn transfer_fee_before_matches_token_2022() {
    let fee = MintTransferFee::Token2022 { epoch_fee: Some(terms(100, 1_000_000)) };
    assert_eq!(amount_before_transfer_fee(&fee, 9900), Some(Ok(10000)));
    let capped = MintTransferFee::Token2022 { epoch_fee: Some(terms(100, 50)) };
    assert_eq!(amount_before_transfer_fee(&capped, 9950), Some(Ok(10000)));
    assert_eq!(spl_terms(100, 50).calculate_pre_fee_amount(9950), Some(10000));
    let full = MintTransferFee::Token2022 { epoch_fee: Some(terms(10000, 7)) };
    assert_eq!(amount_before_transfer_fee(&full, 5), Some(Ok(12)));
    assert_eq!(amount_after_transfer_fee(&full, 12), Some(Ok(5)));
    let over = MintTransferFee::Token2022 { epoch_fee: Some(terms(100, 5)) };
    assert_eq!(amount_before_transfer_fee(&over, u64::MAX), None);
}

#[test]
fn max_fee_basis_points_is_token_2022s() {
    assert_eq!(
        MAX_FEE_BASIS_POINTS,
        anchor_spl::token_2022::spl_token_2022::extension::transfer_fee::MAX_FEE_BASIS_POINTS
    );
}

#[test]
fn cpmm_transfer_fees() {
    assert_eq!(get_transfer_fees(&MintTransferFee::LegacyToken, 10000), Ok(0));
    assert_eq!(get_transfer_fees(&MintTransferFee::Token2022 { epoch_fee: None }, 10000), Ok(0));
    assert_eq!(
        get_transfer_fees(&MintTransferFee::Token2022 { epoch_fee: Some(terms(10000, 7)) }, 10000),
        Ok(7)
    );
    assert_eq!(
        get_transfer_fees(&MintTransferFee::Token2022 { epoch_fee: Some(terms(100, 1_000_000)) }, 10000),
        Ok(100)
    );
    assert_eq!(
        get_transfer_fees(&MintTransferFee::Token2022 { epoch_fee: Some(terms(5000, 1_000_000)) }, 1),
        Err(CpmmError::MismatchInTransferFeeCalculation)
    );
    assert_eq!(
        get_transfer_fees(&MintTransferFee::Unreadable { error: 7 }, 10000),
        Err(CpmmError::ProgramError(7))
    );
}

#[test]
fn cpmm_inverse_transfer_fees() {
    assert_eq!(get_inverse_transfer_fee(&MintTransferFee::LegacyToken, 0), Ok(0));
    assert_eq!(
        get_inverse_transfer_fee(&MintTransferFee::Token2022 { epoch_fee: None }, 0),
        Err(CpmmError::ZeroTradingTokens)
    );
    assert_eq!(
        get_inverse_transfer_fee(&MintTransferFee::Unreadable { error: 7 }, 5),
        Err(CpmmError::ProgramError(7))
    );
    assert_eq!(get_inverse_transfer_fee(&MintTransferFee::Token2022 { epoch_fee: None }, 5), Ok(0));
    assert_eq!(
        get_inverse_transfer_fee(&MintTransferFee::Token2022 { epoch_fee: Some(terms(10000, 7)) }, 5),
        Ok(7)
    );
    assert_eq!(
        get_inverse_transfer_fee(
            &MintTransferFee::Token2022 { epoch_fee: Some(terms(100, 1_000_000)) },
            9900
        ),
        Ok(100)
    );
}

#[test]
fn cpmm_swap_fees_round_up() {
    let pool = Pool { mint_a: Key { bytes: [1; 32] }, mint_b: Key { bytes: [2; 32] }, fees_in_ppm: 3000, bump: 0 };
    assert_eq!(pool.swap_fees(1000), 3);
    assert_eq!(pool.swap_fees(1), 1);
    assert_eq!(pool.swap_fees(0), 0);
    let free = Pool { fees_in_ppm: 0, ..pool };
    assert_eq!(free.swap_fees(12345), 0);
    let full = Pool { fees_in_ppm: 1_000_000, ..pool };
    assert_eq!(full.swap_fees(12345), 12345);
}

#[test]
fn cpmm_deposit_rounds_up() {
    assert_eq!(calculate_deposit(10, 1000, 12345), Ok(124));
    assert_eq!(calculate_deposit(10, 1000, 1000), Ok(10));
    assert_eq!(calculate_deposit(0, 1000, 1000), Ok(0));
    let d = calculate_deposit(7, 3, 10).unwrap();
    assert_eq!(d, 24);
    assert!(d * 3 >= 7 * 10 && (d - 1) * 3 < 7 * 10);
}

#[test]
fn amm_fee_never_exceeds_the_amount() {
    let full = config(10000, true);
    assert_eq!(full.calculate_fee(123), 123);
    assert_eq!(full.calculate_post_fee_amount(123), 0);
    let c = config(9999, true);
    assert_eq!(c.calculate_fee(1), 1);
    assert_eq!(c.calculate_post_fee_amount(10000), 1);
}

#[test]
fn transfer_pre_fee_amount_delivers_what_was_asked() {
    let fee = MintTransferFee::Token2022 { epoch_fee: Some(terms(300, 1_000)) };
    let pre = amount_before_transfer_fee(&fee, 997).unwrap().unwrap();
    assert_eq!(pre, 1028);
    assert_eq!(amount_after_transfer_fee(&fee, pre), Some(Ok(997)));
    let capped = MintTransferFee::Token2022 { epoch_fee: Some(terms(300, 5)) };
    let pre = amount_before_transfer_fee(&capped, 997).unwrap().unwrap();
    assert_eq!(pre, 1002);
    assert_eq!(amount_after_transfer_fee(&capped, pre), Some(Ok(997)));
}

#[test]
fn transfer_inverse_fee_never_exceeds_the_fee() {
    for (bps, max, x) in [(5000u16, 1_000_000u64, 1u64), (100, 1_000_000, 10_000), (300, 5, 997), (9999, 10, 3)] {
        let t = spl_terms(bps, max);
        let fee = t.calculate_fee(x).unwrap();
        let inverse = t.calculate_inverse_fee(x - fee).unwrap();
        assert!(inverse <= fee);
    }
    assert_eq!(
        get_transfer_fees(&MintTransferFee::Token2022 { epoch_fee: Some(terms(5000, 1_000_000)) }, 1),
        Err(CpmmError::MismatchInTransferFeeCalculation)
    );
}
