use cp_swap::cp_swap::error::ErrorCode;
use cp_swap::cp_swap::amm_config::AmmConfig;
use cp_swap::cp_swap::initialize::{handle_initialize_for_mints, Initialize};
use cp_swap::cp_swap::utils::is_mint_supported;
use cp_swap::cp_swapp::error::ErrorCode as CpmmError;
use cp_swap::cp_swapp::initialize::{
    initialize_handler_for_mints, is_supported_mint, Initialize as CpmmInitialize,
    InitializePlan as CpmmInitializePlan,
};
use cp_swap::token_mint::{
    mint_transfer_fee, Key, MintInfo, MintTransferFee, EXTENSION_INTEREST_BEARING_CONFIG,
    EXTENSION_METADATA_POINTER, EXTENSION_SCALED_UI_AMOUNT, EXTENSION_TOKEN_METADATA,
    EXTENSION_TRANSFER_FEE_CONFIG,
};
use cp_swap::transfer_fee::{TransferFeeInfo, TransferFeeSchedule};

use anchor_lang::prelude::ProgramError;
use anchor_lang::solana_program::program_option::COption;
use anchor_lang::solana_program::program_pack::Pack;
use anchor_spl::token_2022::spl_token_2022::extension::mint_close_authority::MintCloseAuthority;
use anchor_spl::token_2022::spl_token_2022::extension::transfer_fee::{TransferFee, TransferFeeConfig};
use anchor_spl::token_2022::spl_token_2022::extension::{
    BaseStateWithExtensionsMut, ExtensionType, StateWithExtensionsMut,
};
use anchor_spl::token_2022::spl_token_2022::state::Mint;

fn base_mint() -> Mint {
    Mint {
        mint_authority: COption::None,
        supply: 1_000,
        decimals: 6,
        is_initialized: true,
        freeze_authority: COption::None,
    }
}

fn spl_fee(epoch: u64, bps: u16, maximum_fee: u64) -> TransferFee {
    TransferFee {
        epoch: epoch.into(),
        maximum_fee: maximum_fee.into(),
        transfer_fee_basis_points: bps.into(),
    }
}

fn plain_mint_data() -> Vec<u8> {
    let mut data = vec![0u8; Mint::LEN];
    Mint::pack(base_mint(), &mut data).unwrap();
    data
}

fn mint_data_with(extensions: &[ExtensionType]) -> Vec<u8> {
    let len = ExtensionType::try_calculate_account_len::<Mint>(extensions).unwrap();
    let mut data = vec![0u8; len];
    {
        let mut state = StateWithExtensionsMut::<Mint>::unpack_uninitialized(&mut data).unwrap();
        for extension in extensions {
            match extension {
                ExtensionType::TransferFeeConfig => {
                    let config = state.init_extension::<TransferFeeConfig>(true).unwrap();
                    config.older_transfer_fee = spl_fee(0, 50, 1_000);
                    config.newer_transfer_fee = spl_fee(10, 100, 2_000);
                }
                ExtensionType::MintCloseAuthority => {
                    state.init_extension::<MintCloseAuthority>(true).unwrap();
                }
                _ => unreachable!(),
            }
        }
        state.base = base_mint();
        state.pack_base();
        state.init_account_type().unwrap();
    }
    data
}

fn token_2022(data: Vec<u8>) -> MintInfo {
    MintInfo { owned_by_token_program: false, data }
}

#[test]
fn key_order_is_bytewise() {
    let a = Key { bytes: [1; 32] };
    let b = Key { bytes: [2; 32] };
    let mut c_bytes = [1u8; 32];
    c_bytes[31] = 2;
    let c = Key { bytes: c_bytes };
    assert!(a.precedes(&b));
    assert!(!b.precedes(&a));
    assert!(!a.precedes(&a));
    assert!(a.precedes(&c));
    assert!(!c.precedes(&a));
    assert!(a.same(&a));
    assert!(!a.same(&c));
}

#[test]
fn extension_codes_are_token_2022s() {
    assert_eq!(u16::from(ExtensionType::TransferFeeConfig), EXTENSION_TRANSFER_FEE_CONFIG);
    assert_eq!(u16::from(ExtensionType::MetadataPointer), EXTENSION_METADATA_POINTER);
    assert_eq!(u16::from(ExtensionType::TokenMetadata), EXTENSION_TOKEN_METADATA);
    assert_eq!(u16::from(ExtensionType::InterestBearingConfig), EXTENSION_INTEREST_BEARING_CONFIG);
    assert_eq!(u16::from(ExtensionType::ScaledUiAmount), EXTENSION_SCALED_UI_AMOUNT);
}

#[test]
fn legacy_mint_has_no_transfer_fee() {
    let mint = MintInfo { owned_by_token_program: true, data: vec![] };
    assert_eq!(mint_transfer_fee(&mint, 7), MintTransferFee::LegacyToken);
}

#[test]
fn unreadable_mint_data() {
    let mint = token_2022(vec![0u8; 10]);
    let code = u64::from(ProgramError::InvalidAccountData);
    assert_eq!(mint_transfer_fee(&mint, 7), MintTransferFee::Unreadable { error: code });
    assert_eq!(is_mint_supported(&mint), Err(ErrorCode::ProgramError(code)));
    assert_eq!(is_supported_mint(&mint), Err(CpmmError::ProgramError(code)));
}

#[test]
fn token_2022_mint_without_fee_extension() {
    let mint = token_2022(plain_mint_data());
    assert_eq!(mint_transfer_fee(&mint, 7), MintTransferFee::Token2022 { epoch_fee: None });
    assert_eq!(is_mint_supported(&mint), Ok(()));
    assert_eq!(is_supported_mint(&mint), Ok(true));
}

#[test]
fn token_2022_fee_terms_follow_the_epoch() {
    let mint = token_2022(mint_data_with(&[ExtensionType::TransferFeeConfig]));
    let older = TransferFeeInfo { epoch: 0, maximum_fee: 1_000, transfer_fee_basis_points: 50 };
    let newer = TransferFeeInfo { epoch: 10, maximum_fee: 2_000, transfer_fee_basis_points: 100 };
    assert_eq!(mint_transfer_fee(&mint, 9), MintTransferFee::Token2022 { epoch_fee: Some(older) });
    assert_eq!(mint_transfer_fee(&mint, 10), MintTransferFee::Token2022 { epoch_fee: Some(newer) });
    assert_eq!(mint_transfer_fee(&mint, 11), MintTransferFee::Token2022 { epoch_fee: Some(newer) });
    let schedule = TransferFeeSchedule { older_transfer_fee: older, newer_transfer_fee: newer };
    assert_eq!(schedule.get_epoch_fee(0), older);
    assert_eq!(schedule.get_epoch_fee(u64::MAX), newer);
}

#[test]
fn supported_extensions() {
    let fee_mint = token_2022(mint_data_with(&[ExtensionType::TransferFeeConfig]));
    assert_eq!(is_mint_supported(&fee_mint), Ok(()));
    assert_eq!(is_supported_mint(&fee_mint), Ok(true));
    let closable = token_2022(mint_data_with(&[ExtensionType::MintCloseAuthority]));
    assert_eq!(is_mint_supported(&closable), Err(ErrorCode::MintNotSupported));
    assert_eq!(is_supported_mint(&closable), Ok(false));
    let both = token_2022(mint_data_with(&[
        ExtensionType::TransferFeeConfig,
        ExtensionType::MintCloseAuthority,
    ]));
    assert_eq!(is_mint_supported(&both), Err(ErrorCode::MintNotSupported));
    let legacy = MintInfo { owned_by_token_program: true, data: vec![1, 2, 3] };
    assert_eq!(is_mint_supported(&legacy), Ok(()));
    assert_eq!(is_supported_mint(&legacy), Ok(true));
}

fn pool_creation(supported: Result<(), ErrorCode>) -> Initialize {
    Initialize {
        amm_config: AmmConfig {
            disable_create_pool: false,
            swap_fee_rate_in_bps: 25,
            update_authority: None,
            fee_side_input: true,
        },
        amm_config_key: Key { bytes: [7; 32] },
        creator: Key { bytes: [5; 32] },
        mint_0: Key { bytes: [1; 32] },
        mint_1: Key { bytes: [2; 32] },
        mint_0_supported: supported,
        mint_1_supported: supported,
        creator_0_balance: 20_000,
        creator_1_balance: 20_000,
        pool_bump: 254,
        lp_mint_bump: 253,
    }
}

#[test]
fn initialize_for_mints_checks_the_mints_data() {
    let fee_mint = token_2022(mint_data_with(&[ExtensionType::TransferFeeConfig]));
    let closable = token_2022(mint_data_with(&[ExtensionType::MintCloseAuthority]));
    let broken = token_2022(vec![0u8; 10]);
    let legacy = MintInfo { owned_by_token_program: true, data: vec![] };
    // The support results held in the accounts are replaced by those of the mints.
    let accounts = pool_creation(Err(ErrorCode::MintNotSupported));
    let plan = handle_initialize_for_mints(&accounts, &legacy, &fee_mint, 10_000, 10_000, 0, 0)
        .unwrap()
        .unwrap();
    assert_eq!(plan.mint_lp_amount, 9_900);
    assert_eq!(
        handle_initialize_for_mints(&pool_creation(Ok(())), &legacy, &closable, 10_000, 10_000, 0, 0)
            .unwrap()
            .err(),
        Some(ErrorCode::MintNotSupported)
    );
    let code = u64::from(ProgramError::InvalidAccountData);
    assert_eq!(
        handle_initialize_for_mints(&pool_creation(Ok(())), &broken, &closable, 10_000, 10_000, 0, 0)
            .unwrap()
            .err(),
        Some(ErrorCode::ProgramError(code))
    );
    assert!(handle_initialize_for_mints(&accounts, &legacy, &legacy, 10_000, 10_000, u64::MAX, 0).is_none());
}

fn cpmm_pool_creation() -> CpmmInitialize {
    CpmmInitialize {
        mint_a: Key { bytes: [1; 32] },
        mint_b: Key { bytes: [2; 32] },
        mint_a_supported: Ok(false),
        mint_b_supported: Ok(false),
        mint_a_fee: MintTransferFee::Unreadable { error: 7 },
        mint_b_fee: MintTransferFee::Unreadable { error: 7 },
        creator_token_a_balance: 10_000,
        creator_token_b_balance: 10_000,
    }
}

#[test]
fn cpmm_initialize_for_mints_reads_support_and_fees_from_the_mints() {
    let legacy = MintInfo { owned_by_token_program: true, data: vec![] };
    let plain = token_2022(plain_mint_data());
    let closable = token_2022(mint_data_with(&[ExtensionType::MintCloseAuthority]));
    let broken = token_2022(vec![0u8; 10]);
    assert_eq!(
        initialize_handler_for_mints(&cpmm_pool_creation(), &legacy, &plain, 3, 3_000, 10_000, 10_000),
        Some(Ok(CpmmInitializePlan { mint_lp_amount: 9_900, transfer_amount_a: 10_000, transfer_amount_b: 10_000 }))
    );
    assert_eq!(
        initialize_handler_for_mints(&cpmm_pool_creation(), &legacy, &closable, 3, 3_000, 10_000, 10_000),
        Some(Err(CpmmError::AtleastOneOfTheMintsNotSupported))
    );
    let code = u64::from(ProgramError::InvalidAccountData);
    assert_eq!(
        initialize_handler_for_mints(&cpmm_pool_creation(), &broken, &legacy, 3, 3_000, 10_000, 10_000),
        Some(Err(CpmmError::ProgramError(code)))
    );
}
