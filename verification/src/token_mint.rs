//! What the pool logic reads of a mint account: its address, whether the
//! legacy token program owns it, and for a token-2022 mint the extensions
//! and transfer-fee terms that its data holds.
use crate::transfer_fee::{TransferFeeInfo, TransferFeeSchedule};
use anchor_spl::token_2022::spl_token_2022::extension::transfer_fee::TransferFeeConfig;
use anchor_spl::token_2022::spl_token_2022::extension::BaseStateWithExtensions;
use anchor_spl::token_2022::spl_token_2022::extension::StateWithExtensions;
use anchor_spl::token_2022::spl_token_2022::state::Mint;
use vstd::prelude::*;

verus! {

/// A 32-byte account address.
#[derive(Clone, Copy, Debug, PartialEq, Eq)]
pub struct Key {
    pub bytes: [u8; 32],
}

/// `a` comes strictly before `b` in lexicographic byte order.
pub open spec fn bytes_precede(a: Seq<u8>, b: Seq<u8>) -> bool {
    exists|i: int|
        0 <= i < a.len() && i < b.len() && a.take(i) == b.take(i) && #[trigger] a[i] < b[i]
}

impl Key {
    /// The address as a sequence of bytes.
    pub open spec fn spec_bytes(self) -> Seq<u8> {
        self.bytes@
    }

    /// Both keys name the same address.
    pub fn same(&self, other: &Key) -> (r: bool)
        ensures
            r == (self.spec_bytes() == other.spec_bytes()),
    {
        let mut i: usize = 0;
        while i < 32
            invariant
                0 <= i <= 32,
                forall|j: int| 0 <= j < i ==> self.bytes@[j] == other.bytes@[j],
            decreases 32 - i,
        {
            if self.bytes[i] != other.bytes[i] {
                return false;
            }
            i = i + 1;
        }
        assert(self.bytes@ =~= other.bytes@);
        true
    }

    /// This key orders strictly before `other`, byte by byte.
    pub fn precedes(&self, other: &Key) -> (r: bool)
        ensures
            r == bytes_precede(self.spec_bytes(), other.spec_bytes()),
    {
        let mut i: usize = 0;
        while i < 32
            invariant
                0 <= i <= 32,
                forall|j: int| 0 <= j < i ==> self.bytes@[j] == other.bytes@[j],
            decreases 32 - i,
        {
            if self.bytes[i] != other.bytes[i] {
                assert(self.bytes@.take(i as int) =~= other.bytes@.take(i as int));
                if self.bytes[i] < other.bytes[i] {
                    return true;
                } else {
                    assert forall|k: int|
                        0 <= k < 32 && self.bytes@.take(k) == other.bytes@.take(k) implies !(
                        #[trigger] self.bytes@[k] < other.bytes@[k]) by {
                        if k > i {
                            assert(self.bytes@.take(k)[i as int] == other.bytes@.take(k)[i as int]);
                        }
                    }
                    return false;
                }
            }
            i = i + 1;
        }
        false
    }
}

/// A mint account as the pool logic reads it.
#[derive(Clone, Debug)]
pub struct MintInfo {
    /// The legacy token program owns the mint (it then has no extensions).
    pub owned_by_token_program: bool,
    /// The account's data.
    pub data: Vec<u8>,
}

/// Transfer-fee situation of a mint for the current epoch.
#[derive(Clone, Copy, Debug, PartialEq, Eq, Structural)]
pub enum MintTransferFee {
    /// A legacy token mint: transfers carry no fee.
    LegacyToken,
    /// A token-2022 mint, with the fee terms in force when it has the
    /// transfer-fee extension.
    Token2022 { epoch_fee: Option<TransferFeeInfo> },
    /// A token-2022 mint whose data does not unpack, with the code of the
    /// error that the token interface gave.
    Unreadable { error: u64 },
}

/// Extension codes (the `u16` of token-2022's `ExtensionType`) that the
/// pools accept on a token-2022 mint.
pub const EXTENSION_TRANSFER_FEE_CONFIG: u16 = 1;
pub const EXTENSION_INTEREST_BEARING_CONFIG: u16 = 10;
pub const EXTENSION_METADATA_POINTER: u16 = 18;
pub const EXTENSION_TOKEN_METADATA: u16 = 19;
pub const EXTENSION_SCALED_UI_AMOUNT: u16 = 25;

/// The pools accept a mint with this extension.
pub open spec fn extension_supported(code: u16) -> bool {
    code == EXTENSION_TRANSFER_FEE_CONFIG || code == EXTENSION_METADATA_POINTER || code
        == EXTENSION_TOKEN_METADATA || code == EXTENSION_SCALED_UI_AMOUNT || code
        == EXTENSION_INTEREST_BEARING_CONFIG
}

/// Every extension in `codes` is accepted.
pub open spec fn extensions_supported(codes: Seq<u16>) -> bool {
    forall|i: int| 0 <= i < codes.len() ==> extension_supported(#[trigger] codes[i])
}

/// The pools accept this mint: a legacy token mint, or a token-2022 mint
/// whose data unpacks and lists only accepted extensions.
pub open spec fn mint_accepted(mint: MintInfo) -> bool {
    mint.owned_by_token_program || match spec_mint_extension_types(mint.data@) {
        Ok(codes) => extensions_supported(codes),
        Err(_) => false,
    }
}

/// Extension codes listed in a token-2022 mint's data, or the code of the
/// error (its `u64`) that unpacking the data as a mint gives.
pub uninterp spec fn spec_mint_extension_types(data: Seq<u8>) -> Result<Seq<u16>, u64>;

/// Transfer-fee terms of a token-2022 mint's data, as (older epoch, older
/// maximum fee, older rate, newer epoch, newer maximum fee, newer rate):
/// the code of the error (its `u64`) when the data does not unpack as a
/// mint, `Ok(None)` when it has no transfer-fee extension.
pub uninterp spec fn spec_mint_transfer_fee_config(data: Seq<u8>) -> Result<
    Option<(u64, u64, u16, u64, u64, u16)>,
    u64,
>;

impl TransferFeeSchedule {
    /// The schedule as the tuple that `spec_mint_transfer_fee_config` names.
    pub open spec fn spec_fields(self) -> (u64, u64, u16, u64, u64, u16) {
        (
            self.older_transfer_fee.epoch,
            self.older_transfer_fee.maximum_fee,
            self.older_transfer_fee.transfer_fee_basis_points,
            self.newer_transfer_fee.epoch,
            self.newer_transfer_fee.maximum_fee,
            self.newer_transfer_fee.transfer_fee_basis_points,
        )
    }
}

/// `StateWithExtensions::<Mint>::unpack` on the data, then
/// `get_extension_types`, each type given as its `u16` and an error as its
/// `u64` code: the result is the named `spec_mint_extension_types` of the
/// data; which codes a given byte string yields is the interface's TLV
/// parser and is not stated.
#[verifier::external_body]
pub(crate) fn unpack_mint_extension_types(data: &[u8]) -> (types: Result<Vec<u16>, u64>)
    ensures
        match types {
            Ok(codes) => spec_mint_extension_types(data@) == Ok::<Seq<u16>, u64>(codes@),
            Err(code) => spec_mint_extension_types(data@) == Err::<Seq<u16>, u64>(code),
        },
{
    let state = StateWithExtensions::<Mint>::unpack(data).map_err(u64::from)?;
    let types = state.get_extension_types().map_err(u64::from)?;
    Ok(types.into_iter().map(u16::from).collect())
}

/// `StateWithExtensions::<Mint>::unpack` on the data, then
/// `get_extension::<TransferFeeConfig>`, its failure read as "no transfer
/// fee", an unpack error given as its `u64` code: the result is the named
/// `spec_mint_transfer_fee_config` of the data.
#[verifier::external_body]
pub(crate) fn unpack_mint_transfer_fee_config(data: &[u8]) -> (config: Result<
    Option<TransferFeeSchedule>,
    u64,
>)
    ensures
        match config {
            Ok(Some(schedule)) => spec_mint_transfer_fee_config(data@) == Ok::<
                Option<(u64, u64, u16, u64, u64, u16)>,
                u64,
            >(Some(schedule.spec_fields())),
            Ok(None) => spec_mint_transfer_fee_config(data@) == Ok::<
                Option<(u64, u64, u16, u64, u64, u16)>,
                u64,
            >(None),
            Err(code) => spec_mint_transfer_fee_config(data@) == Err::<
                Option<(u64, u64, u16, u64, u64, u16)>,
                u64,
            >(code),
        },
{
    let state = StateWithExtensions::<Mint>::unpack(data).map_err(u64::from)?;
    match state.get_extension::<TransferFeeConfig>() {
        Ok(c) => {
            let (o, n) = (&c.older_transfer_fee, &c.newer_transfer_fee);
            let older_transfer_fee = TransferFeeInfo { epoch: o.epoch.into(), maximum_fee: o.maximum_fee.into(), transfer_fee_basis_points: o.transfer_fee_basis_points.into() };
            let newer_transfer_fee = TransferFeeInfo { epoch: n.epoch.into(), maximum_fee: n.maximum_fee.into(), transfer_fee_basis_points: n.transfer_fee_basis_points.into() };
            Ok(Some(TransferFeeSchedule { older_transfer_fee, newer_transfer_fee }))
        },
        Err(_) => Ok(None),
    }
}

/// Builds the schedule whose fields are the given tuple.
pub open spec fn schedule_of(t: (u64, u64, u16, u64, u64, u16)) -> TransferFeeSchedule {
    TransferFeeSchedule {
        older_transfer_fee: TransferFeeInfo {
            epoch: t.0,
            maximum_fee: t.1,
            transfer_fee_basis_points: t.2,
        },
        newer_transfer_fee: TransferFeeInfo {
            epoch: t.3,
            maximum_fee: t.4,
            transfer_fee_basis_points: t.5,
        },
    }
}

/// The transfer-fee situation that a mint account describes in `epoch`.
pub open spec fn spec_mint_transfer_fee(mint: MintInfo, epoch: u64) -> MintTransferFee {
    if mint.owned_by_token_program {
        MintTransferFee::LegacyToken
    } else {
        match spec_mint_transfer_fee_config(mint.data@) {
            Err(code) => MintTransferFee::Unreadable { error: code },
            Ok(None) => MintTransferFee::Token2022 { epoch_fee: None },
            Ok(Some(t)) => MintTransferFee::Token2022 {
                epoch_fee: Some(schedule_of(t).spec_epoch_fee(epoch)),
            },
        }
    }
}

/// Reads the transfer-fee terms of a mint that are in force during `epoch`.
pub fn mint_transfer_fee(mint: &MintInfo, epoch: u64) -> (fee: MintTransferFee)
    ensures
        fee == spec_mint_transfer_fee(*mint, epoch),
{
    if mint.owned_by_token_program {
        return MintTransferFee::LegacyToken;
    }
    match unpack_mint_transfer_fee_config(mint.data.as_slice()) {
        Ok(Some(schedule)) => {
            assert(schedule_of(schedule.spec_fields()) == schedule);
            MintTransferFee::Token2022 { epoch_fee: Some(schedule.get_epoch_fee(epoch)) }
        },
        Ok(None) => MintTransferFee::Token2022 { epoch_fee: None },
        Err(code) => MintTransferFee::Unreadable { error: code },
    }
}

/// Whether every extension in `codes` is one that the pools accept.
pub fn all_extensions_supported(codes: &Vec<u16>) -> (r: bool)
    ensures
        r == extensions_supported(codes@),
{
    let mut i: usize = 0;
    while i < codes.len()
        invariant
            0 <= i <= codes.len(),
            forall|j: int| 0 <= j < i ==> extension_supported(#[trigger] codes@[j]),
        decreases codes.len() - i,
    {
        let code = codes[i];
        if !(code == EXTENSION_TRANSFER_FEE_CONFIG || code == EXTENSION_METADATA_POINTER || code
            == EXTENSION_TOKEN_METADATA || code == EXTENSION_SCALED_UI_AMOUNT || code
            == EXTENSION_INTEREST_BEARING_CONFIG) {
            assert(!extension_supported(codes@[i as int]));
            return false;
        }
        i = i + 1;
    }
    true
}

} // verus!
