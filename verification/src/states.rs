//! The engine's data model: pool state, configuration records, vesting
//! records, and the parameter bundles used to create them.
//!
//! Account references are opaque identifiers (`AccountId`): the engine never
//! derives or inspects them, it only carries them so that the caller can route
//! custody transfers.  Encoded byte flags of the persisted form are widened to
//! explicit enums, and reserved padding is replaced by a schema version tag.

use vstd::prelude::*;

verus! {

/// Opaque reference to an externally managed account or asset.
pub type AccountId = u64;

/// Fee rates are expressed in hundredths of a basis point: this denominator
/// is 100%.
pub const FEE_RATE_DENOMINATOR_VALUE: u64 = 1_000_000;

/// Largest stored platform name, in bytes.
pub const NAME_SIZE: usize = 64;

/// Largest stored platform website link, in bytes.
pub const WEB_SIZE: usize = 256;

/// Largest stored platform image link, in bytes.
pub const IMG_SIZE: usize = 256;

/// Version tag of this record layout.
pub const SCHEMA_VERSION: u8 = 1;

/// Lifecycle state of a pool.
///
/// * `Fund` - the pool is accepting quote funds along the curve
/// * `Migrate` - funding has ended; reserves await migration to an AMM
/// * `Trade` - migration is done; the pool itself no longer trades
#[derive(Clone, Copy, Debug, PartialEq, Eq, Structural)]
pub enum PoolStatus {
    Fund,
    Migrate,
    Trade,
}

/// Which price curve family a pool uses; chosen at creation, immutable after.
#[derive(Clone, Copy, Debug, PartialEq, Eq, Structural)]
pub enum CurveKind {
    Constant,
    Fixed,
    Linear,
}

/// Which AMM the pool's reserves migrate to once funding completes.
#[derive(Clone, Copy, Debug, PartialEq, Eq, Structural)]
pub enum MigrateType {
    AMM,
    CPSWAP,
}

/// Which token program custodies an asset side.
#[derive(Clone, Copy, Debug, PartialEq, Eq, Structural)]
pub enum TokenProgramFlag {
    SPLTokenProgram,
    TokenProgram2022,
}

/// Names an asset side of the pool when a flag applies to one side only.
#[derive(Clone, Copy, Debug, PartialEq, Eq, Structural)]
pub enum TokenProgramBit {
    BaseTokenProgram,
    QuoteTokenProgram,
}

/// After migration to a constant-product AMM, whether the creator's fee is
/// taken on the quote token only or on both tokens.
#[derive(Clone, Copy, Debug, PartialEq, Eq, Structural)]
pub enum AmmCreatorFeeOn {
    QuoteToken,
    BothToken,
}

/// Protocol-wide configuration, validated when it is created and read-only
/// afterwards.  All rates use `FEE_RATE_DENOMINATOR_VALUE` as denominator.
#[derive(Clone, Copy, Debug, PartialEq, Eq, Structural)]
pub struct GlobalConfig {
    /// Curve family that pools under this config use.
    pub curve_type: CurveKind,
    /// Config index.
    pub index: u16,
    /// The fee of migrating to the AMM, in quote units.
    pub migrate_fee: u64,
    /// The trade fee rate.
    pub trade_fee_rate: u64,
    /// The maximum per-call share (referrer) fee rate.
    pub max_share_fee_rate: u64,
    /// The minimum base supply, counted in whole tokens (without decimals).
    pub min_base_supply: u64,
    /// The maximum rate of the supply that may be locked for vesting.
    pub max_lock_rate: u64,
    /// The minimum rate of the supply that must be for sale on the curve.
    pub min_base_sell_rate: u64,
    /// The minimum rate of the supply that must be left for migration.
    pub min_base_migrate_rate: u64,
    /// The minimum quote fund-raising target, with decimals.
    pub min_quote_fund_raising: u64,
    /// Mint of the quote token.
    pub quote_mint: AccountId,
    /// Owner entitled to claim the protocol fee.
    pub protocol_fee_owner: AccountId,
    /// Owner entitled to claim the migrate fee.
    pub migrate_fee_owner: AccountId,
    /// Wallet that controls migration to the AMM.
    pub migrate_to_amm_wallet: AccountId,
    /// Wallet that controls migration to the constant-product swap.
    pub migrate_to_cpswap_wallet: AccountId,
}

impl GlobalConfig {
    /// Every rate parameter is at most 100%.
    pub open spec fn wf(&self) -> bool {
        &&& self.trade_fee_rate <= FEE_RATE_DENOMINATOR_VALUE
        &&& self.max_share_fee_rate <= FEE_RATE_DENOMINATOR_VALUE
        &&& self.max_lock_rate <= FEE_RATE_DENOMINATOR_VALUE
        &&& self.min_base_sell_rate <= FEE_RATE_DENOMINATOR_VALUE
        &&& self.min_base_migrate_rate <= FEE_RATE_DENOMINATOR_VALUE
    }

    /// Checks the rate bounds that `wf` states.
    pub fn validate(&self) -> (b: bool)
        ensures
            b == self.wf(),
    {
        self.trade_fee_rate <= FEE_RATE_DENOMINATOR_VALUE
            && self.max_share_fee_rate <= FEE_RATE_DENOMINATOR_VALUE
            && self.max_lock_rate <= FEE_RATE_DENOMINATOR_VALUE
            && self.min_base_sell_rate <= FEE_RATE_DENOMINATOR_VALUE
            && self.min_base_migrate_rate <= FEE_RATE_DENOMINATOR_VALUE
    }
}

/// Linear vesting schedule embedded in a pool.
///
/// `start_time` is zero while the pool is funding and is populated exactly
/// once, when the pool leaves `Fund`.
#[derive(Clone, Copy, Debug, PartialEq, Eq, Structural)]
pub struct VestingSchedule {
    /// Total amount of base tokens that vest through this schedule.
    pub total_locked_amount: u64,
    /// Seconds after funding ends before unlocking starts.
    pub cliff_period: u64,
    /// Seconds over which the locked amount unlocks linearly.
    pub unlock_period: u64,
    /// Unix time at which funding ended; zero while funding.
    pub start_time: u64,
    /// Amount already allocated to beneficiaries, at most
    /// `total_locked_amount`.
    pub allocated_share_amount: u64,
}

impl VestingSchedule {
    /// No more than the locked amount is ever allocated.
    pub open spec fn wf(&self) -> bool {
        self.allocated_share_amount <= self.total_locked_amount
    }
}

/// One beneficiary's stake in a pool's vesting schedule.  Created once and
/// kept for the life of the pool; only `claimed_amount` ever changes.
#[derive(Clone, Copy, Debug, PartialEq, Eq, Structural)]
pub struct VestingRecord {
    /// The pool whose schedule this record draws from.
    pub pool: AccountId,
    /// The beneficiary of the vested tokens.
    pub beneficiary: AccountId,
    /// Amount already claimed and paid out.
    pub claimed_amount: u64,
    /// This beneficiary's total share of the locked amount.
    pub token_share_amount: u64,
}

impl VestingRecord {
    /// A record never claims beyond its share.
    pub open spec fn wf(&self) -> bool {
        self.claimed_amount <= self.token_share_amount
    }
}

/// The central entity: one launch pool's complete accounting state.
///
/// The engine mutates a snapshot of this record atomically per operation;
/// the caller persists it and moves the matching custody amounts.
#[derive(Clone, Copy, Debug, PartialEq, Eq, Structural)]
pub struct PoolState {
    /// Version tag of this record layout.
    pub schema_version: u8,
    /// Current lifecycle state; only ever advances forward.
    pub status: PoolStatus,
    /// Curve family of this pool.
    pub curve_kind: CurveKind,
    /// Which AMM the pool migrates to.
    pub migrate_type: MigrateType,
    /// Decimals of the base token.
    pub base_decimals: u8,
    /// Decimals of the quote token.
    pub quote_decimals: u8,
    /// Total mintable base units.
    pub supply: u64,
    /// Base units allocated to the curve, at most `supply`.
    pub total_base_sell: u64,
    /// Curve-family parameter.  Constant product: virtual base liquidity.
    /// Fixed price: price numerator scale (`virtual_quote / virtual_base` is
    /// the price).  Linear price: the slope of the price in cumulative base
    /// sold.
    pub virtual_base: u64,
    /// Curve-family parameter.  Constant product: virtual quote liquidity.
    /// Fixed price: see `virtual_base`.  Linear price: unused, zero.
    pub virtual_quote: u64,
    /// Base units actually custodied by the pool and still for sale.
    pub real_base: u64,
    /// Quote units actually custodied by the pool, net of fees.
    pub real_quote: u64,
    /// Funding threshold in quote units; reaching it ends funding.
    pub total_quote_fund_raising: u64,
    /// Accumulated protocol fee, in quote units, awaiting claim.
    pub quote_protocol_fee: u64,
    /// Accumulated platform fee, in quote units, awaiting claim.
    pub platform_fee: u64,
    /// The fee of migrating to the AMM, in quote units.
    pub migrate_fee: u64,
    /// Vesting schedule for the base token.
    pub vesting_schedule: VestingSchedule,
    /// The global configuration this pool adheres to.
    pub global_config: AccountId,
    /// The platform configuration this pool adheres to.
    pub platform_config: AccountId,
    /// Mint of the base token.
    pub base_mint: AccountId,
    /// Mint of the quote token.
    pub quote_mint: AccountId,
    /// Vault holding the pool's base tokens.
    pub base_vault: AccountId,
    /// Vault holding the pool's quote tokens.
    pub quote_vault: AccountId,
    /// The creator of the base token.
    pub creator: AccountId,
    /// Token program custodying the base side.
    pub base_token_program: TokenProgramFlag,
    /// Token program custodying the quote side.
    pub quote_token_program: TokenProgramFlag,
    /// Where the creator's fee is taken after migration.
    pub amm_creator_fee_on: AmmCreatorFeeOn,
}

impl PoolState {
    /// Base units sold off the curve so far.
    pub open spec fn sold(&self) -> int {
        self.total_base_sell - self.real_base
    }

    /// The pool invariant every operation preserves:
    /// `real_base <= total_base_sell <= supply`, the locked amount also fits
    /// in the supply, the raised quote never exceeds the funding target (and
    /// stays strictly below it while funding, since reaching it flips the
    /// status in the same operation), and the curve parameters are positive
    /// and small enough that the curve arithmetic cannot overflow.
    pub open spec fn wf(&self) -> bool {
        &&& 1 <= self.supply
        &&& 1 <= self.total_base_sell <= self.supply
        &&& self.real_base <= self.total_base_sell
        &&& self.total_base_sell + self.vesting_schedule.total_locked_amount <= self.supply
        &&& self.vesting_schedule.wf()
        &&& 1 <= self.total_quote_fund_raising
        &&& self.real_quote <= self.total_quote_fund_raising
        &&& (self.status is Fund ==> self.real_quote < self.total_quote_fund_raising)
        &&& match self.curve_kind {
            CurveKind::Constant => {
                &&& 1 <= self.virtual_base
                &&& 1 <= self.virtual_quote
                &&& self.virtual_base + self.total_base_sell <= u64::MAX
                &&& self.virtual_quote + self.total_quote_fund_raising <= u64::MAX
            },
            CurveKind::Fixed => 1 <= self.virtual_base && 1 <= self.virtual_quote,
            CurveKind::Linear => 1 <= self.virtual_base,
        }
    }
}

/// The account references a new pool is wired to, supplied by the caller
/// that owns account creation.
#[derive(Clone, Copy, Debug, PartialEq, Eq, Structural)]
pub struct PoolAccounts {
    /// The global configuration the pool adheres to.
    pub global_config: AccountId,
    /// The platform configuration the pool adheres to.
    pub platform_config: AccountId,
    /// Mint of the base token.
    pub base_mint: AccountId,
    /// Mint of the quote token.
    pub quote_mint: AccountId,
    /// Vault for the pool's base tokens.
    pub base_vault: AccountId,
    /// Vault for the pool's quote tokens.
    pub quote_vault: AccountId,
    /// The creator of the base token.
    pub creator: AccountId,
    /// Token program custodying the base side.
    pub base_token_program: TokenProgramFlag,
    /// Token program custodying the quote side.
    pub quote_token_program: TokenProgramFlag,
}

/// Platform-wide configuration and branding record.
#[derive(Clone, Debug)]
pub struct PlatformConfig {
    /// The platform fee wallet.
    pub platform_fee_wallet: AccountId,
    /// The platform NFT wallet, used when liquidity rights become an NFT.
    pub platform_nft_wallet: AccountId,
    /// Scale of platform liquidity rights converted into an NFT.
    pub platform_scale: u64,
    /// Scale of creator liquidity rights converted into an NFT.
    pub creator_scale: u64,
    /// Scale of liquidity burned outright.
    pub burn_scale: u64,
    /// The platform fee rate.
    pub fee_rate: u64,
    /// The platform name, at most `NAME_SIZE` bytes.
    pub name: Vec<u8>,
    /// The platform website link, at most `WEB_SIZE` bytes.
    pub web: Vec<u8>,
    /// The platform image link, at most `IMG_SIZE` bytes.
    pub img: Vec<u8>,
    /// Swap configuration the pool migrates under.
    pub cpswap_config: AccountId,
    /// The creator fee rate.
    pub creator_fee_rate: u64,
    /// Authority that receives transfer-fee extension rights after migration.
    pub transfer_fee_extension_auth: AccountId,
    /// Per-config launch curve parameter presets.
    pub curve_params: Vec<PlatformCurveParam>,
}

impl PlatformConfig {
    /// Rates are at most 100%, the liquidity scales split the whole, and the
    /// branding fields respect their storage sizes.
    pub open spec fn wf(&self) -> bool {
        &&& self.fee_rate <= FEE_RATE_DENOMINATOR_VALUE
        &&& self.creator_fee_rate <= FEE_RATE_DENOMINATOR_VALUE
        &&& self.platform_scale + self.creator_scale + self.burn_scale
            == FEE_RATE_DENOMINATOR_VALUE
        &&& self.name@.len() <= NAME_SIZE
        &&& self.web@.len() <= WEB_SIZE
        &&& self.img@.len() <= IMG_SIZE
    }
}

/// A launch curve preset a platform offers.
#[derive(Clone, Copy, Debug, PartialEq, Eq, Structural)]
pub struct PlatformCurveParam {
    /// Index of this preset.
    pub index: u8,
    /// The global config the preset belongs to.
    pub global_config: AccountId,
    /// The preset's bonding curve parameters.
    pub bonding_curve_param: BondingCurveParam,
}

/// Bonding curve and vesting parameters bundled as a platform preset.
#[derive(Clone, Copy, Debug, PartialEq, Eq, Structural)]
pub struct BondingCurveParam {
    /// Which AMM to migrate to.
    pub migrate_type: MigrateType,
    /// Where the creator fee is taken after migration.
    pub migrate_cpmm_fee_on: AmmCreatorFeeOn,
    /// The supply of the token; zero is invalid.
    pub supply: u64,
    /// The base amount for sale on the curve; zero is invalid.
    pub total_base_sell: u64,
    /// The quote fund-raising target; zero is invalid.
    pub total_quote_fund_raising: u64,
    /// Total amount of tokens to be unlocked by vesting.
    pub total_locked_amount: u64,
    /// Seconds after funding ends before unlocking starts.
    pub cliff_period: u64,
    /// Seconds over which the locked amount unlocks.
    pub unlock_period: u64,
}

/// Creation parameters of a constant-product curve pool.
#[derive(Clone, Copy, Debug, PartialEq, Eq, Structural)]
pub struct ConstantCurve {
    /// Total mintable base units.
    pub supply: u64,
    /// Base units for sale on the curve.
    pub total_base_sell: u64,
    /// Quote fund-raising target.
    pub total_quote_fund_raising: u64,
    /// Which AMM to migrate to.
    pub migrate_type: MigrateType,
}

/// Creation parameters of a fixed-price curve pool.
#[derive(Clone, Copy, Debug, PartialEq, Eq, Structural)]
pub struct FixedCurve {
    /// Total mintable base units.
    pub supply: u64,
    /// Quote fund-raising target.
    pub total_quote_fund_raising: u64,
    /// Which AMM to migrate to.
    pub migrate_type: MigrateType,
}

/// Creation parameters of a linear-price curve pool.
#[derive(Clone, Copy, Debug, PartialEq, Eq, Structural)]
pub struct LinearCurve {
    /// Total mintable base units.
    pub supply: u64,
    /// Quote fund-raising target.
    pub total_quote_fund_raising: u64,
    /// Which AMM to migrate to.
    pub migrate_type: MigrateType,
}

/// Curve family selection at pool creation, one variant per family.
#[derive(Clone, Copy, Debug, PartialEq, Eq, Structural)]
pub enum CurveParams {
    Constant { data: ConstantCurve },
    Fixed { data: FixedCurve },
    Linear { data: LinearCurve },
}

/// Vesting parameters supplied at pool creation.
#[derive(Clone, Copy, Debug, PartialEq, Eq, Structural)]
pub struct VestingParams {
    /// Total amount of tokens to be unlocked.
    pub total_locked_amount: u64,
    /// Seconds after funding ends before unlocking starts.
    pub cliff_period: u64,
    /// Seconds over which the locked amount unlocks.
    pub unlock_period: u64,
}

/// Parameters of the base token mint.  The engine reads only `decimals`;
/// the display fields ride along for the caller's metadata record.
#[derive(Clone, Debug)]
pub struct MintParams {
    /// Number of decimal places of the token.
    pub decimals: u8,
    /// Name of the token.
    pub name: String,
    /// Symbol of the token.
    pub symbol: String,
    /// URI of the token metadata.
    pub uri: String,
}

/// Liquidity-right scales applied when migration mints an NFT.
/// The three scales sum to `FEE_RATE_DENOMINATOR_VALUE`.
#[derive(Clone, Copy, Debug, PartialEq, Eq, Structural)]
pub struct MigrateNftInfo {
    /// Scale of platform liquidity rights converted into an NFT.
    pub platform_scale: u64,
    /// Scale of creator liquidity rights converted into an NFT.
    pub creator_scale: u64,
    /// Scale of liquidity burned outright.
    pub burn_scale: u64,
}

/// A full replacement of a platform config's updatable fields.
#[derive(Clone, Debug)]
pub struct PlatformConfigInfo {
    /// The platform fee wallet.
    pub fee_wallet: AccountId,
    /// The platform NFT wallet.
    pub nft_wallet: AccountId,
    /// Liquidity-right scales for migration.
    pub migrate_nft_info: MigrateNftInfo,
    /// The platform fee rate.
    pub fee_rate: u64,
    /// The platform name, at most `NAME_SIZE` bytes.
    pub name: Vec<u8>,
    /// The platform website link, at most `WEB_SIZE` bytes.
    pub web: Vec<u8>,
    /// The platform image link, at most `IMG_SIZE` bytes.
    pub img: Vec<u8>,
}

/// One updatable field of a platform config, with its new value.
#[derive(Clone, Debug)]
pub enum PlatformConfigParam {
    FeeWallet(AccountId),
    NFTWallet(AccountId),
    MigrateNftInfo(MigrateNftInfo),
    FeeRate(u64),
    Name(Vec<u8>),
    Web(Vec<u8>),
    Img(Vec<u8>),
    CpSwapConfig(AccountId),
    AllInfo(PlatformConfigInfo),
}

/// Parameters for creating a platform config record.
#[derive(Clone, Debug)]
pub struct PlatformParams {
    /// Liquidity-right scales for migration.
    pub migrate_nft_info: MigrateNftInfo,
    /// The platform fee rate.
    pub fee_rate: u64,
    /// The platform name, at most `NAME_SIZE` bytes.
    pub name: Vec<u8>,
    /// The platform website link, at most `WEB_SIZE` bytes.
    pub web: Vec<u8>,
    /// The platform image link, at most `IMG_SIZE` bytes.
    pub img: Vec<u8>,
}

} // verus!
