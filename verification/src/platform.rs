//! Platform configuration records: creation and field updates, with the
//! rate and size bounds checked on every write.

use vstd::prelude::*;

use crate::errors::LaunchpadError;
use crate::states::AccountId;
use crate::states::MigrateNftInfo;
use crate::states::PlatformConfig;
use crate::states::PlatformConfigInfo;
use crate::states::PlatformConfigParam;
use crate::states::PlatformCurveParam;
use crate::states::PlatformParams;
use crate::states::FEE_RATE_DENOMINATOR_VALUE;
use crate::states::IMG_SIZE;
use crate::states::NAME_SIZE;
use crate::states::WEB_SIZE;

verus! {

/// The liquidity scales of a migration NFT split the whole exactly.
pub open spec fn nft_info_valid(info: MigrateNftInfo) -> bool {
    info.platform_scale + info.creator_scale + info.burn_scale == FEE_RATE_DENOMINATOR_VALUE
}

/// What a platform creation request must satisfy.
pub open spec fn platform_params_valid(params: PlatformParams) -> bool {
    &&& params.fee_rate <= FEE_RATE_DENOMINATOR_VALUE
    &&& nft_info_valid(params.migrate_nft_info)
    &&& params.name@.len() <= NAME_SIZE
    &&& params.web@.len() <= WEB_SIZE
    &&& params.img@.len() <= IMG_SIZE
}

/// What a full-replacement update must satisfy.
pub open spec fn config_info_valid(info: PlatformConfigInfo) -> bool {
    &&& info.fee_rate <= FEE_RATE_DENOMINATOR_VALUE
    &&& nft_info_valid(info.migrate_nft_info)
    &&& info.name@.len() <= NAME_SIZE
    &&& info.web@.len() <= WEB_SIZE
    &&& info.img@.len() <= IMG_SIZE
}

/// Checks whether the three scales split the whole exactly.
fn check_nft_info(info: &MigrateNftInfo) -> (b: bool)
    ensures
        b == nft_info_valid(*info),
{
    (info.platform_scale as u128) + (info.creator_scale as u128) + (info.burn_scale as u128)
        == FEE_RATE_DENOMINATOR_VALUE as u128
}

/// Creates a platform config record from a creation request, or rejects
/// it with `InvalidConfig` when a rate exceeds 100%, the liquidity scales
/// do not split the whole, or a branding field exceeds its storage size.
///
/// The creator fee rate starts at zero and the preset list empty; both are
/// updated through their own operations.
pub fn create_platform_config(
    params: PlatformParams,
    fee_wallet: AccountId,
    nft_wallet: AccountId,
    cpswap_config: AccountId,
    transfer_fee_extension_auth: AccountId,
) -> (r: Result<PlatformConfig, LaunchpadError>)
    ensures
        (r is Ok) <==> platform_params_valid(params),
        r is Err ==> r == Err::<PlatformConfig, LaunchpadError>(LaunchpadError::InvalidConfig),
        r is Ok ==> ({
            let c = r->Ok_0;
            &&& c.platform_fee_wallet == fee_wallet
            &&& c.platform_nft_wallet == nft_wallet
            &&& c.platform_scale == params.migrate_nft_info.platform_scale
            &&& c.creator_scale == params.migrate_nft_info.creator_scale
            &&& c.burn_scale == params.migrate_nft_info.burn_scale
            &&& c.fee_rate == params.fee_rate
            &&& c.name@ == params.name@
            &&& c.web@ == params.web@
            &&& c.img@ == params.img@
            &&& c.cpswap_config == cpswap_config
            &&& c.creator_fee_rate == 0
            &&& c.transfer_fee_extension_auth == transfer_fee_extension_auth
            &&& c.curve_params@.len() == 0
            &&& c.wf()
        }),
{
    if params.fee_rate > FEE_RATE_DENOMINATOR_VALUE {
        return Err(LaunchpadError::InvalidConfig);
    }
    if !check_nft_info(&params.migrate_nft_info) {
        return Err(LaunchpadError::InvalidConfig);
    }
    if params.name.len() > NAME_SIZE || params.web.len() > WEB_SIZE || params.img.len()
        > IMG_SIZE {
        return Err(LaunchpadError::InvalidConfig);
    }
    Ok(
        PlatformConfig {
            platform_fee_wallet: fee_wallet,
            platform_nft_wallet: nft_wallet,
            platform_scale: params.migrate_nft_info.platform_scale,
            creator_scale: params.migrate_nft_info.creator_scale,
            burn_scale: params.migrate_nft_info.burn_scale,
            fee_rate: params.fee_rate,
            name: params.name,
            web: params.web,
            img: params.img,
            cpswap_config,
            creator_fee_rate: 0,
            transfer_fee_extension_auth,
            curve_params: Vec::<PlatformCurveParam>::new(),
        },
    )
}

/// Updates one field of a platform config, validating the new value the
/// same way creation does; an invalid value fails with `InvalidConfig`
/// and leaves the record untouched.
pub fn update_platform_config(config: &mut PlatformConfig, param: PlatformConfigParam) -> (r:
    Result<(), LaunchpadError>)
    ensures
        r is Err ==> *final(config) == *old(config) && r == Err::<(), LaunchpadError>(
            LaunchpadError::InvalidConfig,
        ),
        match param {
            PlatformConfigParam::FeeWallet(w) => r is Ok && *final(config) == (PlatformConfig {
                platform_fee_wallet: w,
                ..*old(config)
            }),
            PlatformConfigParam::NFTWallet(w) => r is Ok && *final(config) == (PlatformConfig {
                platform_nft_wallet: w,
                ..*old(config)
            }),
            PlatformConfigParam::MigrateNftInfo(info) => {
                &&& (nft_info_valid(info) ==> r is Ok && *final(config) == (PlatformConfig {
                    platform_scale: info.platform_scale,
                    creator_scale: info.creator_scale,
                    burn_scale: info.burn_scale,
                    ..*old(config)
                }))
                &&& (!nft_info_valid(info) ==> r is Err)
            },
            PlatformConfigParam::FeeRate(rate) => {
                &&& (rate <= FEE_RATE_DENOMINATOR_VALUE ==> r is Ok && *final(config)
                    == (PlatformConfig { fee_rate: rate, ..*old(config) }))
                &&& (rate > FEE_RATE_DENOMINATOR_VALUE ==> r is Err)
            },
            PlatformConfigParam::Name(n) => {
                &&& (n@.len() <= NAME_SIZE ==> r is Ok && *final(config) == (PlatformConfig {
                    name: n,
                    ..*old(config)
                }))
                &&& (n@.len() > NAME_SIZE ==> r is Err)
            },
            PlatformConfigParam::Web(w) => {
                &&& (w@.len() <= WEB_SIZE ==> r is Ok && *final(config) == (PlatformConfig {
                    web: w,
                    ..*old(config)
                }))
                &&& (w@.len() > WEB_SIZE ==> r is Err)
            },
            PlatformConfigParam::Img(i) => {
                &&& (i@.len() <= IMG_SIZE ==> r is Ok && *final(config) == (PlatformConfig {
                    img: i,
                    ..*old(config)
                }))
                &&& (i@.len() > IMG_SIZE ==> r is Err)
            },
            PlatformConfigParam::CpSwapConfig(id) => r is Ok && *final(config) == (PlatformConfig {
                cpswap_config: id,
                ..*old(config)
            }),
            PlatformConfigParam::AllInfo(info) => {
                &&& (config_info_valid(info) ==> r is Ok && *final(config) == (PlatformConfig {
                    platform_fee_wallet: info.fee_wallet,
                    platform_nft_wallet: info.nft_wallet,
                    platform_scale: info.migrate_nft_info.platform_scale,
                    creator_scale: info.migrate_nft_info.creator_scale,
                    burn_scale: info.migrate_nft_info.burn_scale,
                    fee_rate: info.fee_rate,
                    name: info.name,
                    web: info.web,
                    img: info.img,
                    ..*old(config)
                }))
                &&& (!config_info_valid(info) ==> r is Err)
            },
        },
{
    match param {
        PlatformConfigParam::FeeWallet(w) => {
            config.platform_fee_wallet = w;
            Ok(())
        },
        PlatformConfigParam::NFTWallet(w) => {
            config.platform_nft_wallet = w;
            Ok(())
        },
        PlatformConfigParam::MigrateNftInfo(info) => {
            if !check_nft_info(&info) {
                return Err(LaunchpadError::InvalidConfig);
            }
            config.platform_scale = info.platform_scale;
            config.creator_scale = info.creator_scale;
            config.burn_scale = info.burn_scale;
            Ok(())
        },
        PlatformConfigParam::FeeRate(rate) => {
            if rate > FEE_RATE_DENOMINATOR_VALUE {
                return Err(LaunchpadError::InvalidConfig);
            }
            config.fee_rate = rate;
            Ok(())
        },
        PlatformConfigParam::Name(n) => {
            if n.len() > NAME_SIZE {
                return Err(LaunchpadError::InvalidConfig);
            }
            config.name = n;
            Ok(())
        },
        PlatformConfigParam::Web(w) => {
            if w.len() > WEB_SIZE {
                return Err(LaunchpadError::InvalidConfig);
            }
            config.web = w;
            Ok(())
        },
        PlatformConfigParam::Img(i) => {
            if i.len() > IMG_SIZE {
                return Err(LaunchpadError::InvalidConfig);
            }
            config.img = i;
            Ok(())
        },
        PlatformConfigParam::CpSwapConfig(id) => {
            config.cpswap_config = id;
            Ok(())
        },
        PlatformConfigParam::AllInfo(info) => {
            if info.fee_rate > FEE_RATE_DENOMINATOR_VALUE {
                return Err(LaunchpadError::InvalidConfig);
            }
            if !check_nft_info(&info.migrate_nft_info) {
                return Err(LaunchpadError::InvalidConfig);
            }
            if info.name.len() > NAME_SIZE || info.web.len() > WEB_SIZE || info.img.len()
                > IMG_SIZE {
                return Err(LaunchpadError::InvalidConfig);
            }
            config.platform_fee_wallet = info.fee_wallet;
            config.platform_nft_wallet = info.nft_wallet;
            config.platform_scale = info.migrate_nft_info.platform_scale;
            config.creator_scale = info.migrate_nft_info.creator_scale;
            config.burn_scale = info.migrate_nft_info.burn_scale;
            config.fee_rate = info.fee_rate;
            config.name = info.name;
            config.web = info.web;
            config.img = info.img;
            Ok(())
        },
    }
}

} // verus!
