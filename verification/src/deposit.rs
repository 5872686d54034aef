//! The deposit that a zap-in works on, and its checks.

use crate::asset::{Asset, AssetView};
use crate::coin::{NativeCoin, NativeCoinView};
use crate::error::{ContractError, ContractErrorView, PaymentError, ZapperError};
use crate::host::{balance_of, Deps, Env, MessageInfo};
use vstd::prelude::*;

verus! {

/// The one coin among `funds`: there must be exactly one, and not of
/// amount zero.
pub open spec fn one_coin_of(funds: Seq<NativeCoinView>) -> Result<NativeCoinView, PaymentError> {
    if funds.len() == 0 {
        Err(PaymentError::NoFunds)
    } else if funds.len() == 1 {
        if funds[0].amount == 0 {
            Err(PaymentError::NoFunds)
        } else {
            Ok(funds[0])
        }
    } else {
        Err(PaymentError::MultipleDenoms)
    }
}

/// The one coin that came with a request.
pub fn one_coin(info: &MessageInfo) -> (r: Result<NativeCoin, PaymentError>)
    ensures
        match r {
            Ok(coin) => one_coin_of(info.funds.deep_view()) == Ok::<NativeCoinView, PaymentError>(coin@),
            Err(e) => one_coin_of(info.funds.deep_view()) == Err::<NativeCoinView, PaymentError>(e),
        },
{
    let n = info.funds.len();
    if n == 0 {
        Err(PaymentError::NoFunds)
    } else if n == 1 {
        if info.funds[0].amount == 0 {
            Err(PaymentError::NoFunds)
        } else {
            Ok(info.funds[0].clone())
        }
    } else {
        Err(PaymentError::MultipleDenoms)
    }
}

/// The native asset that a coin is.
pub open spec fn native(coin: NativeCoinView) -> AssetView {
    AssetView { native: true, denom: coin.denom, amount: coin.amount }
}

/// Whether `asset` is a deposit that `sender` made with `funds`.
///
/// A native asset must be the one coin that came with the request. A token
/// must be reported by its own contract, and the account must hold at least
/// the amount that is reported.
pub open spec fn deposit_check(
    asset: AssetView,
    balances: Seq<AssetView>,
    sender: Seq<char>,
    funds: Seq<NativeCoinView>,
) -> Result<(), ContractErrorView> {
    if asset.native {
        match one_coin_of(funds) {
            Err(e) => Err(ContractErrorView::Payment(e)),
            Ok(coin) => if coin == asset.coin() {
                Ok(())
            } else {
                Err(ContractErrorView::Zapper(ZapperError::InvalidFund))
            },
        }
    } else if asset.denom != sender {
        Err(ContractErrorView::Unauthorized)
    } else {
        match balance_of(balances, asset.denom) {
            Err(e) => Err(e),
            Ok(held) => if asset.amount <= held.amount {
                Ok(())
            } else {
                Err(ContractErrorView::Zapper(ZapperError::InvalidFund))
            },
        }
    }
}

/// The deposit of a zap-in: the declared asset where it passes its check,
/// or else the one coin that came with the request.
pub open spec fn deposit_of(
    asset_in: Option<AssetView>,
    balances: Seq<AssetView>,
    sender: Seq<char>,
    funds: Seq<NativeCoinView>,
) -> Result<AssetView, ContractErrorView> {
    match asset_in {
        Some(asset) => match deposit_check(asset, balances, sender, funds) {
            Ok(()) => Ok(asset),
            Err(e) => Err(e),
        },
        None => match one_coin_of(funds) {
            Ok(coin) => Ok(native(coin)),
            Err(e) => Err(ContractErrorView::Payment(e)),
        },
    }
}

impl Asset {
    /// Checks that the asset is a deposit that came with the request.
    pub fn validate(&self, deps: &Deps, env: &Env, info: &MessageInfo) -> (r: Result<
        (),
        ContractError,
    >)
        ensures
            match r {
                Ok(()) => deposit_check(
                    self@,
                    deps.querier.balances.deep_view(),
                    info.sender@,
                    info.funds.deep_view(),
                ) == Ok::<(), ContractErrorView>(()),
                Err(e) => deposit_check(
                    self@,
                    deps.querier.balances.deep_view(),
                    info.sender@,
                    info.funds.deep_view(),
                ) == Err::<(), ContractErrorView>(e@),
            },
    {
        match self {
            Asset::Native(coin) => {
                match one_coin(info) {
                    Err(e) => Err(ContractError::Payment(e)),
                    Ok(sent) => {
                        if sent.denom == coin.denom && sent.amount == coin.amount {
                            Ok(())
                        } else {
                            Err(ContractError::Zapper(ZapperError::InvalidFund))
                        }
                    },
                }
            },
            Asset::Cw20(token) => {
                if !(token.address == info.sender) {
                    return Err(ContractError::Unauthorized);
                }
                match deps.querier.balance(&token.address) {
                    Err(e) => Err(e),
                    Ok(held) => {
                        if token.amount <= held.amount() {
                            Ok(())
                        } else {
                            Err(ContractError::Zapper(ZapperError::InvalidFund))
                        }
                    },
                }
            },
        }
    }
}

/// Settles which asset a zap-in works on.
pub fn take_deposit(asset_in: Option<Asset>, deps: &Deps, env: &Env, info: &MessageInfo) -> (r:
    Result<Asset, ContractError>)
    ensures
        match r {
            Ok(asset) => deposit_of(
                asset_in.deep_view(),
                deps.querier.balances.deep_view(),
                info.sender@,
                info.funds.deep_view(),
            ) == Ok::<AssetView, ContractErrorView>(asset@),
            Err(e) => deposit_of(
                asset_in.deep_view(),
                deps.querier.balances.deep_view(),
                info.sender@,
                info.funds.deep_view(),
            ) == Err::<AssetView, ContractErrorView>(e@),
        },
{
    match asset_in {
        Some(sent_asset) => {
            match sent_asset.validate(deps, env, info) {
                Ok(()) => Ok(sent_asset),
                Err(e) => Err(e),
            }
        },
        None => {
            match one_coin(info) {
                Ok(coin) => Ok(Asset::Native(coin)),
                Err(e) => Err(ContractError::Payment(e)),
            }
        },
    }
}

} // verus!
