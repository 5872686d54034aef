//! A coin in the wire forms of the chain's modules.

use crate::coin::NativeCoin;
use vstd::prelude::*;
use vstd::std_specs::convert::FromSpecImpl;

verus! {

/// `Coin` of `cosmos_sdk_proto`. Nothing is read of it.
#[verifier::external_type_specification]
#[verifier::external_body]
pub struct ExCosmosSdkCoin(cosmos_sdk_proto::cosmos::base::v1beta1::Coin);

/// `Coin` of `osmosis_std`. Nothing is read of it.
#[verifier::external_type_specification]
#[verifier::external_body]
pub struct ExOsmosisStdCoin(osmosis_std::types::cosmos::base::v1beta1::Coin);

/// A coin that can be turned into the wire forms.
#[derive(Debug, PartialEq, Eq)]
pub struct ProtoCoin(pub NativeCoin);

/// The coin of `cosmos_sdk_proto` with the given denomination and with
/// the amount written in decimal.
pub uninterp spec fn cosmos_sdk_coin(denom: Seq<char>, amount: u128)
    -> cosmos_sdk_proto::cosmos::base::v1beta1::Coin;

/// The coin of `osmosis_std` with the given denomination and with the
/// amount written in decimal.
pub uninterp spec fn osmosis_std_coin(denom: Seq<char>, amount: u128)
    -> osmosis_std::types::cosmos::base::v1beta1::Coin;

/// Builds the coin of `cosmos_sdk_proto`: its `denom` is the denomination,
/// its `amount` what `u128::to_string` writes for the amount.
#[verifier::external_body]
fn to_cosmos_sdk_coin(denom: String, amount: u128) -> (r:
    cosmos_sdk_proto::cosmos::base::v1beta1::Coin)
    ensures
        r == cosmos_sdk_coin(denom@, amount),
{
    cosmos_sdk_proto::cosmos::base::v1beta1::Coin { denom, amount: amount.to_string() }
}

/// Builds the coin of `osmosis_std`: its `denom` is the denomination, its
/// `amount` what `u128::to_string` writes for the amount.
#[verifier::external_body]
fn to_osmosis_std_coin(denom: String, amount: u128) -> (r:
    osmosis_std::types::cosmos::base::v1beta1::Coin)
    ensures
        r == osmosis_std_coin(denom@, amount),
{
    osmosis_std::types::cosmos::base::v1beta1::Coin { denom, amount: amount.to_string() }
}

impl From<ProtoCoin> for cosmos_sdk_proto::cosmos::base::v1beta1::Coin {
    fn from(coin: ProtoCoin) -> (r: Self) {
        to_cosmos_sdk_coin(coin.0.denom, coin.0.amount)
    }
}

impl FromSpecImpl<ProtoCoin> for cosmos_sdk_proto::cosmos::base::v1beta1::Coin {
    open spec fn obeys_from_spec() -> bool {
        true
    }

    open spec fn from_spec(coin: ProtoCoin) -> Self {
        cosmos_sdk_coin(coin.0@.denom, coin.0@.amount)
    }
}

impl From<ProtoCoin> for osmosis_std::types::cosmos::base::v1beta1::Coin {
    fn from(coin: ProtoCoin) -> (r: Self) {
        to_osmosis_std_coin(coin.0.denom, coin.0.amount)
    }
}

impl FromSpecImpl<ProtoCoin> for osmosis_std::types::cosmos::base::v1beta1::Coin {
    open spec fn obeys_from_spec() -> bool {
        true
    }

    open spec fn from_spec(coin: ProtoCoin) -> Self {
        osmosis_std_coin(coin.0@.denom, coin.0@.amount)
    }
}

} // verus!
