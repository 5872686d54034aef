//! What the orchestrator keeps between requests.

use crate::asset::{Asset, AssetView};
use crate::error::{
    checked_sub, not_found, underflow, ContractError, ContractErrorView, StdError,
};
use crate::host::{balance_of, Deps, Env};
use crate::math::Decimal;
use crate::msg::option_text;
use crate::snapshot::{record, recorded, SnapBalances, Snapshots};
use crate::swap::{Route, RouteView};
use vstd::prelude::*;

verus! {

/// The share of an amount that goes to `fee_receiver`. A valid fee is
/// below 100%.
#[derive(Debug, PartialEq, Eq)]
pub struct ProtocolFee {
    pub percent: Decimal,
    pub fee_receiver: String,
}

pub struct ProtocolFeeView {
    pub percent: Decimal,
    pub fee_receiver: Seq<char>,
}

impl View for ProtocolFee {
    type V = ProtocolFeeView;

    open spec fn view(&self) -> ProtocolFeeView {
        ProtocolFeeView { percent: self.percent, fee_receiver: self.fee_receiver@ }
    }
}

impl ProtocolFee {
    pub open spec fn wf(&self) -> bool {
        self.percent.below_one()
    }

    /// Whether the fee is below 100%.
    pub fn is_valid(&self) -> (b: bool)
        ensures
            b == self.wf(),
    {
        self.percent.0 < crate::math::DECIMAL_FRACTIONAL
    }
}

impl DeepView for ProtocolFee {
    type V = ProtocolFeeView;

    open spec fn deep_view(&self) -> ProtocolFeeView {
        self@
    }
}

impl Clone for ProtocolFee {
    fn clone(&self) -> (c: ProtocolFee)
        ensures
            c@ == self@,
    {
        ProtocolFee { percent: self.percent, fee_receiver: self.fee_receiver.clone() }
    }
}

/// A zap-in between its swaps and the creation of its position.
#[derive(Debug, PartialEq, Eq)]
pub struct PendingPosition {
    pub receiver: String,
    pub pool_id: u64,
    pub token_0: String,
    pub token_1: String,
}

pub struct PendingPositionView {
    pub receiver: Seq<char>,
    pub pool_id: u64,
    pub token_0: Seq<char>,
    pub token_1: Seq<char>,
}

impl View for PendingPosition {
    type V = PendingPositionView;

    open spec fn view(&self) -> PendingPositionView {
        PendingPositionView {
            receiver: self.receiver@,
            pool_id: self.pool_id,
            token_0: self.token_0@,
            token_1: self.token_1@,
        }
    }
}

/// A zap-out between its withdrawal and the swaps of what it yields.
#[derive(Debug, PartialEq, Eq)]
pub struct PendingZapOut {
    pub receiver: String,
    pub routes: Vec<Route>,
}

pub struct PendingZapOutView {
    pub receiver: Seq<char>,
    pub routes: Seq<RouteView>,
}

impl View for PendingZapOut {
    type V = PendingZapOutView;

    open spec fn view(&self) -> PendingZapOutView {
        PendingZapOutView { receiver: self.receiver@, routes: self.routes.deep_view() }
    }
}

/// The persistent state: the owner, the protocol fee if one is set, the
/// recorded balances, and at most one pending record of each kind.
#[derive(Debug, PartialEq, Eq)]
pub struct Storage {
    pub owner: Option<String>,
    pub protocol_fee: Option<ProtocolFee>,
    pub snap_balances: SnapBalances,
    pub pending_position: Option<PendingPosition>,
    pub pending_zap_out: Option<PendingZapOut>,
}

#[verifier::ext_equal]
pub struct StorageView {
    pub owner: Option<Seq<char>>,
    pub protocol_fee: Option<ProtocolFeeView>,
    pub snap_balances: Snapshots,
    pub pending_position: Option<PendingPositionView>,
    pub pending_zap_out: Option<PendingZapOutView>,
}

impl View for Storage {
    type V = StorageView;

    open spec fn view(&self) -> StorageView {
        StorageView {
            owner: option_text(self.owner),
            protocol_fee: match self.protocol_fee {
                Some(fee) => Some(fee@),
                None => None,
            },
            snap_balances: self.snap_balances@,
            pending_position: match self.pending_position {
                Some(p) => Some(p@),
                None => None,
            },
            pending_zap_out: match self.pending_zap_out {
                Some(p) => Some(p@),
                None => None,
            },
        }
    }
}

impl StorageView {
    /// The state with another table of recorded balances.
    pub open spec fn with_snapshots(self, snap_balances: Snapshots) -> StorageView {
        StorageView { snap_balances, ..self }
    }

    /// The recorded denominations stand in ascending order, and the fee, if
    /// set, is below 100%.
    pub open spec fn wf(self) -> bool {
        &&& crate::snapshot::sorted(self.snap_balances)
        &&& self.protocol_fee matches Some(fee) ==> fee.percent.below_one()
    }
}

impl Storage {
    pub open spec fn wf(&self) -> bool {
        self@.wf()
    }

    /// The state before anything was stored.
    pub fn new() -> (storage: Storage)
        ensures
            storage.wf(),
            storage@ == (StorageView {
                owner: None,
                protocol_fee: None,
                snap_balances: Snapshots::empty(),
                pending_position: None,
                pending_zap_out: None,
            }),
    {
        Storage {
            owner: None,
            protocol_fee: None,
            snap_balances: SnapBalances::new(),
            pending_position: None,
            pending_zap_out: None,
        }
    }

    /// Whether the state is one that the handlers take.
    pub fn is_valid(&self) -> (b: bool)
        requires
            self.snap_balances.wf(),
        ensures
            b == self.wf(),
    {
        match &self.protocol_fee {
            Some(fee) => fee.is_valid(),
            None => true,
        }
    }
}

/// The table after the balance of `denom` that the account now has is
/// recorded; the error of the balance query where it fails.
pub open spec fn snapshot(entries: Snapshots, balances: Seq<AssetView>, denom: Seq<char>) -> Result<
    Snapshots,
    ContractErrorView,
> {
    match balance_of(balances, denom) {
        Ok(asset) => Ok(record(entries, denom, asset.amount)),
        Err(e) => Err(e),
    }
}

/// What the account holds of `denom` above the balance recorded for it, as
/// an asset of that amount.
///
/// An error where nothing is recorded for `denom`, where its balance cannot
/// be had, or where the account holds less than was recorded.
pub open spec fn diff_of(entries: Snapshots, balances: Seq<AssetView>, denom: Seq<char>) -> Result<
    AssetView,
    ContractErrorView,
> {
    match recorded(entries, denom) {
        None => Err(not_found()),
        Some(before) => match balance_of(balances, denom) {
            Err(e) => Err(e),
            Ok(held) => if held.amount >= before {
                Ok(held.with_amount((held.amount - before) as u128))
            } else {
                Err(underflow())
            },
        },
    }
}

/// What the account holds of `denom` above the balance recorded for it.
pub fn diff(deps: &Deps, denom: &String) -> (r: Result<Asset, ContractError>)
    requires
        deps.storage.wf(),
    ensures
        match r {
            Ok(asset) => diff_of(
                deps.storage@.snap_balances,
                deps.querier.balances.deep_view(),
                denom@,
            ) == Ok::<AssetView, ContractErrorView>(asset@),
            Err(e) => diff_of(
                deps.storage@.snap_balances,
                deps.querier.balances.deep_view(),
                denom@,
            ) == Err::<AssetView, ContractErrorView>(e@),
        },
{
    let before = match deps.storage.snap_balances.load(denom) {
        Some(amount) => amount,
        None => {
            return Err(ContractError::Std(StdError::NotFound));
        },
    };
    let held = match deps.querier.balance(denom) {
        Ok(asset) => asset,
        Err(e) => {
            return Err(e);
        },
    };
    match checked_sub(held.amount(), before) {
        Ok(delta) => Ok(held.with_amount(delta)),
        Err(e) => Err(e),
    }
}

/// Records the balance of `denom` that the account now has.
pub fn snapshot_balances(deps: &mut Deps, env: &Env, denom: &String) -> (r: Result<
    (),
    ContractError,
>)
    requires
        old(deps).storage.wf(),
    ensures
        final(deps).storage.wf(),
        final(deps).querier == old(deps).querier,
        match r {
            Ok(()) => snapshot(
                old(deps).storage@.snap_balances,
                old(deps).querier.balances.deep_view(),
                denom@,
            ) matches Ok(table) && final(deps).storage@ == old(deps).storage@.with_snapshots(
                table,
            ),
            Err(e) => snapshot(
                old(deps).storage@.snap_balances,
                old(deps).querier.balances.deep_view(),
                denom@,
            ) == Err::<Snapshots, ContractErrorView>(e@) && *final(deps) == *old(deps),
        },
{
    match deps.querier.balance(denom) {
        Ok(asset) => {
            proof {
                crate::snapshot::lemma_record(deps.storage.snap_balances@, denom@, asset@.amount);
            }
            deps.storage.snap_balances.save(denom, asset.amount());
            Ok(())
        },
        Err(e) => Err(e),
    }
}

} // verus!
