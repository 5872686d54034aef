//! The errors a request can end in.

use std::num::ParseIntError;
use vstd::prelude::*;

verus! {

/// Failures of the host: a stored record or a balance that could not be
/// had, a completion payload that could not be read.
#[derive(Clone, Copy, Debug, PartialEq, Eq, Structural)]
pub enum StdError {
    NotFound,
    ParseErr,
    GenericErr,
}

#[derive(Clone, Copy, Debug, PartialEq, Eq, Structural)]
pub enum OverflowOperation {
    Add,
    Sub,
}

/// An amount left the range of 128-bit unsigned integers.
#[derive(Clone, Copy, Debug, PartialEq, Eq, Structural)]
pub struct OverflowError {
    pub operation: OverflowOperation,
}

#[derive(Clone, Copy, Debug, PartialEq, Eq, Structural)]
pub enum AdminError {
    NotAdmin,
}

#[derive(Clone, Copy, Debug, PartialEq, Eq, Structural)]
pub enum PaymentError {
    MultipleDenoms,
    NoFunds,
}

#[derive(Clone, Copy, Debug, PartialEq, Eq, Structural)]
pub enum ZapperError {
    /// The protocol fee is not below 100%.
    InvalidFee,
    /// The deposit is not what was declared, or the routes ask for more
    /// than is available.
    InvalidFund,
    /// A completion signal carried an identifier that no continuation has.
    ReplyIdError(u64),
    /// A zap-out route wants more than the withdrawal yielded.
    ZapOutNotEnoughBalanceToSwap,
    SwapOperationsEmpty,
    RoutesEmpty,
}

#[derive(Debug, PartialEq, Eq)]
pub enum ContractError {
    Std(StdError),
    Zapper(ZapperError),
    Overflow(OverflowError),
    Admin(AdminError),
    Payment(PaymentError),
    Unauthorized,
    /// A hop's pool reference is not a 64-bit pool identifier.
    ParseIntPoolID(ParseIntError),
    /// A route has no hop.
    SwapOperationsEmpty,
    /// The coin that goes in is not what the first hop takes.
    CoinInDenomMismatch,
    /// The coin that comes out is not what the last hop gives.
    CoinOutDenomMismatch,
    /// The venue takes native coins only.
    AssetNotNative,
    /// The pool manager rejected the position; the text is its reason.
    CreatePositionError(String),
    /// The pool manager rejected the withdrawal; the text is its reason.
    WithdrawPositionError(String),
}

pub enum ContractErrorView {
    Std(StdError),
    Zapper(ZapperError),
    Overflow(OverflowError),
    Admin(AdminError),
    Payment(PaymentError),
    Unauthorized,
    ParseIntPoolID,
    SwapOperationsEmpty,
    CoinInDenomMismatch,
    CoinOutDenomMismatch,
    AssetNotNative,
    CreatePositionError(Seq<char>),
    WithdrawPositionError(Seq<char>),
}

impl View for ContractError {
    type V = ContractErrorView;

    open spec fn view(&self) -> ContractErrorView {
        match self {
            ContractError::Std(e) => ContractErrorView::Std(*e),
            ContractError::Zapper(e) => ContractErrorView::Zapper(*e),
            ContractError::Overflow(e) => ContractErrorView::Overflow(*e),
            ContractError::Admin(e) => ContractErrorView::Admin(*e),
            ContractError::Payment(e) => ContractErrorView::Payment(*e),
            ContractError::Unauthorized => ContractErrorView::Unauthorized,
            ContractError::ParseIntPoolID(_) => ContractErrorView::ParseIntPoolID,
            ContractError::SwapOperationsEmpty => ContractErrorView::SwapOperationsEmpty,
            ContractError::CoinInDenomMismatch => ContractErrorView::CoinInDenomMismatch,
            ContractError::CoinOutDenomMismatch => ContractErrorView::CoinOutDenomMismatch,
            ContractError::AssetNotNative => ContractErrorView::AssetNotNative,
            ContractError::CreatePositionError(s) => ContractErrorView::CreatePositionError(s@),
            ContractError::WithdrawPositionError(s) => ContractErrorView::WithdrawPositionError(
                s@,
            ),
        }
    }
}

pub type ContractResult<T> = Result<T, ContractError>;

/// The error that a failed validation of routes ends a request in.
pub open spec fn route_error(e: ZapperError) -> ContractErrorView {
    match e {
        ZapperError::SwapOperationsEmpty => ContractErrorView::SwapOperationsEmpty,
        _ => ContractErrorView::Zapper(e),
    }
}

impl ContractError {
    /// The error that a failed validation of routes ends a request in.
    pub fn from_route_error(e: ZapperError) -> (r: ContractError)
        ensures
            r@ == route_error(e),
    {
        match e {
            ZapperError::SwapOperationsEmpty => ContractError::SwapOperationsEmpty,
            _ => ContractError::Zapper(e),
        }
    }
}

/// The error of a subtraction that would go below zero.
pub open spec fn underflow() -> ContractErrorView {
    ContractErrorView::Overflow(OverflowError { operation: OverflowOperation::Sub })
}

pub open spec fn not_found() -> ContractErrorView {
    ContractErrorView::Std(StdError::NotFound)
}

/// `minuend - subtrahend`, or the underflow error where that is negative.
pub fn checked_sub(minuend: u128, subtrahend: u128) -> (r: Result<u128, ContractError>)
    ensures
        minuend >= subtrahend ==> r == Ok::<u128, ContractError>((minuend - subtrahend) as u128),
        minuend < subtrahend ==> r is Err && r->Err_0@ == underflow(),
{
    if minuend >= subtrahend {
        Ok(minuend - subtrahend)
    } else {
        Err(ContractError::Overflow(OverflowError { operation: OverflowOperation::Sub }))
    }
}

} // verus!
