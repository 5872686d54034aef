//! Swap routes: what a request asks for, and what the venue is handed.

use crate::error::ZapperError;
use std::num::ParseIntError;
use vstd::prelude::*;

verus! {

/// One hop of a route: the pool to swap in, and what comes out of it.
#[derive(Debug, PartialEq, Eq)]
pub struct SwapOperation {
    /// The venue's pool identifier, as text.
    pub pool: String,
    pub denom_in: String,
    pub denom_out: String,
    pub interface: Option<Vec<u8>>,
}

pub struct SwapOperationView {
    pub pool: Seq<char>,
    pub denom_in: Seq<char>,
    pub denom_out: Seq<char>,
    pub interface: Option<Seq<u8>>,
}

impl View for SwapOperation {
    type V = SwapOperationView;

    open spec fn view(&self) -> SwapOperationView {
        SwapOperationView {
            pool: self.pool@,
            denom_in: self.denom_in@,
            denom_out: self.denom_out@,
            interface: match self.interface {
                Some(bytes) => Some(bytes@),
                None => None,
            },
        }
    }
}

impl DeepView for SwapOperation {
    type V = SwapOperationView;

    open spec fn deep_view(&self) -> SwapOperationView {
        self@
    }
}

impl Clone for SwapOperation {
    fn clone(&self) -> (c: SwapOperation)
        ensures
            c@ == self@,
    {
        let interface = match &self.interface {
            Some(bytes) => Some(bytes.clone()),
            None => None,
        };
        SwapOperation {
            pool: self.pool.clone(),
            denom_in: self.denom_in.clone(),
            denom_out: self.denom_out.clone(),
            interface,
        }
    }
}

/// A requested swap: `offer_amount` of `token_in`, through the hops of
/// `operations` in order, for at least `minimum_receive` where that is set.
#[derive(Debug, PartialEq, Eq)]
pub struct Route {
    pub token_in: String,
    pub offer_amount: u128,
    pub operations: Vec<SwapOperation>,
    pub minimum_receive: Option<u128>,
}

pub struct RouteView {
    pub token_in: Seq<char>,
    pub offer_amount: u128,
    pub operations: Seq<SwapOperationView>,
    pub minimum_receive: Option<u128>,
}

impl View for Route {
    type V = RouteView;

    open spec fn view(&self) -> RouteView {
        RouteView {
            token_in: self.token_in@,
            offer_amount: self.offer_amount,
            operations: self.operations.deep_view(),
            minimum_receive: self.minimum_receive,
        }
    }
}

impl DeepView for Route {
    type V = RouteView;

    open spec fn deep_view(&self) -> RouteView {
        self@
    }
}

impl RouteView {
    /// The denomination that the last hop pays out, if there is a hop.
    pub open spec fn ask_denom(self) -> Option<Seq<char>> {
        if self.operations.len() > 0 {
            Some(self.operations.last().denom_out)
        } else {
            None
        }
    }

    /// The floor handed to the venue: the route's own, or zero.
    pub open spec fn floor(self) -> u128 {
        match self.minimum_receive {
            Some(m) => m,
            None => 0,
        }
    }
}

impl Route {
    /// The denomination that the route ends in.
    pub fn ask_denom(&self) -> (r: Result<String, ZapperError>)
        ensures
            match r {
                Ok(denom) => self@.ask_denom() == Some(denom@),
                Err(e) => self@.ask_denom() is None && e == ZapperError::SwapOperationsEmpty,
            },
    {
        let n = self.operations.len();
        if n > 0 {
            Ok(self.operations[n - 1].denom_out.clone())
        } else {
            Err(ZapperError::SwapOperationsEmpty)
        }
    }
}

/// The denomination that the last of `routes` ends in.
pub fn get_ask_denom_for_routes(routes: &[Route]) -> (r: Result<String, ZapperError>)
    ensures
        match r {
            Ok(denom) => routes@.len() > 0 && routes@.last()@.ask_denom() == Some(denom@),
            Err(e) => if routes@.len() == 0 {
                e == ZapperError::RoutesEmpty
            } else {
                routes@.last()@.ask_denom() is None && e == ZapperError::SwapOperationsEmpty
            },
        },
{
    let n = routes.len();
    if n > 0 {
        routes[n - 1].ask_denom()
    } else {
        Err(ZapperError::RoutesEmpty)
    }
}

/// A hop as the venue takes it.
#[derive(Debug, PartialEq, Eq)]
pub struct SwapAmountInRoute {
    pub pool_id: u64,
    pub token_out_denom: String,
}

pub struct SwapAmountInRouteView {
    pub pool_id: u64,
    pub token_out_denom: Seq<char>,
}

impl View for SwapAmountInRoute {
    type V = SwapAmountInRouteView;

    open spec fn view(&self) -> SwapAmountInRouteView {
        SwapAmountInRouteView { pool_id: self.pool_id, token_out_denom: self.token_out_denom@ }
    }
}

impl DeepView for SwapAmountInRoute {
    type V = SwapAmountInRouteView;

    open spec fn deep_view(&self) -> SwapAmountInRouteView {
        self@
    }
}

pub open spec fn is_decimal_digit(c: char) -> bool {
    '0' <= c && c <= '9'
}

/// The number that a sequence of decimal digits writes.
pub open spec fn digits_value(digits: Seq<char>) -> nat
    decreases digits.len(),
{
    if digits.len() == 0 {
        0
    } else {
        digits_value(digits.drop_last()) * 10 + ((digits.last() as int - '0' as int) as nat)
    }
}

/// The text without the one `+` it may start with.
pub open spec fn unsigned_part(text: Seq<char>) -> Seq<char> {
    if text.len() > 0 && text[0] == '+' {
        text.subrange(1, text.len() as int)
    } else {
        text
    }
}

/// Whether the text writes a 64-bit unsigned integer: an optional `+`,
/// then at least one decimal digit and nothing else, the number within range.
pub open spec fn is_pool_id(text: Seq<char>) -> bool {
    let digits = unsigned_part(text);
    &&& digits.len() > 0
    &&& forall|i: int| 0 <= i < digits.len() ==> is_decimal_digit(#[trigger] digits[i])
    &&& digits_value(digits) <= u64::MAX
}

/// The pool identifier that the text writes.
pub open spec fn pool_id_of(text: Seq<char>) -> u64 {
    digits_value(unsigned_part(text)) as u64
}

/// `ParseIntError` of std: why a text is no integer. Nothing is read of it.
#[verifier::external_type_specification]
#[verifier::external_body]
pub struct ExParseIntError(ParseIntError);

/// Reads a pool identifier.
///
/// Calls `str::parse::<u64>` of std, which accepts an optional `+` sign
/// followed by decimal digits only, and fails on the empty string, on any
/// other character and on a number above `u64::MAX`.
#[verifier::external_body]
fn parse_pool_id(pool: &String) -> (r: Result<u64, ParseIntError>)
    ensures
        match r {
            Ok(id) => is_pool_id(pool@) && id == pool_id_of(pool@),
            Err(_) => !is_pool_id(pool@),
        },
{
    pool.parse::<u64>()
}

impl SwapOperationView {
    /// The hop as the venue takes it.
    pub open spec fn venue_hop(self) -> SwapAmountInRouteView {
        SwapAmountInRouteView { pool_id: pool_id_of(self.pool), token_out_denom: self.denom_out }
    }
}

impl SwapAmountInRoute {
    /// Turns a hop into the venue's form. Fails where the pool reference is
    /// not a pool identifier.
    pub fn try_from(swap_operation: SwapOperation) -> (r: Result<SwapAmountInRoute, ParseIntError>)
        ensures
            match r {
                Ok(hop) => is_pool_id(swap_operation@.pool) && hop@ == swap_operation@.venue_hop(),
                Err(_) => !is_pool_id(swap_operation@.pool),
            },
    {
        match parse_pool_id(&swap_operation.pool) {
            Ok(pool_id) => Ok(
                SwapAmountInRoute { pool_id, token_out_denom: swap_operation.denom_out },
            ),
            Err(e) => Err(e),
        }
    }
}

/// Whether every hop names a pool by a pool identifier.
pub open spec fn pools_valid(operations: Seq<SwapOperationView>) -> bool {
    forall|i: int| 0 <= i < operations.len() ==> is_pool_id(#[trigger] operations[i].pool)
}

/// The hops as the venue takes them.
pub open spec fn venue_hops(operations: Seq<SwapOperationView>) -> Seq<SwapAmountInRouteView> {
    Seq::new(operations.len(), |i: int| operations[i].venue_hop())
}

/// Turns the hops of a route into the venue's form, in order. Fails if and
/// only if some pool reference is not a pool identifier.
pub fn convert_swap_operations(swap_operations: Vec<SwapOperation>) -> (r: Result<
    Vec<SwapAmountInRoute>,
    ParseIntError,
>)
    ensures
        match r {
            Ok(hops) => pools_valid(swap_operations.deep_view()) && hops.deep_view() == venue_hops(
                swap_operations.deep_view(),
            ),
            Err(_) => !pools_valid(swap_operations.deep_view()),
        },
{
    let ghost all = swap_operations.deep_view();
    let mut hops: Vec<SwapAmountInRoute> = Vec::new();
    let mut i: usize = 0;
    let n = swap_operations.len();
    while i < n
        invariant
            n == swap_operations.len(),
            all == swap_operations.deep_view(),
            i <= n,
            hops.len() == i,
            forall|j: int| 0 <= j < i ==> is_pool_id(#[trigger] all[j].pool),
            forall|j: int| 0 <= j < i ==> (#[trigger] hops[j])@ == all[j].venue_hop(),
        decreases n - i,
    {
        let op = swap_operations[i].clone();
        assert(op@ == all[i as int]);
        match SwapAmountInRoute::try_from(op) {
            Ok(hop) => {
                hops.push(hop);
            },
            Err(e) => {
                return Err(e);
            },
        }
        i += 1;
    }
    assert(hops.deep_view() =~= venue_hops(all));
    Ok(hops)
}

/// Copies the hops of a route.
pub fn clone_operations(operations: &Vec<SwapOperation>) -> (copy: Vec<SwapOperation>)
    ensures
        copy.deep_view() == operations.deep_view(),
{
    let mut copy: Vec<SwapOperation> = Vec::new();
    let mut i: usize = 0;
    while i < operations.len()
        invariant
            i <= operations.len(),
            copy.len() == i,
            forall|j: int| 0 <= j < i ==> (#[trigger] copy[j])@ == operations[j]@,
        decreases operations.len() - i,
    {
        copy.push(operations[i].clone());
        i += 1;
    }
    assert(copy.deep_view() =~= operations.deep_view());
    copy
}

/// Whether every hop of every route names a pool by a pool identifier.
pub open spec fn all_pools_valid(routes: Seq<RouteView>) -> bool {
    forall|i: int| 0 <= i < routes.len() ==> pools_valid(#[trigger] routes[i].operations)
}

/// The sum of the amounts that the routes offer.
pub open spec fn total_offer(routes: Seq<RouteView>) -> nat
    decreases routes.len(),
{
    if routes.len() == 0 {
        0
    } else {
        total_offer(routes.drop_last()) + routes.last().offer_amount as nat
    }
}

/// Whether some route has no hop.
pub open spec fn some_route_empty(routes: Seq<RouteView>) -> bool {
    exists|i: int| 0 <= i < routes.len() && (#[trigger] routes[i]).operations.len() == 0
}

/// What validation of `routes` against `available` ends in: the routes may
/// not offer more than is available, and each needs a hop.
pub open spec fn routes_verdict(routes: Seq<RouteView>, available: u128) -> Result<
    (),
    ZapperError,
> {
    if total_offer(routes) > available {
        Err(ZapperError::InvalidFund)
    } else if some_route_empty(routes) {
        Err(ZapperError::SwapOperationsEmpty)
    } else {
        Ok(())
    }
}

/// Checks routes against the amount that is there to be swapped.
pub fn validate_routes(routes: &[Route], available: u128) -> (r: Result<(), ZapperError>)
    ensures
        r == routes_verdict(routes.deep_view(), available),
{
    let ghost all = routes.deep_view();
    let n = routes.len();
    let mut total: u128 = 0;
    let mut exceeded = false;
    let mut empty = false;
    let mut i: usize = 0;
    while i < n
        invariant
            n == routes.len(),
            all == routes.deep_view(),
            i <= n,
            !exceeded ==> total == total_offer(all.take(i as int)),
            exceeded ==> total_offer(all.take(i as int)) > u128::MAX,
            empty == some_route_empty(all.take(i as int)),
        decreases n - i,
    {
        proof {
            assert(all.take(i + 1).drop_last() =~= all.take(i as int));
            assert(all.take(i + 1).last() == all[i as int]);
            assert(all[i as int] == routes[i as int]@);
        }
        let ghost before = all.take(i as int);
        let ghost after = all.take(i + 1);
        if !exceeded {
            match total.checked_add(routes[i].offer_amount) {
                Some(sum) => {
                    total = sum;
                },
                None => {
                    exceeded = true;
                },
            }
        }
        if routes[i].operations.len() == 0 {
            empty = true;
            assert(after[i as int].operations.len() == 0);
        } else if empty {
            let ghost k = choose|k: int|
                0 <= k < before.len() && (#[trigger] before[k]).operations.len() == 0;
            assert(after[k] == before[k]);
        } else {
            assert forall|k: int| 0 <= k < after.len() implies (#[trigger] after[k]).operations.len()
                != 0 by {
                if k < i {
                    assert(before[k] == after[k]);
                }
            }
        }
        i += 1;
    }
    assert(all.take(n as int) =~= all);
    if exceeded || total > available {
        Err(ZapperError::InvalidFund)
    } else if empty {
        Err(ZapperError::SwapOperationsEmpty)
    } else {
        Ok(())
    }
}

} // verus!
