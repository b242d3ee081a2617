//! The rebalancing decision: from a snapshot of a pool's reserves to the swap,
//! if any, that brings the pool price back towards parity.
//!
//! The target supply is a linear estimate, `total / 2 + (goal - 1) / 4 * total`,
//! not a solution of the pool's constant-product curve; the router's quote for
//! the amount to sell corrects for the curve and the fee.

use crate::config::Config;
use crate::decimal::{
    decimal_add, decimal_at_most, decimal_difference, decimal_div, decimal_mul, decimal_product,
    decimal_quotient, decimal_sub, decimal_sum, whole, Decimal, DecimalValue,
};
use crate::error::KeeperError;
use crate::token::{copy_addresses, Address, Token, TokenPair};
use crate::uint::U256;
use crate::units::{base_units, decimal_to_u256, quantity_of_base_units, u256_to_decimal};
use vstd::prelude::*;

verus! {

/// The reserves of a pair's two tokens at one moment, as decimal quantities.
#[derive(Clone, Copy, Debug)]
pub struct ReserveSnapshot {
    pub supply_0: Decimal,
    pub supply_1: Decimal,
}

/// A swap: what is sold, what is bought, and along which path.
#[derive(Debug)]
pub struct SwapDetails {
    pub dex_price: Decimal,
    pub token_to_sell: Token,
    pub amount_to_sell: Decimal,
    pub token_to_buy: Token,
    pub amount_to_buy_min: Decimal,
    pub path: Vec<Address>,
}

/// A swap as the contracts see it.
pub struct SwapDetailsView {
    pub dex_price: DecimalValue,
    pub token_to_sell: Token,
    pub amount_to_sell: DecimalValue,
    pub token_to_buy: Token,
    pub amount_to_buy_min: DecimalValue,
    pub path: Seq<Address>,
}

impl View for SwapDetails {
    type V = SwapDetailsView;

    open spec fn view(&self) -> SwapDetailsView {
        SwapDetailsView {
            dex_price: self.dex_price@,
            token_to_sell: self.token_to_sell,
            amount_to_sell: self.amount_to_sell@,
            token_to_buy: self.token_to_buy,
            amount_to_buy_min: self.amount_to_buy_min@,
            path: self.path@,
        }
    }
}

impl Clone for SwapDetails {
    fn clone(&self) -> (r: SwapDetails)
        ensures
            r@ == self@,
    {
        SwapDetails {
            dex_price: self.dex_price,
            token_to_sell: self.token_to_sell.clone(),
            amount_to_sell: self.amount_to_sell,
            token_to_buy: self.token_to_buy.clone(),
            amount_to_buy_min: self.amount_to_buy_min,
            path: copy_addresses(&self.path),
        }
    }
}

/// What the keeper does about one pair in one tick.
#[derive(Debug)]
pub enum KeeperAction {
    /// Mint the managed token and sell it for the other one.
    ExpandAndBuy(SwapDetails),
    /// Buy the managed token back with reserves.
    ContractAndSell(SwapDetails),
    /// Leave the pool alone; the details carry the observed price.
    Hold(SwapDetails),
}

/// An action as the contracts see it.
pub enum KeeperActionView {
    ExpandAndBuy(SwapDetailsView),
    ContractAndSell(SwapDetailsView),
    Hold(SwapDetailsView),
}

impl View for KeeperAction {
    type V = KeeperActionView;

    open spec fn view(&self) -> KeeperActionView {
        match self {
            KeeperAction::ExpandAndBuy(d) => KeeperActionView::ExpandAndBuy(d@),
            KeeperAction::ContractAndSell(d) => KeeperActionView::ContractAndSell(d@),
            KeeperAction::Hold(d) => KeeperActionView::Hold(d@),
        }
    }
}

impl Clone for KeeperAction {
    fn clone(&self) -> (r: KeeperAction)
        ensures
            r@ == self@,
    {
        match self {
            KeeperAction::ExpandAndBuy(d) => KeeperAction::ExpandAndBuy(d.clone()),
            KeeperAction::ContractAndSell(d) => KeeperAction::ContractAndSell(d.clone()),
            KeeperAction::Hold(d) => KeeperAction::Hold(d.clone()),
        }
    }
}

/// `low <= price <= high`, both ends included.
pub open spec fn within_range(price: DecimalValue, low: DecimalValue, high: DecimalValue) -> bool {
    low.at_most(price) && price.at_most(high)
}

/// Whether a price lies inside a band, both ends included. Inside the allowed
/// band the keeper takes no action.
pub fn decimal_is_within_allowed_range(price: Decimal, allowed_range: (Decimal, Decimal)) -> (r:
    bool)
    ensures
        r == within_range(price@, allowed_range.0@, allowed_range.1@),
{
    decimal_at_most(allowed_range.0, price) && decimal_at_most(price, allowed_range.1)
}

/// The views of a band's two ends.
pub open spec fn band(range: (Decimal, Decimal)) -> (DecimalValue, DecimalValue) {
    (range.0@, range.1@)
}

/// Whether the pool lists the pair's second token first: it does when that
/// token has the lower address.
pub open spec fn pool_order_is_reversed(pair: TokenPair) -> bool {
    pair.token_1.address.is_below(pair.token_0.address)
}

/// The reserves of a pair as decimal quantities, from the pool's raw reserves.
/// The pool reports them in its own order, lower address first; they are
/// matched to the pair's tokens by address, and each is scaled by its token's
/// precision.
pub open spec fn snapshot_of(pair: TokenPair, reserve_0: nat, reserve_1: nat) -> Option<
    (DecimalValue, DecimalValue),
> {
    let raw_0 = if pool_order_is_reversed(pair) { reserve_1 } else { reserve_0 };
    let raw_1 = if pool_order_is_reversed(pair) { reserve_0 } else { reserve_1 };
    match (
        quantity_of_base_units(raw_0, pair.token_0.decimals as nat),
        quantity_of_base_units(raw_1, pair.token_1.decimals as nat),
    ) {
        (Some(supply_0), Some(supply_1)) => Some((supply_0, supply_1)),
        _ => None,
    }
}

/// Turns the raw reserves that a pool reports into a snapshot for `token_pair`.
pub fn normalize_reserves(token_pair: &TokenPair, reserve_0: &U256, reserve_1: &U256) -> (r: Result<
    ReserveSnapshot,
    KeeperError,
>)
    ensures
        match snapshot_of(*token_pair, reserve_0@, reserve_1@) {
            Some(s) => r matches Ok(snapshot) && snapshot.supply_0@ == s.0 && snapshot.supply_1@
                == s.1,
            None => r == Err::<ReserveSnapshot, KeeperError>(KeeperError::ArithmeticOverflow),
        },
{
    let reversed = token_pair.token_1.address.is_below(token_pair.token_0.address);
    let raw_0 = if reversed { reserve_1 } else { reserve_0 };
    let raw_1 = if reversed { reserve_0 } else { reserve_1 };
    let supply_0 = u256_to_decimal(raw_0, token_pair.token_0.decimals)?;
    let supply_1 = u256_to_decimal(raw_1, token_pair.token_1.decimals)?;
    Ok(ReserveSnapshot { supply_0, supply_1 })
}

/// The supply of the first token at which the pool would stand at the price
/// `goal`, by the linear estimate `total / 2 + (goal - 1) / 4 * total`.
pub open spec fn expected_supply(total: DecimalValue, goal: DecimalValue) -> Option<DecimalValue> {
    match decimal_quotient(total, whole(2)) {
        None => None,
        Some(half) => match decimal_difference(goal, whole(1)) {
            None => None,
            Some(deviation) => match decimal_quotient(deviation, whole(4)) {
                None => None,
                Some(quarter) => match decimal_product(quarter, total) {
                    None => None,
                    Some(shift) => decimal_sum(half, shift),
                },
            },
        },
    }
}

/// What the reserves call for, before any token is named.
pub enum Sizing {
    /// The price is inside the allowed band.
    Hold { price: DecimalValue },
    /// The price is outside the band; `quantity_to_buy` brings it to the goal.
    Swap { price: DecimalValue, token_0_is_overvalued: bool, quantity_to_buy: DecimalValue },
}

/// The quantity that has to leave or enter the pool to reach the goal.
pub open spec fn quantity_towards(
    supply_0: DecimalValue,
    supply_1: DecimalValue,
    goal: DecimalValue,
    token_0_is_overvalued: bool,
) -> Option<DecimalValue> {
    match decimal_sum(supply_0, supply_1) {
        None => None,
        Some(total) => match expected_supply(total, goal) {
            None => None,
            Some(expected) => if token_0_is_overvalued {
                decimal_difference(supply_0, expected)
            } else {
                decimal_difference(expected, supply_0)
            },
        },
    }
}

/// The decision on a snapshot. The price is `supply_0 / supply_1`. Inside the
/// allowed band nothing more is computed. Outside it the first token is
/// overvalued when the price is above one; the goal is then the upper end of
/// the target band, and its lower end otherwise.
pub open spec fn size_swap(
    supply_0: DecimalValue,
    supply_1: DecimalValue,
    allowed: (DecimalValue, DecimalValue),
    targets: (DecimalValue, DecimalValue),
) -> Result<Sizing, KeeperError> {
    if supply_1.mantissa == 0 {
        Err(KeeperError::DivisionByZero)
    } else {
        match decimal_quotient(supply_0, supply_1) {
            None => Err(KeeperError::ArithmeticOverflow),
            Some(price) => if within_range(price, allowed.0, allowed.1) {
                Ok(Sizing::Hold { price })
            } else {
                let token_0_is_overvalued = !price.at_most(whole(1));
                let goal = if token_0_is_overvalued { targets.1 } else { targets.0 };
                match quantity_towards(supply_0, supply_1, goal, token_0_is_overvalued) {
                    None => Err(KeeperError::ArithmeticOverflow),
                    Some(quantity_to_buy) => if quantity_to_buy.mantissa < 0 {
                        Err(KeeperError::InvariantViolation)
                    } else {
                        Ok(Sizing::Swap { price, token_0_is_overvalued, quantity_to_buy })
                    },
                }
            },
        }
    }
}

/// The token that a swap sells: the second when the first is overvalued.
pub open spec fn token_sold(pair: TokenPair, token_0_is_overvalued: bool) -> Token {
    if token_0_is_overvalued { pair.token_1 } else { pair.token_0 }
}

/// The token that a swap buys: the overvalued first token, or else the second.
pub open spec fn token_bought(pair: TokenPair, token_0_is_overvalued: bool) -> Token {
    if token_0_is_overvalued { pair.token_0 } else { pair.token_1 }
}

/// The path of a swap: from the token sold to the token bought.
pub open spec fn swap_path(pair: TokenPair, token_0_is_overvalued: bool) -> Seq<Address> {
    seq![
        token_sold(pair, token_0_is_overvalued).address,
        token_bought(pair, token_0_is_overvalued).address,
    ]
}

/// What to ask the router: the input needed to get `amount_out` along `path`.
#[derive(Debug)]
pub struct SwapQuery {
    pub dex_price: Decimal,
    pub token_0_is_overvalued: bool,
    pub quantity_to_buy: Decimal,
    pub amount_out: U256,
    pub path: Vec<Address>,
}

/// The outcome of looking at a snapshot: nothing to do, or a question for the
/// router.
#[derive(Debug)]
pub enum SwapPlan {
    Hold(Decimal),
    Quote(SwapQuery),
}

/// A plan as the contracts see it.
pub enum SwapPlanView {
    Hold { price: DecimalValue },
    Quote {
        price: DecimalValue,
        token_0_is_overvalued: bool,
        quantity_to_buy: DecimalValue,
        amount_out: nat,
        path: Seq<Address>,
    },
}

impl View for SwapPlan {
    type V = SwapPlanView;

    open spec fn view(&self) -> SwapPlanView {
        match self {
            SwapPlan::Hold(price) => SwapPlanView::Hold { price: price@ },
            SwapPlan::Quote(q) => SwapPlanView::Quote {
                price: q.dex_price@,
                token_0_is_overvalued: q.token_0_is_overvalued,
                quantity_to_buy: q.quantity_to_buy@,
                amount_out: q.amount_out@,
                path: q.path@,
            },
        }
    }
}

/// The plan for a pair: the decision of `size_swap`, with the quantity to buy
/// in base units of the token bought and the path through the pair.
pub open spec fn swap_plan(
    pair: TokenPair,
    supply_0: DecimalValue,
    supply_1: DecimalValue,
    allowed: (DecimalValue, DecimalValue),
    targets: (DecimalValue, DecimalValue),
) -> Result<SwapPlanView, KeeperError> {
    match size_swap(supply_0, supply_1, allowed, targets) {
        Err(e) => Err(e),
        Ok(Sizing::Hold { price }) => Ok(SwapPlanView::Hold { price }),
        Ok(Sizing::Swap { price, token_0_is_overvalued, quantity_to_buy }) => match base_units(
            quantity_to_buy,
            token_bought(pair, token_0_is_overvalued).decimals as nat,
        ) {
            None => Err(KeeperError::ArithmeticOverflow),
            Some(amount_out) => Ok(
                SwapPlanView::Quote {
                    price,
                    token_0_is_overvalued,
                    quantity_to_buy,
                    amount_out,
                    path: swap_path(pair, token_0_is_overvalued),
                },
            ),
        },
    }
}

/// The view of a plan or of the failure to make one.
pub open spec fn plan_result(r: Result<SwapPlan, KeeperError>) -> Result<SwapPlanView, KeeperError> {
    match r {
        Ok(plan) => Ok(plan@),
        Err(e) => Err(e),
    }
}

fn computed(value: Option<Decimal>) -> (r: Result<Decimal, KeeperError>)
    ensures
        match value {
            Some(d) => r == Ok::<Decimal, KeeperError>(d),
            None => r == Err::<Decimal, KeeperError>(KeeperError::ArithmeticOverflow),
        },
{
    match value {
        Some(d) => Ok(d),
        None => Err(KeeperError::ArithmeticOverflow),
    }
}

fn expected_buy_token_supply(total: Decimal, goal: Decimal) -> (r: Result<Decimal, KeeperError>)
    ensures
        match expected_supply(total@, goal@) {
            Some(e) => r matches Ok(d) && d@ == e,
            None => r == Err::<Decimal, KeeperError>(KeeperError::ArithmeticOverflow),
        },
{
    let half = computed(decimal_div(total, Decimal::from_u64(2)))?;
    let deviation = computed(decimal_sub(goal, Decimal::from_u64(1)))?;
    let quarter = computed(decimal_div(deviation, Decimal::from_u64(4)))?;
    let shift = computed(decimal_mul(quarter, total))?;
    computed(decimal_add(half, shift))
}

/// Looks at a snapshot of a pair's reserves and decides whether a swap is
/// called for. Inside the allowed band the plan is to hold, and nothing is
/// asked of the router. Outside it the plan names the amount to get out of the
/// swap and the path, for the router to quote the amount to put in.
pub fn get_token_swap_details(
    config: &Config,
    token_pair: &TokenPair,
    snapshot: &ReserveSnapshot,
) -> (r: Result<SwapPlan, KeeperError>)
    ensures
        plan_result(r) == swap_plan(
            *token_pair,
            snapshot.supply_0@,
            snapshot.supply_1@,
            band(config.ratio_range_allowed),
            band(config.ratio_range_targets),
        ),
{
    let supply_0 = snapshot.supply_0;
    let supply_1 = snapshot.supply_1;
    if supply_1.is_zero() {
        return Err(KeeperError::DivisionByZero);
    }
    let current_price = computed(decimal_div(supply_0, supply_1))?;
    if decimal_is_within_allowed_range(current_price, config.ratio_range_allowed) {
        return Ok(SwapPlan::Hold(current_price));
    }
    let token_0_is_overvalued = !decimal_at_most(current_price, Decimal::from_u64(1));
    let goal_ratio = if token_0_is_overvalued {
        config.ratio_range_targets.1
    } else {
        config.ratio_range_targets.0
    };
    let total_supply = computed(decimal_add(supply_0, supply_1))?;
    let expected = expected_buy_token_supply(total_supply, goal_ratio)?;
    let quantity_to_buy = if token_0_is_overvalued {
        computed(decimal_sub(supply_0, expected))?
    } else {
        computed(decimal_sub(expected, supply_0))?
    };
    if quantity_to_buy.is_negative() {
        return Err(KeeperError::InvariantViolation);
    }
    let (sold, bought) = if token_0_is_overvalued {
        (&token_pair.token_1, &token_pair.token_0)
    } else {
        (&token_pair.token_0, &token_pair.token_1)
    };
    let amount_out = decimal_to_u256(quantity_to_buy, bought.decimals)?;
    let mut path: Vec<Address> = Vec::new();
    path.push(sold.address);
    path.push(bought.address);
    assert(path@ =~= swap_path(*token_pair, token_0_is_overvalued));
    Ok(
        SwapPlan::Quote(
            SwapQuery {
                dex_price: current_price,
                token_0_is_overvalued,
                quantity_to_buy,
                amount_out,
                path,
            },
        ),
    )
}

/// The action that a plan and the router's answer make. A plan to hold needs
/// no answer. Otherwise the answer is the amount to sell, in base units of the
/// token sold; the first token being overvalued means expanding supply and
/// buying, the opposite contracting and selling.
pub open spec fn action_for(
    pair: TokenPair,
    plan: SwapPlanView,
    quoted_amount_in: Option<nat>,
) -> Result<KeeperActionView, KeeperError> {
    match plan {
        SwapPlanView::Hold { price } => Ok(
            KeeperActionView::Hold(
                SwapDetailsView {
                    dex_price: price,
                    token_to_sell: pair.token_0,
                    amount_to_sell: whole(0),
                    token_to_buy: pair.token_1,
                    amount_to_buy_min: whole(0),
                    path: Seq::empty(),
                },
            ),
        ),
        SwapPlanView::Quote { price, token_0_is_overvalued, quantity_to_buy, amount_out, path } => {
            match quoted_amount_in {
                None => Err(KeeperError::RpcError),
                Some(amount_in) => match quantity_of_base_units(
                    amount_in,
                    token_sold(pair, token_0_is_overvalued).decimals as nat,
                ) {
                    None => Err(KeeperError::ArithmeticOverflow),
                    Some(amount_to_sell) => {
                        let details = SwapDetailsView {
                            dex_price: price,
                            token_to_sell: token_sold(pair, token_0_is_overvalued),
                            amount_to_sell,
                            token_to_buy: token_bought(pair, token_0_is_overvalued),
                            amount_to_buy_min: quantity_to_buy,
                            path,
                        };
                        if token_0_is_overvalued {
                            Ok(KeeperActionView::ExpandAndBuy(details))
                        } else {
                            Ok(KeeperActionView::ContractAndSell(details))
                        }
                    },
                },
            }
        },
    }
}

/// The view of an action or of the failure to decide on one.
pub open spec fn action_result(r: Result<KeeperAction, KeeperError>) -> Result<
    KeeperActionView,
    KeeperError,
> {
    match r {
        Ok(action) => Ok(action@),
        Err(e) => Err(e),
    }
}

/// The value of an optional integer.
pub open spec fn quote_value(quoted: Option<U256>) -> Option<nat> {
    match quoted {
        Some(amount) => Some(amount@),
        None => None,
    }
}

/// Turns a plan into the action for the pair. `quoted_amount_in` is the
/// router's answer to the plan's question: the amount of the token sold that
/// buys the plan's `amount_out`. A plan to hold ignores it; a plan to swap
/// without an answer fails with `RpcError`.
pub fn determine_action_to_take_for_pair(
    token_pair: &TokenPair,
    plan: &SwapPlan,
    quoted_amount_in: Option<U256>,
) -> (r: Result<KeeperAction, KeeperError>)
    ensures
        action_result(r) == action_for(*token_pair, plan@, quote_value(quoted_amount_in)),
{
    match plan {
        SwapPlan::Hold(price) => Ok(
            KeeperAction::Hold(
                SwapDetails {
                    dex_price: *price,
                    token_to_sell: token_pair.token_0.clone(),
                    amount_to_sell: Decimal::from_u64(0),
                    token_to_buy: token_pair.token_1.clone(),
                    amount_to_buy_min: Decimal::from_u64(0),
                    path: Vec::new(),
                },
            ),
        ),
        SwapPlan::Quote(query) => {
            let amount_in = match quoted_amount_in {
                Some(amount) => amount,
                None => { return Err(KeeperError::RpcError); },
            };
            let (sold, bought) = if query.token_0_is_overvalued {
                (&token_pair.token_1, &token_pair.token_0)
            } else {
                (&token_pair.token_0, &token_pair.token_1)
            };
            let amount_to_sell = u256_to_decimal(&amount_in, sold.decimals)?;
            let details = SwapDetails {
                dex_price: query.dex_price,
                token_to_sell: sold.clone(),
                amount_to_sell,
                token_to_buy: bought.clone(),
                amount_to_buy_min: query.quantity_to_buy,
                path: copy_addresses(&query.path),
            };
            if query.token_0_is_overvalued {
                Ok(KeeperAction::ExpandAndBuy(details))
            } else {
                Ok(KeeperAction::ContractAndSell(details))
            }
        },
    }
}

/// The whole decision on a snapshot: the plan, then the action that the plan
/// and the router's answer make.
pub open spec fn decision(
    pair: TokenPair,
    supply_0: DecimalValue,
    supply_1: DecimalValue,
    allowed: (DecimalValue, DecimalValue),
    targets: (DecimalValue, DecimalValue),
    quoted_amount_in: Option<nat>,
) -> Result<KeeperActionView, KeeperError> {
    match swap_plan(pair, supply_0, supply_1, allowed, targets) {
        Err(e) => Err(e),
        Ok(plan) => action_for(pair, plan, quoted_amount_in),
    }
}

/// The swap that an action carries.
pub open spec fn details_of(action: KeeperActionView) -> SwapDetailsView {
    match action {
        KeeperActionView::ExpandAndBuy(d) => d,
        KeeperActionView::ContractAndSell(d) => d,
        KeeperActionView::Hold(d) => d,
    }
}

/// While the price is inside the allowed band, its ends included, the plan is
/// to hold: it carries no question for the router, and the action is `Hold`
/// with the observed price, whatever the router might have said.
pub proof fn lemma_inside_band_holds(
    pair: TokenPair,
    supply_0: DecimalValue,
    supply_1: DecimalValue,
    allowed: (DecimalValue, DecimalValue),
    targets: (DecimalValue, DecimalValue),
    quoted_amount_in: Option<nat>,
    price: DecimalValue,
)
    requires
        supply_1.mantissa != 0,
        decimal_quotient(supply_0, supply_1) == Some(price),
        within_range(price, allowed.0, allowed.1),
    ensures
        swap_plan(pair, supply_0, supply_1, allowed, targets) == Ok::<SwapPlanView, KeeperError>(
            SwapPlanView::Hold { price },
        ),
        decision(pair, supply_0, supply_1, allowed, targets, quoted_amount_in) matches Ok(
            KeeperActionView::Hold(d),
        ) && d.dex_price == price && d.path.len() == 0,
{
}

/// While the price is outside the allowed band, an action that is decided on
/// is a swap along exactly two hops: from the token sold to the token bought,
/// which are the pair's two tokens. Above a price of one that is from the
/// second token to the first, expanding; below it the other way, contracting.
pub proof fn lemma_swap_path_joins_the_pair(
    pair: TokenPair,
    supply_0: DecimalValue,
    supply_1: DecimalValue,
    allowed: (DecimalValue, DecimalValue),
    targets: (DecimalValue, DecimalValue),
    quoted_amount_in: Option<nat>,
    price: DecimalValue,
    action: KeeperActionView,
)
    requires
        supply_1.mantissa != 0,
        decimal_quotient(supply_0, supply_1) == Some(price),
        !within_range(price, allowed.0, allowed.1),
        decision(pair, supply_0, supply_1, allowed, targets, quoted_amount_in) == Ok::<
            KeeperActionView,
            KeeperError,
        >(action),
    ensures
        !(action is Hold),
        action is ExpandAndBuy <==> !price.at_most(whole(1)),
        details_of(action).path.len() == 2,
        details_of(action).path[0] == details_of(action).token_to_sell.address,
        details_of(action).path[1] == details_of(action).token_to_buy.address,
        action is ExpandAndBuy ==> details_of(action).path == seq![
            pair.token_1.address,
            pair.token_0.address,
        ],
        action is ContractAndSell ==> details_of(action).path == seq![
            pair.token_0.address,
            pair.token_1.address,
        ],
{
}

/// Every action that is decided on sells and buys non-negative amounts, and
/// its path is empty exactly when the action is to hold.
pub proof fn lemma_action_is_sound(
    pair: TokenPair,
    supply_0: DecimalValue,
    supply_1: DecimalValue,
    allowed: (DecimalValue, DecimalValue),
    targets: (DecimalValue, DecimalValue),
    quoted_amount_in: Option<nat>,
    action: KeeperActionView,
)
    requires
        decision(pair, supply_0, supply_1, allowed, targets, quoted_amount_in) == Ok::<
            KeeperActionView,
            KeeperError,
        >(action),
    ensures
        details_of(action).amount_to_sell.mantissa >= 0,
        details_of(action).amount_to_buy_min.mantissa >= 0,
        details_of(action).path.len() == 0 <==> action is Hold,
{
}

/// Deciding twice on the same snapshot, with the same answer from the router,
/// gives the same outcome: the same failure, or the same kind of action with
/// the same swap in every field.
pub proof fn lemma_decision_is_repeatable(
    config: Config,
    token_pair: TokenPair,
    snapshot: ReserveSnapshot,
    quoted_amount_in: Option<U256>,
    first_plan: Result<SwapPlan, KeeperError>,
    second_plan: Result<SwapPlan, KeeperError>,
    first: Result<KeeperAction, KeeperError>,
    second: Result<KeeperAction, KeeperError>,
)
    requires
        plan_result(first_plan) == swap_plan(
            token_pair,
            snapshot.supply_0@,
            snapshot.supply_1@,
            band(config.ratio_range_allowed),
            band(config.ratio_range_targets),
        ),
        plan_result(second_plan) == plan_result(first_plan),
        first_plan matches Ok(plan) ==> action_result(first) == action_for(
            token_pair,
            plan@,
            quote_value(quoted_amount_in),
        ),
        second_plan matches Ok(plan) ==> action_result(second) == action_for(
            token_pair,
            plan@,
            quote_value(quoted_amount_in),
        ),
    ensures
        first_plan is Ok ==> action_result(first) == action_result(second),
        first_plan is Ok ==> action_result(first) == decision(
            token_pair,
            snapshot.supply_0@,
            snapshot.supply_1@,
            band(config.ratio_range_allowed),
            band(config.ratio_range_targets),
            quote_value(quoted_amount_in),
        ),
{
}

} // verus!
