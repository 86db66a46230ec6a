use vstd::prelude::*;
use crate::error::CliError;
use crate::ids::{Coin, ObjectId};
use crate::net::SuiNet;

verus! {

/// The first coin of `coins`, in enumeration order, whose identifier is `id`.
pub open spec fn find_coin(coins: Seq<Coin>, id: ObjectId) -> Option<Coin>
    decreases coins.len(),
{
    if coins.len() == 0 {
        None
    } else if coins[0].object_id == id {
        Some(coins[0])
    } else {
        find_coin(coins.drop_first(), id)
    }
}

/// Both roles resolved: they must name two different coins.
pub open spec fn distinct_pair(gas: Coin, collateral: Coin) -> Result<(Coin, Coin), CliError> {
    if gas.object_id == collateral.object_id {
        Err(CliError::DuplicateFundingObject { object_id: collateral.object_id })
    } else {
        Ok((gas, collateral))
    }
}

/// The collateral role, filled from `pool` once the gas coin is chosen.
pub open spec fn with_collateral(pool: Seq<Coin>, gas: Coin, collateral: Option<ObjectId>) -> Result<
    (Coin, Coin),
    CliError,
> {
    match collateral {
        Some(id) => match find_coin(pool, id) {
            Some(c) => distinct_pair(gas, c),
            None => Err(CliError::ObjectNotFound { object_id: id }),
        },
        None => distinct_pair(gas, pool[0]),
    }
}

/// Selection of a gas coin and a collateral coin out of the enumerated
/// `coins`. An explicit identifier is looked up among the coins not yet taken
/// by default; a role without one takes the first such coin.
pub open spec fn select_spec(
    net: SuiNet,
    coins: Seq<Coin>,
    gas: Option<ObjectId>,
    collateral: Option<ObjectId>,
) -> Result<(Coin, Coin), CliError> {
    if coins.len() < 2 {
        Err(CliError::InsufficientFunds { net, available: coins.len() as usize })
    } else {
        match gas {
            Some(id) => match find_coin(coins, id) {
                Some(g) => with_collateral(coins, g, collateral),
                None => Err(CliError::ObjectNotFound { object_id: id }),
            },
            None => with_collateral(coins.drop_first(), coins[0], collateral),
        }
    }
}

/// What the command does next while it gathers its funding coins.
#[derive(Clone, Copy, Debug, PartialEq, Eq)]
pub enum FundingStep {
    /// Ask the faucet for coins once, enumerate the wallet again and come back
    /// with `topped_up` set.
    RequestTopUp,
    /// Selection is over, with this outcome.
    Done(Result<(Coin, Coin), CliError>),
}

/// A top-up is asked for only when coins are short, the network has a faucet,
/// and none was asked for yet.
pub open spec fn needs_top_up(net: SuiNet, topped_up: bool, available: nat) -> bool {
    !topped_up && available < 2 && net.spec_allows_top_up()
}

/// The step that follows an enumeration of `coins`: a top-up where one is
/// due, else the outcome of selection.
pub open spec fn funding_step_spec(
    net: SuiNet,
    topped_up: bool,
    coins: Seq<Coin>,
    gas: Option<ObjectId>,
    collateral: Option<ObjectId>,
) -> FundingStep {
    if needs_top_up(net, topped_up, coins.len()) {
        FundingStep::RequestTopUp
    } else {
        FundingStep::Done(select_spec(net, coins, gas, collateral))
    }
}

/// The first coin of `coins[start..]` with identifier `id`.
fn find_coin_from(coins: &Vec<Coin>, start: usize, id: ObjectId) -> (r: Option<Coin>)
    requires
        start <= coins@.len(),
    ensures
        r == find_coin(coins@.subrange(start as int, coins@.len() as int), id),
{
    let mut i: usize = start;
    while i < coins.len()
        invariant
            start <= i <= coins@.len(),
            find_coin(coins@.subrange(start as int, coins@.len() as int), id) == find_coin(
                coins@.subrange(i as int, coins@.len() as int),
                id,
            ),
        decreases coins@.len() - i,
    {
        assert(coins@.subrange(i as int, coins@.len() as int).drop_first() =~= coins@.subrange(
            i + 1,
            coins@.len() as int,
        ));
        if coins[i].object_id == id {
            return Some(coins[i]);
        }
        i = i + 1;
    }
    None
}

/// Picks the gas coin and the collateral coin out of the wallet's enumerated
/// coins, as `select_spec` describes.
pub fn select_gas_and_collateral(
    net: SuiNet,
    coins: &Vec<Coin>,
    gas: Option<ObjectId>,
    collateral: Option<ObjectId>,
) -> (r: Result<(Coin, Coin), CliError>)
    ensures
        r == select_spec(net, coins@, gas, collateral),
{
    if coins.len() < 2 {
        return Err(CliError::InsufficientFunds { net, available: coins.len() });
    }
    assert(coins@.subrange(0, coins@.len() as int) =~= coins@);
    assert(coins@.subrange(1, coins@.len() as int) =~= coins@.drop_first());
    let (gas_coin, pool_start) = match gas {
        Some(id) => match find_coin_from(coins, 0, id) {
            Some(g) => (g, 0usize),
            None => {
                return Err(CliError::ObjectNotFound { object_id: id });
            },
        },
        None => (coins[0], 1usize),
    };
    let collateral_coin = match collateral {
        Some(id) => match find_coin_from(coins, pool_start, id) {
            Some(c) => c,
            None => {
                return Err(CliError::ObjectNotFound { object_id: id });
            },
        },
        None => coins[pool_start],
    };
    if gas_coin.object_id == collateral_coin.object_id {
        Err(CliError::DuplicateFundingObject { object_id: collateral_coin.object_id })
    } else {
        Ok((gas_coin, collateral_coin))
    }
}

/// The gas coin of a command that needs no collateral: the coin asked for
/// by identifier, or else the first coin enumerated.
pub open spec fn gas_coin_spec(net: SuiNet, coins: Seq<Coin>, gas: Option<ObjectId>) -> Result<
    Coin,
    CliError,
> {
    match gas {
        Some(id) => match find_coin(coins, id) {
            Some(c) => Ok(c),
            None => Err(CliError::ObjectNotFound { object_id: id }),
        },
        None => if coins.len() == 0 {
            Err(CliError::InsufficientFunds { net, available: 0 })
        } else {
            Ok(coins[0])
        },
    }
}

/// Picks the single gas coin of a command, as `gas_coin_spec` describes.
pub fn select_gas_coin(net: SuiNet, coins: &Vec<Coin>, gas: Option<ObjectId>) -> (r: Result<
    Coin,
    CliError,
>)
    ensures
        r == gas_coin_spec(net, coins@, gas),
{
    assert(coins@.subrange(0, coins@.len() as int) =~= coins@);
    match gas {
        Some(id) => match find_coin_from(coins, 0, id) {
            Some(c) => Ok(c),
            None => Err(CliError::ObjectNotFound { object_id: id }),
        },
        None => if coins.len() == 0 {
            Err(CliError::InsufficientFunds { net, available: 0 })
        } else {
            Ok(coins[0])
        },
    }
}

/// Decides the next step of funding selection from the coins enumerated so
/// far. At most one top-up is ever requested: `topped_up` records it.
pub fn next_funding_step(
    net: SuiNet,
    topped_up: bool,
    coins: &Vec<Coin>,
    gas: Option<ObjectId>,
    collateral: Option<ObjectId>,
) -> (r: FundingStep)
    ensures
        r == funding_step_spec(net, topped_up, coins@, gas, collateral),
{
    if !topped_up && coins.len() < 2 && net.allows_top_up() {
        FundingStep::RequestTopUp
    } else {
        FundingStep::Done(select_gas_and_collateral(net, coins, gas, collateral))
    }
}

/// No coin of `coins` has identifier `id`.
pub open spec fn absent_from(coins: Seq<Coin>, id: ObjectId) -> bool {
    forall|i: int| 0 <= i < coins.len() ==> coins[i].object_id != id
}

proof fn lemma_find_coin_absent(coins: Seq<Coin>, id: ObjectId)
    requires
        absent_from(coins, id),
    ensures
        find_coin(coins, id) is None,
    decreases coins.len(),
{
    if coins.len() > 0 {
        assert(coins[0].object_id != id);
        lemma_find_coin_absent(coins.drop_first(), id);
    }
}

/// With two or more coins of distinct identifiers and no identifier asked
/// for, selection needs no top-up and hands out the first two coins in
/// enumeration order, which are distinct.
pub proof fn lemma_default_selection(net: SuiNet, coins: Seq<Coin>)
    requires
        coins.len() >= 2,
        forall|i: int, j: int|
            0 <= i < j < coins.len() ==> coins[i].object_id != coins[j].object_id,
    ensures
        funding_step_spec(net, false, coins, None, None) == FundingStep::Done(
            Ok((coins[0], coins[1])),
        ),
        coins[0].object_id != coins[1].object_id,
{
    assert(coins[0].object_id != coins[1].object_id);
    assert(coins.drop_first()[0] == coins[1]);
}

/// When coins are short, a network with a faucet asks for exactly one
/// top-up: the first step requests it, and whatever the wallet holds
/// afterwards the next step never requests another. On mainnet no top-up is
/// requested and selection fails at once for want of funds.
pub proof fn lemma_single_top_up(
    net: SuiNet,
    first: Seq<Coin>,
    after_top_up: Seq<Coin>,
    gas: Option<ObjectId>,
    collateral: Option<ObjectId>,
)
    requires
        first.len() < 2,
    ensures
        net != SuiNet::Mainnet ==> funding_step_spec(net, false, first, gas, collateral)
            == FundingStep::RequestTopUp,
        !(funding_step_spec(net, true, after_top_up, gas, collateral) is RequestTopUp),
        net == SuiNet::Mainnet ==> funding_step_spec(net, false, first, gas, collateral)
            == FundingStep::Done(
            Err(CliError::InsufficientFunds { net, available: first.len() as usize }),
        ),
{
}

/// With enough coins, an identifier asked for that the wallet does not hold
/// fails selection with `ObjectNotFound`, without a top-up: as the gas coin
/// whatever the collateral, and as the collateral coin when the gas role is
/// filled by default or by a coin the wallet holds.
pub proof fn lemma_missing_object(
    net: SuiNet,
    coins: Seq<Coin>,
    id: ObjectId,
    other: Option<ObjectId>,
)
    requires
        coins.len() >= 2,
        absent_from(coins, id),
    ensures
        funding_step_spec(net, false, coins, Some(id), other) == FundingStep::Done(
            Err(CliError::ObjectNotFound { object_id: id }),
        ),
        (other is None || find_coin(coins, other->Some_0) is Some) ==> funding_step_spec(
            net,
            false,
            coins,
            other,
            Some(id),
        ) == FundingStep::Done(Err(CliError::ObjectNotFound { object_id: id })),
{
    lemma_find_coin_absent(coins, id);
    assert(absent_from(coins.drop_first(), id)) by {
        assert forall|i: int| 0 <= i < coins.drop_first().len() implies coins.drop_first()[i].object_id != id by {
            assert(coins.drop_first()[i] == coins[i + 1]);
        }
    }
    lemma_find_coin_absent(coins.drop_first(), id);
}

} // verus!
