//! The single-mine variant: each account owns one gold mine record that is
//! bought once, then levelled up with the gold it has accrued.
use std::collections::HashMap;
use vstd::prelude::*;

use crate::accrual::{
    accrue, accrued, level_price, next_level_price, BUILDING_PRICE, STARTING_GOLD,
};
use crate::error::{AccountId, Event, GameError};

verus! {

broadcast use vstd::std_specs::hash::group_hash_axioms;

/// One account's mine. `level == 0` means the mine is not bought yet.
///
/// `rate` is the number of time units per accrual period, `accrual` the gold
/// produced per period, `time` the last time the balance was reconciled.
#[derive(Clone, Copy, Debug, PartialEq, Eq, Structural)]
pub struct Resource {
    pub level: u64,
    pub time: u64,
    pub accrual: u64,
    pub rate: u32,
    pub resource_amount: u64,
}

impl Resource {
    /// An active mine produces: its period and its yield are positive.
    pub open spec fn wf(&self) -> bool {
        self.level >= 1 ==> self.rate >= 1 && self.accrual >= 1
    }

    /// The state a player starts with: no mine and `STARTING_GOLD` gold.
    pub open spec fn spec_starting(now: u64) -> Resource {
        Resource { level: 0, time: now, accrual: 0, rate: 0, resource_amount: STARTING_GOLD }
    }

    /// Buying the mine: checks funds, then that it was not bought, then the time.
    pub open spec fn spec_buy(self, now: u64) -> Result<Resource, GameError> {
        if self.resource_amount < BUILDING_PRICE {
            Err(GameError::InsufficientFunds)
        } else if self.level != 0 {
            Err(GameError::AlreadyBuilt)
        } else if now < self.time {
            Err(GameError::StaleTimestamp)
        } else {
            Ok(
                Resource {
                    level: 1,
                    time: now,
                    accrual: 1,
                    rate: 1,
                    resource_amount: (self.resource_amount - BUILDING_PRICE) as u64,
                },
            )
        }
    }

    /// The balance that a level-up at `now` compares against its price.
    pub open spec fn spec_balance_at(self, now: u64) -> int {
        accrued(
            self.resource_amount as int,
            self.accrual as int,
            self.rate as int,
            now - self.time,
        )
    }

    /// The price of the next level.
    pub open spec fn spec_price(self) -> int {
        level_price(self.level as int, self.rate as int, self.accrual as int)
    }

    /// Levelling up: the balance is first reconciled with the gold accrued
    /// since `time`, then the price is paid from that balance.
    pub open spec fn spec_level_up(self, now: u64) -> Result<Resource, GameError> {
        if self.level == 0 {
            Err(GameError::NotYetBuilt)
        } else if now < self.time {
            Err(GameError::StaleTimestamp)
        } else if self.spec_balance_at(now) > u64::MAX {
            Err(GameError::BalanceOverflow)
        } else if self.spec_balance_at(now) < self.spec_price() {
            Err(GameError::InsufficientFunds)
        } else {
            Ok(
                Resource {
                    level: (self.level + 1) as u64,
                    time: now,
                    accrual: (self.accrual + 1) as u64,
                    rate: self.rate,
                    resource_amount: (self.spec_balance_at(now) - self.spec_price()) as u64,
                },
            )
        }
    }

    /// The starting state at time `now`.
    pub fn new(now: u64) -> (r: Resource)
        ensures
            r == Resource::spec_starting(now),
            r.wf(),
    {
        Resource { level: 0, time: now, accrual: 0, rate: 0, resource_amount: STARTING_GOLD }
    }

    /// Buys the mine at `now`; on error nothing changes.
    pub fn buy_golden_mine(&mut self, now: u64) -> (r: Result<(), GameError>)
        requires
            old(self).wf(),
        ensures
            final(self).wf(),
            match old(self).spec_buy(now) {
                Ok(n) => r is Ok && *final(self) == n,
                Err(e) => r == Err::<(), GameError>(e) && *final(self) == *old(self),
            },
    {
        if self.resource_amount < BUILDING_PRICE {
            return Err(GameError::InsufficientFunds);
        }
        if self.level != 0 {
            return Err(GameError::AlreadyBuilt);
        }
        if now < self.time {
            return Err(GameError::StaleTimestamp);
        }
        self.level = 1;
        self.time = now;
        self.accrual = 1;
        self.rate = 1;
        self.resource_amount = self.resource_amount - BUILDING_PRICE;
        Ok(())
    }

    /// Levels the mine up at `now`; on error nothing changes.
    pub fn level_up(&mut self, now: u64) -> (r: Result<(), GameError>)
        requires
            old(self).wf(),
        ensures
            final(self).wf(),
            match old(self).spec_level_up(now) {
                Ok(n) => r is Ok && *final(self) == n,
                Err(e) => r == Err::<(), GameError>(e) && *final(self) == *old(self),
            },
    {
        if self.level == 0 {
            return Err(GameError::NotYetBuilt);
        }
        if now < self.time {
            return Err(GameError::StaleTimestamp);
        }
        let balance = match accrue(self.resource_amount, self.accrual, self.rate, now - self.time) {
            Some(b) => b,
            None => return Err(GameError::BalanceOverflow),
        };
        let price = match next_level_price(self.level, self.rate, self.accrual) {
            Some(p) => p,
            None => return Err(GameError::InsufficientFunds),
        };
        if balance < price {
            return Err(GameError::InsufficientFunds);
        }
        assert((self.level as int) * 100 <= price) by (nonlinear_arith)
            requires
                price == (self.level as int) * (self.rate as int) * 100 * (self.accrual as int),
                self.rate >= 1,
                self.accrual >= 1,
        ;
        assert((self.accrual as int) * 100 <= price) by (nonlinear_arith)
            requires
                price == (self.level as int) * (self.rate as int) * 100 * (self.accrual as int),
                self.rate >= 1,
                self.level >= 1,
        ;
        self.level = self.level + 1;
        self.time = now;
        self.accrual = self.accrual + 1;
        self.resource_amount = balance - price;
        Ok(())
    }
}

/// The ledger of single mines, one per account.
pub struct GoldenMines {
    mines: HashMap<AccountId, Resource>,
}

impl View for GoldenMines {
    type V = Map<AccountId, Resource>;

    closed spec fn view(&self) -> Map<AccountId, Resource> {
        self.mines@
    }
}

/// `init` on a ledger of mines.
pub open spec fn spec_mines_init(m: Map<AccountId, Resource>, who: AccountId, now: u64) -> Result<
    Map<AccountId, Resource>,
    GameError,
> {
    if m.contains_key(who) {
        Err(GameError::AlreadyInitialized)
    } else {
        Ok(m.insert(who, Resource::spec_starting(now)))
    }
}

/// `buy_golden_mine` on a ledger of mines.
pub open spec fn spec_mines_buy(m: Map<AccountId, Resource>, who: AccountId, now: u64) -> Result<
    Map<AccountId, Resource>,
    GameError,
> {
    if !m.contains_key(who) {
        Err(GameError::NoAccount)
    } else {
        match m[who].spec_buy(now) {
            Ok(n) => Ok(m.insert(who, n)),
            Err(e) => Err(e),
        }
    }
}

/// `level_up` on a ledger of mines.
pub open spec fn spec_mines_level_up(
    m: Map<AccountId, Resource>,
    who: AccountId,
    now: u64,
) -> Result<Map<AccountId, Resource>, GameError> {
    if !m.contains_key(who) {
        Err(GameError::NoAccount)
    } else {
        match m[who].spec_level_up(now) {
            Ok(n) => Ok(m.insert(who, n)),
            Err(e) => Err(e),
        }
    }
}

impl GoldenMines {
    /// Every stored mine is well formed.
    pub open spec fn wf(&self) -> bool {
        forall|k: AccountId| #[trigger] self@.contains_key(k) ==> self@[k].wf()
    }

    /// An empty ledger.
    pub fn new() -> (r: GoldenMines)
        ensures
            r@ == Map::<AccountId, Resource>::empty(),
            r.wf(),
    {
        GoldenMines { mines: HashMap::new() }
    }

    /// Whether `who` has a mine record.
    pub fn has_account(&self, who: AccountId) -> (r: bool)
        ensures
            r == self@.contains_key(who),
    {
        self.mines.contains_key(&who)
    }

    /// The mine record of `who`, if any.
    pub fn golden_mine(&self, who: AccountId) -> (r: Option<&Resource>)
        ensures
            match r {
                Some(v) => self@.contains_key(who) && *v == self@[who],
                None => !self@.contains_key(who),
            },
    {
        self.mines.get(&who)
    }

    /// Gives `who` the starting state and announces the new player.
    pub fn init(&mut self, who: AccountId, now: u64) -> (r: Result<Event, GameError>)
        requires
            old(self).wf(),
        ensures
            final(self).wf(),
            match spec_mines_init(old(self)@, who, now) {
                Ok(m) => r == Ok::<Event, GameError>(Event::PlayerCreated(who)) && final(self)@
                    == m,
                Err(e) => r == Err::<Event, GameError>(e) && final(self)@ == old(self)@,
            },
    {
        if self.mines.contains_key(&who) {
            return Err(GameError::AlreadyInitialized);
        }
        self.mines.insert(who, Resource::new(now));
        Ok(Event::PlayerCreated(who))
    }

    /// Buys the mine of `who` at `now`.
    pub fn buy_golden_mine(&mut self, who: AccountId, now: u64) -> (r: Result<(), GameError>)
        requires
            old(self).wf(),
        ensures
            final(self).wf(),
            match spec_mines_buy(old(self)@, who, now) {
                Ok(m) => r is Ok && final(self)@ == m,
                Err(e) => r == Err::<(), GameError>(e) && final(self)@ == old(self)@,
            },
    {
        let mut mine = match self.mines.get(&who) {
            Some(v) => *v,
            None => return Err(GameError::NoAccount),
        };
        mine.buy_golden_mine(now)?;
        self.mines.insert(who, mine);
        Ok(())
    }

    /// Levels up the mine of `who` at `now`.
    pub fn level_up(&mut self, who: AccountId, now: u64) -> (r: Result<(), GameError>)
        requires
            old(self).wf(),
        ensures
            final(self).wf(),
            match spec_mines_level_up(old(self)@, who, now) {
                Ok(m) => r is Ok && final(self)@ == m,
                Err(e) => r == Err::<(), GameError>(e) && final(self)@ == old(self)@,
            },
    {
        let mut mine = match self.mines.get(&who) {
            Some(v) => *v,
            None => return Err(GameError::NoAccount),
        };
        mine.level_up(now)?;
        self.mines.insert(who, mine);
        Ok(())
    }
}

/// An action on one account's mine.
pub enum MineAction {
    BuyGoldenMine,
    LevelUp,
}

/// The mine after `action` at `now`: the new state, or the old one when the
/// action is refused.
pub open spec fn spec_apply(s: Resource, action: MineAction, now: u64) -> Resource {
    let r = match action {
        MineAction::BuyGoldenMine => s.spec_buy(now),
        MineAction::LevelUp => s.spec_level_up(now),
    };
    match r {
        Ok(n) => n,
        Err(_) => s,
    }
}

/// The mine after each of `actions` in turn.
pub open spec fn spec_run(s: Resource, actions: Seq<(MineAction, u64)>) -> Resource
    decreases actions.len(),
{
    if actions.len() == 0 {
        s
    } else {
        spec_run(spec_apply(s, actions[0].0, actions[0].1), actions.drop_first())
    }
}

/// A second `init` of the same account fails with `AlreadyInitialized`.
pub proof fn lemma_mines_double_init(m: Map<AccountId, Resource>, who: AccountId, t1: u64, t2: u64)
    requires
        spec_mines_init(m, who, t1) is Ok,
    ensures
        spec_mines_init(spec_mines_init(m, who, t1)->Ok_0, who, t2) == Err::<
            Map<AccountId, Resource>,
            GameError,
        >(GameError::AlreadyInitialized),
{
}

/// A successful purchase or level-up leaves exactly the compared balance
/// minus the price, and the price is never negative.
pub proof fn lemma_mine_conservation(s: Resource, now: u64)
    ensures
        s.spec_buy(now) is Ok ==> s.spec_buy(now)->Ok_0.resource_amount == s.resource_amount
            - BUILDING_PRICE,
        s.spec_level_up(now) is Ok ==> s.spec_level_up(now)->Ok_0.resource_amount
            == s.spec_balance_at(now) - s.spec_price(),
        s.spec_price() >= 0,
{
    crate::accrual::lemma_price_nonnegative(s.level as nat, s.rate as nat, s.accrual as nat);
}

/// A successful purchase or level-up of a well-formed mine yields a
/// well-formed mine one level higher.
pub proof fn lemma_mine_level_step(s: Resource, now: u64)
    requires
        s.wf(),
    ensures
        s.spec_buy(now) is Ok ==> s.spec_buy(now)->Ok_0.wf() && s.spec_buy(now)->Ok_0.level
            == s.level + 1,
        s.spec_level_up(now) is Ok ==> s.spec_level_up(now)->Ok_0.wf()
            && s.spec_level_up(now)->Ok_0.level == s.level + 1,
{
    if s.spec_level_up(now) is Ok {
        let price = s.spec_price();
        assert((s.level as int) * 100 <= price && (s.accrual as int) * 100 <= price)
            by (nonlinear_arith)
            requires
                price == (s.level as int) * (s.rate as int) * 100 * (s.accrual as int),
                s.rate >= 1,
                s.accrual >= 1,
                s.level >= 1,
        ;
    }
}

/// Over any sequence of actions on a well-formed mine the level never
/// decreases.
pub proof fn lemma_mine_level_monotonic(s: Resource, actions: Seq<(MineAction, u64)>)
    requires
        s.wf(),
    ensures
        spec_run(s, actions).level >= s.level,
    decreases actions.len(),
{
    if actions.len() > 0 {
        let n = spec_apply(s, actions[0].0, actions[0].1);
        lemma_mine_level_step(s, actions[0].1);
        lemma_mine_level_monotonic(n, actions.drop_first());
    }
}

/// An action on an existing mine whose compared balance is below the price
/// fails with `InsufficientFunds`: a purchase whatever else holds; a level-up
/// once the mine is active, the time is not stale and the balance fits.
pub proof fn lemma_mines_insufficient_funds(m: Map<AccountId, Resource>, who: AccountId, now: u64)
    requires
        m.contains_key(who),
    ensures
        m[who].resource_amount < BUILDING_PRICE ==> spec_mines_buy(m, who, now) == Err::<
            Map<AccountId, Resource>,
            GameError,
        >(GameError::InsufficientFunds),
        ({
            let s = m[who];
            s.level >= 1 && now >= s.time && s.spec_balance_at(now) <= u64::MAX
                && s.spec_balance_at(now) < s.spec_price()
        }) ==> spec_mines_level_up(m, who, now) == Err::<Map<AccountId, Resource>, GameError>(
            GameError::InsufficientFunds,
        ),
{
}

} // verus!
