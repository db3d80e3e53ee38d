//! The grid variant: each account owns a 3×3 city. Gold mines are built on
//! gold veins and levelled up with the city's gold balance.
use std::collections::HashMap;
use vstd::prelude::*;

use crate::accrual::{level_price, next_level_price, BUILDING_PRICE, STARTING_GOLD};
use crate::error::{AccountId, Event, GameError};

verus! {

broadcast use vstd::std_specs::hash::group_hash_axioms;

/// The side length of every city grid.
pub const GRID_SIZE: usize = 3;

/// Time units per accrual period of a mine built in a city.
pub const CITY_MINE_RATE: u32 = 10;

/// The kinds of fungible resource.
#[derive(Clone, Copy, Debug, PartialEq, Eq, Structural)]
pub enum ResourceType {
    Gold,
}

impl Default for ResourceType {
    fn default() -> (r: ResourceType)
        ensures
            r == ResourceType::Gold,
    {
        ResourceType::Gold
    }
}

/// A production building. `level == 0` means not bought; an active one
/// produces `accrual` units of `resource_type` every `rate` time units.
#[derive(Clone, Copy, Debug, PartialEq, Eq, Structural)]
pub struct ResourceBuilding {
    pub level: u64,
    pub time: u64,
    pub accrual: u64,
    pub rate: u32,
    pub resource_type: ResourceType,
    pub resource_amount: u64,
}

impl ResourceBuilding {
    /// An active building produces: its period and its yield are positive.
    pub open spec fn wf(&self) -> bool {
        self.level >= 1 ==> self.rate >= 1 && self.accrual >= 1
    }
}

/// One cell of a city grid. Only a gold vein may become a gold mine, and a
/// mine stays one.
#[derive(Clone, Copy, Debug, PartialEq, Eq, Structural)]
pub enum Terrain {
    CleanTerrain,
    GoldVein,
    GoldMine(ResourceBuilding),
}

impl Default for Terrain {
    fn default() -> (r: Terrain)
        ensures
            r == Terrain::CleanTerrain,
    {
        Terrain::CleanTerrain
    }
}

impl Terrain {
    pub open spec fn wf(&self) -> bool {
        match self {
            Terrain::GoldMine(b) => b.wf(),
            _ => true,
        }
    }
}

/// A balance of one resource kind.
#[derive(Clone, Copy, Debug, PartialEq, Eq, Structural)]
pub struct Resource {
    pub resource_type: ResourceType,
    pub resource_amount: u64,
}

/// A player's city: `grid[column][row]`, and its resource balances.
#[derive(Debug)]
pub struct City {
    pub grid: Vec<Vec<Terrain>>,
    pub resources: Vec<Resource>,
}

/// What a city holds, as sequences.
pub struct CityView {
    pub grid: Seq<Seq<Terrain>>,
    pub resources: Seq<Resource>,
}

impl View for City {
    type V = CityView;

    open spec fn view(&self) -> CityView {
        CityView { grid: self.grid@.map_values(|r: Vec<Terrain>| r@), resources: self.resources@ }
    }
}

/// `i` is the first position of a gold balance in `res`.
pub open spec fn is_first_gold(res: Seq<Resource>, i: int) -> bool {
    &&& 0 <= i < res.len()
    &&& res[i].resource_type == ResourceType::Gold
    &&& forall|j: int| 0 <= j < i ==> res[j].resource_type != ResourceType::Gold
}

/// The position of the gold balance in `res`, if there is one.
pub open spec fn gold_slot(res: Seq<Resource>) -> Option<int> {
    if exists|i: int| is_first_gold(res, i) {
        Some(choose|i: int| is_first_gold(res, i))
    } else {
        None
    }
}

/// The cell at (`row`, `column`), if it lies in the grid.
pub open spec fn cell(c: CityView, row: int, column: int) -> Option<Terrain> {
    if 0 <= column < c.grid.len() && 0 <= row < c.grid[column].len() {
        Some(c.grid[column][row])
    } else {
        None
    }
}

/// The city with the cell at (`row`, `column`) replaced by `t`.
pub open spec fn with_cell(c: CityView, row: int, column: int, t: Terrain) -> Seq<Seq<Terrain>> {
    c.grid.update(column, c.grid[column].update(row, t))
}

/// The balances with the gold at `g` set to `amount`.
pub open spec fn with_gold(c: CityView, g: int, amount: int) -> Seq<Resource> {
    c.resources.update(g, Resource { resource_type: ResourceType::Gold, resource_amount: amount as u64 })
}

/// Whether the starting city places a vein at (`row`, `column`).
pub open spec fn is_vein_at(veins: Seq<(u32, u32)>, row: int, column: int) -> bool {
    exists|k: int| 0 <= k < veins.len() && veins[k].0 == row && veins[k].1 == column
}

/// A starting cell: a vein where one is listed, clean terrain elsewhere.
pub open spec fn starting_cell(veins: Seq<(u32, u32)>, row: int, column: int) -> Terrain {
    if is_vein_at(veins, row, column) {
        Terrain::GoldVein
    } else {
        Terrain::CleanTerrain
    }
}

/// A new city: the listed veins on clean terrain, and `STARTING_GOLD` gold.
pub open spec fn spec_starting_city(veins: Seq<(u32, u32)>) -> CityView {
    CityView {
        grid: Seq::new(
            GRID_SIZE as nat,
            |column: int| Seq::new(GRID_SIZE as nat, |row: int| starting_cell(veins, row, column)),
        ),
        resources: seq![Resource { resource_type: ResourceType::Gold, resource_amount: STARTING_GOLD }],
    }
}

/// The mine that `build_gold_mine` places at time `now`.
pub open spec fn spec_new_mine(now: u64) -> ResourceBuilding {
    ResourceBuilding {
        level: 1,
        time: now,
        accrual: 1,
        rate: CITY_MINE_RATE,
        resource_type: ResourceType::Gold,
        resource_amount: 0,
    }
}

/// Building a mine: needs a gold balance of at least `BUILDING_PRICE`, then a
/// gold vein at the target.
pub open spec fn spec_build(c: CityView, row: u32, column: u32, now: u64) -> Result<
    CityView,
    GameError,
> {
    match gold_slot(c.resources) {
        None => Err(GameError::ResourceNotFound),
        Some(g) => if c.resources[g].resource_amount < BUILDING_PRICE {
            Err(GameError::InsufficientFunds)
        } else if cell(c, row as int, column as int) != Some(Terrain::GoldVein) {
            Err(GameError::InvalidTerrain)
        } else {
            Ok(
                CityView {
                    grid: with_cell(c, row as int, column as int, Terrain::GoldMine(spec_new_mine(now))),
                    resources: with_gold(c, g, c.resources[g].resource_amount - BUILDING_PRICE),
                },
            )
        },
    }
}

/// Levelling up the mine at the target: the price is compared with the stored
/// gold balance as it is, without accrual.
pub open spec fn spec_level_up(c: CityView, row: u32, column: u32, now: u64) -> Result<
    CityView,
    GameError,
> {
    match gold_slot(c.resources) {
        None => Err(GameError::ResourceNotFound),
        Some(g) => match cell(c, row as int, column as int) {
            Some(Terrain::GoldMine(b)) => {
                let price = level_price(b.level as int, b.rate as int, b.accrual as int);
                if b.level == 0 {
                    Err(GameError::NotYetBuilt)
                } else if now < b.time {
                    Err(GameError::StaleTimestamp)
                } else if c.resources[g].resource_amount < price {
                    Err(GameError::InsufficientFunds)
                } else {
                    let nb = ResourceBuilding {
                        level: (b.level + 1) as u64,
                        time: now,
                        accrual: (b.accrual + 1) as u64,
                        ..b
                    };
                    Ok(
                        CityView {
                            grid: with_cell(c, row as int, column as int, Terrain::GoldMine(nb)),
                            resources: with_gold(c, g, c.resources[g].resource_amount - price),
                        },
                    )
                }
            },
            _ => Err(GameError::NotYetBuilt),
        },
    }
}

impl CityView {
    /// A 3×3 grid whose mines are well formed.
    pub open spec fn wf(self) -> bool {
        &&& self.grid.len() == GRID_SIZE
        &&& forall|i: int| 0 <= i < GRID_SIZE ==> #[trigger] self.grid[i].len() == GRID_SIZE
        &&& forall|i: int, j: int|
            0 <= i < GRID_SIZE && 0 <= j < GRID_SIZE ==> (#[trigger] self.grid[i][j]).wf()
    }
}

/// Finds the first gold balance.
fn find_gold(resources: &Vec<Resource>) -> (r: Option<usize>)
    ensures
        match gold_slot(resources@) {
            Some(g) => r == Some(g as usize),
            None => r is None,
        },
{
    let mut i: usize = 0;
    while i < resources.len()
        invariant
            i <= resources.len(),
            forall|j: int| 0 <= j < i ==> resources@[j].resource_type != ResourceType::Gold,
        decreases resources.len() - i,
    {
        if resources[i].resource_type == ResourceType::Gold {
            assert(is_first_gold(resources@, i as int));
            assert forall|k: int| is_first_gold(resources@, k) implies k == i by {
                if k < i {
                    assert(resources@[k].resource_type != ResourceType::Gold);
                } else if k > i {
                    assert(resources@[i as int].resource_type != ResourceType::Gold);
                }
            }
            return Some(i);
        }
        i = i + 1;
    }
    None
}

/// Whether `veins` lists (`row`, `column`).
fn lists_vein(veins: &Vec<(u32, u32)>, row: u32, column: u32) -> (r: bool)
    ensures
        r == is_vein_at(veins@, row as int, column as int),
{
    let mut k: usize = 0;
    while k < veins.len()
        invariant
            k <= veins.len(),
            forall|j: int| 0 <= j < k ==> !(veins@[j].0 == row && veins@[j].1 == column),
        decreases veins.len() - k,
    {
        if veins[k].0 == row && veins[k].1 == column {
            return true;
        }
        k = k + 1;
    }
    false
}

impl City {
    pub open spec fn wf(&self) -> bool {
        self@.wf()
    }

    /// A new city with gold veins at the listed (`row`, `column`) cells;
    /// cells outside the grid are ignored.
    pub fn with_gold_veins(veins: &Vec<(u32, u32)>) -> (r: City)
        ensures
            r@ == spec_starting_city(veins@),
            r.wf(),
    {
        let ghost want = spec_starting_city(veins@);
        let mut grid: Vec<Vec<Terrain>> = Vec::new();
        let mut column: usize = 0;
        while column < GRID_SIZE
            invariant
                want == spec_starting_city(veins@),
                column <= GRID_SIZE,
                grid.len() == column,
                forall|i: int| 0 <= i < column ==> #[trigger] grid@[i]@ == want.grid[i],
            decreases GRID_SIZE - column,
        {
            let mut line: Vec<Terrain> = Vec::new();
            let mut row: usize = 0;
            while row < GRID_SIZE
                invariant
                    want == spec_starting_city(veins@),
                    column < GRID_SIZE,
                    row <= GRID_SIZE,
                    line.len() == row,
                    forall|j: int|
                        0 <= j < row ==> #[trigger] line@[j] == starting_cell(
                            veins@,
                            j,
                            column as int,
                        ),
                decreases GRID_SIZE - row,
            {
                if lists_vein(veins, row as u32, column as u32) {
                    line.push(Terrain::GoldVein);
                } else {
                    line.push(Terrain::CleanTerrain);
                }
                row = row + 1;
            }
            assert(line@ =~= want.grid[column as int]);
            grid.push(line);
            column = column + 1;
        }
        let mut resources: Vec<Resource> = Vec::new();
        resources.push(Resource { resource_type: ResourceType::Gold, resource_amount: STARTING_GOLD });
        let city = City { grid, resources };
        assert(city@.grid =~= want.grid);
        assert(city@.resources =~= want.resources);
        city
    }

    /// Builds a gold mine at (`row`, `column`) at time `now`; on error
    /// nothing changes.
    pub fn build_gold_mine(&mut self, row: u32, column: u32, now: u64) -> (r: Result<(), GameError>)
        requires
            old(self).wf(),
        ensures
            final(self).wf(),
            match spec_build(old(self)@, row, column, now) {
                Ok(n) => r is Ok && final(self)@ == n,
                Err(e) => r == Err::<(), GameError>(e) && final(self)@ == old(self)@,
            },
    {
        let g = match find_gold(&self.resources) {
            Some(g) => g,
            None => return Err(GameError::ResourceNotFound),
        };
        let amount = self.resources[g].resource_amount;
        if amount < BUILDING_PRICE {
            return Err(GameError::InsufficientFunds);
        }
        let c = column as usize;
        let r = row as usize;
        if c >= self.grid.len() || r >= self.grid[c].len() {
            return Err(GameError::InvalidTerrain);
        }
        if self.grid[c][r] != Terrain::GoldVein {
            return Err(GameError::InvalidTerrain);
        }
        let ghost before = self@;
        let mine = ResourceBuilding {
            level: 1,
            time: now,
            accrual: 1,
            rate: CITY_MINE_RATE,
            resource_type: ResourceType::Gold,
            resource_amount: 0,
        };
        self.grid[c][r] = Terrain::GoldMine(mine);
        self.resources[g] = Resource {
            resource_type: ResourceType::Gold,
            resource_amount: amount - BUILDING_PRICE,
        };
        proof {
            let want = spec_build(before, row, column, now)->Ok_0;
            assert(self@.grid =~= want.grid);
            assert(self@.resources =~= want.resources);
        }
        Ok(())
    }

    /// Levels up the gold mine at (`row`, `column`) at time `now`, paying
    /// from the stored gold balance; on error nothing changes.
    pub fn level_up_gold_mine(&mut self, row: u32, column: u32, now: u64) -> (r: Result<
        (),
        GameError,
    >)
        requires
            old(self).wf(),
        ensures
            final(self).wf(),
            match spec_level_up(old(self)@, row, column, now) {
                Ok(n) => r is Ok && final(self)@ == n,
                Err(e) => r == Err::<(), GameError>(e) && final(self)@ == old(self)@,
            },
    {
        let g = match find_gold(&self.resources) {
            Some(g) => g,
            None => return Err(GameError::ResourceNotFound),
        };
        let c = column as usize;
        let r = row as usize;
        if c >= self.grid.len() || r >= self.grid[c].len() {
            return Err(GameError::NotYetBuilt);
        }
        let b = match self.grid[c][r] {
            Terrain::GoldMine(b) => b,
            _ => return Err(GameError::NotYetBuilt),
        };
        if b.level == 0 {
            return Err(GameError::NotYetBuilt);
        }
        if now < b.time {
            return Err(GameError::StaleTimestamp);
        }
        let amount = self.resources[g].resource_amount;
        let price = match next_level_price(b.level, b.rate, b.accrual) {
            Some(p) => p,
            None => return Err(GameError::InsufficientFunds),
        };
        if amount < price {
            return Err(GameError::InsufficientFunds);
        }
        assert(self.grid@[c as int]@[r as int].wf());
        assert((b.level as int) * 100 <= price) by (nonlinear_arith)
            requires
                price == (b.level as int) * (b.rate as int) * 100 * (b.accrual as int),
                b.rate >= 1,
                b.accrual >= 1,
        ;
        assert((b.accrual as int) * 100 <= price) by (nonlinear_arith)
            requires
                price == (b.level as int) * (b.rate as int) * 100 * (b.accrual as int),
                b.rate >= 1,
                b.level >= 1,
        ;
        let ghost before = self@;
        let nb = ResourceBuilding { level: b.level + 1, time: now, accrual: b.accrual + 1, ..b };
        self.grid[c][r] = Terrain::GoldMine(nb);
        self.resources[g] = Resource {
            resource_type: ResourceType::Gold,
            resource_amount: amount - price,
        };
        proof {
            let want = spec_level_up(before, row, column, now)->Ok_0;
            assert(self@.grid =~= want.grid);
            assert(self@.resources =~= want.resources);
        }
        Ok(())
    }
}

/// The ledger of cities, one per account.
pub struct Cities {
    cities: HashMap<AccountId, City>,
}

impl View for Cities {
    type V = Map<AccountId, CityView>;

    closed spec fn view(&self) -> Map<AccountId, CityView> {
        self.cities@.map_values(|c: City| c@)
    }
}

/// `init_with_gold_veins` on a ledger of cities.
pub open spec fn spec_cities_init(
    m: Map<AccountId, CityView>,
    who: AccountId,
    veins: Seq<(u32, u32)>,
) -> Result<Map<AccountId, CityView>, GameError> {
    if m.contains_key(who) {
        Err(GameError::AlreadyInitialized)
    } else {
        Ok(m.insert(who, spec_starting_city(veins)))
    }
}

/// `build_gold_mine` on a ledger of cities.
pub open spec fn spec_cities_build(
    m: Map<AccountId, CityView>,
    who: AccountId,
    row: u32,
    column: u32,
    now: u64,
) -> Result<Map<AccountId, CityView>, GameError> {
    if !m.contains_key(who) {
        Err(GameError::NoAccount)
    } else {
        match spec_build(m[who], row, column, now) {
            Ok(n) => Ok(m.insert(who, n)),
            Err(e) => Err(e),
        }
    }
}

/// `level_up_gold_mine` on a ledger of cities.
pub open spec fn spec_cities_level_up(
    m: Map<AccountId, CityView>,
    who: AccountId,
    row: u32,
    column: u32,
    now: u64,
) -> Result<Map<AccountId, CityView>, GameError> {
    if !m.contains_key(who) {
        Err(GameError::NoAccount)
    } else {
        match spec_level_up(m[who], row, column, now) {
            Ok(n) => Ok(m.insert(who, n)),
            Err(e) => Err(e),
        }
    }
}

impl Cities {
    /// Every stored city is well formed.
    pub open spec fn wf(&self) -> bool {
        forall|k: AccountId| #[trigger] self@.contains_key(k) ==> self@[k].wf()
    }

    /// An empty ledger.
    pub fn new() -> (r: Cities)
        ensures
            r@ == Map::<AccountId, CityView>::empty(),
            r.wf(),
    {
        let r = Cities { cities: HashMap::new() };
        assert(r@ =~= Map::<AccountId, CityView>::empty());
        r
    }

    /// Whether `who` has a city.
    pub fn has_account(&self, who: AccountId) -> (r: bool)
        ensures
            r == self@.contains_key(who),
    {
        self.cities.contains_key(&who)
    }

    /// The city of `who`, if any.
    pub fn city_of(&self, who: AccountId) -> (r: Option<&City>)
        ensures
            match r {
                Some(c) => self@.contains_key(who) && c@ == self@[who],
                None => !self@.contains_key(who),
            },
    {
        self.cities.get(&who)
    }

    /// Gives `who` a new city whose grid is clean terrain, and announces the
    /// new player.
    pub fn init(&mut self, who: AccountId) -> (r: Result<Event, GameError>)
        requires
            old(self).wf(),
        ensures
            final(self).wf(),
            match spec_cities_init(old(self)@, who, seq![]) {
                Ok(m) => r == Ok::<Event, GameError>(Event::PlayerCreated(who)) && final(self)@
                    == m,
                Err(e) => r == Err::<Event, GameError>(e) && final(self)@ == old(self)@,
            },
    {
        let veins: Vec<(u32, u32)> = Vec::new();
        assert(veins@ =~= seq![]);
        self.init_with_gold_veins(who, &veins)
    }

    /// Gives `who` a new city with gold veins at the listed (`row`, `column`)
    /// cells, and announces the new player.
    pub fn init_with_gold_veins(&mut self, who: AccountId, veins: &Vec<(u32, u32)>) -> (r: Result<
        Event,
        GameError,
    >)
        requires
            old(self).wf(),
        ensures
            final(self).wf(),
            match spec_cities_init(old(self)@, who, veins@) {
                Ok(m) => r == Ok::<Event, GameError>(Event::PlayerCreated(who)) && final(self)@
                    == m,
                Err(e) => r == Err::<Event, GameError>(e) && final(self)@ == old(self)@,
            },
    {
        if self.cities.contains_key(&who) {
            return Err(GameError::AlreadyInitialized);
        }
        let ghost before = self@;
        let city = City::with_gold_veins(veins);
        self.cities.insert(who, city);
        assert(self@ =~= before.insert(who, spec_starting_city(veins@)));
        Ok(Event::PlayerCreated(who))
    }

    /// Builds a gold mine in the city of `who`.
    pub fn build_gold_mine(&mut self, who: AccountId, row: u32, column: u32, now: u64) -> (r:
        Result<(), GameError>)
        requires
            old(self).wf(),
        ensures
            final(self).wf(),
            match spec_cities_build(old(self)@, who, row, column, now) {
                Ok(m) => r is Ok && final(self)@ == m,
                Err(e) => r == Err::<(), GameError>(e) && final(self)@ == old(self)@,
            },
    {
        let ghost before = self@;
        let mut city = match self.cities.remove(&who) {
            Some(c) => c,
            None => {
                assert(self@ =~= before);
                return Err(GameError::NoAccount);
            },
        };
        assert(city@ == before[who]);
        let r = city.build_gold_mine(row, column, now);
        let ghost after = city@;
        self.cities.insert(who, city);
        assert(self@ =~= before.insert(who, after));
        if r.is_ok() {
            r
        } else {
            assert(before.insert(who, after) =~= before);
            r
        }
    }

    /// Levels up the gold mine at (`row`, `column`) in the city of `who`.
    pub fn level_up_gold_mine(&mut self, who: AccountId, row: u32, column: u32, now: u64) -> (r:
        Result<(), GameError>)
        requires
            old(self).wf(),
        ensures
            final(self).wf(),
            match spec_cities_level_up(old(self)@, who, row, column, now) {
                Ok(m) => r is Ok && final(self)@ == m,
                Err(e) => r == Err::<(), GameError>(e) && final(self)@ == old(self)@,
            },
    {
        let ghost before = self@;
        let mut city = match self.cities.remove(&who) {
            Some(c) => c,
            None => {
                assert(self@ =~= before);
                return Err(GameError::NoAccount);
            },
        };
        assert(city@ == before[who]);
        let r = city.level_up_gold_mine(row, column, now);
        let ghost after = city@;
        self.cities.insert(who, city);
        assert(self@ =~= before.insert(who, after));
        if r.is_ok() {
            r
        } else {
            assert(before.insert(who, after) =~= before);
            r
        }
    }
}

/// The city's gold balance, or zero when it holds none.
pub open spec fn gold_balance(c: CityView) -> int {
    match gold_slot(c.resources) {
        Some(g) => c.resources[g].resource_amount as int,
        None => 0,
    }
}

/// The level of the building at (`row`, `column`); zero where there is none.
pub open spec fn cell_level(c: CityView, row: int, column: int) -> int {
    match cell(c, row, column) {
        Some(Terrain::GoldMine(b)) => b.level as int,
        _ => 0,
    }
}

/// The price of levelling up the building at (`row`, `column`).
pub open spec fn cell_price(c: CityView, row: int, column: int) -> int {
    match cell(c, row, column) {
        Some(Terrain::GoldMine(b)) => level_price(b.level as int, b.rate as int, b.accrual as int),
        _ => 0,
    }
}

/// An action on one cell of a city.
pub enum CityAction {
    BuildGoldMine,
    LevelUpGoldMine,
}

/// The city after `action` on (`row`, `column`) at `now`: the new city, or
/// the old one when the action is refused.
pub open spec fn spec_city_apply(
    c: CityView,
    action: CityAction,
    row: u32,
    column: u32,
    now: u64,
) -> CityView {
    let r = match action {
        CityAction::BuildGoldMine => spec_build(c, row, column, now),
        CityAction::LevelUpGoldMine => spec_level_up(c, row, column, now),
    };
    match r {
        Ok(n) => n,
        Err(_) => c,
    }
}

/// The city after each of `actions`, given as (action, row, column, time).
pub open spec fn spec_city_run(c: CityView, actions: Seq<(CityAction, u32, u32, u64)>) -> CityView
    decreases actions.len(),
{
    if actions.len() == 0 {
        c
    } else {
        let a = actions[0];
        spec_city_run(spec_city_apply(c, a.0, a.1, a.2, a.3), actions.drop_first())
    }
}

/// Writing a gold balance where the first one stood keeps it the first.
proof fn lemma_gold_slot_kept(c: CityView, g: int, amount: int)
    requires
        gold_slot(c.resources) == Some(g),
    ensures
        gold_slot(with_gold(c, g, amount)) == Some(g),
{
    let res = with_gold(c, g, amount);
    assert(is_first_gold(c.resources, g));
    assert(is_first_gold(res, g));
    assert forall|k: int| is_first_gold(res, k) implies k == g by {
        if k < g {
            assert(res[k] == c.resources[k]);
        }
    }
}

/// A successful build or level-up on a well-formed city yields a
/// well-formed city in which the targeted level has risen by exactly one and
/// every other cell is as it was.
pub proof fn lemma_city_level_step(c: CityView, action: CityAction, row: u32, column: u32, now: u64)
    requires
        c.wf(),
    ensures
        ({
            let r = match action {
                CityAction::BuildGoldMine => spec_build(c, row, column, now),
                CityAction::LevelUpGoldMine => spec_level_up(c, row, column, now),
            };
            r is Ok ==> {
                &&& r->Ok_0.wf()
                &&& cell_level(r->Ok_0, row as int, column as int) == cell_level(
                    c,
                    row as int,
                    column as int,
                ) + 1
                &&& forall|i: int, j: int|
                    !(i == row && j == column) ==> #[trigger] cell(r->Ok_0, i, j) == cell(c, i, j)
            }
        }),
{
    match cell(c, row as int, column as int) {
        Some(Terrain::GoldMine(b)) => {
            assert(c.grid[column as int][row as int].wf());
            let price = level_price(b.level as int, b.rate as int, b.accrual as int);
            if b.level >= 1 {
                assert((b.level as int) * 100 <= price && (b.accrual as int) * 100 <= price)
                    by (nonlinear_arith)
                    requires
                        price == (b.level as int) * (b.rate as int) * 100 * (b.accrual as int),
                        b.rate >= 1,
                        b.accrual >= 1,
                        b.level >= 1,
                ;
            }
        },
        _ => {},
    }
}

/// A second `init` of the same account fails with `AlreadyInitialized`.
pub proof fn lemma_cities_double_init(
    m: Map<AccountId, CityView>,
    who: AccountId,
    veins1: Seq<(u32, u32)>,
    veins2: Seq<(u32, u32)>,
)
    requires
        spec_cities_init(m, who, veins1) is Ok,
    ensures
        spec_cities_init(spec_cities_init(m, who, veins1)->Ok_0, who, veins2) == Err::<
            Map<AccountId, CityView>,
            GameError,
        >(GameError::AlreadyInitialized),
{
}

/// A successful build or level-up leaves exactly the gold balance minus the
/// price, and the price is never negative.
pub proof fn lemma_city_conservation(c: CityView, row: u32, column: u32, now: u64)
    ensures
        spec_build(c, row, column, now) is Ok ==> gold_balance(spec_build(c, row, column, now)->Ok_0)
            == gold_balance(c) - BUILDING_PRICE,
        spec_level_up(c, row, column, now) is Ok ==> gold_balance(
            spec_level_up(c, row, column, now)->Ok_0,
        ) == gold_balance(c) - cell_price(c, row as int, column as int),
        spec_level_up(c, row, column, now) is Ok ==> cell_price(c, row as int, column as int) >= 0,
{
    if let Some(g) = gold_slot(c.resources) {
        let amount = c.resources[g].resource_amount as int;
        lemma_gold_slot_kept(c, g, amount - BUILDING_PRICE);
        lemma_gold_slot_kept(c, g, amount - cell_price(c, row as int, column as int));
        if let Some(Terrain::GoldMine(b)) = cell(c, row as int, column as int) {
            crate::accrual::lemma_price_nonnegative(b.level as nat, b.rate as nat, b.accrual as nat);
        }
    }
}

/// Over any sequence of actions on a well-formed city no cell's level
/// decreases.
pub proof fn lemma_city_level_monotonic(
    c: CityView,
    actions: Seq<(CityAction, u32, u32, u64)>,
    row: int,
    column: int,
)
    requires
        c.wf(),
    ensures
        cell_level(spec_city_run(c, actions), row, column) >= cell_level(c, row, column),
    decreases actions.len(),
{
    if actions.len() > 0 {
        let a = actions[0];
        let n = spec_city_apply(c, a.0, a.1, a.2, a.3);
        lemma_city_level_step(c, a.0, a.1, a.2, a.3);
        if !(row == a.1 && column == a.2) {
            assert(cell(n, row, column) == cell(c, row, column));
        }
        lemma_city_level_monotonic(n, actions.drop_first(), row, column);
    }
}

/// An action whose compared balance is below the price fails with
/// `InsufficientFunds`: a build whatever the terrain; a level-up once the
/// targeted mine is active and the time is not stale.
pub proof fn lemma_cities_insufficient_funds(
    m: Map<AccountId, CityView>,
    who: AccountId,
    row: u32,
    column: u32,
    now: u64,
)
    requires
        m.contains_key(who),
        gold_slot(m[who].resources) is Some,
    ensures
        gold_balance(m[who]) < BUILDING_PRICE ==> spec_cities_build(m, who, row, column, now)
            == Err::<Map<AccountId, CityView>, GameError>(GameError::InsufficientFunds),
        (match cell(m[who], row as int, column as int) {
            Some(Terrain::GoldMine(b)) => b.level >= 1 && now >= b.time && gold_balance(m[who])
                < cell_price(m[who], row as int, column as int),
            _ => false,
        }) ==> spec_cities_level_up(m, who, row, column, now) == Err::<
            Map<AccountId, CityView>,
            GameError,
        >(GameError::InsufficientFunds),
{
}

} // verus!
