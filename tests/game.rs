use gold_city::error::{Event, GameError};
use gold_city::game::{
    Cities, City, Resource, ResourceBuilding, ResourceType, Terrain, CITY_MINE_RATE, GRID_SIZE,
};

fn gold(c: &City) -> u64 {
    c.resources[0].resource_amount
}

fn building(level: u64, time: u64, accrual: u64) -> ResourceBuilding {
    ResourceBuilding {
        level,
        time,
        accrual,
        rate: CITY_MINE_RATE,
        resource_type: ResourceType::Gold,
        resource_amount: 0,
    }
}

fn city_with(cell: Terrain, amount: u64) -> City {
    let mut grid = Vec::new();
    for _ in 0..3 {
        grid.push(vec![Terrain::CleanTerrain; 3]);
    }
    grid[1][2] = cell;
    City { grid, resources: vec![Resource { resource_type: ResourceType::Gold, resource_amount: amount }] }
}

#[test]
fn defaults() {
    assert_eq!(Terrain::default(), Terrain::CleanTerrain);
    assert_eq!(ResourceType::default(), ResourceType::Gold);
}

#[test]
fn init_gives_clean_grid_and_gold() {
    let mut cs = Cities::new();
    assert_eq!(cs.init(5), Ok(Event::PlayerCreated(5)));
    let c = cs.city_of(5).unwrap();
    assert_eq!(c.grid.len(), GRID_SIZE);
    for line in &c.grid {
        assert_eq!(line.len(), GRID_SIZE);
        for t in line {
            assert_eq!(*t, Terrain::CleanTerrain);
        }
    }
    assert_eq!(c.resources, vec![Resource { resource_type: ResourceType::Gold, resource_amount: 100 }]);
}

#[test]
fn grid_scenario() {
    let mut cs = Cities::new();
    assert_eq!(cs.init_with_gold_veins(2, &vec![(1, 2)]), Ok(Event::PlayerCreated(2)));
    assert_eq!(cs.city_of(2).unwrap().grid[2][1], Terrain::GoldVein);
    assert_eq!(cs.build_gold_mine(2, 0, 0, 5), Err(GameError::InvalidTerrain));
    assert_eq!(gold(cs.city_of(2).unwrap()), 100);
    assert_eq!(cs.build_gold_mine(2, 1, 2, 5), Ok(()));
    let c = cs.city_of(2).unwrap();
    assert_eq!(gold(c), 0);
    assert_eq!(c.grid[2][1], Terrain::GoldMine(building(1, 5, 1)));
}

#[test]
fn double_init_keeps_city() {
    let mut cs = Cities::new();
    cs.init_with_gold_veins(1, &vec![(0, 0)]).unwrap();
    cs.build_gold_mine(1, 0, 0, 3).unwrap();
    assert_eq!(cs.init(1), Err(GameError::AlreadyInitialized));
    let c = cs.city_of(1).unwrap();
    assert_eq!(gold(c), 0);
    assert_eq!(c.grid[0][0], Terrain::GoldMine(building(1, 3, 1)));
}

#[test]
fn veins_outside_grid_are_ignored() {
    let mut cs = Cities::new();
    cs.init_with_gold_veins(1, &vec![(3, 0), (0, 7), (2, 2)]).unwrap();
    let c = cs.city_of(1).unwrap();
    assert_eq!(c.grid.len(), 3);
    assert_eq!(c.grid[2][2], Terrain::GoldVein);
    assert_eq!(c.grid[0][0], Terrain::CleanTerrain);
}

#[test]
fn city_missing_account() {
    let mut cs = Cities::new();
    assert!(!cs.has_account(1));
    assert_eq!(cs.build_gold_mine(1, 0, 0, 0), Err(GameError::NoAccount));
    assert_eq!(cs.level_up_gold_mine(1, 0, 0, 0), Err(GameError::NoAccount));
    assert!(cs.city_of(1).is_none());
}

#[test]
fn build_needs_gold_before_terrain() {
    let mut cs = Cities::new();
    cs.init_with_gold_veins(1, &vec![(0, 0), (1, 1)]).unwrap();
    cs.build_gold_mine(1, 0, 0, 0).unwrap();
    assert_eq!(cs.build_gold_mine(1, 1, 1, 0), Err(GameError::InsufficientFunds));
    assert_eq!(cs.build_gold_mine(1, 2, 2, 0), Err(GameError::InsufficientFunds));
    assert_eq!(cs.city_of(1).unwrap().grid[1][1], Terrain::GoldVein);
}

#[test]
fn build_outside_grid() {
    let mut c = city_with(Terrain::GoldVein, 500);
    assert_eq!(c.build_gold_mine(3, 0, 0), Err(GameError::InvalidTerrain));
    assert_eq!(c.build_gold_mine(0, 3, 0), Err(GameError::InvalidTerrain));
    assert_eq!(gold(&c), 500);
}

#[test]
fn build_on_existing_mine() {
    let mut c = city_with(Terrain::GoldMine(building(2, 0, 2)), 500);
    assert_eq!(c.build_gold_mine(2, 1, 0), Err(GameError::InvalidTerrain));
    assert_eq!(c.grid[1][2], Terrain::GoldMine(building(2, 0, 2)));
}

#[test]
fn missing_gold_balance() {
    let mut c = city_with(Terrain::GoldVein, 0);
    c.resources.clear();
    assert_eq!(c.build_gold_mine(2, 1, 0), Err(GameError::ResourceNotFound));
    assert_eq!(c.level_up_gold_mine(2, 1, 0), Err(GameError::ResourceNotFound));
    assert_eq!(c.grid[1][2], Terrain::GoldVein);
}

#[test]
fn level_up_where_nothing_is_built() {
    let mut c = city_with(Terrain::GoldVein, 5000);
    assert_eq!(c.level_up_gold_mine(2, 1, 0), Err(GameError::NotYetBuilt));
    assert_eq!(c.level_up_gold_mine(0, 0, 0), Err(GameError::NotYetBuilt));
    assert_eq!(c.level_up_gold_mine(9, 9, 0), Err(GameError::NotYetBuilt));
    let mut z = city_with(Terrain::GoldMine(building(0, 0, 0)), 5000);
    assert_eq!(z.level_up_gold_mine(2, 1, 0), Err(GameError::NotYetBuilt));
    assert_eq!(gold(&c), 5000);
}

#[test]
fn level_up_pays_from_stored_gold() {
    // price is 1 * 10 * 100 * 1 = 1000, compared with the stored 1500 as is.
    let mut c = city_with(Terrain::GoldMine(building(1, 0, 1)), 1500);
    assert_eq!(c.level_up_gold_mine(2, 1, 1_000_000), Ok(()));
    assert_eq!(gold(&c), 500);
    assert_eq!(c.grid[1][2], Terrain::GoldMine(building(2, 1_000_000, 2)));
    // next price is 2 * 10 * 100 * 2 = 4000.
    assert_eq!(c.level_up_gold_mine(2, 1, 2_000_000), Err(GameError::InsufficientFunds));
    assert_eq!(gold(&c), 500);
    assert_eq!(c.grid[1][2], Terrain::GoldMine(building(2, 1_000_000, 2)));
}

#[test]
fn fresh_mine_cannot_afford_level_up() {
    let mut cs = Cities::new();
    cs.init_with_gold_veins(1, &vec![(1, 0)]).unwrap();
    cs.build_gold_mine(1, 1, 0, 0).unwrap();
    assert_eq!(cs.level_up_gold_mine(1, 1, 0, 100), Err(GameError::InsufficientFunds));
    assert_eq!(cs.city_of(1).unwrap().grid[0][1], Terrain::GoldMine(building(1, 0, 1)));
}

#[test]
fn city_stale_time() {
    let mut c = city_with(Terrain::GoldMine(building(1, 50, 1)), 5000);
    assert_eq!(c.level_up_gold_mine(2, 1, 49), Err(GameError::StaleTimestamp));
    assert_eq!(c.level_up_gold_mine(2, 1, 50), Ok(()));
    assert_eq!(gold(&c), 4000);
}
