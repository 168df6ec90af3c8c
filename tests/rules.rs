use sandspiel::api::{Rng, SandApi};
use sandspiel::cell::{Cell, Species, Wind};
use sandspiel::species::{
    growth_gate, update_acid, update_cloner, update_dust, update_fire, update_gas, update_oil,
    update_rocket, update_sand, update_stone, update_wood,
};
use sandspiel::utils::{adjacency_left, adjacency_right, join_dy_dx, split_dy_dx};

fn cell(species: Species, ra: u8, rb: u8) -> Cell {
    Cell { species, ra, rb, clock: 0 }
}

fn live(api: &SandApi) -> usize {
    api.cells.iter().filter(|c| c.species != Species::Empty).count()
}

fn fill(api: &mut SandApi, species: Species) {
    for y in 0..api.height {
        for x in 0..api.width {
            api.place(x, y, cell(species, 0, 0));
        }
    }
}

#[test]
fn join_and_split_examples() {
    assert_eq!(join_dy_dx(1, 0), 7);
    assert_eq!(join_dy_dx(-1, -1), 0);
    assert_eq!(join_dy_dx(1, 1), 8);
    assert_eq!(split_dy_dx(7), (1, 0));
    assert_eq!(split_dy_dx(4), (0, 0));
}

#[test]
fn join_split_round_trip_all_nine() {
    for dx in -1..=1 {
        for dy in -1..=1 {
            let b = join_dy_dx(dx, dy);
            assert_eq!(b as i32, 3 * (dx + 1) + (dy + 1));
            assert_eq!(split_dy_dx(b), (dx, dy));
        }
    }
}

#[test]
fn quarter_turns() {
    assert_eq!(adjacency_right((1, 0)), (0, 1));
    assert_eq!(adjacency_right((0, 1)), (-1, 0));
    assert_eq!(adjacency_right((1, 1)), (-1, 1));
    assert_eq!(adjacency_left((1, 0)), (0, -1));
    assert_eq!(adjacency_left((0, 1)), (1, 0));
    assert_eq!(adjacency_left((1, -1)), (-1, -1));
    assert_eq!(adjacency_right((0, 0)), (0, 0));
    assert_eq!(adjacency_left((2, 0)), (0, 0));
    let ring = [(0, 1), (1, 1), (1, 0), (1, -1), (0, -1), (-1, -1), (-1, 0), (-1, 1)];
    for d in ring {
        assert_eq!(adjacency_left(adjacency_right(d)), d);
        assert_eq!(adjacency_right(adjacency_left(d)), d);
        let (r, l) = (adjacency_right(d), adjacency_left(d));
        assert_eq!(r.0 * d.0 + r.1 * d.1, 0);
        assert_eq!(l, (-r.0, -r.1));
    }
}

#[test]
fn species_codes_round_trip() {
    let all = [
        Species::Empty, Species::Wall, Species::Sand, Species::Water, Species::Stone,
        Species::Ice, Species::Gas, Species::Cloner, Species::Mite, Species::Wood,
        Species::Plant, Species::Fungus, Species::Seed, Species::Fire, Species::Lava,
        Species::Acid, Species::Dust, Species::Oil, Species::Rocket,
    ];
    for s in all {
        assert_eq!(Species::from_code(s.code()), Some(s));
    }
    assert_eq!(Species::Empty.code(), 0);
    assert_eq!(Species::Wall.code(), 1);
    assert_eq!(Species::Sand.code(), 2);
    assert_eq!(Species::Rocket.code(), 17);
    assert_eq!(Species::from_code(10), None);
    assert_eq!(Species::from_code(20), None);
    assert_eq!(Species::from_code(255), None);
}

#[test]
fn random_draws_stay_in_range() {
    let mut rng = Rng::new(12345);
    for n in [0, 1, 7, 100, 1000] {
        for _ in 0..200 {
            let r = rng.next_int(n);
            assert!(0 <= r && r <= n);
        }
    }
    let mut api = SandApi::new(3, 3, 0, 99);
    for _ in 0..200 {
        let d = api.rand_dir();
        assert!(d == -1 || d == 1);
        let d = api.rand_dir_2();
        assert!(d == -1 || d == 1);
        let (x, y) = api.rand_vec();
        assert!((x, y) != (0, 0) && x.abs() <= 1 && y.abs() <= 1);
        let (x, y) = api.rand_vec_8();
        assert!((x, y) != (0, 0) && x.abs() <= 1 && y.abs() <= 1);
        assert!(api.once_in(1));
    }
}

#[test]
fn reads_outside_the_grid_are_walls() {
    let mut api = SandApi::new(2, 2, 0, 1);
    fill(&mut api, Species::Sand);
    api.focus(0, 0);
    assert_eq!(api.get(-1, 0).species, Species::Wall);
    assert_eq!(api.get(0, -1).species, Species::Wall);
    assert_eq!(api.get(2, 0).species, Species::Wall);
    assert_eq!(api.get(1, 1).species, Species::Sand);
    assert_eq!(api.cell_at(5, 5).species, Species::Wall);
}

#[test]
fn writes_outside_the_grid_do_nothing() {
    let mut api = SandApi::new(2, 2, 0, 1);
    let before = api.cells.clone();
    api.focus(1, 1);
    api.set(1, 0, cell(Species::Sand, 0, 0));
    api.set(0, 2, cell(Species::Sand, 0, 0));
    api.set(-2, -2, cell(Species::Sand, 0, 0));
    assert_eq!(api.cells, before);
    api.set(-1, -1, cell(Species::Sand, 3, 4));
    assert_eq!(api.cell_at(0, 0), Cell { species: Species::Sand, ra: 3, rb: 4, clock: 1 });
}

#[test]
fn write_stamps_the_next_tick() {
    let mut api = SandApi::new(2, 2, 255, 1);
    api.set(0, 0, cell(Species::Water, 9, 8));
    assert_eq!(api.cell_at(0, 0).clock, 0);
    let mut api = SandApi::new(2, 2, 41, 1);
    api.set(1, 0, cell(Species::Water, 9, 8));
    assert_eq!(api.cell_at(1, 0), Cell { species: Species::Water, ra: 9, rb: 8, clock: 42 });
}

#[test]
fn sand_falls_into_vacancy_without_drawing() {
    for seed in 0..20u64 {
        let mut api = SandApi::new(3, 3, 0, seed);
        let sand = cell(Species::Sand, 7, 0);
        api.place(1, 0, sand);
        api.place(0, 1, cell(Species::Wall, 0, 0));
        api.place(2, 1, cell(Species::Wall, 0, 0));
        api.focus(1, 0);
        update_sand(sand, &mut api);
        assert_eq!(api.rng.state, seed);
        assert_eq!(api.cell_at(1, 1), Cell { clock: 1, ..sand });
        assert_eq!(api.cell_at(1, 0).species, Species::Empty);
    }
}

#[test]
fn sand_keeps_its_mass() {
    for seed in 0..40u64 {
        let mut api = SandApi::new(3, 3, 0, seed);
        let sand = cell(Species::Sand, 0, 0);
        api.place(1, 1, sand);
        api.place(1, 2, cell(Species::Stone, 0, 0));
        api.place(0, 2, cell(Species::Water, 0, 0));
        api.place(2, 2, cell(Species::Stone, 0, 0));
        api.focus(1, 1);
        let n = live(&api);
        update_sand(sand, &mut api);
        assert_eq!(live(&api), n);
    }
}

#[test]
fn sand_sinks_through_water() {
    let mut api = SandApi::new(3, 3, 0, 5);
    let sand = cell(Species::Sand, 0, 0);
    let water = cell(Species::Water, 3, 0);
    api.place(1, 1, sand);
    api.place(1, 2, water);
    api.place(0, 2, cell(Species::Stone, 0, 0));
    api.place(2, 2, cell(Species::Stone, 0, 0));
    api.focus(1, 1);
    update_sand(sand, &mut api);
    assert_eq!(api.cell_at(1, 2).species, Species::Sand);
    assert_eq!(api.cell_at(1, 1), Cell { clock: 1, ..water });
}

#[test]
fn sand_rests_on_the_floor() {
    let mut api = SandApi::new(1, 1, 0, 5);
    let sand = cell(Species::Sand, 4, 0);
    api.place(0, 0, sand);
    update_sand(sand, &mut api);
    assert_eq!(api.cell_at(0, 0), Cell { clock: 1, ..sand });
}

#[test]
fn fire_below_threshold_goes_out() {
    for ra in 0..5u8 {
        let mut api = SandApi::new(3, 3, 0, ra as u64);
        let fire = cell(Species::Fire, ra, 0);
        api.place(1, 1, fire);
        api.focus(1, 1);
        let n = live(&api);
        update_fire(fire, &mut api);
        assert_eq!(live(&api), n - 1);
        assert_eq!(api.cell_at(1, 1).species, Species::Empty);
        assert_eq!(api.fluid, Wind { dx: 0, dy: 150, pressure: 1, density: 120 });
    }
}

#[test]
fn fire_decays_by_one_or_three() {
    for seed in 0..20u64 {
        let mut api = SandApi::new(3, 3, 0, seed);
        fill(&mut api, Species::Stone);
        let fire = cell(Species::Fire, 100, 0);
        api.place(1, 1, fire);
        api.focus(1, 1);
        update_fire(fire, &mut api);
        let ra = api.cell_at(1, 1).ra;
        assert!(ra == 99 || ra == 97);
    }
}

#[test]
fn cloner_latches_a_neighbour() {
    let mut api = SandApi::new(3, 3, 0, 3);
    let cloner = cell(Species::Cloner, 0, 0);
    api.place(1, 1, cloner);
    api.place(2, 2, cell(Species::Water, 0, 0));
    api.focus(1, 1);
    update_cloner(cloner, &mut api);
    assert_eq!(api.cell_at(1, 1), Cell { species: Species::Cloner, ra: 200, rb: 3, clock: 1 });
}

#[test]
fn cloner_spawns_at_most_one() {
    let mut spawned = 0;
    for seed in 0..100u64 {
        let mut api = SandApi::new(3, 3, 60, seed);
        let cloner = cell(Species::Cloner, 200, Species::Sand.code());
        api.place(1, 1, cloner);
        api.focus(1, 1);
        let n = live(&api);
        update_cloner(cloner, &mut api);
        let m = live(&api);
        assert!(m == n || m == n + 1);
        if m == n + 1 {
            spawned += 1;
            let c = api.cells.iter().find(|c| c.species == Species::Sand).unwrap();
            assert!(80 <= c.ra && c.ra <= 110);
        }
    }
    assert!(spawned > 0);
}

#[test]
fn acid_corrodes_and_decays() {
    let mut api = SandApi::new(3, 5, 0, 8);
    for y in 0..5 {
        api.place(0, y, cell(Species::Wall, 0, 0));
        api.place(2, y, cell(Species::Wall, 0, 0));
        api.place(1, y, cell(Species::Stone, 0, 0));
    }
    let acid = cell(Species::Acid, 255, 0);
    api.place(1, 0, acid);
    api.focus(1, 0);
    update_acid(acid, &mut api);
    assert_eq!(api.cell_at(1, 0).species, Species::Empty);
    let a1 = api.cell_at(1, 1);
    assert_eq!((a1.species, a1.ra), (Species::Acid, 195));
    api.focus(1, 1);
    update_acid(a1, &mut api);
    let a2 = api.cell_at(1, 2);
    assert_eq!((a2.species, a2.ra), (Species::Acid, 135));
    api.focus(1, 2);
    update_acid(a2, &mut api);
    assert_eq!(api.cell_at(1, 2).species, Species::Empty);
    assert_eq!(api.cell_at(1, 3).species, Species::Empty);
    assert_eq!(live(&api), 10 + 1);
}

#[test]
fn acid_falls_into_vacancy() {
    let mut api = SandApi::new(1, 2, 0, 8);
    let acid = cell(Species::Acid, 90, 0);
    api.place(0, 0, acid);
    update_acid(acid, &mut api);
    assert_eq!(api.cell_at(0, 1), Cell { clock: 1, ..acid });
}

#[test]
fn acid_stays_when_fully_enclosed_by_acid() {
    let mut api = SandApi::new(3, 3, 0, 8);
    fill(&mut api, Species::Acid);
    let acid = cell(Species::Acid, 200, 0);
    api.place(1, 1, acid);
    api.focus(1, 1);
    update_acid(acid, &mut api);
    assert_eq!(api.cell_at(1, 1), Cell { clock: 1, ..acid });
}

#[test]
fn rocket_goes_through_its_stages_in_order() {
    let mut api = SandApi::new(3, 3, 0, 21);
    fill(&mut api, Species::Sand);
    api.place(1, 1, cell(Species::Rocket, 0, 0));
    api.focus(1, 1);

    update_rocket(api.cell_at(1, 1), &mut api);
    let c = api.cell_at(1, 1);
    assert_eq!((c.species, c.ra, c.rb), (Species::Rocket, 0, 100));

    update_rocket(c, &mut api);
    let c = api.cell_at(1, 1);
    assert_eq!((c.species, c.ra, c.rb), (Species::Rocket, 1, Species::Sand.code()));

    update_rocket(c, &mut api);
    let c = api.cell_at(1, 1);
    assert_eq!((c.species, c.ra, c.rb), (Species::Rocket, 2, Species::Sand.code()));

    update_rocket(c, &mut api);
    let c = api.cell_at(1, 1);
    assert_eq!(c.species, Species::Rocket);
    assert!(100 <= c.ra && c.ra <= 108 && c.ra != 104);

    update_rocket(c, &mut api);
    assert_eq!(api.cell_at(1, 1).species, Species::Empty);
}

#[test]
fn rocket_flies_and_leaves_a_trail() {
    let mut api = SandApi::new(3, 5, 0, 2);
    let heading = join_dy_dx(0, -1);
    let rocket = cell(Species::Rocket, 100 + heading, Species::Water.code());
    api.place(1, 4, rocket);
    api.focus(1, 4);
    update_rocket(rocket, &mut api);
    assert_eq!(api.cell_at(1, 4).species, Species::Water);
    assert_eq!(api.cell_at(1, 3).species, Species::Water);
    let moved = api.cells.iter().filter(|c| c.species == Species::Rocket).count();
    assert_eq!(moved, 1);
    assert_eq!(api.cell_at(1, 2).species, Species::Rocket);
}

#[test]
fn growth_gate_shape() {
    assert!(growth_gate(100, 100, 100, 165));
    assert!(!growth_gate(0, 0, 100, 165));
    assert!(growth_gate(100, 100, 60, 100));
    assert!(!growth_gate(0, 0, 60, 100));
    assert!(!growth_gate(50, 50, 100, 165));
    assert!(growth_gate(90, 90, 100, 165));
    assert!(!growth_gate(100, 65, 100, 165));
    assert!(growth_gate(100, 66, 100, 165));
}

#[test]
fn dust_bursts_under_pressure() {
    let mut api = SandApi::new(3, 3, 0, 2);
    let dust = cell(Species::Dust, 50, 0);
    api.place(1, 1, dust);
    api.focus(1, 1);
    api.fluid = Wind { dx: 0, dy: 0, pressure: 121, density: 0 };
    update_dust(dust, &mut api);
    assert_eq!(api.cell_at(1, 1), Cell { species: Species::Fire, ra: 155, rb: 0, clock: 1 });
    assert_eq!(api.fluid, Wind { dx: 0, dy: 0, pressure: 80, density: 5 });
}

#[test]
fn stone_held_by_lower_diagonals() {
    let mut api = SandApi::new(3, 3, 0, 2);
    let stone = cell(Species::Stone, 0, 0);
    api.place(0, 2, stone);
    api.place(2, 2, stone);
    api.place(1, 1, stone);
    api.focus(1, 1);
    api.fluid = Wind { dx: 0, dy: 0, pressure: 200, density: 0 };
    let before = api.cells.clone();
    update_stone(stone, &mut api);
    assert_eq!(api.cells, before);
}

#[test]
fn gas_parcel_splits_without_gaining_mass() {
    let mut api = SandApi::new(3, 3, 0, 4);
    let gas = cell(Species::Gas, 0, 5);
    api.place(1, 1, gas);
    api.focus(1, 1);
    update_gas(gas, &mut api);
    let total: u32 = api
        .cells
        .iter()
        .filter(|c| c.species == Species::Gas)
        .map(|c| c.rb as u32)
        .sum();
    assert_eq!(total, 5);
    assert_eq!(api.cell_at(1, 1).rb, 1);
}

#[test]
fn oil_and_wood_burn_out() {
    let mut api = SandApi::new(3, 3, 0, 4);
    let oil = cell(Species::Oil, 7, 1);
    api.place(1, 1, oil);
    api.focus(1, 1);
    update_oil(oil, &mut api);
    assert_eq!(api.cell_at(1, 1), Cell { species: Species::Empty, ra: 7, rb: 90, clock: 1 });

    let mut api = SandApi::new(3, 3, 0, 4);
    let wood = cell(Species::Wood, 9, 1);
    api.place(1, 1, wood);
    api.focus(1, 1);
    update_wood(wood, &mut api);
    assert_eq!(api.cell_at(1, 1), Cell { species: Species::Empty, ra: 9, rb: 90, clock: 1 });
}

#[test]
fn wood_catches_fire_from_lava() {
    let mut api = SandApi::new(3, 3, 0, 4);
    fill(&mut api, Species::Lava);
    let wood = cell(Species::Wood, 9, 0);
    api.place(1, 1, wood);
    api.focus(1, 1);
    update_wood(wood, &mut api);
    assert_eq!(api.cell_at(1, 1), Cell { species: Species::Wood, ra: 9, rb: 90, clock: 1 });
}

#[test]
fn dispatch_skips_vacancy_and_wall() {
    let mut api = SandApi::new(3, 3, 0, 4);
    let before = api.cells.clone();
    Species::Empty.update(cell(Species::Empty, 0, 0), &mut api);
    Species::Wall.update(cell(Species::Wall, 0, 0), &mut api);
    assert_eq!(api.cells, before);
    assert_eq!(api.rng.state, 4);
}

#[test]
fn every_rule_runs_on_a_busy_grid() {
    let kinds = [
        Species::Sand, Species::Water, Species::Stone, Species::Ice, Species::Gas,
        Species::Cloner, Species::Mite, Species::Wood, Species::Plant, Species::Fungus,
        Species::Seed, Species::Fire, Species::Lava, Species::Acid, Species::Dust,
        Species::Oil, Species::Rocket,
    ];
    let mut api = SandApi::new(8, 8, 7, 77);
    for y in 0..8 {
        for x in 0..8 {
            let k = kinds[((x * 3 + y * 5) % 17) as usize];
            api.place(x, y, cell(k, ((x * 37 + y * 11) % 256) as u8, ((x + y) % 5) as u8));
        }
    }
    for _ in 0..20 {
        for y in 0..8 {
            for x in 0..8 {
                api.focus(x, y);
                let c = api.cell_at(x, y);
                c.species.update(c, &mut api);
            }
        }
    }
    assert_eq!(api.cells.len(), 64);
}

#[test]
fn ice_melts_next_to_fire() {
    let mut api = SandApi::new(3, 3, 0, 6);
    fill(&mut api, Species::Fire);
    let ice = cell(Species::Ice, 33, 4);
    api.place(1, 1, ice);
    api.focus(1, 1);
    sandspiel::species::update_ice(ice, &mut api);
    assert_eq!(api.cell_at(1, 1), Cell { species: Species::Water, ra: 33, rb: 4, clock: 1 });
}

#[test]
fn ice_melts_under_pressure_on_half_the_draws() {
    let mut melted = 0;
    for seed in 0..60u64 {
        let mut api = SandApi::new(3, 3, 0, seed);
        let ice = cell(Species::Ice, 33, 4);
        api.place(1, 1, ice);
        api.focus(1, 1);
        api.fluid = Wind { dx: 0, dy: 0, pressure: 200, density: 0 };
        sandspiel::species::update_ice(ice, &mut api);
        let c = api.cell_at(1, 1);
        if c.species == Species::Water {
            assert_eq!((c.ra, c.rb), (33, 0));
            melted += 1;
        } else {
            assert_eq!(c, ice);
        }
    }
    assert!(melted > 0 && melted < 60);
}

#[test]
fn lava_sets_into_stone_next_to_water() {
    let mut api = SandApi::new(3, 3, 0, 6);
    fill(&mut api, Species::Water);
    let lava = cell(Species::Lava, 0, 0);
    api.place(1, 1, lava);
    api.focus(1, 1);
    sandspiel::species::update_lava(lava, &mut api);
    assert_eq!(api.cell_at(1, 1).species, Species::Stone);
    let water = api.cells.iter().filter(|c| c.species == Species::Water).count();
    assert_eq!(water, 7);
    assert_eq!(api.fluid, Wind { dx: 0, dy: 10, pressure: 0, density: 60 });
}

#[test]
fn lava_lights_gas() {
    let mut api = SandApi::new(3, 3, 0, 6);
    fill(&mut api, Species::Gas);
    let lava = cell(Species::Lava, 0, 0);
    api.place(1, 1, lava);
    api.focus(1, 1);
    sandspiel::species::update_lava(lava, &mut api);
    let fires = api.cells.iter().filter(|c| c.species == Species::Fire).count();
    assert_eq!(fires, 1);
    assert_eq!(api.cell_at(1, 1), Cell { clock: 1, ..lava });
}

#[test]
fn mite_dies_next_to_water() {
    let mut api = SandApi::new(3, 3, 0, 6);
    fill(&mut api, Species::Water);
    let mite = cell(Species::Mite, 1, 0);
    api.place(1, 1, mite);
    api.focus(1, 1);
    sandspiel::species::update_mite(mite, &mut api);
    assert_eq!(api.cell_at(1, 1).species, Species::Empty);
}

#[test]
fn seed_lands_on_sand() {
    let mut api = SandApi::new(3, 3, 0, 6);
    fill(&mut api, Species::Sand);
    let seed = cell(Species::Seed, 80, 0);
    api.place(1, 1, seed);
    api.focus(1, 1);
    sandspiel::species::update_seed(seed, &mut api);
    let c = api.cell_at(1, 1);
    assert_eq!((c.species, c.ra), (Species::Seed, 80));
    assert!(1 <= c.rb && c.rb <= 254);
}

#[test]
fn seed_burns_next_to_fire() {
    let mut api = SandApi::new(3, 3, 0, 6);
    fill(&mut api, Species::Fire);
    let seed = cell(Species::Seed, 80, 9);
    api.place(1, 1, seed);
    api.focus(1, 1);
    sandspiel::species::update_seed(seed, &mut api);
    assert_eq!(api.cell_at(1, 1), Cell { species: Species::Fire, ra: 5, rb: 0, clock: 1 });
}

#[test]
fn plant_and_fungus_burn_out() {
    let mut api = SandApi::new(3, 3, 0, 6);
    let plant = cell(Species::Plant, 0, 1);
    api.place(1, 1, plant);
    api.focus(1, 1);
    sandspiel::species::update_plant(plant, &mut api);
    assert_eq!(api.cell_at(1, 1).species, Species::Empty);

    let mut api = SandApi::new(3, 3, 0, 6);
    let fungus = cell(Species::Fungus, 0, 1);
    api.place(1, 1, fungus);
    api.focus(1, 1);
    sandspiel::species::update_fungus(fungus, &mut api);
    assert_eq!(api.cell_at(1, 1).species, Species::Empty);
}

#[test]
fn water_scoots_two_cells_along_its_parity() {
    let mut api = SandApi::new(5, 2, 0, 6);
    for x in 0..5 {
        api.place(x, 1, cell(Species::Stone, 0, 0));
    }
    let water = cell(Species::Water, 2, 0);
    api.place(2, 0, water);
    api.focus(2, 0);
    sandspiel::species::update_water(water, &mut api);
    assert_eq!(api.cell_at(4, 0), Cell { species: Species::Water, ra: 2, rb: 6, clock: 1 });
    assert_eq!(api.cell_at(2, 0).species, Species::Empty);
}

#[test]
fn walls_are_never_overwritten() {
    let mut api = SandApi::new(3, 3, 0, 6);
    api.place(1, 2, cell(Species::Wall, 0, 0));
    api.focus(1, 1);
    api.set(0, 1, cell(Species::Sand, 0, 0));
    assert_eq!(api.cell_at(1, 2), cell(Species::Wall, 0, 0));
    let kinds = [Species::Plant, Species::Rocket, Species::Water, Species::Acid, Species::Fire];
    for seed in 0..30u64 {
        for k in kinds {
            let mut api = SandApi::new(3, 3, 0, seed);
            fill(&mut api, Species::Wall);
            api.place(1, 0, cell(Species::Water, 0, 0));
            let c = cell(k, 102, 30);
            api.place(1, 1, c);
            api.focus(1, 1);
            k.update(c, &mut api);
            for y in 0..3 {
                for x in 0..3 {
                    if (x, y) != (1, 1) && (x, y) != (1, 0) {
                        assert_eq!(api.cell_at(x, y).species, Species::Wall);
                    }
                }
            }
        }
    }
}

#[test]
fn rocket_heading_turns_back_from_an_occupied_neighbour() {
    for seed in 0..20u64 {
        let mut api = SandApi::new(3, 3, 0, seed);
        fill(&mut api, Species::Stone);
        let rocket = cell(Species::Rocket, 2, Species::Sand.code());
        api.place(1, 1, rocket);
        api.focus(1, 1);
        update_rocket(rocket, &mut api);
        let c = api.cell_at(1, 1);
        let (dx, dy) = split_dy_dx(c.ra - 100);
        assert!((dx, dy) != (0, 0) && dx.abs() <= 1 && dy.abs() <= 1);
    }
    let mut api = SandApi::new(3, 3, 0, 9);
    let rocket = cell(Species::Rocket, 2, Species::Sand.code());
    api.place(1, 1, rocket);
    api.place(1, 0, cell(Species::Stone, 0, 0));
    api.place(0, 0, cell(Species::Stone, 0, 0));
    api.place(2, 0, cell(Species::Stone, 0, 0));
    api.focus(1, 1);
    update_rocket(rocket, &mut api);
    let (_, dy) = split_dy_dx(api.cell_at(1, 1).ra - 100);
    assert!(dy >= 0);
}

#[test]
fn water_keeps_its_mass() {
    for seed in 0..40u64 {
        let mut api = SandApi::new(5, 3, 0, seed);
        api.place(2, 2, cell(Species::Stone, 0, 0));
        api.place(1, 2, cell(Species::Oil, 0, 0));
        api.place(3, 1, cell(Species::Water, 3, 0));
        let water = cell(Species::Water, (seed % 7) as u8, (seed % 3) as u8);
        api.place(2, 1, water);
        api.focus(2, 1);
        let n = live(&api);
        sandspiel::species::update_water(water, &mut api);
        assert_eq!(live(&api), n);
    }
}

#[test]
fn burning_oil_pushes_the_fluid_and_counts_down() {
    let mut api = SandApi::new(3, 3, 0, 4);
    fill(&mut api, Species::Stone);
    let oil = cell(Species::Oil, 7, 9);
    api.place(1, 1, oil);
    api.focus(1, 1);
    update_oil(oil, &mut api);
    assert_eq!(api.fluid, Wind { dx: 0, dy: 10, pressure: 10, density: 180 });
    assert_eq!(api.cell_at(1, 1), Cell { species: Species::Oil, ra: 7, rb: 8, clock: 1 });
}

#[test]
fn doused_plant_throws_no_fire() {
    for seed in 0..30u64 {
        let mut api = SandApi::new(3, 3, 0, seed);
        fill(&mut api, Species::Water);
        let plant = cell(Species::Plant, 90, 9);
        api.place(1, 1, plant);
        api.focus(1, 1);
        sandspiel::species::update_plant(plant, &mut api);
        assert_eq!(api.cell_at(1, 1), Cell { species: Species::Plant, ra: 50, rb: 0, clock: 1 });
        assert!(api.cells.iter().all(|c| c.species != Species::Fire));
    }
}
