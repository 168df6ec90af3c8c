//! The species catalogue: one update rule per material, and the dispatcher.
use vstd::prelude::*;
use crate::api::{SandApi, compass_at, stamped, live_count, lemma_live_after_set, rng_draw, rng_step};
use crate::cell::{Cell, Species, Wind, empty_cell};
use crate::utils::{adjacency_left, adjacency_right, join_dy_dx, split_dy_dx};

verus! {

broadcast use crate::api::lemma_cell_index_distinct, crate::api::lemma_offset_index_bounds;

/// The fluids that sinking granular matter trades places with.
pub open spec fn is_light_fluid(s: Species) -> bool {
    s == Species::Water || s == Species::Gas || s == Species::Oil || s == Species::Acid
}

/// The common contract of a rule's turn: the grid stays well formed, and
/// cells change only near the position and never where a wall stood.
pub open spec fn turn_ok(old: &SandApi, new: &SandApi) -> bool {
    &&& new.wf()
    &&& new.changed_near(old)
}

fn is_fluid_for_sinking(s: Species) -> (r: bool)
    ensures
        r == is_light_fluid(s),
{
    s == Species::Water || s == Species::Gas || s == Species::Oil || s == Species::Acid
}

/// The cells after a granular fall of `cell` with lateral bias `dx`.
pub open spec fn granular_cells(a: &SandApi, cell: Cell, dx: int) -> Seq<Cell> {
    let below = a.at(0, 1);
    let e = empty_cell();
    if below.species == Species::Empty {
        a.put(a.put(a.cells@, 0, 0, e), 0, 1, cell)
    } else if a.at(dx, 1).species == Species::Empty {
        a.put(a.put(a.cells@, 0, 0, e), dx, 1, cell)
    } else if is_light_fluid(below.species) {
        a.put(a.put(a.cells@, 0, 0, below), 0, 1, cell)
    } else {
        a.put(a.cells@, 0, 0, cell)
    }
}

/// Granular fall with lateral bias `dx`: straight down into a vacancy, else
/// diagonally down towards `dx`, else trade places with a light fluid below,
/// else stay.
fn fall_granular(cell: Cell, api: &mut SandApi, dx: i32)
    requires
        old(api).wf(),
        old(api).at(0, 0).species != Species::Wall,
        cell.species != Species::Wall,
        dx == -1 || dx == 1,
    ensures
        turn_ok(old(api), final(api)),
        final(api).rng == old(api).rng,
        final(api).fluid == old(api).fluid,
        final(api).cells@ == granular_cells(old(api), cell, dx as int),
        cell.species != Species::Empty && old(api).at(0, 0).species != Species::Empty
            ==> live_count(final(api).cells@) == live_count(old(api).cells@),
{
    let ghost a0 = *api;
    let nbr = api.get(0, 1);
    if nbr.species == Species::Empty {
        api.set(0, 0, Cell::empty());
        let ghost a1 = *api;
        api.set(0, 1, cell);
        proof {
            lemma_live_after_set(a0, 0, 0, empty_cell());
            lemma_live_after_set(a1, 0, 1, cell);
        }
    } else if api.get(dx, 1).species == Species::Empty {
        api.set(0, 0, Cell::empty());
        let ghost a1 = *api;
        api.set(dx, 1, cell);
        proof {
            lemma_live_after_set(a0, 0, 0, empty_cell());
            lemma_live_after_set(a1, dx as int, 1, cell);
        }
    } else if is_fluid_for_sinking(nbr.species) {
        api.set(0, 0, nbr);
        let ghost a1 = *api;
        api.set(0, 1, cell);
        proof {
            lemma_live_after_set(a0, 0, 0, nbr);
            lemma_live_after_set(a1, 0, 1, cell);
        }
    } else {
        api.set(0, 0, cell);
        proof {
            lemma_live_after_set(a0, 0, 0, cell);
        }
    }
}

/// What a turn of the sand rule guarantees, from the window `a` before it to
/// the window `f` after it, for the cell `cell` whose turn it is.
pub open spec fn sand_post(a: &SandApi, f: &SandApi, cell: Cell) -> bool {
    &&& turn_ok(a, f)
    &&& f.fluid == a.fluid
    &&& (a.at(0, 1).species == Species::Empty ==> {
        &&& f.rng == a.rng
        &&& f.cells@ == granular_cells(a, cell, 1)
    })
    &&& (({
        let dx: int = if rng_draw(a.rng.state, 1) == 0 { 1 } else { -1 };
        a.at(0, 1).species != Species::Empty ==> {
            &&& f.rng.state == rng_step(a.rng.state)
            &&& f.cells@ == granular_cells(a, cell, dx)
        }
    }))
    &&& (cell.species != Species::Empty && a.at(0, 0).species != Species::Empty
        ==> live_count(f.cells@) == live_count(a.cells@))
}

/// A write through `put` changes the live count of `s` by what it replaced
/// and what it wrote, and not at all outside the grid or onto a wall.
pub proof fn lemma_live_put(a: &SandApi, s: Seq<Cell>, dx: int, dy: int, v: Cell)
    requires
        a.wf(),
        s.len() == a.cells@.len(),
    ensures
        live_count(a.put(s, dx, dy, v)) == if a.offset_in(dx, dy) && cell_in(a, s, dx, dy).species
            != Species::Wall {
            live_count(s) - crate::api::live(cell_in(a, s, dx, dy)) + crate::api::live(v)
        } else {
            live_count(s)
        },
{
    if a.offset_in(dx, dy) && cell_in(a, s, dx, dy).species != Species::Wall {
        crate::api::lemma_live_count_update(s, a.offset_index(dx, dy), stamped(v, a.generation));
    }
}

/// A turn of water moves, swaps or rewrites matter but never creates or
/// destroys it: the number of non-empty cells stays the same.
pub proof fn lemma_water_keeps_mass(a: &SandApi, f: &SandApi, cell: Cell)
    requires
        a.wf(),
        water_post(a, f, cell),
        cell.species == Species::Water,
        a.at(0, 0).species == Species::Water,
    ensures
        live_count(f.cells@) == live_count(a.cells@),
{
    let s0 = a.cells@;
    let below = a.at(0, 1);
    let dx: int = if rng_draw(a.rng.state, 1) == 0 { -1 } else { 1 };
    let side = a.at(dx, 1);
    let st = rng_step(a.rng.state);
    let p: int = if cell.ra % 2 == 0 { 1 } else { -1 };
    let e = empty_cell();
    if below.species == Species::Empty || below.species == Species::Oil {
        let ra: u8 = if rng_draw(st, 19) == 0 { (100 + rng_draw(rng_step(st), 50)) as u8 } else { cell.ra };
        let s1 = a.put(s0, 0, 0, below);
        lemma_live_put(a, s0, 0, 0, below);
        lemma_live_put(a, s1, 0, 1, Cell { ra, ..cell });
    } else if side.species == Species::Empty || side.species == Species::Oil {
        let s1 = a.put(s0, 0, 0, side);
        lemma_live_put(a, s0, 0, 0, side);
        lemma_live_put(a, s1, dx, 1, cell);
    } else if a.at(-dx, 1).species == Species::Empty {
        let s1 = a.put(s0, 0, 0, e);
        lemma_live_put(a, s0, 0, 0, e);
        lemma_live_put(a, s1, -dx, 1, cell);
    } else {
        let near = a.at(p, 0);
        let far = a.at(2 * p, 0);
        if near.species == Species::Empty && far.species == Species::Empty {
            let s1 = a.put(s0, 0, 0, far);
            let s2 = a.put(s1, 2 * p, 0, Cell { rb: 6, ..cell });
            lemma_live_put(a, s0, 0, 0, far);
            lemma_live_put(a, s1, 2 * p, 0, Cell { rb: 6, ..cell });
            let d = compass_at(rng_draw(st, 7));
            lemma_live_put(a, s2, d.0, d.1, cell);
        } else if near.species == Species::Empty || near.species == Species::Oil {
            let s1 = a.put(s0, 0, 0, near);
            let s2 = a.put(s1, p, 0, Cell { rb: 3, ..cell });
            lemma_live_put(a, s0, 0, 0, near);
            lemma_live_put(a, s1, p, 0, Cell { rb: 3, ..cell });
            let d = compass_at(rng_draw(st, 7));
            lemma_live_put(a, s2, d.0, d.1, cell);
        } else if cell.rb == 0 {
            lemma_live_put(a, s0, 0, 0, Cell { ra: (cell.ra + p) as u8, ..cell });
        } else {
            lemma_live_put(a, s0, 0, 0, Cell { rb: (cell.rb - 1) as u8, ..cell });
        }
    }
}

/// Sand: falls straight into a vacancy below without drawing from the random
/// source; else falls diagonally to a random side, else sinks through a light
/// fluid, else stays. It never creates or destroys matter.
pub fn update_sand(cell: Cell, api: &mut SandApi)
    requires
        old(api).wf(),
        old(api).at(0, 0).species != Species::Wall,
        cell.species != Species::Wall,
    ensures
        sand_post(old(api), final(api), cell),
{
    if api.get(0, 1).species == Species::Empty {
        fall_granular(cell, api, 1);
        return;
    }
    let dx = api.rand_dir_2();
    fall_granular(cell, api, dx);
}

/// The fire that a pressure burst turns dust into.
pub open spec fn dust_flame(cell: Cell) -> Cell {
    Cell { species: Species::Fire, ra: (150 + cell.ra / 10) as u8, rb: 0, clock: 0 }
}

/// What a turn of the dust rule guarantees, from the window `a` before it to
/// the window `f` after it, for the cell `cell` whose turn it is.
pub open spec fn dust_post(a: &SandApi, f: &SandApi, cell: Cell) -> bool {
    &&& turn_ok(a, f)
    &&& (a.fluid.pressure > 120 ==> {
        &&& f.cells@ == a.put(a.cells@, 0, 0, dust_flame(cell))
        &&& f.fluid == (Wind { dx: 0, dy: 0, pressure: 80, density: 5 })
    })
    &&& (a.fluid.pressure <= 120 && a.at(0, 1).species == Species::Empty
        ==> f.cells@ == a.put(
        a.put(a.cells@, 0, 0, empty_cell()),
        0,
        1,
        cell,
    ))
    &&& (cell.species != Species::Empty && a.at(0, 0).species != Species::Empty
        ==> live_count(f.cells@) == live_count(a.cells@))
    &&& (({
        let dx: int = if rng_draw(a.rng.state, 1) == 0 { -1 } else { 1 };
        let below = a.at(0, 1);
        a.fluid.pressure <= 120 ==> {
            &&& f.fluid == a.fluid
            &&& f.cells@ == if below.species == Species::Empty {
                a.put(a.put(a.cells@, 0, 0, empty_cell()), 0, 1, cell)
            } else if below.species == Species::Water {
                a.put(a.put(a.cells@, 0, 0, below), 0, 1, cell)
            } else if a.at(dx, 1).species == Species::Empty {
                a.put(a.put(a.cells@, 0, 0, empty_cell()), dx, 1, cell)
            } else {
                a.put(a.cells@, 0, 0, cell)
            }
        }
    }))
}

/// Dust: above pressure 120 it bursts into fire and pushes the fluid;
/// otherwise it falls, sinks through water, or slides diagonally.
pub fn update_dust(cell: Cell, api: &mut SandApi)
    requires
        old(api).wf(),
        old(api).at(0, 0).species != Species::Wall,
        cell.species != Species::Wall,
    ensures
        dust_post(old(api), final(api), cell),
{
    let dx = api.rand_dir();
    let fluid = api.get_fluid();
    let ghost a0 = *api;
    if fluid.pressure > 120 {
        let flame = Cell { species: Species::Fire, ra: 150 + cell.ra / 10, rb: 0, clock: 0 };
        api.set(0, 0, flame);
        api.set_fluid(Wind { dx: 0, dy: 0, pressure: 80, density: 5 });
        proof {
            lemma_live_after_set(a0, 0, 0, flame);
        }
        return;
    }
    let nbr = api.get(0, 1);
    if nbr.species == Species::Empty {
        api.set(0, 0, Cell::empty());
        let ghost a1 = *api;
        api.set(0, 1, cell);
        proof {
            lemma_live_after_set(a0, 0, 0, empty_cell());
            lemma_live_after_set(a1, 0, 1, cell);
        }
    } else if nbr.species == Species::Water {
        api.set(0, 0, nbr);
        let ghost a1 = *api;
        api.set(0, 1, cell);
        proof {
            lemma_live_after_set(a0, 0, 0, nbr);
            lemma_live_after_set(a1, 0, 1, cell);
        }
    } else if api.get(dx, 1).species == Species::Empty {
        api.set(0, 0, Cell::empty());
        let ghost a1 = *api;
        api.set(dx, 1, cell);
        proof {
            lemma_live_after_set(a0, 0, 0, empty_cell());
            lemma_live_after_set(a1, dx as int, 1, cell);
        }
    } else {
        api.set(0, 0, cell);
        proof {
            lemma_live_after_set(a0, 0, 0, cell);
        }
    }
}

/// What a turn of the stone rule guarantees, from the window `a` before it to
/// the window `f` after it, for the cell `cell` whose turn it is.
pub open spec fn stone_post(a: &SandApi, f: &SandApi, cell: Cell) -> bool {
    &&& turn_ok(a, f)
    &&& (a.at(-1, 1).species == Species::Stone && a.at(1, 1).species
        == Species::Stone ==> f.cells@ == a.cells@)
    &&& (!(a.at(-1, 1).species == Species::Stone && a.at(1, 1).species
        == Species::Stone) && a.fluid.pressure > 120 && rng_draw(a.rng.state, 1)
        == 0 ==> f.cells@ == a.put(
        a.cells@,
        0,
        0,
        Cell { species: Species::Sand, ra: cell.ra, rb: 0, clock: 0 },
    ))
    &&& (cell.species != Species::Empty && a.at(0, 0).species != Species::Empty
        ==> live_count(f.cells@) == live_count(a.cells@))
    &&& (({
        let below = a.at(0, 1);
        let locked = a.at(-1, 1).species == Species::Stone && a.at(1, 1).species == Species::Stone;
        let crumbles = a.fluid.pressure > 120 && rng_draw(a.rng.state, 1) == 0;
        !locked && !crumbles ==> f.cells@ == if below.species == Species::Empty {
            a.put(a.put(a.cells@, 0, 0, empty_cell()), 0, 1, cell)
        } else if is_light_fluid(below.species) {
            a.put(a.put(a.cells@, 0, 0, below), 0, 1, cell)
        } else {
            a.put(a.cells@, 0, 0, cell)
        }
    }))
}

/// Stone: held in place by stone on both lower diagonals; under pressure
/// above 120 it may crumble to sand; otherwise it falls or sinks through a
/// light fluid.
pub fn update_stone(cell: Cell, api: &mut SandApi)
    requires
        old(api).wf(),
        old(api).at(0, 0).species != Species::Wall,
        cell.species != Species::Wall,
    ensures
        stone_post(old(api), final(api), cell),
{
    if api.get(-1, 1).species == Species::Stone && api.get(1, 1).species == Species::Stone {
        return;
    }
    let fluid = api.get_fluid();
    if fluid.pressure > 120 && api.rand_int(1) == 0 {
        let ghost a0 = *api;
        let sand = Cell { species: Species::Sand, ra: cell.ra, rb: 0, clock: 0 };
        api.set(0, 0, sand);
        proof {
            lemma_live_after_set(a0, 0, 0, sand);
        }
        return;
    }
    let ghost a0 = *api;
    let nbr = api.get(0, 1);
    if nbr.species == Species::Empty {
        api.set(0, 0, Cell::empty());
        let ghost a1 = *api;
        api.set(0, 1, cell);
        proof {
            lemma_live_after_set(a0, 0, 0, empty_cell());
            lemma_live_after_set(a1, 0, 1, cell);
        }
    } else if is_fluid_for_sinking(nbr.species) {
        api.set(0, 0, nbr);
        let ghost a1 = *api;
        api.set(0, 1, cell);
        proof {
            lemma_live_after_set(a0, 0, 0, nbr);
            lemma_live_after_set(a1, 0, 1, cell);
        }
    } else {
        api.set(0, 0, cell);
        proof {
            lemma_live_after_set(a0, 0, 0, cell);
        }
    }
}

/// The cells `s` after the flow parity of `cell` is handed, on random state
/// `st`, to the drawn neighbour when that is water of the other parity: it
/// is rewritten as `cell`.
pub open spec fn opinion_cells(a: &SandApi, s: Seq<Cell>, cell: Cell, st: u64) -> Seq<Cell> {
    let d = compass_at(rng_draw(st, 7));
    let nbr = cell_in(a, s, d.0, d.1);
    if nbr.species == Species::Water && nbr.ra % 2 != cell.ra % 2 {
        a.put(s, d.0, d.1, cell)
    } else {
        s
    }
}

/// Hands the flow parity of `cell` to a random neighbouring water cell whose
/// parity differs, by rewriting that water as `cell`.
fn spread_opinion(cell: Cell, api: &mut SandApi)
    requires
        old(api).wf(),
        old(api).at(0, 0).species != Species::Wall,
        cell.species != Species::Wall,
    ensures
        turn_ok(old(api), final(api)),
        final(api).fluid == old(api).fluid,
        ({
            let a = old(api);
            let d = compass_at(rng_draw(a.rng.state, 7));
            let nbr = a.at(d.0, d.1);
            final(api).cells@ == opinion_cells(a, a.cells@, cell, a.rng.state)
        }),
{
    let (dx, dy) = api.rand_vec_8();
    let nbr = api.get(dx, dy);
    if nbr.species == Species::Water && nbr.ra % 2 != cell.ra % 2 {
        api.set(dx, dy, cell);
    }
}

/// What a turn of the water rule guarantees, from the window `a` before it to
/// the window `f` after it, for the cell `cell` whose turn it is.
pub open spec fn water_post(a: &SandApi, f: &SandApi, cell: Cell) -> bool {
    &&& turn_ok(a, f)
    &&& f.fluid == a.fluid
    &&& (({
        let below = a.at(0, 1);
        let s1 = rng_step(a.rng.state);
        let ra: u8 = if rng_draw(s1, 19) == 0 { (100 + rng_draw(rng_step(s1), 50)) as u8 } else { cell.ra };
        (below.species == Species::Empty || below.species == Species::Oil) ==> f.cells@ == a.put(
            a.put(a.cells@, 0, 0, below),
            0,
            1,
            Cell { ra, ..cell },
        )
    }))
    &&& (({
        let below = a.at(0, 1);
        let dx: int = if rng_draw(a.rng.state, 1) == 0 { -1 } else { 1 };
        let side = a.at(dx, 1);
        let e = empty_cell();
        !(below.species == Species::Empty || below.species == Species::Oil) ==> {
            if side.species == Species::Empty || side.species == Species::Oil {
                f.cells@ == a.put(a.put(a.cells@, 0, 0, side), dx, 1, cell)
            } else if a.at(-dx, 1).species == Species::Empty {
                f.cells@ == a.put(a.put(a.cells@, 0, 0, e), -dx, 1, cell)
            } else {
                let p: int = if cell.ra % 2 == 0 { 1 } else { -1 };
                let near = a.at(p, 0);
                let far = a.at(2 * p, 0);
                if near.species == Species::Empty && far.species == Species::Empty {
                    f.cells@ == opinion_cells(
                        a,
                        a.put(a.put(a.cells@, 0, 0, far), 2 * p, 0, Cell { rb: 6, ..cell }),
                        cell,
                        rng_step(a.rng.state),
                    )
                } else if near.species == Species::Empty || near.species == Species::Oil {
                    f.cells@ == opinion_cells(
                        a,
                        a.put(a.put(a.cells@, 0, 0, near), p, 0, Cell { rb: 3, ..cell }),
                        cell,
                        rng_step(a.rng.state),
                    )
                } else if cell.rb == 0 {
                    f.cells@ == if a.at(-p, 0).species == Species::Empty {
                        a.put(a.cells@, 0, 0, Cell { ra: (cell.ra + p) as u8, ..cell })
                    } else {
                        a.cells@
                    }
                } else {
                    f.cells@ == a.put(a.cells@, 0, 0, Cell { rb: (cell.rb - 1) as u8, ..cell })
                }
            }
        }
    }))
}

/// Water: falls straight or diagonally into vacancy or oil (sometimes taking
/// a fresh random flow direction); else spreads sideways in the direction of
/// its flow parity, two cells at once where both are clear, else one; else
/// bumps its parity when its certainty has run out, or loses certainty.
#[verifier::rlimit(100)]
#[verifier::spinoff_prover]
pub fn update_water(cell: Cell, api: &mut SandApi)
    requires
        old(api).wf(),
        old(api).at(0, 0).species != Species::Wall,
        cell.species != Species::Wall,
    ensures
        water_post(old(api), final(api), cell),
{
    let dx = api.rand_dir();
    let below = api.get(0, 1);
    let dx1 = api.get(dx, 1);
    if below.species == Species::Empty || below.species == Species::Oil {
        api.set(0, 0, below);
        let mut ra = cell.ra;
        if api.once_in(20) {
            ra = 100 + api.rand_int(50) as u8;
        }
        api.set(0, 1, Cell { ra, ..cell });
        return;
    } else if dx1.species == Species::Empty || dx1.species == Species::Oil {
        api.set(0, 0, dx1);
        api.set(dx, 1, cell);
        return;
    } else if api.get(-dx, 1).species == Species::Empty {
        api.set(0, 0, Cell::empty());
        api.set(-dx, 1, cell);
        return;
    }
    let dx: i32 = if cell.ra % 2 == 0 { 1 } else { -1 };
    let dx0 = api.get(dx, 0);
    let dxd = api.get(dx * 2, 0);
    if dx0.species == Species::Empty && dxd.species == Species::Empty {
        api.set(0, 0, dxd);
        api.set(2 * dx, 0, Cell { rb: 6, ..cell });
        spread_opinion(cell, api);
    } else if dx0.species == Species::Empty || dx0.species == Species::Oil {
        api.set(0, 0, dx0);
        api.set(dx, 0, Cell { rb: 3, ..cell });
        spread_opinion(cell, api);
    } else if cell.rb == 0 {
        if api.get(-dx, 0).species == Species::Empty {
            api.set(0, 0, Cell { ra: (cell.ra as i32 + dx) as u8, ..cell });
        }
    } else {
        api.set(0, 0, Cell { rb: cell.rb - 1, ..cell });
    }
}

/// The fire that lava or fire lights at offset (dx, dy).
pub open spec fn kindled(dx: int, dy: int) -> Cell {
    Cell { species: Species::Fire, ra: (150 + (dx + dy) * 10) as u8, rb: 0, clock: 0 }
}

/// What a turn of the lava rule guarantees, from the window `a` before it to
/// the window `f` after it, for the cell `cell` whose turn it is.
pub open spec fn lava_post(a: &SandApi, f: &SandApi, cell: Cell) -> bool {
    &&& turn_ok(a, f)
    &&& f.fluid == (Wind { dx: 0, dy: 10, pressure: 0, density: 60 })
    &&& (({
        let d = compass_at(rng_draw(a.rng.state, 7));
        let nbr = a.at(d.0, d.1).species;
        let e = empty_cell();
        let c1 = if nbr == Species::Gas || nbr == Species::Dust {
            a.put(a.cells@, d.0, d.1, kindled(d.0, d.1))
        } else {
            a.cells@
        };
        f.cells@ == if nbr == Species::Water {
            a.put(a.put(c1, 0, 0, Cell { species: Species::Stone, ..kindled(d.0, d.1) }), d.0, d.1, e)
        } else if a.at(0, 1).species == Species::Empty {
            a.put(a.put(c1, 0, 0, e), 0, 1, cell)
        } else if a.at(d.0, 1).species == Species::Empty {
            a.put(a.put(c1, 0, 0, e), d.0, 1, cell)
        } else if a.at(d.0, 0).species == Species::Empty {
            a.put(a.put(c1, 0, 0, e), d.0, 0, cell)
        } else {
            a.put(c1, 0, 0, cell)
        }
    }))
}

/// Lava: lights gas or dust at a random neighbour; turns neighbouring water
/// into a vacancy while itself setting into stone; otherwise flows down,
/// diagonally or sideways into vacancy.
pub fn update_lava(cell: Cell, api: &mut SandApi)
    requires
        old(api).wf(),
        old(api).at(0, 0).species != Species::Wall,
        cell.species != Species::Wall,
    ensures
        lava_post(old(api), final(api), cell),
{
    api.set_fluid(Wind { dx: 0, dy: 10, pressure: 0, density: 60 });
    let (dx, dy) = api.rand_vec();
    let s = api.get(dx, dy).species;
    if s == Species::Gas || s == Species::Dust {
        api.set(dx, dy, Cell {
            species: Species::Fire,
            ra: (150 + (dx + dy) * 10) as u8,
            rb: 0,
            clock: 0,
        });
    }
    let sample = api.get(dx, dy);
    if sample.species == Species::Water {
        api.set(0, 0, Cell {
            species: Species::Stone,
            ra: (150 + (dx + dy) * 10) as u8,
            rb: 0,
            clock: 0,
        });
        api.set(dx, dy, Cell::empty());
    } else if api.get(0, 1).species == Species::Empty {
        api.set(0, 0, Cell::empty());
        api.set(0, 1, cell);
    } else if api.get(dx, 1).species == Species::Empty {
        api.set(0, 0, Cell::empty());
        api.set(dx, 1, cell);
    } else if api.get(dx, 0).species == Species::Empty {
        api.set(0, 0, Cell::empty());
        api.set(dx, 0, cell);
    } else {
        api.set(0, 0, cell);
    }
}

/// What a turn of the ice rule guarantees, from the window `a` before it to
/// the window `f` after it, for the cell `cell` whose turn it is.
pub open spec fn ice_post(a: &SandApi, f: &SandApi, cell: Cell) -> bool {
    &&& turn_ok(a, f)
    &&& f.fluid == a.fluid
    &&& (({
        let s0 = a.rng.state;
        let s1 = rng_step(s0);
        let s2 = rng_step(s1);
        let d = compass_at(rng_draw(s0, 7));
        let nbr = a.at(d.0, d.1).species;
        f.cells@ == if a.fluid.pressure > 120 && rng_draw(s2, 1) == 0 {
            a.put(a.cells@, 0, 0, Cell { species: Species::Water, ra: cell.ra, rb: 0, clock: 0 })
        } else if nbr == Species::Fire || nbr == Species::Lava {
            a.put(a.cells@, 0, 0, Cell { species: Species::Water, ..cell })
        } else if nbr == Species::Water && rng_draw(s1, 100) < 7 {
            a.put(a.cells@, d.0, d.1, Cell { species: Species::Ice, ..cell })
        } else {
            a.cells@
        }
    }))
}

/// Ice: under pressure above 120 it melts on one draw in two; next to fire or
/// lava it melts; next to water it freezes that water on 7 draws in 101.
pub fn update_ice(cell: Cell, api: &mut SandApi)
    requires
        old(api).wf(),
        old(api).at(0, 0).species != Species::Wall,
        cell.species != Species::Wall,
    ensures
        ice_post(old(api), final(api), cell),
{
    let (dx, dy) = api.rand_vec();
    let i = api.rand_int(100);
    let fluid = api.get_fluid();
    if fluid.pressure > 120 && api.rand_int(1) == 0 {
        api.set(0, 0, Cell { species: Species::Water, ra: cell.ra, rb: 0, clock: 0 });
        return;
    }
    let nbr_species = api.get(dx, dy).species;
    if nbr_species == Species::Fire || nbr_species == Species::Lava {
        api.set(0, 0, Cell { species: Species::Water, ..cell });
    } else if nbr_species == Species::Water && i < 7 {
        api.set(dx, dy, Cell { species: Species::Ice, ..cell });
    }
}

/// Fire after one tick of decay by `loss`.
pub open spec fn decayed(cell: Cell, loss: int) -> Cell {
    Cell { ra: (cell.ra - loss) as u8, ..cell }
}

/// What a turn of the fire rule guarantees, from the window `a` before it to
/// the window `f` after it, for the cell `cell` whose turn it is.
pub open spec fn fire_post(a: &SandApi, f: &SandApi, cell: Cell) -> bool {
    &&& turn_ok(a, f)
    &&& (cell.ra < 5 ==> f.at(0, 0) == stamped(empty_cell(), a.generation))
    &&& (cell.ra < 5 && cell.species != Species::Empty && a.at(0, 0).species
        != Species::Empty ==> live_count(f.cells@) == live_count(a.cells@) - 1)
    &&& (({
        let s1 = rng_step(a.rng.state);
        let loss: int = if rng_draw(a.rng.state, 1) == 0 { 1 } else { 3 };
        let d = compass_at(rng_draw(s1, 7));
        let nbr = a.at(d.0, d.1).species;
        let lit = nbr == Species::Gas || nbr == Species::Dust;
        let c1 = if lit { a.put(a.cells@, d.0, d.1, kindled(d.0, d.1)) } else { a.cells@ };
        &&& f.cells@ == if cell.ra < 5 || nbr == Species::Water {
            a.put(c1, 0, 0, empty_cell())
        } else if nbr == Species::Empty {
            a.put(a.put(c1, 0, 0, empty_cell()), d.0, d.1, decayed(cell, loss))
        } else {
            a.put(c1, 0, 0, decayed(cell, loss))
        }
        &&& f.fluid == if lit {
            Wind { dx: 0, dy: 0, pressure: 80, density: 40 }
        } else {
            Wind { dx: 0, dy: 150, pressure: 1, density: 120 }
        }
    }))
}

/// Fire: loses 1 or 3 of potency (wrapping) per tick and pushes the fluid;
/// lights gas or dust at a random neighbour; goes out below potency 5 or
/// next to water; else moves into a vacancy there or stays, decayed.
pub fn update_fire(cell: Cell, api: &mut SandApi)
    requires
        old(api).wf(),
        old(api).at(0, 0).species != Species::Wall,
        cell.species != Species::Wall,
    ensures
        fire_post(old(api), final(api), cell),
{
    let ghost a0 = *api;
    let ra = cell.ra;
    let loss = (2 + api.rand_dir()) as u8;
    let degraded = Cell { ra: ra.wrapping_sub(loss), ..cell };
    let (dx, dy) = api.rand_vec();
    api.set_fluid(Wind { dx: 0, dy: 150, pressure: 1, density: 120 });
    let ghost a1 = *api;
    let s = api.get(dx, dy).species;
    if s == Species::Gas || s == Species::Dust {
        api.set(dx, dy, Cell {
            species: Species::Fire,
            ra: (150 + (dx + dy) * 10) as u8,
            rb: 0,
            clock: 0,
        });
        api.set_fluid(Wind { dx: 0, dy: 0, pressure: 80, density: 40 });
        proof {
            lemma_live_after_set(a1, dx as int, dy as int, kindled(dx as int, dy as int));
        }
    }
    let ghost a2 = *api;
    let s = api.get(dx, dy).species;
    if ra < 5 || s == Species::Water {
        api.set(0, 0, Cell::empty());
        proof {
            lemma_live_after_set(a2, 0, 0, empty_cell());
        }
    } else if s == Species::Empty {
        api.set(0, 0, Cell::empty());
        api.set(dx, dy, degraded);
    } else {
        api.set(0, 0, degraded);
    }
}

/// The cells after oil `c` flows: down, diagonally down towards `dx` or away
/// from it, sideways towards `dx` or away from it, into the first vacancy;
/// else it stays.
pub open spec fn oil_flow(a: &SandApi, c: Cell, dx: int) -> Seq<Cell> {
    oil_flow_in(a, a.cells@, c, dx)
}

/// What a read at offset (dx, dy) of the cells `s` sees, in the geometry of
/// `a`: the cell there, or a wall outside the grid.
pub open spec fn cell_in(a: &SandApi, s: Seq<Cell>, dx: int, dy: int) -> Cell {
    if a.offset_in(dx, dy) {
        s[a.offset_index(dx, dy)]
    } else {
        crate::cell::wall_cell()
    }
}

/// `oil_flow` over the cells `s`.
pub open spec fn oil_flow_in(a: &SandApi, s: Seq<Cell>, c: Cell, dx: int) -> Seq<Cell> {
    let e = empty_cell();
    if cell_in(a, s, 0, 1).species == Species::Empty {
        a.put(a.put(s, 0, 0, e), 0, 1, c)
    } else if cell_in(a, s, dx, 1).species == Species::Empty {
        a.put(a.put(s, 0, 0, e), dx, 1, c)
    } else if cell_in(a, s, -dx, 1).species == Species::Empty {
        a.put(a.put(s, 0, 0, e), -dx, 1, c)
    } else if cell_in(a, s, dx, 0).species == Species::Empty {
        a.put(a.put(s, 0, 0, e), dx, 0, c)
    } else if cell_in(a, s, -dx, 0).species == Species::Empty {
        a.put(a.put(s, 0, 0, e), -dx, 0, c)
    } else {
        a.put(s, 0, 0, c)
    }
}

/// The cells after a burning oil (budget `cell.rb` above 1) sampled `nbr` at
/// `d` throws fire: a fire of potency 20 plus a draw in [0, 30] lands there
/// when it was a vacancy and the budget is not a multiple of 4.
pub open spec fn oil_fire_cells(a: &SandApi, cell: Cell, d: (int, int), nbr: Species, st: u64) -> Seq<Cell> {
    if cell.rb % 4 != 0 && nbr == Species::Empty {
        a.put(a.cells@, d.0, d.1, Cell { species: Species::Fire, ra: (20 + rng_draw(st, 30)) as u8, rb: 0, clock: 0 })
    } else {
        a.cells@
    }
}

/// The oil that a burning oil moves as: put out next to water (potency 50,
/// budget 0), else one budget less.
pub open spec fn oil_burnt(cell: Cell, nbr: Species) -> Cell {
    if nbr == Species::Water {
        Cell { species: Species::Oil, ra: 50, rb: 0, clock: 0 }
    } else {
        Cell { species: Species::Oil, ra: cell.ra, rb: (cell.rb - 1) as u8, clock: 0 }
    }
}

/// A burning oil (budget above 1) that sampled `nbr` at (dx, dy): pushes the
/// fluid, throws fire, and flows on as `oil_burnt`.
fn oil_burn(cell: Cell, api: &mut SandApi, dx: i32, dy: i32, nbr: Species)
    requires
        old(api).wf(),
        cell.rb > 1,
        crate::api::is_step((dx, dy)),
    ensures
        turn_ok(old(api), final(api)),
        final(api).fluid == (Wind { dx: 0, dy: 10, pressure: 10, density: 180 }),
        final(api).cells@ == oil_flow_in(
            old(api),
            oil_fire_cells(old(api), cell, (dx as int, dy as int), nbr, old(api).rng.state),
            oil_burnt(cell, nbr),
            dx as int,
        ),
{
    let mut new_cell = Cell { species: Species::Oil, ra: cell.ra, rb: cell.rb - 1, clock: 0 };
    api.set_fluid(Wind { dx: 0, dy: 10, pressure: 10, density: 180 });
    if cell.rb % 4 != 0 && nbr == Species::Empty {
        let ra = 20 + api.rand_int(30) as u8;
        api.set(dx, dy, Cell { species: Species::Fire, ra, rb: 0, clock: 0 });
    }
    if nbr == Species::Water {
        new_cell = Cell { species: Species::Oil, ra: 50, rb: 0, clock: 0 };
    }
    oil_move(api, new_cell, dx);
}

/// Moves oil `c` from the position by `oil_flow` with side `dx`.
fn oil_move(api: &mut SandApi, c: Cell, dx: i32)
    requires
        old(api).wf(),
        -1 <= dx <= 1,
    ensures
        turn_ok(old(api), final(api)),
        final(api).fluid == old(api).fluid,
        final(api).cells@ == oil_flow(old(api), c, dx as int),
{
    if api.get(0, 1).species == Species::Empty {
        api.set(0, 0, Cell::empty());
        api.set(0, 1, c);
    } else if api.get(dx, 1).species == Species::Empty {
        api.set(0, 0, Cell::empty());
        api.set(dx, 1, c);
    } else if api.get(-dx, 1).species == Species::Empty {
        api.set(0, 0, Cell::empty());
        api.set(-dx, 1, c);
    } else if api.get(dx, 0).species == Species::Empty {
        api.set(0, 0, Cell::empty());
        api.set(dx, 0, c);
    } else if api.get(-dx, 0).species == Species::Empty {
        api.set(0, 0, Cell::empty());
        api.set(-dx, 0, c);
    } else {
        api.set(0, 0, c);
    }
}


/// What a turn of the oil rule guarantees, from the window `a` before it to
/// the window `f` after it, for the cell `cell` whose turn it is.
pub open spec fn oil_post(a: &SandApi, f: &SandApi, cell: Cell) -> bool {
    &&& turn_ok(a, f)
    &&& (cell.rb == 1 ==> f.cells@ == a.put(
        a.cells@,
        0,
        0,
        Cell { species: Species::Empty, ra: cell.ra, rb: 90, clock: 0 },
    ))
    &&& (cell.rb <= 1 ==> f.fluid == a.fluid)
    &&& (({
        let d = compass_at(rng_draw(a.rng.state, 7));
        let nbr = a.at(d.0, d.1).species;
        cell.rb > 1 ==> {
            &&& f.fluid == (Wind { dx: 0, dy: 10, pressure: 10, density: 180 })
            &&& f.cells@ == oil_flow_in(
                a,
                oil_fire_cells(a, cell, d, nbr, rng_step(a.rng.state)),
                oil_burnt(cell, nbr),
                d.0,
            )
        }
    }))
    &&& (({
        let d = compass_at(rng_draw(a.rng.state, 7));
        let nbr = a.at(d.0, d.1);
        let lit = nbr.species == Species::Fire || nbr.species == Species::Lava || (nbr.species
            == Species::Oil && 1 < nbr.rb < 20);
        cell.rb == 0 ==> f.cells@ == oil_flow(
            a,
            if lit { Cell { species: Species::Oil, ra: cell.ra, rb: 50, clock: 0 } } else { cell },
            d.0,
        )
    }))
}

/// Oil: lit by fire (while idle), by lava, or by burning oil, it takes a burn
/// budget of 50; while burning it counts down, pushes the fluid, throws fire
/// into a vacancy on most ticks, and is put out by water; a budget of 1
/// leaves a vacancy. Either way it then falls or slides into vacancy.
pub fn update_oil(cell: Cell, api: &mut SandApi)
    requires
        old(api).wf(),
        old(api).at(0, 0).species != Species::Wall,
        cell.species != Species::Wall,
    ensures
        oil_post(old(api), final(api), cell),
{
    let rb = cell.rb;
    let (dx, dy) = api.rand_vec();
    let mut new_cell = cell;
    let nbr = api.get(dx, dy);
    if rb == 0 && nbr.species == Species::Fire || nbr.species == Species::Lava || (nbr.species
        == Species::Oil && nbr.rb > 1 && nbr.rb < 20) {
        new_cell = Cell { species: Species::Oil, ra: cell.ra, rb: 50, clock: 0 };
    }
    if rb > 1 {
        oil_burn(cell, api, dx, dy, nbr.species);
        return;
    } else if rb == 1 {
        api.set(0, 0, Cell { species: Species::Empty, ra: cell.ra, rb: 90, clock: 0 });
        return;
    }
    oil_move(api, new_cell, dx);
}

/// What a turn of the gas rule guarantees, from the window `a` before it to
/// the window `f` after it, for the cell `cell` whose turn it is.
pub open spec fn gas_post(a: &SandApi, f: &SandApi, cell: Cell) -> bool {
    &&& turn_ok(a, f)
    &&& f.fluid == a.fluid
    &&& (({
        let d = crate::api::compass_at(rng_draw(a.rng.state, 7));
        let nbr = a.at(d.0, d.1);
        let s0 = if cell.rb == 0 { a.put(a.cells@, 0, 0, Cell { rb: 5, ..cell }) } else { a.cells@ };
        f.cells@ == if nbr.species == Species::Empty {
            if cell.rb < 3 {
                a.put(a.put(s0, 0, 0, empty_cell()), d.0, d.1, cell)
            } else {
                a.put(a.put(s0, 0, 0, Cell { rb: 1, ..cell }), d.0, d.1, Cell { rb: (cell.rb - 1) as u8, ..cell })
            }
        } else if nbr.species == Species::Gas && nbr.rb < 4 {
            a.put(a.put(s0, 0, 0, empty_cell()), d.0, d.1, Cell { rb: if nbr.rb + cell.rb > 255 { 255 } else { (nbr.rb + cell.rb) as u8 }, ..cell })
        } else {
            s0
        }
    }))
}

/// Gas: `rb` is the parcel's mass (5 once initialised). A parcel of mass
/// under 3 drifts into a vacancy; a heavier one leaves mass 1 behind and
/// moves the rest; next to a parcel of mass under 4 it merges into it
/// (saturating at 255).
pub fn update_gas(cell: Cell, api: &mut SandApi)
    requires
        old(api).wf(),
        old(api).at(0, 0).species != Species::Wall,
        cell.species != Species::Wall,
    ensures
        gas_post(old(api), final(api), cell),
{
    let (dx, dy) = api.rand_vec();
    let nbr = api.get(dx, dy);
    if cell.rb == 0 {
        api.set(0, 0, Cell { rb: 5, ..cell });
    }
    if nbr.species == Species::Empty {
        if cell.rb < 3 {
            api.set(0, 0, Cell::empty());
            api.set(dx, dy, cell);
        } else {
            api.set(0, 0, Cell { rb: 1, ..cell });
            api.set(dx, dy, Cell { rb: cell.rb - 1, ..cell });
        }
    } else if nbr.species == Species::Gas && nbr.rb < 4 {
        api.set(0, 0, Cell::empty());
        api.set(dx, dy, Cell { rb: nbr.rb.saturating_add(cell.rb), ..cell });
    }
}

/// What a turn of the wood rule guarantees, from the window `a` before it to
/// the window `f` after it, for the cell `cell` whose turn it is.
pub open spec fn wood_post(a: &SandApi, f: &SandApi, cell: Cell) -> bool {
    let d = compass_at(rng_draw(a.rng.state, 7));
    let nbr = a.at(d.0, d.1).species;
    let lit = cell.rb == 0 && nbr == Species::Fire || nbr == Species::Lava;
    &&& turn_ok(a, f)
    &&& cell.rb <= 1 ==> f.fluid == a.fluid
    &&& cell.rb <= 1 ==> f.cells@ == if cell.rb == 1 {
        a.put(
            if lit {
                a.put(a.cells@, 0, 0, Cell { species: Species::Wood, ra: cell.ra, rb: 90, clock: 0 })
            } else {
                a.cells@
            },
            0,
            0,
            Cell { species: Species::Empty, ra: cell.ra, rb: 90, clock: 0 },
        )
    } else if lit {
        a.put(a.cells@, 0, 0, Cell { species: Species::Wood, ra: cell.ra, rb: 90, clock: 0 })
    } else {
        a.cells@
    }
    &&& cell.rb > 1 ==> {
        &&& f.cells@ == wood_burn_cells(a, cell, d, nbr, rng_step(a.rng.state))
        &&& f.fluid == if nbr == Species::Water {
            Wind { dx: 0, dy: 0, pressure: 0, density: 220 }
        } else {
            a.fluid
        }
    }
}

/// The cells after a tick of burning wood (budget above 1) that sampled
/// `nbr` at `d`, on random state `st`: lava relights it, it counts down,
/// every fourth budget it throws fire of potency 30 plus a draw in [0, 60]
/// into a vacancy there, and water puts it out (potency 50, budget 0).
pub open spec fn wood_burn_cells(a: &SandApi, cell: Cell, d: (int, int), nbr: Species, st: u64) -> Seq<Cell> {
    let c0 = if nbr == Species::Lava {
        a.put(a.cells@, 0, 0, Cell { species: Species::Wood, ra: cell.ra, rb: 90, clock: 0 })
    } else {
        a.cells@
    };
    let c1 = a.put(c0, 0, 0, Cell { species: Species::Wood, ra: cell.ra, rb: (cell.rb - 1) as u8, clock: 0 });
    let c2 = if cell.rb % 4 == 0 && nbr == Species::Empty {
        a.put(c1, d.0, d.1, Cell { species: Species::Fire, ra: (30 + rng_draw(st, 60)) as u8, rb: 0, clock: 0 })
    } else {
        c1
    };
    if nbr == Species::Water {
        a.put(c2, 0, 0, Cell { species: Species::Wood, ra: 50, rb: 0, clock: 0 })
    } else {
        c2
    }
}

/// Burning wood (budget above 1) that sampled `nbr` at (dx, dy).
#[verifier::rlimit(100)]
#[verifier::spinoff_prover]
fn wood_burn(cell: Cell, api: &mut SandApi, dx: i32, dy: i32, nbr_species: Species)
    requires
        old(api).wf(),
        cell.rb > 1,
        crate::api::is_step((dx, dy)),
    ensures
        turn_ok(old(api), final(api)),
        final(api).cells@ == wood_burn_cells(old(api), cell, (dx as int, dy as int), nbr_species, old(api).rng.state),
        final(api).fluid == if nbr_species == Species::Water {
            Wind { dx: 0, dy: 0, pressure: 0, density: 220 }
        } else {
            old(api).fluid
        },
{
    let rb = cell.rb;
    if nbr_species == Species::Lava {
        api.set(0, 0, Cell { species: Species::Wood, ra: cell.ra, rb: 90, clock: 0 });
    }
    api.set(0, 0, Cell { species: Species::Wood, ra: cell.ra, rb: rb - 1, clock: 0 });
    if rb % 4 == 0 && nbr_species == Species::Empty {
        let ra = 30 + api.rand_int(60) as u8;
        api.set(dx, dy, Cell { species: Species::Fire, ra, rb: 0, clock: 0 });
    }
    if nbr_species == Species::Water {
        api.set(0, 0, Cell { species: Species::Wood, ra: 50, rb: 0, clock: 0 });
        api.set_fluid(Wind { dx: 0, dy: 0, pressure: 0, density: 220 });
    }
}


/// Wood: lit by fire (while idle) or by lava, it takes a burn budget of 90;
/// while burning it counts down, throws fire into a vacancy every fourth
/// tick, and is put out by water; a budget of 1 leaves a vacancy.
pub fn update_wood(cell: Cell, api: &mut SandApi)
    requires
        old(api).wf(),
        old(api).at(0, 0).species != Species::Wall,
        cell.species != Species::Wall,
    ensures
        wood_post(old(api), final(api), cell),
{
    let rb = cell.rb;
    let (dx, dy) = api.rand_vec();
    let nbr_species = api.get(dx, dy).species;
    if rb > 1 {
        wood_burn(cell, api, dx, dy, nbr_species);
        return;
    }
    if rb == 0 && nbr_species == Species::Fire || nbr_species == Species::Lava {
        api.set(0, 0, Cell { species: Species::Wood, ra: cell.ra, rb: 90, clock: 0 });
    }
    if rb == 1 {
        api.set(0, 0, Cell { species: Species::Empty, ra: cell.ra, rb: 90, clock: 0 });
    }
}

/// What corroding acid leaves: potency lowered by 60, or a vacancy once that
/// would fall below 80.
pub open spec fn acid_degraded(cell: Cell) -> Cell {
    if cell.ra < 140 {
        empty_cell()
    } else {
        Cell { ra: (cell.ra - 60) as u8, ..cell }
    }
}

/// Whether acid can eat into a cell of species `s`.
pub open spec fn corrodible(s: Species) -> bool {
    s != Species::Wall && s != Species::Acid
}

/// What a turn of the acid rule guarantees, from the window `a` before it to
/// the window `f` after it, for the cell `cell` whose turn it is.
pub open spec fn acid_post(a: &SandApi, f: &SandApi, cell: Cell) -> bool {
    &&& turn_ok(a, f)
    &&& f.fluid == a.fluid
    &&& (({
        let dx: int = if rng_draw(a.rng.state, 1) == 0 { -1 } else { 1 };
        let e = empty_cell();
        let deg = acid_degraded(cell);
        f.cells@ == if a.at(0, 1).species == Species::Empty {
            a.put(a.put(a.cells@, 0, 0, e), 0, 1, cell)
        } else if a.at(dx, 0).species == Species::Empty {
            a.put(a.put(a.cells@, 0, 0, e), dx, 0, cell)
        } else if a.at(-dx, 0).species == Species::Empty {
            a.put(a.put(a.cells@, 0, 0, e), -dx, 0, cell)
        } else if corrodible(a.at(0, 1).species) {
            a.put(a.put(a.cells@, 0, 0, e), 0, 1, deg)
        } else if corrodible(a.at(dx, 0).species) {
            a.put(a.put(a.cells@, 0, 0, e), dx, 0, deg)
        } else if corrodible(a.at(-dx, 0).species) {
            a.put(a.put(a.cells@, 0, 0, e), -dx, 0, deg)
        } else if corrodible(a.at(0, -1).species) && a.at(0, -1).species != Species::Empty {
            a.put(a.put(a.cells@, 0, 0, e), 0, -1, deg)
        } else {
            a.put(a.cells@, 0, 0, cell)
        }
    }))
}

/// Acid: falls into a vacancy, else slides to a random side, else the other;
/// when all three are blocked it eats, in that order of preference, into the
/// first of below, the sides and above that is neither wall nor acid (nor,
/// above, a vacancy), moving there degraded; else it stays.
#[verifier::rlimit(100)]
#[verifier::spinoff_prover]
pub fn update_acid(cell: Cell, api: &mut SandApi)
    requires
        old(api).wf(),
        old(api).at(0, 0).species != Species::Wall,
        cell.species != Species::Wall,
    ensures
        acid_post(old(api), final(api), cell),
{
    let dx = api.rand_dir();
    let degraded = if cell.ra < 140 {
        Cell::empty()
    } else {
        Cell { ra: cell.ra - 60, ..cell }
    };
    let below = api.get(0, 1).species;
    let side = api.get(dx, 0).species;
    let other = api.get(-dx, 0).species;
    if below == Species::Empty {
        api.set(0, 0, Cell::empty());
        api.set(0, 1, cell);
    } else if side == Species::Empty {
        api.set(0, 0, Cell::empty());
        api.set(dx, 0, cell);
    } else if other == Species::Empty {
        api.set(0, 0, Cell::empty());
        api.set(-dx, 0, cell);
    } else if below != Species::Wall && below != Species::Acid {
        api.set(0, 0, Cell::empty());
        api.set(0, 1, degraded);
    } else if side != Species::Wall && side != Species::Acid {
        api.set(0, 0, Cell::empty());
        api.set(dx, 0, degraded);
    } else if other != Species::Wall && other != Species::Acid {
        api.set(0, 0, Cell::empty());
        api.set(-dx, 0, degraded);
    } else {
        let up = api.get(0, -1).species;
        if up != Species::Wall && up != Species::Acid && up != Species::Empty {
            api.set(0, 0, Cell::empty());
            api.set(0, -1, degraded);
        } else {
            api.set(0, 0, cell);
        }
    }
}

/// Acid that corrodes `k` times in a row, starting from `cell`.
pub open spec fn acid_after(cell: Cell, k: nat) -> Cell
    decreases k,
{
    if k == 0 {
        cell
    } else {
        acid_degraded(acid_after(cell, (k - 1) as nat))
    }
}

/// Each corrosion step lowers acid's potency by exactly 60 while it stays at
/// 80 or more; the first step that would take it below 80 leaves a vacancy.
pub proof fn lemma_acid_decay(cell: Cell, k: nat)
    ensures
        cell.ra - 60 * k >= 80 ==> acid_after(cell, k) == (Cell { ra: (cell.ra - 60 * k) as u8, ..cell }),
        k > 0 && cell.ra - 60 * (k - 1) >= 80 && cell.ra - 60 * k < 80 ==> acid_after(cell, k) == empty_cell(),
    decreases k,
{
    if k > 0 {
        lemma_acid_decay(cell, (k - 1) as nat);
    }
}

/// The growth gate: two uniform draws `a` and `b` in [0, 100] give the
/// product `a * b / 100`, biased towards small values; growth is accepted when
/// that plus the potency exceeds the threshold.
pub open spec fn spec_growth_gate(a: int, b: int, potency: int, threshold: int) -> bool {
    a * b / 100 + potency > threshold
}

pub fn growth_gate(a: i32, b: i32, potency: u8, threshold: i32) -> (r: bool)
    requires
        0 <= a <= 100,
        0 <= b <= 100,
    ensures
        r == spec_growth_gate(a as int, b as int, potency as int, threshold as int),
{
    proof {
        assert(0 <= a * b <= 10000) by (nonlinear_arith)
            requires
                0 <= a <= 100,
                0 <= b <= 100,
        ;
    }
    a * b / 100 + (potency as i32) > threshold
}

/// Growth is accepted with both uniforms at 100 and declined with both at 0,
/// whenever the potency lies in (threshold - 100, threshold]; and raising
/// either uniform never turns an acceptance into a decline.
pub proof fn lemma_growth_gate_shape(potency: int, threshold: int, a1: int, b1: int, a2: int, b2: int)
    requires
        threshold - 100 < potency <= threshold,
        0 <= a1 <= a2 <= 100,
        0 <= b1 <= b2 <= 100,
    ensures
        spec_growth_gate(100, 100, potency, threshold),
        !spec_growth_gate(0, 0, potency, threshold),
        spec_growth_gate(a1, b1, potency, threshold) ==> spec_growth_gate(a2, b2, potency, threshold),
{
    assert(a1 * b1 <= a2 * b2) by (nonlinear_arith)
        requires
            0 <= a1 <= a2,
            0 <= b1 <= b2,
    ;
    assert(a1 * b1 / 100 <= a2 * b2 / 100) by (nonlinear_arith)
        requires
            0 <= a1 * b1 <= a2 * b2,
    ;
}

/// Draws two uniforms in [0, 100] and tests the growth gate on them.
fn draw_growth_gate(api: &mut SandApi, potency: u8, threshold: i32) -> (r: bool)
    ensures
        r == spec_growth_gate(
            rng_draw(old(api).rng.state, 100),
            rng_draw(rng_step(old(api).rng.state), 100),
            potency as int,
            threshold as int,
        ),
        final(api).rng.state == rng_step(rng_step(old(api).rng.state)),
        final(api).cells@ == old(api).cells@,
        final(api).width == old(api).width,
        final(api).height == old(api).height,
        final(api).x == old(api).x,
        final(api).y == old(api).y,
        final(api).generation == old(api).generation,
        final(api).fluid == old(api).fluid,
{
    let a = api.rand_int(100);
    let b = api.rand_int(100);
    growth_gate(a, b, potency, threshold)
}

/// Potency drifted by `i` mod 15 - 7, wrapping.
fn drifted(ra: u8, i: i32) -> (r: u8)
    requires
        0 <= i <= 100,
    ensures
        r == spec_drifted(ra, i as int),
{
    let drift = (i % 15) - 7;
    (ra as i32 + drift) as u8
}

/// The cells `s` after one tick of a burning plant or fungus on random state
/// `st`: budget above 1 counts down, throws fire of potency `base` plus a draw
/// in [0, `span`] into the sampled neighbour `d` when it was a vacancy, and is
/// put out (potency 50, budget 0) when it was water; budget 1 leaves a
/// vacancy; budget 0 changes nothing.
pub open spec fn burn_cells(
    a: &SandApi,
    s: Seq<Cell>,
    cell: Cell,
    d: (int, int),
    nbr: Species,
    base: int,
    span: i32,
    st: u64,
) -> Seq<Cell> {
    if cell.rb > 1 {
        let c1 = a.put(s, 0, 0, Cell { rb: (cell.rb - 1) as u8, ..cell });
        let c2 = if nbr == Species::Empty {
            a.put(
                c1,
                d.0,
                d.1,
                Cell { species: Species::Fire, ra: (base + rng_draw(st, span)) as u8, rb: 0, clock: 0 },
            )
        } else {
            c1
        };
        if nbr == Species::Water {
            a.put(c2, 0, 0, Cell { ra: 50, rb: 0, ..cell })
        } else {
            c2
        }
    } else if cell.rb == 1 {
        a.put(s, 0, 0, empty_cell())
    } else {
        s
    }
}

/// One tick of a burning plant or fungus (budget `rb` above 1): count down,
/// throw fire of potency `base` + [0, `span`] into a vacancy at (dx, dy), and
/// go out with potency 50 next to water. A budget of 1 leaves a vacancy.
fn burn_tick(cell: Cell, api: &mut SandApi, dx: i32, dy: i32, nbr_species: Species, base: u8, span: i32)
    requires
        old(api).wf(),
        old(api).at(0, 0).species != Species::Wall,
        cell.species != Species::Wall,
        -1 <= dx <= 1,
        -1 <= dy <= 1,
        0 <= span,
        base as int + span <= 255,
    ensures
        turn_ok(old(api), final(api)),
        final(api).fluid == old(api).fluid,
        cell.rb == 1 ==> final(api).cells@ == old(api).put(old(api).cells@, 0, 0, empty_cell()),
        cell.rb > 1 && nbr_species == Species::Water ==> final(api).at(0, 0) == stamped(
            Cell { ra: 50, rb: 0, ..cell },
            old(api).generation,
        ),
        cell.rb == 0 ==> final(api).cells@ == old(api).cells@,
        final(api).at(0, 0).species != Species::Wall,
        final(api).cells@ == burn_cells(
            old(api),
            old(api).cells@,
            cell,
            (dx as int, dy as int),
            nbr_species,
            base as int,
            span,
            old(api).rng.state,
        ),
{
    let rb = cell.rb;
    if rb > 1 {
        api.set(0, 0, Cell { ra: cell.ra, rb: rb - 1, ..cell });
        if nbr_species == Species::Empty {
            let ra = base + api.rand_int(span) as u8;
            api.set(dx, dy, Cell { species: Species::Fire, ra, rb: 0, clock: 0 });
        }
        if nbr_species == Species::Water {
            api.set(0, 0, Cell { ra: 50, rb: 0, ..cell });
        }
    } else if rb == 1 {
        api.set(0, 0, Cell::empty());
    }
}

/// What a turn of the plant rule guarantees, from the window `a` before it to
/// the window `f` after it, for the cell `cell` whose turn it is.
pub open spec fn plant_post(a: &SandApi, f: &SandApi, cell: Cell) -> bool {
    &&& turn_ok(a, f)
    &&& f.fluid == a.fluid
    &&& (({
        let d = compass_at(rng_draw(rng_step(a.rng.state), 7));
        let nbr = a.at(d.0, d.1).species;
        {
            &&& cell.rb == 0 && (nbr == Species::Fire || nbr == Species::Lava) ==> f.at(0, 0)
                == stamped(Cell { species: Species::Plant, ra: cell.ra, rb: 20, clock: 0 }, a.generation)
            &&& cell.rb == 1 ==> f.at(0, 0) == stamped(empty_cell(), a.generation)
            &&& cell.rb > 1 && nbr == Species::Water ==> f.at(0, 0) == stamped(
                Cell { ra: 50, rb: 0, ..cell },
                a.generation,
            )
            &&& cell.rb > 1 && nbr == Species::Water ==> f.cells@ == burn_cells(
                a,
                plant_douse_spread(a, cell, d, rng_step(rng_step(a.rng.state))),
                cell,
                d,
                nbr,
                20,
                30,
                rng_step(rng_step(rng_step(a.rng.state))),
            )
            &&& cell.rb == 0 && nbr == Species::Empty ==> f.cells@ == plant_grow_cells(
                a,
                cell,
                rng_step(rng_step(rng_step(a.rng.state))),
            )
        }
    }))
}

/// A burning plant next to water at (dx, dy): it may spread into the water,
/// then its burn is put out.
fn plant_douse(cell: Cell, api: &mut SandApi, i: i32, dx: i32, dy: i32)
    requires
        old(api).wf(),
        old(api).at(0, 0).species != Species::Wall,
        cell.species != Species::Wall,
        cell.rb > 1,
        0 <= i <= 100,
        crate::api::is_step((dx, dy)),
    ensures
        turn_ok(old(api), final(api)),
        final(api).fluid == old(api).fluid,
        final(api).at(0, 0) == stamped(Cell { ra: 50, rb: 0, ..cell }, old(api).generation),
        final(api).cells@ == burn_cells(
            old(api),
            plant_douse_spread(old(api), cell, (dx as int, dy as int), old(api).rng.state),
            cell,
            (dx as int, dy as int),
            Species::Water,
            20,
            30,
            rng_step(old(api).rng.state),
        ),
{
    plant_spread(cell, api, i, dx, dy, Species::Water);
    burn_tick(cell, api, dx, dy, Species::Water, 20, 30);
}

/// Plant: lit by fire (while idle) or lava it takes a burn budget of 20;
/// next to wood it sprouts into a random vacancy; next to water (or to fungus
/// with room behind) it sometimes grows there and clears the cell behind;
/// while burning it counts down, throws fire into a vacancy and is put out by
/// water; a budget of 1 leaves a vacancy. Above potency 50, with no plant on
/// the lower diagonals, it grows downward into a vacancy through the growth
/// gate (threshold 165), or loses one potency when blocked.
#[verifier::rlimit(100)]
#[verifier::spinoff_prover]
pub fn update_plant(cell: Cell, api: &mut SandApi)
    requires
        old(api).wf(),
        old(api).at(0, 0).species != Species::Wall,
        cell.species != Species::Wall,
    ensures
        plant_post(old(api), final(api), cell),
{
    let rb = cell.rb;
    let i = api.rand_int(100);
    let (dx, dy) = api.rand_vec();
    let nbr_species = api.get(dx, dy).species;
    if rb == 0 && nbr_species == Species::Empty {
        plant_spread(cell, api, i, dx, dy, nbr_species);
        plant_grow(cell, api);
        return;
    }
    if rb > 1 && nbr_species == Species::Water {
        plant_douse(cell, api, i, dx, dy);
        return;
    }
    let lit = rb == 0 && nbr_species == Species::Fire || nbr_species == Species::Lava;
    if lit {
        api.set(0, 0, Cell { species: Species::Plant, ra: cell.ra, rb: 20, clock: 0 });
    }
    plant_spread(cell, api, i, dx, dy, nbr_species);
    burn_tick(cell, api, dx, dy, nbr_species, 20, 30);
    if rb == 0 && !lit {
        plant_grow(cell, api);
    }
}

/// Potency `ra` drifted by `i` mod 15 - 7, wrapping.
pub open spec fn spec_drifted(ra: u8, i: int) -> u8 {
    (ra + i % 15 - 7) as u8
}

/// The cells after a plant next to water at `d` spreads on random state
/// `st`: on a draw above 80 it grows into that water, with potency drifted by
/// the next draw, and clears the cell behind it (a wall stays).
pub open spec fn plant_douse_spread(a: &SandApi, cell: Cell, d: (int, int), st: u64) -> Seq<Cell> {
    if rng_draw(st, 100) > 80 {
        a.put(
            a.put(a.cells@, d.0, d.1, Cell { ra: spec_drifted(cell.ra, rng_draw(rng_step(st), 100)), rb: 0, ..cell }),
            -d.0,
            d.1,
            empty_cell(),
        )
    } else {
        a.cells@
    }
}

/// Plant next to wood sprouts into a random vacancy; next to water, or to
/// fungus with room behind, it grows into that neighbour on 20 draws in 101
/// and clears the cell behind. The cell itself is left alone.
#[verifier::rlimit(100)]
#[verifier::spinoff_prover]
fn plant_spread(cell: Cell, api: &mut SandApi, i: i32, dx: i32, dy: i32, nbr_species: Species)
    requires
        old(api).wf(),
        old(api).at(0, 0).species != Species::Wall,
        cell.species != Species::Wall,
        0 <= i <= 100,
        crate::api::is_step((dx, dy)),
    ensures
        turn_ok(old(api), final(api)),
        final(api).fluid == old(api).fluid,
        final(api).at(0, 0) == old(api).at(0, 0),
        nbr_species == Species::Empty ==> final(api).cells@ == old(api).cells@
            && final(api).rng.state == rng_step(old(api).rng.state),
        nbr_species == Species::Water ==> final(api).cells@ == plant_douse_spread(
            old(api),
            cell,
            (dx as int, dy as int),
            old(api).rng.state,
        ),
{
    if nbr_species == Species::Wood {
        let (dx, dy) = api.rand_vec();
        let newra = drifted(cell.ra, i);
        if api.get(dx, dy).species == Species::Empty {
            api.set(dx, dy, Cell { species: Species::Plant, ra: newra, rb: 0, clock: 0 });
        }
    }
    let chance = api.rand_int(100);
    if chance > 80 {
        let behind = api.get(-dx, dy).species;
        if nbr_species == Species::Water || nbr_species == Species::Fungus && (behind
            == Species::Empty || behind == Species::Water || behind == Species::Fungus) {
            let j = api.rand_int(100);
            let newra = drifted(cell.ra, j);
            api.set(dx, dy, Cell { ra: newra, rb: 0, ..cell });
            if behind != Species::Wall {
                api.set(-dx, dy, Cell::empty());
            }
        }
    }
}

/// The cells after a plant's growth step on random state `s`: above potency
/// 50 with no plant on the lower diagonals, it grows into a vacancy below
/// when the growth gate (threshold 165) accepts the first two draws, taking
/// its potency shifted by the third draw minus 20; when the way down is
/// occupied it loses one potency.
pub open spec fn plant_grow_cells(a: &SandApi, cell: Cell, s: u64) -> Seq<Cell> {
    let s1 = rng_step(s);
    let s2 = rng_step(s1);
    if cell.ra > 50 && a.at(1, 1).species != Species::Plant && a.at(-1, 1).species != Species::Plant {
        if a.at(0, 1).species == Species::Empty {
            if spec_growth_gate(rng_draw(s, 100), rng_draw(s1, 100), cell.ra as int, 165) {
                a.put(a.cells@, 0, 1, Cell { ra: (cell.ra + rng_draw(s2, 30) - 20) as u8, ..cell })
            } else {
                a.cells@
            }
        } else {
            a.put(a.cells@, 0, 0, Cell { ra: (cell.ra - 1) as u8, ..cell })
        }
    } else {
        a.cells@
    }
}

/// Plant above potency 50 with no plant on the lower diagonals: grows
/// downward into a vacancy through the growth gate, or loses one potency when
/// blocked.
fn plant_grow(cell: Cell, api: &mut SandApi)
    requires
        old(api).wf(),
        old(api).at(0, 0).species != Species::Wall,
        cell.species != Species::Wall,
    ensures
        turn_ok(old(api), final(api)),
        final(api).fluid == old(api).fluid,
        final(api).cells@ == plant_grow_cells(old(api), cell, old(api).rng.state),
{
    let ra = cell.ra;
    if ra > 50 && api.get(1, 1).species != Species::Plant && api.get(-1, 1).species
        != Species::Plant {
        if api.get(0, 1).species == Species::Empty {
            let grow = draw_growth_gate(api, ra, 165);
            let dec = api.rand_int(30) - 20;
            if grow {
                api.set(0, 1, Cell { ra: (ra as i32 + dec) as u8, ..cell });
            }
        } else {
            api.set(0, 0, Cell { ra: ra - 1, ..cell });
        }
    }
}

/// Whether a stem may rise from a seed towards `dxr`: the cell there, one row
/// up, is a vacancy, sand or seed, and no plant stands on either upper
/// diagonal.
pub open spec fn stem_room(a: &SandApi, dxr: int) -> bool {
    let top = a.at(dxr, -1).species;
    (top == Species::Empty || top == Species::Sand || top == Species::Seed) && a.at(1, -1).species
        != Species::Plant && a.at(-1, -1).species != Species::Plant
}

/// A germinated seed above potency 60: on 24 draws in 101 it grows a stem
/// into the cell above (towards a random side) if that is a vacancy, sand or
/// seed and no plant flanks the top, turning itself into plant; with the way
/// blocked it dies.
fn seed_stem(cell: Cell, api: &mut SandApi)
    requires
        old(api).wf(),
        old(api).at(0, 0).species != Species::Wall,
        cell.species != Species::Wall,
    ensures
        turn_ok(old(api), final(api)),
        final(api).fluid == old(api).fluid,
        ({
            let a = old(api);
            let s1 = rng_step(a.rng.state);
            let dxr: int = if rng_draw(a.rng.state, 1) == 0 { -1 } else { 1 };
            if rng_draw(s1, 100) <= 75 {
                final(api).cells@ == a.cells@
            } else if !stem_room(a, dxr) {
                final(api).cells@ == a.put(a.cells@, 0, 0, empty_cell())
            } else {
                &&& final(api).at(0, 0).species == Species::Plant
                &&& final(api).at(dxr, -1) == stamped(
                    Cell { ra: (cell.ra - rng_draw(rng_step(s1), 10)) as u8, ..cell },
                    a.generation,
                )
            }
        }),
{
    let ra = cell.ra;
    let dxr = api.rand_dir();
    if api.rand_int(100) > 75 {
        let top = api.get(dxr, -1).species;
        if (top == Species::Empty || top == Species::Sand || top == Species::Seed) && api.get(
            1,
            -1,
        ).species != Species::Plant && api.get(-1, -1).species != Species::Plant {
            let ra = (ra as i32 - api.rand_int(10)) as u8;
            api.set(dxr, -1, Cell { ra, ..cell });
            let ra2 = 80 + api.rand_int(30) as u8;
            api.set(0, 0, Cell { species: Species::Plant, ra: ra2, rb: 0, clock: 0 });
        } else {
            api.set(0, 0, Cell::empty());
        }
    }
}

/// The cells after a seed's petal step on random state `s`: into a drawn
/// neighbour that is a vacancy or plant, with a vacancy on one of its two
/// quarter-turn flanks, a petal grows when the growth gate (threshold 100)
/// accepts the next two draws, its potency lowered by 9 minus a fourth draw
/// in [0, 3].
pub open spec fn petal_cells(a: &SandApi, cell: Cell, s: u64) -> Seq<Cell> {
    let s1 = rng_step(s);
    let s2 = rng_step(s1);
    let s3 = rng_step(s2);
    let m = compass_at(rng_draw(s, 7));
    let l = crate::utils::spec_adjacency_left(m);
    let r = crate::utils::spec_adjacency_right(m);
    let target = a.at(m.0, m.1).species;
    if (target == Species::Empty || target == Species::Plant) && (a.at(l.0, l.1).species
        == Species::Empty || a.at(r.0, r.1).species == Species::Empty) && spec_growth_gate(
        rng_draw(s1, 100),
        rng_draw(s2, 100),
        cell.ra as int,
        100,
    ) {
        a.put(a.cells@, m.0, m.1, Cell { ra: (cell.ra - (9 - rng_draw(s3, 3))) as u8, ..cell })
    } else {
        a.cells@
    }
}

/// A germinated seed above potency 40: grows a petal through the growth gate
/// into a random vacancy or plant that has a vacancy on one flank.
fn seed_petals(cell: Cell, api: &mut SandApi)
    requires
        old(api).wf(),
        old(api).at(0, 0).species != Species::Wall,
        cell.species != Species::Wall,
    ensures
        turn_ok(old(api), final(api)),
        final(api).fluid == old(api).fluid,
        final(api).cells@ == petal_cells(old(api), cell, old(api).rng.state),
{
    let ra = cell.ra;
    let (mdx, mdy) = api.rand_vec();
    let (ldx, ldy) = adjacency_left((mdx, mdy));
    let (rdx, rdy) = adjacency_right((mdx, mdy));
    let m = api.get(mdx, mdy).species;
    if (m == Species::Empty || m == Species::Plant) && (api.get(ldx, ldy).species
        == Species::Empty || api.get(rdx, rdy).species == Species::Empty) {
        let grow = draw_growth_gate(api, ra, 100);
        let dec = 9 - api.rand_int(3);
        if grow {
            api.set(mdx, mdy, Cell { ra: (ra as i32 - dec) as u8, ..cell });
        }
    }
}

/// What a turn of the seed rule guarantees, from the window `a` before it to
/// the window `f` after it, for the cell `cell` whose turn it is.
pub open spec fn seed_post(a: &SandApi, f: &SandApi, cell: Cell) -> bool {
    &&& turn_ok(a, f)
    &&& f.fluid == a.fluid
    &&& (({
        let d = crate::api::compass_at(rng_draw(a.rng.state, 7));
        let s = a.at(d.0, d.1).species;
        (s == Species::Fire || s == Species::Lava) ==> f.cells@ == a.put(
            a.cells@,
            0,
            0,
            Cell { species: Species::Fire, ra: 5, rb: 0, clock: 0 },
        )
    }))
    &&& (({
        let s1 = rng_step(a.rng.state);
        let s2 = rng_step(s1);
        let d = compass_at(rng_draw(a.rng.state, 7));
        let s = a.at(d.0, d.1).species;
        // the side drawn after the neighbour: the way of a fall, or of a stem
        let side: int = if rng_draw(s1, 1) == 0 { -1 } else { 1 };
        let under = a.at(side, 1).species;
        let calm = s != Species::Fire && s != Species::Lava;
        &&& cell.rb != 0 && cell.ra > 60 && calm ==> if rng_draw(s2, 100) <= 75 {
            f.cells@ == a.cells@
        } else if !stem_room(a, side) {
            f.cells@ == a.put(a.cells@, 0, 0, empty_cell())
        } else {
            &&& f.at(0, 0).species == Species::Plant
            &&& f.at(side, -1) == stamped(
                Cell { ra: (cell.ra - rng_draw(rng_step(s2), 10)) as u8, ..cell },
                a.generation,
            )
        }
        &&& cell.rb == 0 && calm ==> f.cells@ == if under == Species::Sand || under
            == Species::Plant || under == Species::Fungus {
            a.put(a.cells@, 0, 0, Cell { rb: (rng_draw(s2, 253) + 1) as u8, ..cell })
        } else {
            granular_cells(a, cell, side)
        }
    }))
    &&& ({
        let s1 = rng_step(a.rng.state);
        let d = compass_at(rng_draw(a.rng.state, 7));
        let s = a.at(d.0, d.1).species;
        &&& cell.rb != 0 && 40 < cell.ra <= 60 && s != Species::Fire && s != Species::Lava
            ==> f.cells@ == petal_cells(a, cell, s1)
        &&& cell.rb != 0 && cell.ra <= 40 && s == Species::Water ==> f.cells@ == a.put(
            a.cells@,
            d.0,
            d.1,
            Cell::new_spec(Species::Seed, (100 + rng_draw(s1, 49)) as u8),
        )
    })
}

/// A germinated seed of potency 40 or less turns the water at (dx, dy), its
/// sampled neighbour of species `nbr_species`, into a fresh seed.
fn seed_sprout(api: &mut SandApi, dx: i32, dy: i32, nbr_species: Species)
    requires
        old(api).wf(),
        -1 <= dx <= 1,
        -1 <= dy <= 1,
    ensures
        turn_ok(old(api), final(api)),
        final(api).fluid == old(api).fluid,
        final(api).cells@ == if nbr_species == Species::Water {
            old(api).put(
                old(api).cells@,
                dx as int,
                dy as int,
                Cell::new_spec(Species::Seed, (100 + rng_draw(old(api).rng.state, 49)) as u8),
            )
        } else {
            old(api).cells@
        },
{
    if nbr_species == Species::Water {
        let fresh = 100 + api.rand_int(49) as u8;
        api.set(dx, dy, Cell::new(Species::Seed, fresh));
    }
}

/// Seed: burns to a short fire next to fire or lava. Falling (`rb` 0), it
/// lands on sand, plant or fungus, taking a germination budget in 1..=254,
/// else falls like sand. Germinated: above potency 60 it sometimes grows a
/// stem upward (unless plant flanks the top) and turns into plant, or dies
/// when the way up is blocked; above 40 it grows petals into a vacancy or
/// plant with a free flank through the growth gate (threshold 100); lower,
/// it turns neighbouring water into a new seed.
#[verifier::rlimit(100)]
#[verifier::spinoff_prover]
pub fn update_seed(cell: Cell, api: &mut SandApi)
    requires
        old(api).wf(),
        old(api).at(0, 0).species != Species::Wall,
        cell.species != Species::Wall,
    ensures
        seed_post(old(api), final(api), cell),
{
    let rb = cell.rb;
    let ra = cell.ra;
    let (dx, dy) = api.rand_vec();
    let nbr_species = api.get(dx, dy).species;
    if nbr_species == Species::Fire || nbr_species == Species::Lava {
        api.set(0, 0, Cell { species: Species::Fire, ra: 5, rb: 0, clock: 0 });
        return;
    }
    if rb == 0 {
        let dxf = api.rand_dir();
        let under = api.get(dxf, 1).species;
        if under == Species::Sand || under == Species::Plant || under == Species::Fungus {
            let rb = (api.rand_int(253) + 1) as u8;
            api.set(0, 0, Cell { rb, ..cell });
            return;
        }
        fall_granular(cell, api, dxf);
    } else if ra > 60 {
        seed_stem(cell, api);
    } else if ra > 40 {
        seed_petals(cell, api);
    } else {
        seed_sprout(api, dx, dy, nbr_species);
    }
}

/// What a turn of the fungus rule guarantees, from the window `a` before it to
/// the window `f` after it, for the cell `cell` whose turn it is.
pub open spec fn fungus_post(a: &SandApi, f: &SandApi, cell: Cell) -> bool {
    &&& turn_ok(a, f)
    &&& f.fluid == a.fluid
    &&& (({
        let d = compass_at(rng_draw(a.rng.state, 7));
        let nbr = a.at(d.0, d.1).species;
        {
            &&& cell.rb == 1 ==> f.at(0, 0) == stamped(empty_cell(), a.generation)
            &&& cell.rb > 1 && nbr == Species::Water ==> f.at(0, 0) == stamped(
                Cell { ra: 50, rb: 0, ..cell },
                a.generation,
            )
            &&& cell.rb > 1 && nbr == Species::Water ==> f.at(d.0, d.1) == a.at(d.0, d.1)
            &&& cell.rb == 0 && nbr == Species::Empty ==> f.cells@ == fungus_grow_cells(
                a,
                cell,
                rng_step(rng_step(a.rng.state)),
            )
        }
    }))
}

/// Fungus: lit by fire (while idle) or lava it takes a burn budget of 10;
/// next to anything but a vacancy, fungus, fire or ice it sprouts into a
/// random vacancy; into wood flanked by wood it sometimes spreads; while
/// burning it counts down, throws fire into a vacancy and is put out by
/// water; a budget of 1 leaves a vacancy. Above potency 120 it grows into a
/// vacancy not flanked by fungus through the growth gate (threshold 165).
#[verifier::rlimit(100)]
#[verifier::spinoff_prover]
pub fn update_fungus(cell: Cell, api: &mut SandApi)
    requires
        old(api).wf(),
        old(api).at(0, 0).species != Species::Wall,
        cell.species != Species::Wall,
    ensures
        fungus_post(old(api), final(api), cell),
{
    let rb = cell.rb;
    let (dx, dy) = api.rand_vec();
    let nbr_species = api.get(dx, dy).species;
    if rb == 0 && nbr_species == Species::Empty {
        fungus_spread(cell, api, dx, dy, nbr_species);
        fungus_grow(cell, api);
        return;
    }
    if rb == 0 && nbr_species == Species::Fire || nbr_species == Species::Lava {
        api.set(0, 0, Cell { species: Species::Fungus, ra: cell.ra, rb: 10, clock: 0 });
    }
    fungus_spread(cell, api, dx, dy, nbr_species);
    burn_tick(cell, api, dx, dy, nbr_species, 10, 10);
    fungus_grow(cell, api);
}

/// Fungus next to anything but a vacancy, fungus, fire or ice sprouts into a
/// random vacancy; into wood flanked by wood (whose potency is not a multiple
/// of 4) it spreads on 91 draws in 101. The cell itself is left alone.
#[verifier::rlimit(100)]
#[verifier::spinoff_prover]
fn fungus_spread(cell: Cell, api: &mut SandApi, dx: i32, dy: i32, nbr_species: Species)
    requires
        old(api).wf(),
        old(api).at(0, 0).species != Species::Wall,
        cell.species != Species::Wall,
        crate::api::is_step((dx, dy)),
    ensures
        turn_ok(old(api), final(api)),
        final(api).fluid == old(api).fluid,
        final(api).at(0, 0) == old(api).at(0, 0),
        nbr_species == Species::Empty ==> final(api).cells@ == old(api).cells@
            && final(api).rng.state == rng_step(old(api).rng.state),
        nbr_species == Species::Water && old(api).at(dx as int, dy as int).species == Species::Water
            ==> final(api).at(dx as int, dy as int) == old(api).at(dx as int, dy as int),
{
    let i = api.rand_int(100);
    if nbr_species != Species::Empty && nbr_species != Species::Fungus && nbr_species
        != Species::Fire && nbr_species != Species::Ice {
        let (dx, dy) = api.rand_vec();
        let newra = drifted(cell.ra, i);
        if api.get(dx, dy).species == Species::Empty {
            api.set(dx, dy, Cell { species: Species::Fungus, ra: newra, rb: 0, clock: 0 });
        }
    }
    if i > 9 && nbr_species == Species::Wood && api.get(-dx, dy).species == Species::Wood
        && api.get(dx, -dy).species == Species::Wood && api.get(dx, dy).ra % 4 != 0 {
        let j = api.rand_int(100);
        let newra = drifted(cell.ra, j);
        api.set(dx, dy, Cell { ra: newra, rb: 0, ..cell });
    }
}

/// The cells after a fungus's growth step on random state `s`: above
/// potency 120 it draws a direction and, into a vacancy there whose two
/// quarter-turn flanks hold no fungus, grows when the growth gate (threshold
/// 165) accepts the next two draws, its potency lowered by 15 minus a fourth
/// draw in [0, 20].
pub open spec fn fungus_grow_cells(a: &SandApi, cell: Cell, s: u64) -> Seq<Cell> {
    let s1 = rng_step(s);
    let s2 = rng_step(s1);
    let s3 = rng_step(s2);
    let m = compass_at(rng_draw(s, 7));
    let l = crate::utils::spec_adjacency_left(m);
    let r = crate::utils::spec_adjacency_right(m);
    if cell.ra > 120 && a.at(m.0, m.1).species == Species::Empty && a.at(l.0, l.1).species
        != Species::Fungus && a.at(r.0, r.1).species != Species::Fungus && spec_growth_gate(
        rng_draw(s1, 100),
        rng_draw(s2, 100),
        cell.ra as int,
        165,
    ) {
        a.put(a.cells@, m.0, m.1, Cell { ra: (cell.ra - (15 - rng_draw(s3, 20))) as u8, ..cell })
    } else {
        a.cells@
    }
}

/// Fungus above potency 120: grows into a vacancy not flanked by fungus
/// through the growth gate.
fn fungus_grow(cell: Cell, api: &mut SandApi)
    requires
        old(api).wf(),
        old(api).at(0, 0).species != Species::Wall,
        cell.species != Species::Wall,
    ensures
        turn_ok(old(api), final(api)),
        final(api).fluid == old(api).fluid,
        final(api).cells@ == fungus_grow_cells(old(api), cell, old(api).rng.state),
        final(api).at(0, 0) == old(api).at(0, 0),
{
    let ra = cell.ra;
    if ra > 120 {
        let (mdx, mdy) = api.rand_vec();
        let (ldx, ldy) = adjacency_left((mdx, mdy));
        let (rdx, rdy) = adjacency_right((mdx, mdy));
        if api.get(mdx, mdy).species == Species::Empty && api.get(ldx, ldy).species
            != Species::Fungus && api.get(rdx, rdy).species != Species::Fungus {
            let grow = draw_growth_gate(api, ra, 165);
            let dec = 15 - api.rand_int(20);
            if grow {
                api.set(mdx, mdy, Cell { ra: (ra as i32 - dec) as u8, ..cell });
            }
        }
    }
}

/// Where a mite heads and what it becomes on the way: `ra` up to 3 gives a
/// lateral bias `ra - 1`; a hop height `rb` above 10 rises (spending one),
/// above 1 falls diagonally (spending one), else falls straight down.
pub open spec fn mite_course(cell: Cell) -> (int, int, Cell) {
    let bias: int = if cell.ra <= 3 { cell.ra - 1 } else { 0 };
    if cell.rb > 10 {
        (bias, -1, Cell { rb: (cell.rb - 1) as u8, ..cell })
    } else if cell.rb > 1 {
        (bias, 1, Cell { rb: (cell.rb - 1) as u8, ..cell })
    } else {
        (0, 1, cell)
    }
}

/// A landed mite taking a new hop from draw `j` in [0, 100]: a lateral bias
/// from `j` (or the old one when `j` < 6) and a hop height 10 + `j` mod 10.
pub open spec fn mite_hop(mite: Cell, dx: int, j: int) -> Cell {
    let ndx: int = if j < 6 { dx } else { j % 3 - 1 };
    Cell { ra: (1 + ndx) as u8, rb: (10 + j % 10) as u8, ..mite }
}

/// The samples that kill a mite.
pub open spec fn mite_bane(s: Species) -> bool {
    s == Species::Fire || s == Species::Lava || s == Species::Water || s == Species::Oil
}

/// The samples that a mite may ride into.
pub open spec fn mite_food(s: Species) -> bool {
    s == Species::Plant || s == Species::Wood || s == Species::Seed
}

/// A mite's move after sampling, with its course (dx, dy), its updated self
/// `mite`, whether the target was a vacancy, and the sampling draw `i`.
fn mite_step(mite: Cell, api: &mut SandApi, dx: i32, dy: i32, target_empty: bool, i: i32)
    requires
        old(api).wf(),
        old(api).at(0, 0).species != Species::Wall,
        mite.species != Species::Wall,
        -1 <= dx <= 2,
        dy == 1 || dy == -1,
        0 <= i <= 1000,
    ensures
        turn_ok(old(api), final(api)),
        final(api).fluid == old(api).fluid,
        ({
            let a = old(api);
            if target_empty {
                final(api).cells@ == a.put(a.put(a.cells@, 0, 0, empty_cell()), dx as int, dy as int, mite)
            } else if dy == 1 && i > 800 {
                final(api).cells@ == a.put(
                    a.cells@,
                    0,
                    0,
                    mite_hop(mite, dx as int, rng_draw(a.rng.state, 100)),
                )
            } else if a.at(-1, 0).species == Species::Mite && a.at(1, 0).species == Species::Mite
                && a.at(0, -1).species == Species::Mite {
                final(api).cells@ == a.put(a.cells@, 0, 0, empty_cell())
            } else if a.at(0, 1).species == Species::Ice {
                final(api).cells@ == if a.at(dx as int, 0).species == Species::Empty {
                    a.put(a.put(a.cells@, 0, 0, empty_cell()), dx as int, 0, mite)
                } else {
                    a.cells@
                }
            } else {
                final(api).cells@ == a.put(a.cells@, 0, 0, mite)
            }
        }),
{
    let mut mite = mite;
    if target_empty {
        api.set(0, 0, Cell::empty());
        api.set(dx, dy, mite);
    } else if dy == 1 && i > 800 {
        let j = api.rand_int(100);
        let mut ndx = (j % 3) - 1;
        if j < 6 {
            ndx = dx;
        }
        mite.ra = (1 + ndx) as u8;
        mite.rb = 10 + (j % 10) as u8;
        api.set(0, 0, mite);
    } else if api.get(-1, 0).species == Species::Mite && api.get(1, 0).species == Species::Mite
        && api.get(0, -1).species == Species::Mite {
        api.set(0, 0, Cell::empty());
    } else if api.get(0, 1).species == Species::Ice {
        if api.get(dx, 0).species == Species::Empty {
            api.set(0, 0, Cell::empty());
            api.set(dx, 0, mite);
        }
    } else {
        api.set(0, 0, mite);
    }
}

/// What a turn of the mite rule guarantees, from the window `a` before it to
/// the window `f` after it, for the cell `cell` whose turn it is.
pub open spec fn mite_post(a: &SandApi, f: &SandApi, cell: Cell) -> bool {
    &&& turn_ok(a, f)
    &&& f.fluid == a.fluid
    &&& (({
        let s1 = rng_step(a.rng.state);
        let s2 = rng_step(s1);
        let i = rng_draw(s1, 1000);
        let sx = rng_draw(a.rng.state, 100) % 3 - 1;
        let sy = i % 3 - 1;
        let sample = a.at(sx, sy).species;
        let (dx, dy, mite) = mite_course(cell);
        let c1 = if sample == Species::Dust {
            a.put(a.cells@, sx, sy, if i > 800 { cell } else { empty_cell() })
        } else {
            a.cells@
        };
        if mite_bane(sample) {
            f.cells@ == a.put(a.cells@, 0, 0, empty_cell())
        } else if mite_food(sample) && i > 800 {
            f.cells@ == a.put(a.put(a.cells@, 0, 0, empty_cell()), sx, sy, cell)
        } else if a.at(dx, dy).species == Species::Empty {
            f.cells@ == a.put(a.put(c1, 0, 0, empty_cell()), dx, dy, mite)
        } else if dy == 1 && i > 800 {
            f.cells@ == a.put(c1, 0, 0, mite_hop(mite, dx, rng_draw(s2, 100)))
        } else if cell_in(a, c1, -1, 0).species == Species::Mite && cell_in(a, c1, 1, 0).species
            == Species::Mite && cell_in(a, c1, 0, -1).species == Species::Mite {
            f.cells@ == a.put(c1, 0, 0, empty_cell())
        } else if cell_in(a, c1, 0, 1).species == Species::Ice {
            f.cells@ == if cell_in(a, c1, dx, 0).species == Species::Empty {
                a.put(a.put(c1, 0, 0, empty_cell()), dx, 0, mite)
            } else {
                c1
            }
        } else {
            f.cells@ == a.put(c1, 0, 0, mite)
        }
    }))
}

/// Mite: heads along `mite_course`. A sampled fire, lava, water or oil kills
/// it; it sometimes rides into sampled plant, wood or seed; a sampled dust is
/// eaten or taken over. It then moves into a vacancy on its course; when
/// landed it sometimes takes a new hop; boxed in by mites on three sides it
/// vanishes; on ice it walks sideways into a vacancy; else it stays.
#[verifier::rlimit(100)]
#[verifier::spinoff_prover]
pub fn update_mite(cell: Cell, api: &mut SandApi)
    requires
        old(api).wf(),
        old(api).at(0, 0).species != Species::Wall,
        cell.species != Species::Wall,
    ensures
        mite_post(old(api), final(api), cell),
{
    let i0 = api.rand_int(100);
    let mut dx: i32 = 0;
    if cell.ra <= 3 {
        dx = (cell.ra as i32) - 1;
    }
    let mut dy: i32 = 1;
    let mut mite = cell;
    if cell.rb > 10 {
        mite.rb = cell.rb - 1;
        dy = -1;
    } else if cell.rb > 1 {
        mite.rb = cell.rb - 1;
    } else {
        dx = 0;
    }
    let nbr = api.get(dx, dy);
    let sx = (i0 % 3) - 1;
    let i = api.rand_int(1000);
    let sy = (i % 3) - 1;
    let sample = api.get(sx, sy).species;
    if sample == Species::Fire || sample == Species::Lava || sample == Species::Water || sample
        == Species::Oil {
        api.set(0, 0, Cell::empty());
        return;
    }
    if (sample == Species::Plant || sample == Species::Wood || sample == Species::Seed) && i > 800 {
        api.set(0, 0, Cell::empty());
        api.set(sx, sy, cell);
        return;
    }
    if sample == Species::Dust {
        api.set(sx, sy, if i > 800 { cell } else { Cell::empty() });
    }
    mite_step(mite, api, dx, dy, nbr.species == Species::Empty, i);
}

/// Whether a cloner or rocket may take a neighbour of species `s` as its
/// payload.
pub open spec fn latchable(s: Species) -> bool {
    s != Species::Empty && s != Species::Cloner && s != Species::Wall
}

/// The offset visited `k`-th (0..=8) by a cloner's scan: column by column,
/// top to bottom, which is the order of the direction codec.
pub open spec fn scan_at(k: int) -> (int, int) {
    crate::utils::spec_split(k)
}

/// Whether the `k`-th neighbour of a cloner's scan can be latched.
pub open spec fn latch_at(a: &SandApi, k: int) -> bool {
    let d = scan_at(k);
    latchable(a.at(d.0, d.1).species)
}

/// The cloner after latching the `k`-th neighbour of its scan.
pub open spec fn latched_cloner(a: &SandApi, cell: Cell, k: int) -> Cell {
    let d = scan_at(k);
    Cell { species: cell.species, ra: 200, rb: crate::cell::spec_code(a.at(d.0, d.1).species), clock: 0 }
}

/// What a set cloner may leave in a cell: a copy of the latched species with
/// budget 0 and potency in 80..=176.
pub open spec fn clone_of(c: Cell, latched: u8) -> bool {
    crate::cell::spec_code(c.species) == latched && c.rb == 0 && 80 <= c.ra <= 176
}

/// What a turn of the cloner rule guarantees, from the window `a` before it to
/// the window `f` after it, for the cell `cell` whose turn it is.
pub open spec fn cloner_post(a: &SandApi, f: &SandApi, cell: Cell) -> bool {
    &&& turn_ok(a, f)
    &&& f.fluid == a.fluid
    &&& (cell.rb == 0 && (forall|k: int| 0 <= k < 9 ==> !latch_at(a, k)) ==> f.cells@
        == a.cells@)
    &&& (cell.rb == 0 && (exists|k: int| 0 <= k < 9 && latch_at(a, k)) ==> exists|k: int|
        0 <= k < 9 && latch_at(a, k) && (forall|m: int| 0 <= m < k ==> !latch_at(a, m))
            && f.cells@ == a.put(a.cells@, 0, 0, latched_cloner(a, cell, k)))
    &&& (cell.rb != 0 ==> forall|i: int|
        0 <= i < a.cells@.len() && #[trigger] f.cells@[i] != a.cells@[i] ==> {
            &&& a.cells@[i].species == Species::Empty
            &&& clone_of(f.cells@[i], cell.rb)
        })
    &&& (cell.rb != 0 ==> live_count(a.cells@) <= live_count(f.cells@)
        <= live_count(a.cells@) + 1)
    &&& (cell.rb != 0 ==> f.cells@ == cloner_spawn_cells(a, cell.rb))
}

/// The potency jitter that the tick counter `g` gives to clones:
/// |g mod 127 - 60|.
pub open spec fn clone_jitter(g: u8) -> int {
    let d = (g % 127) as int - 60;
    if d < 0 { -d } else { d }
}

/// The cells after a set cloner, latched on species `s`, scans from the
/// `k`-th neighbour on with random state `st`: at the first neighbour whose
/// draw in [0, 100] exceeds 90 and which is a vacancy, a copy of `s` with
/// potency 80 + a draw in [0, 30] + `jitter` appears; if none, nothing
/// changes.
pub open spec fn clone_spawn(a: &SandApi, s: Species, jitter: int, k: int, st: u64) -> Seq<Cell>
    decreases 9 - k,
{
    if k < 0 || k >= 9 {
        a.cells@
    } else {
        let d = scan_at(k);
        if rng_draw(st, 100) > 90 && a.at(d.0, d.1).species == Species::Empty {
            a.put(
                a.cells@,
                d.0,
                d.1,
                Cell { species: s, ra: (80 + rng_draw(rng_step(st), 30) + jitter) as u8, rb: 0, clock: 0 },
            )
        } else {
            clone_spawn(a, s, jitter, k + 1, rng_step(st))
        }
    }
}

/// The cells after a set cloner with budget byte `rb` takes its turn: a scan
/// spawning its latched species, or nothing for a byte that is no species'
/// code.
pub open spec fn cloner_spawn_cells(a: &SandApi, rb: u8) -> Seq<Cell> {
    if exists|s: Species| crate::cell::spec_code(s) == rb {
        clone_spawn(
            a,
            choose|s: Species| crate::cell::spec_code(s) == rb,
            clone_jitter(a.generation),
            0,
            a.rng.state,
        )
    } else {
        a.cells@
    }
}

/// Cloner. Unset (`rb` 0): scans its neighbourhood column by column for the
/// first species other than vacancy, cloner and wall, and latches its code in
/// `rb` (with potency 200); with none it stays as it is. Set: visits the
/// neighbourhood in the same order and, at the first vacancy where a draw in
/// [0, 100] exceeds 90, spawns one copy of the latched species with potency
/// jittered by the tick counter. It adds at most one cell of matter per turn.
pub fn update_cloner(cell: Cell, api: &mut SandApi)
    requires
        old(api).wf(),
        old(api).at(0, 0).species != Species::Wall,
        cell.species != Species::Wall,
    ensures
        cloner_post(old(api), final(api), cell),
{
    let ghost a0 = *api;
    let g = api.generation;
    if cell.rb == 0 {
        let mut k: u8 = 0;
        while k < 9
            invariant
                0 <= k <= 9,
                cell.rb == 0,
                a0 == *old(api),
                turn_ok(&a0, api),
                api.fluid == a0.fluid,
                api.cells@ == a0.cells@,
                forall|m: int| 0 <= m < k ==> !latch_at(&a0, m),
            decreases 9 - k,
        {
            let (dx, dy) = split_dy_dx(k);
            let s = api.get(dx, dy).species;
            assert(s == a0.at(scan_at(k as int).0, scan_at(k as int).1).species);
            if s != Species::Empty && s != Species::Cloner && s != Species::Wall {
                let c = Cell { species: cell.species, ra: 200, rb: s.code(), clock: 0 };
                proof {
                    assert(scan_at(k as int) == (dx as int, dy as int));
                    assert(a0.at(dx as int, dy as int).species == s);
                    assert(latch_at(&a0, k as int));
                    assert(c == latched_cloner(&a0, cell, k as int));
                }
                api.set(0, 0, c);
                proof {
                    assert(api.cells@ == a0.put(a0.cells@, 0, 0, latched_cloner(&a0, cell, k as int)));
                }
                return;
            }
            k = k + 1;
        }
        return;
    }
    let latched = Species::from_code(cell.rb);
    let clone_species = match latched {
        Some(s) => s,
        None => {
            return;
        },
    };
    proof {
        crate::cell::lemma_code_injective(clone_species, Species::Empty);
        let c = choose|c: Species| crate::cell::spec_code(c) == cell.rb;
        crate::cell::lemma_code_injective(c, clone_species);
    }
    let jitter: i32 = {
        let d = (g % 127) as i32 - 60;
        if d < 0 {
            -d
        } else {
            d
        }
    };
    let mut k: u8 = 0;
    while k < 9
        invariant
            0 <= k <= 9,
            a0 == *old(api),
            g == a0.generation,
            turn_ok(&a0, api),
            api.fluid == a0.fluid,
            api.cells@ == a0.cells@,
            clone_species != Species::Empty,
            crate::cell::spec_code(clone_species) == cell.rb,
            0 <= jitter <= 66,
            jitter == clone_jitter(g),
            cloner_spawn_cells(&a0, cell.rb) == clone_spawn(&a0, clone_species, jitter as int, k as int, api.rng.state),
        decreases 9 - k,
    {
        let (dx, dy) = split_dy_dx(k);
        let draw = api.rand_int(100);
        if draw > 90 && api.get(dx, dy).species == Species::Empty {
            let ra = 80 + api.rand_int(30) as u8 + jitter as u8;
            let ghost before = *api;
            let spawn = Cell { species: clone_species, ra, rb: 0, clock: 0 };
            api.set(dx, dy, spawn);
            proof {
                lemma_live_after_set(before, dx as int, dy as int, spawn);
                assert(clone_of(stamped(spawn, g), cell.rb));
                assert forall|i: int|
                    0 <= i < a0.cells@.len() && #[trigger] api.cells@[i] != a0.cells@[i] implies {
                        &&& a0.cells@[i].species == Species::Empty
                        &&& clone_of(api.cells@[i], cell.rb)
                    } by {
                    assert(i == a0.offset_index(dx as int, dy as int));
                }
                assert(scan_at(k as int) == (dx as int, dy as int));
            }
            return;
        }
        k = k + 1;
    }
}

/// The heading that a rocket choosing its course stores: the drawn compass
/// direction `d`, reversed when the neighbour there is occupied.
pub open spec fn chosen_heading(a: &SandApi, d: (int, int)) -> (int, int) {
    if a.at(d.0, d.1).species != Species::Empty {
        (-d.0, -d.1)
    } else {
        d
    }
}

/// A rocket choosing its course: draws a compass direction, turns back if the
/// neighbour there is occupied, and stores the heading as potency
/// 100 + code.
fn rocket_select(cell: Cell, api: &mut SandApi)
    requires
        old(api).wf(),
        old(api).at(0, 0).species != Species::Wall,
        cell.species != Species::Wall,
    ensures
        turn_ok(old(api), final(api)),
        final(api).fluid == old(api).fluid,
        ({
            let a = old(api);
            let h = chosen_heading(a, compass_at(rng_draw(a.rng.state, 7)));
            final(api).cells@ == a.put(
                a.cells@,
                0,
                0,
                Cell { ra: (100 + crate::utils::spec_join(h.0, h.1)) as u8, ..cell },
            )
        }),
{
    let (mut dx, mut dy) = api.rand_vec_8();
    let nbr = api.get(dx, dy);
    if nbr.species != Species::Empty {
        dx = -dx;
        dy = -dy;
    }
    let code = join_dy_dx(dx, dy);
    api.set(0, 0, Cell { ra: 100 + code, ..cell });
}

/// The species of a rocket's exhaust for budget byte `rb`: sand while the
/// payload is unset (100), else the latched species, or a vacancy for a byte
/// that is no species' code or is the wall's.
pub open spec fn rocket_trail(rb: u8) -> Species {
    if rb == 100 {
        Species::Sand
    } else if exists|s: Species| crate::cell::spec_code(s) == rb && s != Species::Wall {
        choose|s: Species| crate::cell::spec_code(s) == rb && s != Species::Wall
    } else {
        Species::Empty
    }
}

/// Whether a flying rocket may advance into a cell of species `s`.
pub open spec fn open_sky(s: Species) -> bool {
    s == Species::Empty || s == Species::Fire || s == Species::Rocket
}

/// A rocket in flight with heading code `ra - 100`: with open sky two rows
/// along the heading it leaves `trail` at its position and one row along,
/// moves there, and keeps its heading or veers a quarter turn; else it
/// fizzles out.
fn rocket_fly(cell: Cell, api: &mut SandApi, trail: Species)
    requires
        old(api).wf(),
        old(api).at(0, 0).species != Species::Wall,
        cell.species != Species::Wall,
        100 <= cell.ra <= 108,
        trail != Species::Wall,
    ensures
        turn_ok(old(api), final(api)),
        final(api).fluid == old(api).fluid,
        ({
            let a = old(api);
            let h = crate::utils::spec_split(cell.ra - 100);
            let t = (h.0, 2 * h.1);
            if open_sky(a.at(t.0, t.1).species) {
                &&& final(api).at(t.0, t.1).species == cell.species
                &&& final(api).at(t.0, t.1).rb == cell.rb
                &&& exists|n: (int, int)|
                    (n == h || n == crate::utils::spec_adjacency_left(h) || n
                        == crate::utils::spec_adjacency_right(h)) && final(api).at(t.0, t.1).ra == 100
                        + crate::utils::spec_join(n.0, n.1)
                &&& h != (0int, 0int) ==> final(api).at(0, 0).species == trail
                &&& h.1 != 0 && a.at(0, h.1).species != Species::Wall ==> final(api).at(0, h.1).species
                    == trail
            } else {
                final(api).cells@ == a.put(a.cells@, 0, 0, empty_cell())
            }
        }),
{
    let (dx, dy) = split_dy_dx(cell.ra - 100);
    let nbr = api.get(dx, dy * 2);
    if nbr.species == Species::Empty || nbr.species == Species::Fire || nbr.species
        == Species::Rocket {
        let ra = 100 + api.rand_int(49) as u8;
        api.set(0, 0, Cell::new(trail, ra));
        let ra = 100 + api.rand_int(49) as u8;
        api.set(0, dy, Cell::new(trail, ra));
        let turn = api.rand_int(100) % 5;
        let (ndx, ndy) = if turn == 0 {
            adjacency_left((dx, dy))
        } else if turn == 1 {
            adjacency_right((dx, dy))
        } else {
            (dx, dy)
        };
        let code = join_dy_dx(ndx, ndy);
        api.set(dx, dy * 2, Cell { ra: 100 + code, ..cell });
        proof {
            let n = (ndx as int, ndy as int);
            let h = (dx as int, dy as int);
            assert((n == h || n == crate::utils::spec_adjacency_left(h) || n
                == crate::utils::spec_adjacency_right(h)) && api.at(h.0, 2 * h.1).ra == 100
                + crate::utils::spec_join(n.0, n.1));
        }
    } else {
        api.set(0, 0, Cell::empty());
    }
}

/// What a turn of the rocket rule guarantees, from the window `a` before it to
/// the window `f` after it, for the cell `cell` whose turn it is.
pub open spec fn rocket_post(a: &SandApi, f: &SandApi, cell: Cell) -> bool {
    &&& turn_ok(a, f)
    &&& f.fluid == a.fluid
    &&& (cell.rb == 0 ==> f.rng == a.rng)
    &&& (cell.rb == 0 ==> f.cells@ == a.put(
        a.cells@,
        0,
        0,
        Cell { ra: 0, rb: 100, ..cell },
    ))
    &&& (({
        let d = crate::api::compass_at(rng_draw(a.rng.state, 7));
        let sample = a.at(d.0, d.1).species;
        cell.rb == 100 && latchable(sample) && sample != Species::Rocket
            ==> f.cells@ == a.put(
            a.cells@,
            0,
            0,
            Cell { ra: 1, rb: crate::cell::spec_code(sample), ..cell },
        )
    }))
    &&& (({
        let d = crate::api::compass_at(rng_draw(a.rng.state, 7));
        let sample = a.at(d.0, d.1).species;
        cell.rb != 0 && !(cell.rb == 100 && latchable(sample) && sample != Species::Rocket)
            ==> {
            &&& cell.ra == 0 ==> f.cells@ == granular_cells(
                a,
                cell,
                if rng_draw(rng_step(a.rng.state), 1) == 0 { -1 } else { 1 },
            )
            &&& cell.ra == 1 ==> f.cells@ == a.put(a.cells@, 0, 0, Cell { ra: 2, ..cell })
            &&& 100 <= cell.ra <= 108 ==> {
                let h = crate::utils::spec_split(cell.ra - 100);
                let ahead = a.at(h.0, 2 * h.1).species;
                let trail = rocket_trail(cell.rb);
                if open_sky(ahead) {
                    &&& f.at(h.0, 2 * h.1).species == cell.species
                    &&& f.at(h.0, 2 * h.1).rb == cell.rb
                    &&& 100 <= f.at(h.0, 2 * h.1).ra <= 108
                    &&& exists|n: (int, int)|
                        (n == h || n == crate::utils::spec_adjacency_left(h) || n
                            == crate::utils::spec_adjacency_right(h)) && f.at(h.0, 2 * h.1).ra == 100
                            + crate::utils::spec_join(n.0, n.1)
                    &&& h != (0int, 0int) ==> f.at(0, 0).species == trail
                    &&& h.1 != 0 && a.at(0, h.1).species != Species::Wall ==> f.at(0, h.1).species
                        == trail
                } else {
                    f.cells@ == a.put(a.cells@, 0, 0, empty_cell())
                }
            }
            &&& cell.ra == 2 ==> {
                let h = chosen_heading(a, compass_at(rng_draw(rng_step(a.rng.state), 7)));
                f.cells@ == a.put(
                    a.cells@,
                    0,
                    0,
                    Cell { ra: (100 + crate::utils::spec_join(h.0, h.1)) as u8, ..cell },
                )
            }
        }
    }))
}

/// Rocket. Unset: takes the sentinel budget 100. Waiting: a sampled
/// neighbour other than vacancy, rocket, wall and cloner becomes its payload
/// (code in `rb`) and it launches (potency 1); with none it falls like sand.
/// Launching: potency 2. Choosing: samples a direction, turns back if that
/// neighbour is occupied, and stores the heading as potency 100 + code. In
/// flight: with a vacancy, fire or rocket two rows along its heading it
/// leaves payload behind, moves there and veers a quarter turn on two draws
/// in five; else it fizzles out. Each turn advances the stage by at most one.
#[verifier::rlimit(100)]
#[verifier::spinoff_prover]
pub fn update_rocket(cell: Cell, api: &mut SandApi)
    requires
        old(api).wf(),
        old(api).at(0, 0).species != Species::Wall,
        cell.species != Species::Wall,
    ensures
        rocket_post(old(api), final(api), cell),
{
    if cell.rb == 0 {
        api.set(0, 0, Cell { ra: 0, rb: 100, ..cell });
        return;
    }
    let payload = if cell.rb != 100 {
        Species::from_code(cell.rb)
    } else {
        Some(Species::Sand)
    };
    let (sx, sy) = api.rand_vec();
    let sample = api.get(sx, sy);
    if cell.rb == 100 && sample.species != Species::Empty && sample.species != Species::Rocket
        && sample.species != Species::Wall && sample.species != Species::Cloner {
        api.set(0, 0, Cell { ra: 1, rb: sample.species.code(), ..cell });
        return;
    }
    let ra = cell.ra;
    if ra == 0 {
        let dx = api.rand_dir();
        fall_granular(cell, api, dx);
    } else if ra == 1 {
        api.set(0, 0, Cell { ra: 2, ..cell });
    } else if ra == 2 {
        rocket_select(cell, api);
    } else if 100 <= ra && ra <= 108 {
        let trail = match payload {
            Some(s) => if s == Species::Wall {
                Species::Empty
            } else {
                s
            },
            None => Species::Empty,
        };
        proof {
            if cell.rb != 100 {
                if let Some(s) = payload {
                    if s != Species::Wall {
                        let c = choose|c: Species| crate::cell::spec_code(c) == cell.rb && c != Species::Wall;
                        crate::cell::lemma_code_injective(c, s);
                    } else {
                        assert forall|c: Species| !(crate::cell::spec_code(c) == cell.rb && c != Species::Wall) by {
                            crate::cell::lemma_code_injective(c, s);
                        }
                    }
                }
            }
            assert(trail == rocket_trail(cell.rb));
        }
        rocket_fly(cell, api, trail);
    }
}

/// A fresh rocket taken through four turns, each starting from the window
/// the previous one left and on the cell then at the position, goes through
/// its stages in order without skipping one: sentinel budget (100, potency
/// 0), payload latched from the sample of the second turn (potency 1),
/// launch (potency 2), and a heading in flight (potency 100 + code of the
/// chosen heading).
#[verifier::rlimit(100)]
pub proof fn lemma_rocket_stages(a0: SandApi, a1: SandApi, a2: SandApi, a3: SandApi, a4: SandApi, c0: Cell)
    requires
        a0.wf(),
        a0.at(0, 0).species != Species::Wall,
        c0.species != Species::Wall,
        c0.rb == 0,
        rocket_post(&a0, &a1, c0),
        rocket_post(&a1, &a2, a1.at(0, 0)),
        rocket_post(&a2, &a3, a2.at(0, 0)),
        rocket_post(&a3, &a4, a3.at(0, 0)),
        ({
            let d = compass_at(rng_draw(a1.rng.state, 7));
            let s = a1.at(d.0, d.1).species;
            latchable(s) && s != Species::Rocket
        }),
    ensures
        ({
            let d = compass_at(rng_draw(a1.rng.state, 7));
            let code = crate::cell::spec_code(a1.at(d.0, d.1).species);
            let h = chosen_heading(&a3, compass_at(rng_draw(rng_step(a3.rng.state), 7)));
            &&& a1.at(0, 0).rb == 100 && a1.at(0, 0).ra == 0
            &&& a2.at(0, 0).rb == code && a2.at(0, 0).ra == 1
            &&& a3.at(0, 0).rb == code && a3.at(0, 0).ra == 2
            &&& a4.at(0, 0).rb == code
            &&& a4.at(0, 0).ra == 100 + crate::utils::spec_join(h.0, h.1)
            &&& 100 <= a4.at(0, 0).ra <= 108
        }),
{
    let c1 = a1.at(0, 0);
    assert(a1.cells@ == a0.put(a0.cells@, 0, 0, Cell { ra: 0, rb: 100, ..c0 }));
    assert(c1 == stamped(Cell { ra: 0, rb: 100, ..c0 }, a0.generation));
    let d = compass_at(rng_draw(a1.rng.state, 7));
    let s = a1.at(d.0, d.1).species;
    crate::cell::lemma_code_injective(s, Species::Empty);
    let code = crate::cell::spec_code(s);
    assert(a2.cells@ == a1.put(a1.cells@, 0, 0, Cell { ra: 1, rb: code, ..c1 }));
    let c2 = a2.at(0, 0);
    assert(c2 == stamped(Cell { ra: 1, rb: code, ..c1 }, a1.generation));
    assert(code != 100 && code != 0);
    assert(a3.cells@ == a2.put(a2.cells@, 0, 0, Cell { ra: 2, ..c2 }));
    let c3 = a3.at(0, 0);
    assert(c3.ra == 2 && c3.rb == code);
    let h = chosen_heading(&a3, compass_at(rng_draw(rng_step(a3.rng.state), 7)));
    assert(a4.cells@ == a3.put(
        a3.cells@,
        0,
        0,
        Cell { ra: (100 + crate::utils::spec_join(h.0, h.1)) as u8, ..c3 },
    ));
}


impl Species {
    /// Runs this species' rule for `cell` on its turn; vacancy and wall do
    /// nothing.
    pub fn update(&self, cell: Cell, api: &mut SandApi)
        requires
            old(api).wf(),
            *self == Species::Empty || *self == Species::Wall || (old(api).at(0, 0).species
                != Species::Wall && cell.species != Species::Wall),
        ensures
            turn_ok(old(api), final(api)),
            *self == Species::Sand ==> sand_post(old(api), final(api), cell),
            *self == Species::Dust ==> dust_post(old(api), final(api), cell),
            *self == Species::Water ==> water_post(old(api), final(api), cell),
            *self == Species::Stone ==> stone_post(old(api), final(api), cell),
            *self == Species::Gas ==> gas_post(old(api), final(api), cell),
            *self == Species::Cloner ==> cloner_post(old(api), final(api), cell),
            *self == Species::Rocket ==> rocket_post(old(api), final(api), cell),
            *self == Species::Fire ==> fire_post(old(api), final(api), cell),
            *self == Species::Wood ==> wood_post(old(api), final(api), cell),
            *self == Species::Lava ==> lava_post(old(api), final(api), cell),
            *self == Species::Ice ==> ice_post(old(api), final(api), cell),
            *self == Species::Plant ==> plant_post(old(api), final(api), cell),
            *self == Species::Acid ==> acid_post(old(api), final(api), cell),
            *self == Species::Mite ==> mite_post(old(api), final(api), cell),
            *self == Species::Oil ==> oil_post(old(api), final(api), cell),
            *self == Species::Fungus ==> fungus_post(old(api), final(api), cell),
            *self == Species::Seed ==> seed_post(old(api), final(api), cell),
            final(api).walls_kept(old(api)),
            (*self == Species::Empty || *self == Species::Wall) ==> {
                &&& final(api).cells@ == old(api).cells@
                &&& final(api).rng == old(api).rng
                &&& final(api).fluid == old(api).fluid
            },
    {
        let ghost a0 = *api;
        match self {
            Species::Empty => {},
            Species::Wall => {},
            Species::Sand => update_sand(cell, api),
            Species::Dust => update_dust(cell, api),
            Species::Water => update_water(cell, api),
            Species::Stone => update_stone(cell, api),
            Species::Gas => update_gas(cell, api),
            Species::Cloner => update_cloner(cell, api),
            Species::Rocket => update_rocket(cell, api),
            Species::Fire => update_fire(cell, api),
            Species::Wood => update_wood(cell, api),
            Species::Lava => update_lava(cell, api),
            Species::Ice => update_ice(cell, api),
            Species::Plant => update_plant(cell, api),
            Species::Acid => update_acid(cell, api),
            Species::Mite => update_mite(cell, api),
            Species::Oil => update_oil(cell, api),
            Species::Fungus => update_fungus(cell, api),
            Species::Seed => update_seed(cell, api),
        }
        proof {
            crate::api::lemma_changed_near_keeps_walls(a0, *api);
        }
    }
}

} // verus!
