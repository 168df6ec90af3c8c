//! The value that each grid position holds, and the coarse fluid sample.
use vstd::prelude::*;

verus! {

/// The material kinds. Each has a stable byte code (see `code`), which other
/// cells may store as a payload.
#[derive(Clone, Copy, Debug, PartialEq, Eq, Structural)]
pub enum Species {
    Empty,
    Wall,
    Sand,
    Water,
    Stone,
    Ice,
    Gas,
    Cloner,
    Mite,
    Wood,
    Plant,
    Fungus,
    Seed,
    Fire,
    Lava,
    Acid,
    Dust,
    Oil,
    Rocket,
}

/// The byte code of a species.
pub open spec fn spec_code(s: Species) -> u8 {
    match s {
        Species::Empty => 0,
        Species::Wall => 1,
        Species::Sand => 2,
        Species::Water => 3,
        Species::Gas => 4,
        Species::Cloner => 5,
        Species::Fire => 6,
        Species::Wood => 7,
        Species::Lava => 8,
        Species::Ice => 9,
        Species::Plant => 11,
        Species::Acid => 12,
        Species::Stone => 13,
        Species::Dust => 14,
        Species::Mite => 15,
        Species::Oil => 16,
        Species::Rocket => 17,
        Species::Fungus => 18,
        Species::Seed => 19,
    }
}

impl Species {
    pub fn code(&self) -> (r: u8)
        ensures
            r == spec_code(*self),
    {
        match self {
            Species::Empty => 0,
            Species::Wall => 1,
            Species::Sand => 2,
            Species::Water => 3,
            Species::Gas => 4,
            Species::Cloner => 5,
            Species::Fire => 6,
            Species::Wood => 7,
            Species::Lava => 8,
            Species::Ice => 9,
            Species::Plant => 11,
            Species::Acid => 12,
            Species::Stone => 13,
            Species::Dust => 14,
            Species::Mite => 15,
            Species::Oil => 16,
            Species::Rocket => 17,
            Species::Fungus => 18,
            Species::Seed => 19,
        }
    }

    /// Reads a stored code back; `None` for a byte that is no species' code.
    pub fn from_code(b: u8) -> (r: Option<Species>)
        ensures
            r matches Some(s) ==> spec_code(s) == b,
            r is None <==> (forall|s: Species| spec_code(s) != b),
            r is None <==> (b == 10 || b > 19),
    {
        let r = match b {
            0 => Some(Species::Empty),
            1 => Some(Species::Wall),
            2 => Some(Species::Sand),
            3 => Some(Species::Water),
            4 => Some(Species::Gas),
            5 => Some(Species::Cloner),
            6 => Some(Species::Fire),
            7 => Some(Species::Wood),
            8 => Some(Species::Lava),
            9 => Some(Species::Ice),
            11 => Some(Species::Plant),
            12 => Some(Species::Acid),
            13 => Some(Species::Stone),
            14 => Some(Species::Dust),
            15 => Some(Species::Mite),
            16 => Some(Species::Oil),
            17 => Some(Species::Rocket),
            18 => Some(Species::Fungus),
            19 => Some(Species::Seed),
            _ => None,
        };
        proof {
            if let Some(s) = r {
                assert(spec_code(s) == b);
                assert(!(forall|t: Species| spec_code(t) != b));
            }
            if r is None {
                assert forall|s: Species| spec_code(s) != b by {
                    match s {
                        Species::Empty => {},
                        Species::Wall => {},
                        Species::Sand => {},
                        Species::Water => {},
                        Species::Stone => {},
                        Species::Ice => {},
                        Species::Gas => {},
                        Species::Cloner => {},
                        Species::Mite => {},
                        Species::Wood => {},
                        Species::Plant => {},
                        Species::Fungus => {},
                        Species::Seed => {},
                        Species::Fire => {},
                        Species::Lava => {},
                        Species::Acid => {},
                        Species::Dust => {},
                        Species::Oil => {},
                        Species::Rocket => {},
                    }
                }
            }
        }
        r
    }
}

/// Distinct species have distinct codes.
pub proof fn lemma_code_injective(a: Species, b: Species)
    ensures
        spec_code(a) == spec_code(b) ==> a == b,
{
}

/// One grid position: a species, two bytes whose meaning each species defines
/// for itself, and the tick at which the position was last written.
#[derive(Clone, Copy, Debug, PartialEq, Eq, Structural)]
pub struct Cell {
    pub species: Species,
    pub ra: u8,
    pub rb: u8,
    pub clock: u8,
}

/// The vacancy.
pub open spec fn empty_cell() -> Cell {
    Cell { species: Species::Empty, ra: 0, rb: 0, clock: 0 }
}

/// What a read outside the grid sees.
pub open spec fn wall_cell() -> Cell {
    Cell { species: Species::Wall, ra: 0, rb: 0, clock: 0 }
}

impl Cell {
    /// A fresh cell of `species` with potency `ra` and zeroed budget and clock.
    pub open spec fn new_spec(species: Species, ra: u8) -> Cell {
        Cell { species, ra, rb: 0, clock: 0 }
    }

    /// A fresh cell of `species` with potency `ra` and zeroed budget and clock.
    pub fn new(species: Species, ra: u8) -> (r: Cell)
        ensures
            r == Cell::new_spec(species, ra),
    {
        Cell { species, ra, rb: 0, clock: 0 }
    }

    pub fn empty() -> (r: Cell)
        ensures
            r == empty_cell(),
    {
        Cell { species: Species::Empty, ra: 0, rb: 0, clock: 0 }
    }

    pub fn wall() -> (r: Cell)
        ensures
            r == wall_cell(),
    {
        Cell { species: Species::Wall, ra: 0, rb: 0, clock: 0 }
    }
}

/// A sample of the coarse pressure/density field: a velocity bias, a pressure
/// and a density.
#[derive(Clone, Copy, Debug, PartialEq, Eq, Structural)]
pub struct Wind {
    pub dx: u8,
    pub dy: u8,
    pub pressure: u8,
    pub density: u8,
}

} // verus!
