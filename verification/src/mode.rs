//! Game modes and dimensions, and the numbers they travel as.

use vstd::prelude::*;
use vstd::std_specs::convert::FromSpecImpl;

verus! {

#[derive(Debug, Clone, Copy, PartialEq, Eq, Structural)]
pub enum Gamemode {
    Survival,
    Creative,
    Adventure,
    Spectator,
}

/// The number a game mode travels as.
pub open spec fn gamemode_number(g: Gamemode) -> u8 {
    match g {
        Gamemode::Survival => 0,
        Gamemode::Creative => 1,
        Gamemode::Adventure => 2,
        Gamemode::Spectator => 3,
    }
}

impl From<Gamemode> for u8 {
    fn from(g: Gamemode) -> (r: u8) {
        match g {
            Gamemode::Survival => 0,
            Gamemode::Creative => 1,
            Gamemode::Adventure => 2,
            Gamemode::Spectator => 3,
        }
    }
}

impl FromSpecImpl<Gamemode> for u8 {
    open spec fn obeys_from_spec() -> bool {
        true
    }

    open spec fn from_spec(g: Gamemode) -> u8 {
        gamemode_number(g)
    }
}

#[derive(Debug, Clone, Copy, PartialEq, Eq, Structural)]
pub enum Dimension {
    Nether,
    Overworld,
    End,
}

/// The number a dimension travels as.
pub open spec fn dimension_number(dim: Dimension) -> i8 {
    match dim {
        Dimension::Nether => -1i8,
        Dimension::Overworld => 0i8,
        Dimension::End => 1i8,
    }
}

impl From<Dimension> for i8 {
    fn from(dim: Dimension) -> (r: i8) {
        match dim {
            Dimension::Nether => -1,
            Dimension::Overworld => 0,
            Dimension::End => 1,
        }
    }
}

impl FromSpecImpl<Dimension> for i8 {
    open spec fn obeys_from_spec() -> bool {
        true
    }

    open spec fn from_spec(dim: Dimension) -> i8 {
        dimension_number(dim)
    }
}

} // verus!
