//! Kinds of terrain in a generated height map.
use vstd::prelude::*;

verus! {

#[derive(Clone, Copy, Debug, PartialEq, Eq, Structural)]
pub enum TileType {
    Ocean,
    Land,
    Hills,
    Mountain,
}

/// The character a tile type prints as.
pub open spec fn tile_glyph(t: TileType) -> char {
    match t {
        TileType::Ocean => '~',
        TileType::Land => '.',
        TileType::Hills => '#',
        TileType::Mountain => '^',
    }
}

pub fn tile_type_glyph(t: TileType) -> (r: char)
    ensures
        r == tile_glyph(t),
{
    match t {
        TileType::Ocean => '~',
        TileType::Land => '.',
        TileType::Hills => '#',
        TileType::Mountain => '^',
    }
}

} // verus!
