use vstd::prelude::*;

verus! {

/// Identifier of one texture image the game ships.
#[derive(Clone, Copy, PartialEq, Eq, Structural, Hash, Debug)]
pub enum TextureID {
    Orc3Attack,
    Orc3Death,
    Orc3Hurt,
    Orc3Idle,
    Orc3Run,
    Orc3RunAttack,
    Orc3Walk,
    Orc3WalkAttack,
    TileRed,
    TileGreen,
    TileBlue,
    TileNotAvailable,
    DungeonTileset,
}

/// Number of texture identifiers.
pub const TEXTURE_ID_COUNT: usize = 13;

pub open spec fn index_spec(t: TextureID) -> int {
    match t {
        TextureID::Orc3Attack => 0,
        TextureID::Orc3Death => 1,
        TextureID::Orc3Hurt => 2,
        TextureID::Orc3Idle => 3,
        TextureID::Orc3Run => 4,
        TextureID::Orc3RunAttack => 5,
        TextureID::Orc3Walk => 6,
        TextureID::Orc3WalkAttack => 7,
        TextureID::TileRed => 8,
        TextureID::TileGreen => 9,
        TextureID::TileBlue => 10,
        TextureID::TileNotAvailable => 11,
        TextureID::DungeonTileset => 12,
    }
}

pub open spec fn from_index_spec(i: int) -> TextureID {
    if i == 0 {
        TextureID::Orc3Attack
    } else if i == 1 {
        TextureID::Orc3Death
    } else if i == 2 {
        TextureID::Orc3Hurt
    } else if i == 3 {
        TextureID::Orc3Idle
    } else if i == 4 {
        TextureID::Orc3Run
    } else if i == 5 {
        TextureID::Orc3RunAttack
    } else if i == 6 {
        TextureID::Orc3Walk
    } else if i == 7 {
        TextureID::Orc3WalkAttack
    } else if i == 8 {
        TextureID::TileRed
    } else if i == 9 {
        TextureID::TileGreen
    } else if i == 10 {
        TextureID::TileBlue
    } else if i == 11 {
        TextureID::TileNotAvailable
    } else {
        TextureID::DungeonTileset
    }
}

impl TextureID {
    /// Stable index of the identifier, in declaration order.
    pub fn index(&self) -> (r: usize)
        ensures
            r == index_spec(*self),
            r < TEXTURE_ID_COUNT,
    {
        match *self {
            TextureID::Orc3Attack => 0,
            TextureID::Orc3Death => 1,
            TextureID::Orc3Hurt => 2,
            TextureID::Orc3Idle => 3,
            TextureID::Orc3Run => 4,
            TextureID::Orc3RunAttack => 5,
            TextureID::Orc3Walk => 6,
            TextureID::Orc3WalkAttack => 7,
            TextureID::TileRed => 8,
            TextureID::TileGreen => 9,
            TextureID::TileBlue => 10,
            TextureID::TileNotAvailable => 11,
            TextureID::DungeonTileset => 12,
        }
    }

    /// Identifier for an index; only indices below `TEXTURE_ID_COUNT` name
    /// one.
    pub fn from_index(index: usize) -> (r: TextureID)
        requires
            index < TEXTURE_ID_COUNT,
        ensures
            r == from_index_spec(index as int),
    {
        match index {
            0 => TextureID::Orc3Attack,
            1 => TextureID::Orc3Death,
            2 => TextureID::Orc3Hurt,
            3 => TextureID::Orc3Idle,
            4 => TextureID::Orc3Run,
            5 => TextureID::Orc3RunAttack,
            6 => TextureID::Orc3Walk,
            7 => TextureID::Orc3WalkAttack,
            8 => TextureID::TileRed,
            9 => TextureID::TileGreen,
            10 => TextureID::TileBlue,
            11 => TextureID::TileNotAvailable,
            _ => TextureID::DungeonTileset,
        }
    }
}

/// The identifier indices and the identifiers are inverse to each other.
pub proof fn lemma_texture_index_roundtrip(t: TextureID, i: int)
    requires
        0 <= i < TEXTURE_ID_COUNT as int,
    ensures
        from_index_spec(index_spec(t)) == t,
        index_spec(from_index_spec(i)) == i,
{
}

/// Failure to load a texture: the identifier's name and the loader's message.
#[derive(Debug)]
pub enum TexturesError {
    Load(String, String),
}

} // verus!
