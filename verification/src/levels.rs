//! The levels of the game and the stage codes by which the game names them.

use vstd::prelude::*;

verus! {

/// How many levels the catalog holds, the sentinel [`Levels::NoLevel`] not
/// counted.
pub const LEVEL_COUNT: usize = 66;

/// A level of the game, or the sentinel `NoLevel` where the game is in no
/// known level.
#[derive(Clone, Copy, Debug, PartialEq, Eq, Hash, Structural)]
pub enum Levels {
    /// Tropical Resort, act 1 (`stg110`).
    TropicalResortAct1,
    /// Tropical Resort, act 2 (`stg130`).
    TropicalResortAct2,
    /// Tropical Resort, act 3 (`stg120`).
    TropicalResortAct3,
    /// Tropical Resort, act 4 (`stg140`).
    TropicalResortAct4,
    /// Tropical Resort, act 5 (`stg150`).
    TropicalResortAct5,
    /// Tropical Resort, act 6 (`stg160`).
    TropicalResortAct6,
    /// Tropical Resort, boss (`stg190`).
    TropicalResortBoss,
    /// Sweet Mountain, act 1 (`stg210`).
    SweetMountainAct1,
    /// Sweet Mountain, act 2 (`stg230`).
    SweetMountainAct2,
    /// Sweet Mountain, act 3 (`stg220`).
    SweetMountainAct3,
    /// Sweet Mountain, act 4 (`stg260`).
    SweetMountainAct4,
    /// Sweet Mountain, act 5 (`stg240`).
    SweetMountainAct5,
    /// Sweet Mountain, act 6 (`stg250`).
    SweetMountainAct6,
    /// Sweet Mountain, boss (`stg290`).
    SweetMountainBoss,
    /// Starlight Carnival, act 1 (`stg310`).
    StarlightCarnivalAct1,
    /// Starlight Carnival, act 2 (`stg330`).
    StarlightCarnivalAct2,
    /// Starlight Carnival, act 3 (`stg340`).
    StarlightCarnivalAct3,
    /// Starlight Carnival, act 4 (`stg350`).
    StarlightCarnivalAct4,
    /// Starlight Carnival, act 5 (`stg320`).
    StarlightCarnivalAct5,
    /// Starlight Carnival, act 6 (`stg360`).
    StarlightCarnivalAct6,
    /// Starlight Carnival, boss (`stg390`).
    StarlightCarnivalBoss,
    /// Planet Wisp, act 1 (`stg410`).
    PlanetWispAct1,
    /// Planet Wisp, act 2 (`stg440`).
    PlanetWispAct2,
    /// Planet Wisp, act 3 (`stg450`).
    PlanetWispAct3,
    /// Planet Wisp, act 4 (`stg430`).
    PlanetWispAct4,
    /// Planet Wisp, act 5 (`stg460`).
    PlanetWispAct5,
    /// Planet Wisp, act 6 (`stg420`).
    PlanetWispAct6,
    /// Planet Wisp, boss (`stg490`).
    PlanetWispBoss,
    /// Aquarium Park, act 1 (`stg510`).
    AquariumParkAct1,
    /// Aquarium Park, act 2 (`stg540`).
    AquariumParkAct2,
    /// Aquarium Park, act 3 (`stg550`).
    AquariumParkAct3,
    /// Aquarium Park, act 4 (`stg530`).
    AquariumParkAct4,
    /// Aquarium Park, act 5 (`stg560`).
    AquariumParkAct5,
    /// Aquarium Park, act 6 (`stg520`).
    AquariumParkAct6,
    /// Aquarium Park, boss (`stg590`).
    AquariumParkBoss,
    /// Asteroid Coaster, act 1 (`stg610`).
    AsteroidCoasterAct1,
    /// Asteroid Coaster, act 2 (`stg630`).
    AsteroidCoasterAct2,
    /// Asteroid Coaster, act 3 (`stg640`).
    AsteroidCoasterAct3,
    /// Asteroid Coaster, act 4 (`stg650`).
    AsteroidCoasterAct4,
    /// Asteroid Coaster, act 5 (`stg660`).
    AsteroidCoasterAct5,
    /// Asteroid Coaster, act 6 (`stg620`).
    AsteroidCoasterAct6,
    /// Asteroid Coaster, boss (`stg690`).
    AsteroidCoasterBoss,
    /// Terminal Velocity, act 1 (`stg710`).
    TerminalVelocityAct1,
    /// Terminal Velocity, boss (`stg790`).
    TerminalVelocityBoss,
    /// Terminal Velocity, act 2 (`stg720`).
    TerminalVelocityAct2,
    /// Sonic Simulator, stage 1-1 (`stgD10`).
    SonicSimulatorAct1_1,
    /// Sonic Simulator, stage 1-2 (`stgB20`).
    SonicSimulatorAct1_2,
    /// Sonic Simulator, stage 1-3 (`stgE50`).
    SonicSimulatorAct1_3,
    /// Sonic Simulator, stage 2-1 (`stgD20`).
    SonicSimulatorAct2_1,
    /// Sonic Simulator, stage 2-2 (`stgB30`).
    SonicSimulatorAct2_2,
    /// Sonic Simulator, stage 2-3 (`stgF30`).
    SonicSimulatorAct2_3,
    /// Sonic Simulator, stage 3-1 (`stgG10`).
    SonicSimulatorAct3_1,
    /// Sonic Simulator, stage 3-2 (`stgG30`).
    SonicSimulatorAct3_2,
    /// Sonic Simulator, stage 3-3 (`stgA10`).
    SonicSimulatorAct3_3,
    /// Sonic Simulator, stage 4-1 (`stgD30`).
    SonicSimulatorAct4_1,
    /// Sonic Simulator, stage 4-2 (`stgG20`).
    SonicSimulatorAct4_2,
    /// Sonic Simulator, stage 4-3 (`stgC50`).
    SonicSimulatorAct4_3,
    /// Sonic Simulator, stage 5-1 (`stgE30`).
    SonicSimulatorAct5_1,
    /// Sonic Simulator, stage 5-2 (`stgB10`).
    SonicSimulatorAct5_2,
    /// Sonic Simulator, stage 5-3 (`stgE40`).
    SonicSimulatorAct5_3,
    /// Sonic Simulator, stage 6-1 (`stgG40`).
    SonicSimulatorAct6_1,
    /// Sonic Simulator, stage 6-2 (`stgC40`).
    SonicSimulatorAct6_2,
    /// Sonic Simulator, stage 6-3 (`stgF40`).
    SonicSimulatorAct6_3,
    /// Sonic Simulator, stage 7-1 (`stgA30`).
    SonicSimulatorAct7_1,
    /// Sonic Simulator, stage 7-2 (`stgE20`).
    SonicSimulatorAct7_2,
    /// Sonic Simulator, stage 7-3 (`stgC10`).
    SonicSimulatorAct7_3,
    /// No level, or a stage code that the catalog does not hold.
    NoLevel,
}

impl Levels {
    /// The two characters that tell this level's stage code from the others:
    /// the fourth and the fifth byte of the code, in ASCII.
    pub open spec fn stage_tag(self) -> Option<(u8, u8)> {
        match self {
            Levels::TropicalResortAct1 => Some((0x31, 0x31)),
            Levels::TropicalResortAct2 => Some((0x31, 0x33)),
            Levels::TropicalResortAct3 => Some((0x31, 0x32)),
            Levels::TropicalResortAct4 => Some((0x31, 0x34)),
            Levels::TropicalResortAct5 => Some((0x31, 0x35)),
            Levels::TropicalResortAct6 => Some((0x31, 0x36)),
            Levels::TropicalResortBoss => Some((0x31, 0x39)),
            Levels::SweetMountainAct1 => Some((0x32, 0x31)),
            Levels::SweetMountainAct2 => Some((0x32, 0x33)),
            Levels::SweetMountainAct3 => Some((0x32, 0x32)),
            Levels::SweetMountainAct4 => Some((0x32, 0x36)),
            Levels::SweetMountainAct5 => Some((0x32, 0x34)),
            Levels::SweetMountainAct6 => Some((0x32, 0x35)),
            Levels::SweetMountainBoss => Some((0x32, 0x39)),
            Levels::StarlightCarnivalAct1 => Some((0x33, 0x31)),
            Levels::StarlightCarnivalAct2 => Some((0x33, 0x33)),
            Levels::StarlightCarnivalAct3 => Some((0x33, 0x34)),
            Levels::StarlightCarnivalAct4 => Some((0x33, 0x35)),
            Levels::StarlightCarnivalAct5 => Some((0x33, 0x32)),
            Levels::StarlightCarnivalAct6 => Some((0x33, 0x36)),
            Levels::StarlightCarnivalBoss => Some((0x33, 0x39)),
            Levels::PlanetWispAct1 => Some((0x34, 0x31)),
            Levels::PlanetWispAct2 => Some((0x34, 0x34)),
            Levels::PlanetWispAct3 => Some((0x34, 0x35)),
            Levels::PlanetWispAct4 => Some((0x34, 0x33)),
            Levels::PlanetWispAct5 => Some((0x34, 0x36)),
            Levels::PlanetWispAct6 => Some((0x34, 0x32)),
            Levels::PlanetWispBoss => Some((0x34, 0x39)),
            Levels::AquariumParkAct1 => Some((0x35, 0x31)),
            Levels::AquariumParkAct2 => Some((0x35, 0x34)),
            Levels::AquariumParkAct3 => Some((0x35, 0x35)),
            Levels::AquariumParkAct4 => Some((0x35, 0x33)),
            Levels::AquariumParkAct5 => Some((0x35, 0x36)),
            Levels::AquariumParkAct6 => Some((0x35, 0x32)),
            Levels::AquariumParkBoss => Some((0x35, 0x39)),
            Levels::AsteroidCoasterAct1 => Some((0x36, 0x31)),
            Levels::AsteroidCoasterAct2 => Some((0x36, 0x33)),
            Levels::AsteroidCoasterAct3 => Some((0x36, 0x34)),
            Levels::AsteroidCoasterAct4 => Some((0x36, 0x35)),
            Levels::AsteroidCoasterAct5 => Some((0x36, 0x36)),
            Levels::AsteroidCoasterAct6 => Some((0x36, 0x32)),
            Levels::AsteroidCoasterBoss => Some((0x36, 0x39)),
            Levels::TerminalVelocityAct1 => Some((0x37, 0x31)),
            Levels::TerminalVelocityBoss => Some((0x37, 0x39)),
            Levels::TerminalVelocityAct2 => Some((0x37, 0x32)),
            Levels::SonicSimulatorAct1_1 => Some((0x44, 0x31)),
            Levels::SonicSimulatorAct1_2 => Some((0x42, 0x32)),
            Levels::SonicSimulatorAct1_3 => Some((0x45, 0x35)),
            Levels::SonicSimulatorAct2_1 => Some((0x44, 0x32)),
            Levels::SonicSimulatorAct2_2 => Some((0x42, 0x33)),
            Levels::SonicSimulatorAct2_3 => Some((0x46, 0x33)),
            Levels::SonicSimulatorAct3_1 => Some((0x47, 0x31)),
            Levels::SonicSimulatorAct3_2 => Some((0x47, 0x33)),
            Levels::SonicSimulatorAct3_3 => Some((0x41, 0x31)),
            Levels::SonicSimulatorAct4_1 => Some((0x44, 0x33)),
            Levels::SonicSimulatorAct4_2 => Some((0x47, 0x32)),
            Levels::SonicSimulatorAct4_3 => Some((0x43, 0x35)),
            Levels::SonicSimulatorAct5_1 => Some((0x45, 0x33)),
            Levels::SonicSimulatorAct5_2 => Some((0x42, 0x31)),
            Levels::SonicSimulatorAct5_3 => Some((0x45, 0x34)),
            Levels::SonicSimulatorAct6_1 => Some((0x47, 0x34)),
            Levels::SonicSimulatorAct6_2 => Some((0x43, 0x34)),
            Levels::SonicSimulatorAct6_3 => Some((0x46, 0x34)),
            Levels::SonicSimulatorAct7_1 => Some((0x41, 0x33)),
            Levels::SonicSimulatorAct7_2 => Some((0x45, 0x32)),
            Levels::SonicSimulatorAct7_3 => Some((0x43, 0x31)),
            Levels::NoLevel => None,
        }
    }

    /// The six-byte stage code of this level: the ASCII letters `stg`, the
    /// level's two tag characters and the digit `0`. The sentinel has none.
    pub open spec fn stage_code(self) -> Option<Seq<u8>> {
        match self.stage_tag() {
            Some((zone, act)) => Some(seq![0x73, 0x74, 0x67, zone, act, 0x30]),
            None => None,
        }
    }

    /// The position of this level in the catalog, in the order of the
    /// declaration; the sentinel comes last, at [`LEVEL_COUNT`].
    pub open spec fn index(self) -> nat {
        match self {
            Levels::TropicalResortAct1 => 0,
            Levels::TropicalResortAct2 => 1,
            Levels::TropicalResortAct3 => 2,
            Levels::TropicalResortAct4 => 3,
            Levels::TropicalResortAct5 => 4,
            Levels::TropicalResortAct6 => 5,
            Levels::TropicalResortBoss => 6,
            Levels::SweetMountainAct1 => 7,
            Levels::SweetMountainAct2 => 8,
            Levels::SweetMountainAct3 => 9,
            Levels::SweetMountainAct4 => 10,
            Levels::SweetMountainAct5 => 11,
            Levels::SweetMountainAct6 => 12,
            Levels::SweetMountainBoss => 13,
            Levels::StarlightCarnivalAct1 => 14,
            Levels::StarlightCarnivalAct2 => 15,
            Levels::StarlightCarnivalAct3 => 16,
            Levels::StarlightCarnivalAct4 => 17,
            Levels::StarlightCarnivalAct5 => 18,
            Levels::StarlightCarnivalAct6 => 19,
            Levels::StarlightCarnivalBoss => 20,
            Levels::PlanetWispAct1 => 21,
            Levels::PlanetWispAct2 => 22,
            Levels::PlanetWispAct3 => 23,
            Levels::PlanetWispAct4 => 24,
            Levels::PlanetWispAct5 => 25,
            Levels::PlanetWispAct6 => 26,
            Levels::PlanetWispBoss => 27,
            Levels::AquariumParkAct1 => 28,
            Levels::AquariumParkAct2 => 29,
            Levels::AquariumParkAct3 => 30,
            Levels::AquariumParkAct4 => 31,
            Levels::AquariumParkAct5 => 32,
            Levels::AquariumParkAct6 => 33,
            Levels::AquariumParkBoss => 34,
            Levels::AsteroidCoasterAct1 => 35,
            Levels::AsteroidCoasterAct2 => 36,
            Levels::AsteroidCoasterAct3 => 37,
            Levels::AsteroidCoasterAct4 => 38,
            Levels::AsteroidCoasterAct5 => 39,
            Levels::AsteroidCoasterAct6 => 40,
            Levels::AsteroidCoasterBoss => 41,
            Levels::TerminalVelocityAct1 => 42,
            Levels::TerminalVelocityBoss => 43,
            Levels::TerminalVelocityAct2 => 44,
            Levels::SonicSimulatorAct1_1 => 45,
            Levels::SonicSimulatorAct1_2 => 46,
            Levels::SonicSimulatorAct1_3 => 47,
            Levels::SonicSimulatorAct2_1 => 48,
            Levels::SonicSimulatorAct2_2 => 49,
            Levels::SonicSimulatorAct2_3 => 50,
            Levels::SonicSimulatorAct3_1 => 51,
            Levels::SonicSimulatorAct3_2 => 52,
            Levels::SonicSimulatorAct3_3 => 53,
            Levels::SonicSimulatorAct4_1 => 54,
            Levels::SonicSimulatorAct4_2 => 55,
            Levels::SonicSimulatorAct4_3 => 56,
            Levels::SonicSimulatorAct5_1 => 57,
            Levels::SonicSimulatorAct5_2 => 58,
            Levels::SonicSimulatorAct5_3 => 59,
            Levels::SonicSimulatorAct6_1 => 60,
            Levels::SonicSimulatorAct6_2 => 61,
            Levels::SonicSimulatorAct6_3 => 62,
            Levels::SonicSimulatorAct7_1 => 63,
            Levels::SonicSimulatorAct7_2 => 64,
            Levels::SonicSimulatorAct7_3 => 65,
            Levels::NoLevel => 66,
        }
    }

    /// The tag characters of this level's stage code.
    pub fn tag(self) -> (tag: Option<(u8, u8)>)
        ensures
            tag == self.stage_tag(),
    {
        match self {
            Levels::TropicalResortAct1 => Some((0x31, 0x31)),
            Levels::TropicalResortAct2 => Some((0x31, 0x33)),
            Levels::TropicalResortAct3 => Some((0x31, 0x32)),
            Levels::TropicalResortAct4 => Some((0x31, 0x34)),
            Levels::TropicalResortAct5 => Some((0x31, 0x35)),
            Levels::TropicalResortAct6 => Some((0x31, 0x36)),
            Levels::TropicalResortBoss => Some((0x31, 0x39)),
            Levels::SweetMountainAct1 => Some((0x32, 0x31)),
            Levels::SweetMountainAct2 => Some((0x32, 0x33)),
            Levels::SweetMountainAct3 => Some((0x32, 0x32)),
            Levels::SweetMountainAct4 => Some((0x32, 0x36)),
            Levels::SweetMountainAct5 => Some((0x32, 0x34)),
            Levels::SweetMountainAct6 => Some((0x32, 0x35)),
            Levels::SweetMountainBoss => Some((0x32, 0x39)),
            Levels::StarlightCarnivalAct1 => Some((0x33, 0x31)),
            Levels::StarlightCarnivalAct2 => Some((0x33, 0x33)),
            Levels::StarlightCarnivalAct3 => Some((0x33, 0x34)),
            Levels::StarlightCarnivalAct4 => Some((0x33, 0x35)),
            Levels::StarlightCarnivalAct5 => Some((0x33, 0x32)),
            Levels::StarlightCarnivalAct6 => Some((0x33, 0x36)),
            Levels::StarlightCarnivalBoss => Some((0x33, 0x39)),
            Levels::PlanetWispAct1 => Some((0x34, 0x31)),
            Levels::PlanetWispAct2 => Some((0x34, 0x34)),
            Levels::PlanetWispAct3 => Some((0x34, 0x35)),
            Levels::PlanetWispAct4 => Some((0x34, 0x33)),
            Levels::PlanetWispAct5 => Some((0x34, 0x36)),
            Levels::PlanetWispAct6 => Some((0x34, 0x32)),
            Levels::PlanetWispBoss => Some((0x34, 0x39)),
            Levels::AquariumParkAct1 => Some((0x35, 0x31)),
            Levels::AquariumParkAct2 => Some((0x35, 0x34)),
            Levels::AquariumParkAct3 => Some((0x35, 0x35)),
            Levels::AquariumParkAct4 => Some((0x35, 0x33)),
            Levels::AquariumParkAct5 => Some((0x35, 0x36)),
            Levels::AquariumParkAct6 => Some((0x35, 0x32)),
            Levels::AquariumParkBoss => Some((0x35, 0x39)),
            Levels::AsteroidCoasterAct1 => Some((0x36, 0x31)),
            Levels::AsteroidCoasterAct2 => Some((0x36, 0x33)),
            Levels::AsteroidCoasterAct3 => Some((0x36, 0x34)),
            Levels::AsteroidCoasterAct4 => Some((0x36, 0x35)),
            Levels::AsteroidCoasterAct5 => Some((0x36, 0x36)),
            Levels::AsteroidCoasterAct6 => Some((0x36, 0x32)),
            Levels::AsteroidCoasterBoss => Some((0x36, 0x39)),
            Levels::TerminalVelocityAct1 => Some((0x37, 0x31)),
            Levels::TerminalVelocityBoss => Some((0x37, 0x39)),
            Levels::TerminalVelocityAct2 => Some((0x37, 0x32)),
            Levels::SonicSimulatorAct1_1 => Some((0x44, 0x31)),
            Levels::SonicSimulatorAct1_2 => Some((0x42, 0x32)),
            Levels::SonicSimulatorAct1_3 => Some((0x45, 0x35)),
            Levels::SonicSimulatorAct2_1 => Some((0x44, 0x32)),
            Levels::SonicSimulatorAct2_2 => Some((0x42, 0x33)),
            Levels::SonicSimulatorAct2_3 => Some((0x46, 0x33)),
            Levels::SonicSimulatorAct3_1 => Some((0x47, 0x31)),
            Levels::SonicSimulatorAct3_2 => Some((0x47, 0x33)),
            Levels::SonicSimulatorAct3_3 => Some((0x41, 0x31)),
            Levels::SonicSimulatorAct4_1 => Some((0x44, 0x33)),
            Levels::SonicSimulatorAct4_2 => Some((0x47, 0x32)),
            Levels::SonicSimulatorAct4_3 => Some((0x43, 0x35)),
            Levels::SonicSimulatorAct5_1 => Some((0x45, 0x33)),
            Levels::SonicSimulatorAct5_2 => Some((0x42, 0x31)),
            Levels::SonicSimulatorAct5_3 => Some((0x45, 0x34)),
            Levels::SonicSimulatorAct6_1 => Some((0x47, 0x34)),
            Levels::SonicSimulatorAct6_2 => Some((0x43, 0x34)),
            Levels::SonicSimulatorAct6_3 => Some((0x46, 0x34)),
            Levels::SonicSimulatorAct7_1 => Some((0x41, 0x33)),
            Levels::SonicSimulatorAct7_2 => Some((0x45, 0x32)),
            Levels::SonicSimulatorAct7_3 => Some((0x43, 0x31)),
            Levels::NoLevel => None,
        }
    }

    /// The stage code of this level, as the game holds it in memory.
    pub fn code(self) -> (code: Option<[u8; 6]>)
        ensures
            code is Some <==> self != Levels::NoLevel,
            code matches Some(bytes) ==> self.stage_code() == Some(bytes@),
    {
        match self.tag() {
            Some((zone, act)) => {
                let bytes: [u8; 6] = [0x73, 0x74, 0x67, zone, act, 0x30];
                assert(bytes@ =~= seq![0x73, 0x74, 0x67, zone, act, 0x30]);
                Some(bytes)
            },
            None => None,
        }
    }

    /// The position of this level in the catalog.
    pub fn ordinal(self) -> (position: usize)
        ensures
            position == self.index(),
            position <= LEVEL_COUNT,
            position < LEVEL_COUNT <==> self != Levels::NoLevel,
    {
        match self {
            Levels::TropicalResortAct1 => 0,
            Levels::TropicalResortAct2 => 1,
            Levels::TropicalResortAct3 => 2,
            Levels::TropicalResortAct4 => 3,
            Levels::TropicalResortAct5 => 4,
            Levels::TropicalResortAct6 => 5,
            Levels::TropicalResortBoss => 6,
            Levels::SweetMountainAct1 => 7,
            Levels::SweetMountainAct2 => 8,
            Levels::SweetMountainAct3 => 9,
            Levels::SweetMountainAct4 => 10,
            Levels::SweetMountainAct5 => 11,
            Levels::SweetMountainAct6 => 12,
            Levels::SweetMountainBoss => 13,
            Levels::StarlightCarnivalAct1 => 14,
            Levels::StarlightCarnivalAct2 => 15,
            Levels::StarlightCarnivalAct3 => 16,
            Levels::StarlightCarnivalAct4 => 17,
            Levels::StarlightCarnivalAct5 => 18,
            Levels::StarlightCarnivalAct6 => 19,
            Levels::StarlightCarnivalBoss => 20,
            Levels::PlanetWispAct1 => 21,
            Levels::PlanetWispAct2 => 22,
            Levels::PlanetWispAct3 => 23,
            Levels::PlanetWispAct4 => 24,
            Levels::PlanetWispAct5 => 25,
            Levels::PlanetWispAct6 => 26,
            Levels::PlanetWispBoss => 27,
            Levels::AquariumParkAct1 => 28,
            Levels::AquariumParkAct2 => 29,
            Levels::AquariumParkAct3 => 30,
            Levels::AquariumParkAct4 => 31,
            Levels::AquariumParkAct5 => 32,
            Levels::AquariumParkAct6 => 33,
            Levels::AquariumParkBoss => 34,
            Levels::AsteroidCoasterAct1 => 35,
            Levels::AsteroidCoasterAct2 => 36,
            Levels::AsteroidCoasterAct3 => 37,
            Levels::AsteroidCoasterAct4 => 38,
            Levels::AsteroidCoasterAct5 => 39,
            Levels::AsteroidCoasterAct6 => 40,
            Levels::AsteroidCoasterBoss => 41,
            Levels::TerminalVelocityAct1 => 42,
            Levels::TerminalVelocityBoss => 43,
            Levels::TerminalVelocityAct2 => 44,
            Levels::SonicSimulatorAct1_1 => 45,
            Levels::SonicSimulatorAct1_2 => 46,
            Levels::SonicSimulatorAct1_3 => 47,
            Levels::SonicSimulatorAct2_1 => 48,
            Levels::SonicSimulatorAct2_2 => 49,
            Levels::SonicSimulatorAct2_3 => 50,
            Levels::SonicSimulatorAct3_1 => 51,
            Levels::SonicSimulatorAct3_2 => 52,
            Levels::SonicSimulatorAct3_3 => 53,
            Levels::SonicSimulatorAct4_1 => 54,
            Levels::SonicSimulatorAct4_2 => 55,
            Levels::SonicSimulatorAct4_3 => 56,
            Levels::SonicSimulatorAct5_1 => 57,
            Levels::SonicSimulatorAct5_2 => 58,
            Levels::SonicSimulatorAct5_3 => 59,
            Levels::SonicSimulatorAct6_1 => 60,
            Levels::SonicSimulatorAct6_2 => 61,
            Levels::SonicSimulatorAct6_3 => 62,
            Levels::SonicSimulatorAct7_1 => 63,
            Levels::SonicSimulatorAct7_2 => 64,
            Levels::SonicSimulatorAct7_3 => 65,
            Levels::NoLevel => 66,
        }
    }

    /// The level at a position of the catalog; the sentinel for every
    /// position past the catalog's end.
    pub fn from_ordinal(position: usize) -> (level: Levels)
        ensures
            position < LEVEL_COUNT ==> level.index() == position,
            position >= LEVEL_COUNT ==> level == Levels::NoLevel,
    {
        match position {
            0 => Levels::TropicalResortAct1,
            1 => Levels::TropicalResortAct2,
            2 => Levels::TropicalResortAct3,
            3 => Levels::TropicalResortAct4,
            4 => Levels::TropicalResortAct5,
            5 => Levels::TropicalResortAct6,
            6 => Levels::TropicalResortBoss,
            7 => Levels::SweetMountainAct1,
            8 => Levels::SweetMountainAct2,
            9 => Levels::SweetMountainAct3,
            10 => Levels::SweetMountainAct4,
            11 => Levels::SweetMountainAct5,
            12 => Levels::SweetMountainAct6,
            13 => Levels::SweetMountainBoss,
            14 => Levels::StarlightCarnivalAct1,
            15 => Levels::StarlightCarnivalAct2,
            16 => Levels::StarlightCarnivalAct3,
            17 => Levels::StarlightCarnivalAct4,
            18 => Levels::StarlightCarnivalAct5,
            19 => Levels::StarlightCarnivalAct6,
            20 => Levels::StarlightCarnivalBoss,
            21 => Levels::PlanetWispAct1,
            22 => Levels::PlanetWispAct2,
            23 => Levels::PlanetWispAct3,
            24 => Levels::PlanetWispAct4,
            25 => Levels::PlanetWispAct5,
            26 => Levels::PlanetWispAct6,
            27 => Levels::PlanetWispBoss,
            28 => Levels::AquariumParkAct1,
            29 => Levels::AquariumParkAct2,
            30 => Levels::AquariumParkAct3,
            31 => Levels::AquariumParkAct4,
            32 => Levels::AquariumParkAct5,
            33 => Levels::AquariumParkAct6,
            34 => Levels::AquariumParkBoss,
            35 => Levels::AsteroidCoasterAct1,
            36 => Levels::AsteroidCoasterAct2,
            37 => Levels::AsteroidCoasterAct3,
            38 => Levels::AsteroidCoasterAct4,
            39 => Levels::AsteroidCoasterAct5,
            40 => Levels::AsteroidCoasterAct6,
            41 => Levels::AsteroidCoasterBoss,
            42 => Levels::TerminalVelocityAct1,
            43 => Levels::TerminalVelocityBoss,
            44 => Levels::TerminalVelocityAct2,
            45 => Levels::SonicSimulatorAct1_1,
            46 => Levels::SonicSimulatorAct1_2,
            47 => Levels::SonicSimulatorAct1_3,
            48 => Levels::SonicSimulatorAct2_1,
            49 => Levels::SonicSimulatorAct2_2,
            50 => Levels::SonicSimulatorAct2_3,
            51 => Levels::SonicSimulatorAct3_1,
            52 => Levels::SonicSimulatorAct3_2,
            53 => Levels::SonicSimulatorAct3_3,
            54 => Levels::SonicSimulatorAct4_1,
            55 => Levels::SonicSimulatorAct4_2,
            56 => Levels::SonicSimulatorAct4_3,
            57 => Levels::SonicSimulatorAct5_1,
            58 => Levels::SonicSimulatorAct5_2,
            59 => Levels::SonicSimulatorAct5_3,
            60 => Levels::SonicSimulatorAct6_1,
            61 => Levels::SonicSimulatorAct6_2,
            62 => Levels::SonicSimulatorAct6_3,
            63 => Levels::SonicSimulatorAct7_1,
            64 => Levels::SonicSimulatorAct7_2,
            65 => Levels::SonicSimulatorAct7_3,
            _ => Levels::NoLevel,
        }
    }

    /// The level that a stage code read from the game names.
    pub fn from_stage_code(code: &[u8; 6]) -> (level: Levels)
        ensures
            level == classify(code@),
            level != Levels::NoLevel ==> level.stage_code() == Some(code@),
            level == Levels::NoLevel ==> forall|other: Levels| other.stage_code() != Some(code@),
    {
        let framed = code[0] == 0x73 && code[1] == 0x74 && code[2] == 0x67 && code[5] == 0x30;
        let level = if !framed {
            Levels::NoLevel
        } else {
            match (code[3], code[4]) {
                (0x31, 0x31) => Levels::TropicalResortAct1,
                (0x31, 0x33) => Levels::TropicalResortAct2,
                (0x31, 0x32) => Levels::TropicalResortAct3,
                (0x31, 0x34) => Levels::TropicalResortAct4,
                (0x31, 0x35) => Levels::TropicalResortAct5,
                (0x31, 0x36) => Levels::TropicalResortAct6,
                (0x31, 0x39) => Levels::TropicalResortBoss,
                (0x32, 0x31) => Levels::SweetMountainAct1,
                (0x32, 0x33) => Levels::SweetMountainAct2,
                (0x32, 0x32) => Levels::SweetMountainAct3,
                (0x32, 0x36) => Levels::SweetMountainAct4,
                (0x32, 0x34) => Levels::SweetMountainAct5,
                (0x32, 0x35) => Levels::SweetMountainAct6,
                (0x32, 0x39) => Levels::SweetMountainBoss,
                (0x33, 0x31) => Levels::StarlightCarnivalAct1,
                (0x33, 0x33) => Levels::StarlightCarnivalAct2,
                (0x33, 0x34) => Levels::StarlightCarnivalAct3,
                (0x33, 0x35) => Levels::StarlightCarnivalAct4,
                (0x33, 0x32) => Levels::StarlightCarnivalAct5,
                (0x33, 0x36) => Levels::StarlightCarnivalAct6,
                (0x33, 0x39) => Levels::StarlightCarnivalBoss,
                (0x34, 0x31) => Levels::PlanetWispAct1,
                (0x34, 0x34) => Levels::PlanetWispAct2,
                (0x34, 0x35) => Levels::PlanetWispAct3,
                (0x34, 0x33) => Levels::PlanetWispAct4,
                (0x34, 0x36) => Levels::PlanetWispAct5,
                (0x34, 0x32) => Levels::PlanetWispAct6,
                (0x34, 0x39) => Levels::PlanetWispBoss,
                (0x35, 0x31) => Levels::AquariumParkAct1,
                (0x35, 0x34) => Levels::AquariumParkAct2,
                (0x35, 0x35) => Levels::AquariumParkAct3,
                (0x35, 0x33) => Levels::AquariumParkAct4,
                (0x35, 0x36) => Levels::AquariumParkAct5,
                (0x35, 0x32) => Levels::AquariumParkAct6,
                (0x35, 0x39) => Levels::AquariumParkBoss,
                (0x36, 0x31) => Levels::AsteroidCoasterAct1,
                (0x36, 0x33) => Levels::AsteroidCoasterAct2,
                (0x36, 0x34) => Levels::AsteroidCoasterAct3,
                (0x36, 0x35) => Levels::AsteroidCoasterAct4,
                (0x36, 0x36) => Levels::AsteroidCoasterAct5,
                (0x36, 0x32) => Levels::AsteroidCoasterAct6,
                (0x36, 0x39) => Levels::AsteroidCoasterBoss,
                (0x37, 0x31) => Levels::TerminalVelocityAct1,
                (0x37, 0x39) => Levels::TerminalVelocityBoss,
                (0x37, 0x32) => Levels::TerminalVelocityAct2,
                (0x44, 0x31) => Levels::SonicSimulatorAct1_1,
                (0x42, 0x32) => Levels::SonicSimulatorAct1_2,
                (0x45, 0x35) => Levels::SonicSimulatorAct1_3,
                (0x44, 0x32) => Levels::SonicSimulatorAct2_1,
                (0x42, 0x33) => Levels::SonicSimulatorAct2_2,
                (0x46, 0x33) => Levels::SonicSimulatorAct2_3,
                (0x47, 0x31) => Levels::SonicSimulatorAct3_1,
                (0x47, 0x33) => Levels::SonicSimulatorAct3_2,
                (0x41, 0x31) => Levels::SonicSimulatorAct3_3,
                (0x44, 0x33) => Levels::SonicSimulatorAct4_1,
                (0x47, 0x32) => Levels::SonicSimulatorAct4_2,
                (0x43, 0x35) => Levels::SonicSimulatorAct4_3,
                (0x45, 0x33) => Levels::SonicSimulatorAct5_1,
                (0x42, 0x31) => Levels::SonicSimulatorAct5_2,
                (0x45, 0x34) => Levels::SonicSimulatorAct5_3,
                (0x47, 0x34) => Levels::SonicSimulatorAct6_1,
                (0x43, 0x34) => Levels::SonicSimulatorAct6_2,
                (0x46, 0x34) => Levels::SonicSimulatorAct6_3,
                (0x41, 0x33) => Levels::SonicSimulatorAct7_1,
                (0x45, 0x32) => Levels::SonicSimulatorAct7_2,
                (0x43, 0x31) => Levels::SonicSimulatorAct7_3,
                _ => Levels::NoLevel,
            }
        };
        proof {
            if level == Levels::NoLevel {
                assert forall|other: Levels| other.stage_code() != Some(code@) by {
                    lemma_code_bytes(other);
                }
            } else {
                lemma_code_bytes(level);
                assert(level.stage_code().unwrap() =~= code@);
                lemma_classify_catalog(level);
            }
        }
        level
    }
}

/// The level whose stage code is `code`; the sentinel where the catalog holds
/// no such code.
pub open spec fn classify(code: Seq<u8>) -> Levels {
    if exists|level: Levels| level.stage_code() == Some(code) {
        choose|level: Levels| level.stage_code() == Some(code)
    } else {
        Levels::NoLevel
    }
}

/// The bytes of a stage code, one by one.
pub proof fn lemma_code_bytes(level: Levels)
    ensures
        level.stage_code() is Some <==> level != Levels::NoLevel,
        level.stage_code() matches Some(code) ==> {
            &&& code.len() == 6
            &&& code[0] == 0x73
            &&& code[1] == 0x74
            &&& code[2] == 0x67
            &&& level.stage_tag() == Some((code[3], code[4]))
            &&& code[5] == 0x30
        },
{
}

/// No two levels share a stage code.
pub proof fn lemma_codes_distinct(a: Levels, b: Levels)
    requires
        a != Levels::NoLevel,
        a.stage_code() == b.stage_code(),
    ensures
        a == b,
{
    lemma_code_bytes(a);
    lemma_code_bytes(b);
}

/// No two levels share a position, and no position lies past
/// [`LEVEL_COUNT`].
pub proof fn lemma_index_distinct(a: Levels, b: Levels)
    requires
        a.index() == b.index(),
    ensures
        a == b,
        a.index() <= LEVEL_COUNT,
{
}

/// Classifying the stage code of a level of the catalog gives that level
/// back.
pub proof fn lemma_classify_catalog(level: Levels)
    requires
        level != Levels::NoLevel,
    ensures
        classify(level.stage_code().unwrap()) == level,
{
    lemma_code_bytes(level);
    let code = level.stage_code().unwrap();
    let found = classify(code);
    assert(found.stage_code() == Some(code));
    lemma_codes_distinct(level, found);
}

/// A byte pattern that is no level's stage code classifies as the sentinel,
/// and only such a pattern does.
pub proof fn lemma_classify_unknown(code: Seq<u8>)
    ensures
        classify(code) == Levels::NoLevel <==> (forall|level: Levels|
            level.stage_code() != Some(code)),
{
    if exists|level: Levels| level.stage_code() == Some(code) {
        let found = classify(code);
        assert(found.stage_code() == Some(code));
        lemma_code_bytes(found);
    }
}

} // verus!
