use vstd::prelude::*;

verus! {

/// Semantic tag classifying what an animation sequence depicts (idle, walk,
/// die, ...), independent of its storage index in the model. The raw value `0`
/// (`RESET`) means "no forced activity". Unknown raw values are valid and
/// simply unnamed.
#[derive(Copy, Clone, Debug, PartialEq, Eq, PartialOrd, Ord, Structural)]
pub struct Activity {
    pub raw: i32,
}

impl Activity {
    /// Raw value meaning "no forced activity / reset".
    pub const RESET: i32 = 0;
    pub const IDLE: i32 = 1;
    pub const GUARD: i32 = 2;
    pub const WALK: i32 = 3;
    pub const RUN: i32 = 4;
    pub const FLY: i32 = 5;
    pub const SWIM: i32 = 6;
    pub const HOP: i32 = 7;
    pub const LEAP: i32 = 8;
    pub const FALL: i32 = 9;
    pub const LAND: i32 = 10;
    pub const STRAFE_LEFT: i32 = 11;
    pub const STRAFE_RIGHT: i32 = 12;
    pub const ROLL_LEFT: i32 = 13;
    pub const ROLL_RIGHT: i32 = 14;
    pub const TURN_LEFT: i32 = 15;
    pub const TURN_RIGHT: i32 = 16;
    pub const CROUCH: i32 = 17;
    pub const CROUCHIDLE: i32 = 18;
    pub const STAND: i32 = 19;
    pub const USE: i32 = 20;
    pub const SIGNAL1: i32 = 21;
    pub const SIGNAL2: i32 = 22;
    pub const SIGNAL3: i32 = 23;
    pub const TWITCH: i32 = 24;
    pub const COWER: i32 = 25;
    pub const SMALL_FLINCH: i32 = 26;
    pub const BIG_FLINCH: i32 = 27;
    pub const RANGE_ATTACK1: i32 = 28;
    pub const RANGE_ATTACK2: i32 = 29;
    pub const MELEE_ATTACK1: i32 = 30;
    pub const MELEE_ATTACK2: i32 = 31;
    pub const RELOAD: i32 = 32;
    pub const ARM: i32 = 33;
    pub const DISARM: i32 = 34;
    pub const EAT: i32 = 35;
    pub const DIESIMPLE: i32 = 36;
    pub const DIEBACKWARD: i32 = 37;
    pub const DIEFORWARD: i32 = 38;
    pub const DIEVIOLENT: i32 = 39;
    pub const BARNACLE_HIT: i32 = 40;
    pub const BARNACLE_PULL: i32 = 41;
    pub const BARNACLE_CHOMP: i32 = 42;
    pub const BARNACLE_CHEW: i32 = 43;
    pub const SLEEP: i32 = 44;
    pub const INSPECT_FLOOR: i32 = 45;
    pub const INSPECT_WALL: i32 = 46;
    pub const IDLE_ANGRY: i32 = 47;
    pub const WALK_HURT: i32 = 48;
    pub const RUN_HURT: i32 = 49;
    pub const HOVER: i32 = 50;
    pub const GLIDE: i32 = 51;
    pub const FLY_LEFT: i32 = 52;
    pub const FLY_RIGHT: i32 = 53;
    pub const DETECT_SCENT: i32 = 54;
    pub const SNIFF: i32 = 55;
    pub const BITE: i32 = 56;
    pub const THREAT_DISPLAY: i32 = 57;
    pub const FEAR_DISPLAY: i32 = 58;
    pub const EXCITED: i32 = 59;
    pub const SPECIAL_ATTACK1: i32 = 60;
    pub const SPECIAL_ATTACK2: i32 = 61;
    pub const COMBAT_IDLE: i32 = 62;
    pub const WALK_SCARED: i32 = 63;
    pub const RUN_SCARED: i32 = 64;
    pub const VICTORY_DANCE: i32 = 65;
    pub const DIE_HEADSHOT: i32 = 66;
    pub const DIE_CHESTSHOT: i32 = 67;
    pub const DIE_GUTSHOT: i32 = 68;
    pub const DIE_BACKSHOT: i32 = 69;
    pub const FLINCH_HEAD: i32 = 70;
    pub const FLINCH_CHEST: i32 = 71;
    pub const FLINCH_STOMACH: i32 = 72;
    pub const FLINCH_LEFTARM: i32 = 73;
    pub const FLINCH_RIGHTARM: i32 = 74;
    pub const FLINCH_LEFTLEG: i32 = 75;
    pub const FLINCH_RIGHTLEG: i32 = 76;

    pub fn from_raw(raw: i32) -> (r: Self)
        ensures
            r.raw == raw,
    {
        Activity { raw }
    }

    pub fn into_raw(self) -> (r: i32)
        ensures
            r == self.raw,
    {
        self.raw
    }

    /// The human-readable name of a known activity value; `None` for a valid
    /// but unnamed value. The named values are exactly `0..=76`.
    pub fn as_str(&self) -> (r: Option<&'static str>)
        ensures
            r.is_some() <==> 0 <= self.raw <= 76,
    {
        let r = match self.raw {
            0 => "RESET",
            1 => "IDLE",
            2 => "GUARD",
            3 => "WALK",
            4 => "RUN",
            5 => "FLY",
            6 => "SWIM",
            7 => "HOP",
            8 => "LEAP",
            9 => "FALL",
            10 => "LAND",
            11 => "STRAFE_LEFT",
            12 => "STRAFE_RIGHT",
            13 => "ROLL_LEFT",
            14 => "ROLL_RIGHT",
            15 => "TURN_LEFT",
            16 => "TURN_RIGHT",
            17 => "CROUCH",
            18 => "CROUCHIDLE",
            19 => "STAND",
            20 => "USE",
            21 => "SIGNAL1",
            22 => "SIGNAL2",
            23 => "SIGNAL3",
            24 => "TWITCH",
            25 => "COWER",
            26 => "SMALL_FLINCH",
            27 => "BIG_FLINCH",
            28 => "RANGE_ATTACK1",
            29 => "RANGE_ATTACK2",
            30 => "MELEE_ATTACK1",
            31 => "MELEE_ATTACK2",
            32 => "RELOAD",
            33 => "ARM",
            34 => "DISARM",
            35 => "EAT",
            36 => "DIESIMPLE",
            37 => "DIEBACKWARD",
            38 => "DIEFORWARD",
            39 => "DIEVIOLENT",
            40 => "BARNACLE_HIT",
            41 => "BARNACLE_PULL",
            42 => "BARNACLE_CHOMP",
            43 => "BARNACLE_CHEW",
            44 => "SLEEP",
            45 => "INSPECT_FLOOR",
            46 => "INSPECT_WALL",
            47 => "IDLE_ANGRY",
            48 => "WALK_HURT",
            49 => "RUN_HURT",
            50 => "HOVER",
            51 => "GLIDE",
            52 => "FLY_LEFT",
            53 => "FLY_RIGHT",
            54 => "DETECT_SCENT",
            55 => "SNIFF",
            56 => "BITE",
            57 => "THREAT_DISPLAY",
            58 => "FEAR_DISPLAY",
            59 => "EXCITED",
            60 => "SPECIAL_ATTACK1",
            61 => "SPECIAL_ATTACK2",
            62 => "COMBAT_IDLE",
            63 => "WALK_SCARED",
            64 => "RUN_SCARED",
            65 => "VICTORY_DANCE",
            66 => "DIE_HEADSHOT",
            67 => "DIE_CHESTSHOT",
            68 => "DIE_GUTSHOT",
            69 => "DIE_BACKSHOT",
            70 => "FLINCH_HEAD",
            71 => "FLINCH_CHEST",
            72 => "FLINCH_STOMACH",
            73 => "FLINCH_LEFTARM",
            74 => "FLINCH_RIGHTARM",
            75 => "FLINCH_LEFTLEG",
            76 => "FLINCH_RIGHTLEG",
            _ => {
                return None;
            },
        };
        Some(r)
    }
}

impl Default for Activity {
    /// The default activity is `RESET` (no forced activity).
    fn default() -> (r: Self)
        ensures
            r.raw == 0,
    {
        Activity { raw: 0 }
    }
}

} // verus!
