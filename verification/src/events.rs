use vstd::prelude::*;

verus! {

/// Kind of a timed animation event. The raw value is partitioned by numeric
/// range into four non-overlapping bands: `specific` `[0, 1000)`, `scripted`
/// `[1000, 2000)`, `shared` `[2000, 5000)` and `client` `[5000, ..)`. Band
/// membership is a derived property of the raw value, not stored separately.
#[derive(Copy, Clone, Debug, PartialEq, Eq, PartialOrd, Ord, Structural)]
pub struct EventKind {
    pub raw: i32,
}

impl EventKind {
    /// Lower bound of the `specific` band.
    pub const SPECIFIC: i32 = 0;
    /// Lower bound of the `scripted` band.
    pub const SCRIPTED: i32 = 1000;
    /// Lower bound of the `shared` band.
    pub const SHARED: i32 = 2000;
    /// Lower bound of the `client` band.
    pub const CLIENT: i32 = 5000;

    /// Character is now dead.
    pub const SCRIPT_DEAD: i32 = 1000;
    /// Does not allow interrupt.
    pub const SCRIPT_NOINTERRUPT: i32 = 1001;
    /// Will allow interrupt.
    pub const SCRIPT_CANINTERRUPT: i32 = 1002;
    /// Event now fires.
    pub const SCRIPT_FIREEVENT: i32 = 1003;
    /// Play named wave file (body channel).
    pub const SCRIPT_SOUND: i32 = 1004;
    /// Play named sentence.
    pub const SCRIPT_SENTENCE: i32 = 1005;
    /// Leave the character in air at the end of the sequence.
    pub const SCRIPT_INAIR: i32 = 1006;
    /// Set the animation by name after the sequence completes.
    pub const SCRIPT_ENDANIMATION: i32 = 1007;
    /// Play named wave file (voice channel).
    pub const SCRIPT_SOUND_VOICE: i32 = 1008;
    /// Play sentence group 25% of the time.
    pub const SCRIPT_SENTENCE_RND1: i32 = 1009;
    /// Bring back to life (for life/death sequences).
    pub const SCRIPT_NOT_DEAD: i32 = 1010;

    pub const MONSTER_BODYDROP_LIGHT: i32 = 2001;
    pub const MONSTER_BODYDROP_HEAVY: i32 = 2002;
    pub const MONSTER_SWISHSOUND: i32 = 2010;

    pub fn from_raw(raw: i32) -> (r: Self)
        ensures
            r.raw == raw,
    {
        EventKind { raw }
    }

    pub fn into_raw(self) -> (r: i32)
        ensures
            r == self.raw,
    {
        self.raw
    }

    pub fn is_specific(&self) -> (r: bool)
        ensures
            r == (0 <= self.raw < 1000),
    {
        self.raw >= Self::SPECIFIC && self.raw < Self::SCRIPTED
    }

    pub fn is_scripted(&self) -> (r: bool)
        ensures
            r == (1000 <= self.raw < 2000),
    {
        self.raw >= Self::SCRIPTED && self.raw < Self::SHARED
    }

    pub fn is_shared(&self) -> (r: bool)
        ensures
            r == (2000 <= self.raw < 5000),
    {
        self.raw >= Self::SHARED && self.raw < Self::CLIENT
    }

    pub fn is_client(&self) -> (r: bool)
        ensures
            r == event_kind_is_client(*self),
    {
        self.raw >= Self::CLIENT
    }

    /// Whether this is one of the two named scripted values that mean
    /// "play a sound" (body channel or voice channel).
    pub fn is_script_sound(&self) -> (r: bool)
        ensures
            r == event_kind_is_script_sound(*self),
    {
        self.raw == Self::SCRIPT_SOUND || self.raw == Self::SCRIPT_SOUND_VOICE
    }
}

/// The `client` band is `[5000, ..)`; such events are not server-relevant.
pub open spec fn event_kind_is_client(k: EventKind) -> bool {
    k.raw >= 5000
}

/// "Play a sound" events: body channel (1004) or voice channel (1008).
pub open spec fn event_kind_is_script_sound(k: EventKind) -> bool {
    k.raw == 1004 || k.raw == 1008
}

impl Default for EventKind {
    /// The default kind is the lowest `specific` value.
    fn default() -> (r: Self)
        ensures
            r.raw == 0,
    {
        EventKind { raw: 0 }
    }
}

/// One timed trigger embedded in a sequence: fires at `frame`, classified by
/// `kind`, with a short text payload `options` (for example a sound file
/// name), possibly empty.
#[derive(Clone, Debug)]
pub struct EventRecord {
    pub frame: i32,
    pub kind: EventKind,
    pub options: Vec<u8>,
}

impl EventRecord {
    pub fn frame(&self) -> (r: i32)
        ensures
            r == self.frame,
    {
        self.frame
    }

    pub fn kind(&self) -> (r: EventKind)
        ensures
            r == self.kind,
    {
        self.kind
    }

    /// The text payload of the event, without any terminator.
    pub fn options(&self) -> (r: &Vec<u8>)
        ensures
            r == &self.options,
    {
        &self.options
    }
}

} // verus!
