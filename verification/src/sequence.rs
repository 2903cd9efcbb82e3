use vstd::prelude::*;
use crate::activity::Activity;
use crate::events::EventRecord;
use crate::events::event_kind_is_client;
use crate::events::event_kind_is_script_sound;

verus! {

broadcast use vstd::seq_lib::group_seq_properties;

/// One animation clip of a model: its name, playback rate, flags, semantic
/// activity tag and weight, frame count, linear movement, bounding box,
/// transition graph nodes, and the timed events embedded in it.
///
/// Rate and geometry fields are stored as the raw IEEE-754 bits of the
/// asset's fields; this layer never does arithmetic on them, it only hands
/// them through.
#[derive(Clone, Debug)]
pub struct SequenceDesc {
    /// The sequence's name, without any terminator.
    pub label: Vec<u8>,
    /// Raw bits of the frames-per-second playback rate.
    pub fps_bits: u32,
    pub flags: i32,
    pub activity: Activity,
    pub activity_weight: i32,
    /// Number of frames in the clip.
    pub frames: i32,
    /// Raw bits of the three components of the clip's total displacement.
    pub linear_movement_bits: [u32; 3],
    /// Raw bits of the three components of the bounding-box corners.
    pub bbmin_bits: [u32; 3],
    pub bbmax_bits: [u32; 3],
    pub entry_node: i32,
    pub exit_node: i32,
    /// The timed events of this clip, in storage order.
    pub events: Vec<EventRecord>,
}

/// Bit 0 of the flags marks a looping clip.
pub open spec fn sequence_is_looping(flags: i32) -> bool {
    flags & 0x1 != 0
}

/// Bit 15 of the flags marks a static (single-pose) clip.
pub open spec fn sequence_is_static(flags: i32) -> bool {
    flags & 0x8000 != 0
}

/// Whether `animation_events` reports event `ev` for the window
/// `[start, end)` given in normalized units over `[0, 256]`.
///
/// The window is rescaled to frame units: multiplied by
/// `(frames - 1) / 256` when the clip has more than one frame, and collapsed
/// to the full `[0, 1)` unit range otherwise. To stay in integers both sides
/// of each comparison are kept scaled by 256: `s` and `e` below are the
/// window bounds and `f` the event's frame, in 256ths of a frame. An event
/// is reported when its frame lies in `[s, e)` and its kind is not in the
/// client band; when the clip loops and the window reaches the last frame,
/// an event is also reported when its frame is below `e - (frames + 1)`
/// (wrap-around firing near the loop boundary, reproduced as stored).
pub open spec fn anim_event_selected(
    frames: i32,
    flags: i32,
    start: int,
    end: int,
    ev: EventRecord,
) -> bool {
    let lf = frames - 1;
    let s = if frames > 1 { start * lf } else { 0 };
    let e = if frames > 1 { end * lf } else { 256 };
    let f = 256 * ev.frame;
    &&& !event_kind_is_client(ev.kind)
    &&& {
        ||| (f >= s && f < e)
        ||| (sequence_is_looping(flags) && e >= 256 * lf && f < e - 256 * (frames + 1))
    }
}

/// Whether `precache` hands this event's `options` to the sound-precache
/// collaborator: a server-relevant (non-client) sound event with a non-empty
/// name.
pub open spec fn precache_sound_event(ev: EventRecord) -> bool {
    &&& !event_kind_is_client(ev.kind)
    &&& event_kind_is_script_sound(ev.kind)
    &&& ev.options@.len() > 0
}

/// Whether `precache` reports this event as a data-quality warning: a sound
/// event whose name is empty.
pub open spec fn precache_invalid_event(ev: EventRecord) -> bool {
    &&& !event_kind_is_client(ev.kind)
    &&& event_kind_is_script_sound(ev.kind)
    &&& ev.options@.len() == 0
}

/// What `precache` decided for one sequence: the positions of the events
/// whose sound names must be registered with the external sound-precache
/// collaborator, and the positions of sound events with an empty name, each
/// of which deserves one non-fatal diagnostic.
#[derive(Clone, Debug)]
pub struct PrecachePlan {
    pub sounds: Vec<usize>,
    pub invalid: Vec<usize>,
}

/// What `precache` promises of its plan for the event table `events`:
/// `sounds` holds, in increasing order, exactly the positions of the sound
/// events to register, and `invalid` exactly the positions of the sound
/// events with an empty name.
pub open spec fn precache_plan_ok(events: Seq<EventRecord>, plan: PrecachePlan) -> bool {
    &&& forall|k: int|
        0 <= k < plan.sounds@.len() ==> plan.sounds@[k] < events.len() && precache_sound_event(
            events[plan.sounds@[k] as int],
        )
    &&& forall|k1: int, k2: int|
        0 <= k1 < k2 < plan.sounds@.len() ==> plan.sounds@[k1] < plan.sounds@[k2]
    &&& forall|j: int|
        0 <= j < events.len() && precache_sound_event(events[j]) ==> plan.sounds@.contains(
            j as usize,
        )
    &&& forall|k: int|
        0 <= k < plan.invalid@.len() ==> plan.invalid@[k] < events.len()
            && precache_invalid_event(events[plan.invalid@[k] as int])
    &&& forall|k1: int, k2: int|
        0 <= k1 < k2 < plan.invalid@.len() ==> plan.invalid@[k1] < plan.invalid@[k2]
    &&& forall|j: int|
        0 <= j < events.len() && precache_invalid_event(events[j]) ==> plan.invalid@.contains(
            j as usize,
        )
}

impl SequenceDesc {
    /// The sequence's name bytes.
    pub fn name(&self) -> (r: &Vec<u8>)
        ensures
            r == &self.label,
    {
        &self.label
    }

    /// Raw IEEE-754 bits of the clip's frames-per-second rate.
    pub fn fps_bits(&self) -> (r: u32)
        ensures
            r == self.fps_bits,
    {
        self.fps_bits
    }

    pub fn flags(&self) -> (r: i32)
        ensures
            r == self.flags,
    {
        self.flags
    }

    pub fn is_looping(&self) -> (r: bool)
        ensures
            r == sequence_is_looping(self.flags),
    {
        self.flags & 0x1 != 0
    }

    pub fn is_static(&self) -> (r: bool)
        ensures
            r == sequence_is_static(self.flags),
    {
        self.flags & 0x8000 != 0
    }

    pub fn activity(&self) -> (r: Activity)
        ensures
            r == self.activity,
    {
        self.activity
    }

    pub fn activity_weight(&self) -> (r: i32)
        ensures
            r == self.activity_weight,
    {
        self.activity_weight
    }

    pub fn frames(&self) -> (r: i32)
        ensures
            r == self.frames,
    {
        self.frames
    }

    pub fn linear_movement_bits(&self) -> (r: [u32; 3])
        ensures
            r == self.linear_movement_bits,
    {
        self.linear_movement_bits
    }

    pub fn bbmin_bits(&self) -> (r: [u32; 3])
        ensures
            r == self.bbmin_bits,
    {
        self.bbmin_bits
    }

    pub fn bbmax_bits(&self) -> (r: [u32; 3])
        ensures
            r == self.bbmax_bits,
    {
        self.bbmax_bits
    }

    pub fn entry_node(&self) -> (r: i32)
        ensures
            r == self.entry_node,
    {
        self.entry_node
    }

    pub fn exit_node(&self) -> (r: i32)
        ensures
            r == self.exit_node,
    {
        self.exit_node
    }

    pub fn events(&self) -> (r: &Vec<EventRecord>)
        ensures
            r == &self.events,
    {
        &self.events
    }

    /// Decides, for every event of this sequence, whether its sound must be
    /// registered with the external sound-precache collaborator (a sound
    /// event with a non-empty name, client-band events skipped) or reported
    /// as a data-quality warning (a sound event with an empty name). Both
    /// lists hold positions into `events`, in storage order.
    pub fn precache(&self) -> (r: PrecachePlan)
        ensures
            precache_plan_ok(self.events@, r),
    {
        let mut sounds: Vec<usize> = Vec::new();
        let mut invalid: Vec<usize> = Vec::new();
        let n = self.events.len();
        let mut i: usize = 0;
        while i < n
            invariant
                n == self.events@.len(),
                i <= n,
                forall|k: int|
                    0 <= k < sounds@.len() ==> sounds@[k] < i
                        && precache_sound_event(self.events@[sounds@[k] as int]),
                forall|k1: int, k2: int|
                    0 <= k1 < k2 < sounds@.len() ==> sounds@[k1] < sounds@[k2],
                forall|j: int|
                    0 <= j < i && precache_sound_event(self.events@[j])
                        ==> sounds@.contains(j as usize),
                forall|k: int|
                    0 <= k < invalid@.len() ==> invalid@[k] < i
                        && precache_invalid_event(self.events@[invalid@[k] as int]),
                forall|k1: int, k2: int|
                    0 <= k1 < k2 < invalid@.len() ==> invalid@[k1] < invalid@[k2],
                forall|j: int|
                    0 <= j < i && precache_invalid_event(self.events@[j])
                        ==> invalid@.contains(j as usize),
            decreases n - i,
        {
            let ev = &self.events[i];
            if !ev.kind.is_client() && ev.kind.is_script_sound() {
                if ev.options.len() > 0 {
                    sounds.push(i);
                } else {
                    invalid.push(i);
                }
            }
            i += 1;
        }
        PrecachePlan { sounds, invalid }
    }

    /// The positions of the events this sequence fires in the playback
    /// window `[start, end)`, in storage order. The window is given in
    /// normalized units over `[0, 256]`; see `anim_event_selected` for the
    /// exact matching rule, including the wrap-around firing of looping
    /// clips near the loop boundary.
    pub fn animation_events(&self, start: i32, end: i32) -> (r: Vec<usize>)
        ensures
            forall|k: int|
                0 <= k < r@.len() ==> r@[k] < self.events@.len()
                    && anim_event_selected(
                    self.frames,
                    self.flags,
                    start as int,
                    end as int,
                    self.events@[r@[k] as int],
                ),
            forall|k1: int, k2: int| 0 <= k1 < k2 < r@.len() ==> r@[k1] < r@[k2],
            forall|j: int|
                0 <= j < self.events@.len() && anim_event_selected(
                    self.frames,
                    self.flags,
                    start as int,
                    end as int,
                    self.events@[j],
                ) ==> r@.contains(j as usize),
    {
        let looping = self.is_looping();
        let frames = self.frames;
        let lf: i64 = frames as i64 - 1;
        proof {
            assert(frames > 1 ==> (start as i64) * lf <= 0x4000_0000_0000_0000
                && (start as i64) * lf >= -0x4000_0000_0000_0000 && (end as i64) * lf
                <= 0x4000_0000_0000_0000 && (end as i64) * lf >= -0x4000_0000_0000_0000)
                by (nonlinear_arith)
                requires
                    -0x8000_0000 <= start as i64 <= 0x7fff_ffff,
                    -0x8000_0000 <= end as i64 <= 0x7fff_ffff,
                    lf == frames as i64 - 1,
                    -0x8000_0001 <= lf <= 0x7fff_fffe,
            ;
        }
        let s: i64 = if frames > 1 {
            start as i64 * lf
        } else {
            0
        };
        let e: i64 = if frames > 1 {
            end as i64 * lf
        } else {
            256
        };
        let wrap_window: bool = looping && e >= 256 * lf;
        let wrap_bound: i64 = e - 256 * (frames as i64 + 1);
        let mut r: Vec<usize> = Vec::new();
        let n = self.events.len();
        let mut i: usize = 0;
        while i < n
            invariant
                n == self.events@.len(),
                i <= n,
                lf == self.frames - 1,
                s == (if self.frames > 1 { (start as int) * lf } else { 0 }),
                e == (if self.frames > 1 { (end as int) * lf } else { 256 }),
                wrap_window == (sequence_is_looping(self.flags) && e >= 256 * lf),
                wrap_bound == e - 256 * (self.frames + 1),
                forall|k: int|
                    0 <= k < r@.len() ==> r@[k] < i && anim_event_selected(
                        self.frames,
                        self.flags,
                        start as int,
                        end as int,
                        self.events@[r@[k] as int],
                    ),
                forall|k1: int, k2: int| 0 <= k1 < k2 < r@.len() ==> r@[k1] < r@[k2],
                forall|j: int|
                    0 <= j < i && anim_event_selected(
                        self.frames,
                        self.flags,
                        start as int,
                        end as int,
                        self.events@[j],
                    ) ==> r@.contains(j as usize),
            decreases n - i,
        {
            let ev = &self.events[i];
            if !ev.kind.is_client() {
                let f: i64 = 256 * ev.frame as i64;
                if (f >= s && f < e) || (wrap_window && f < wrap_bound) {
                    r.push(i);
                }
            }
            i += 1;
        }
        r
    }
}

} // verus!
