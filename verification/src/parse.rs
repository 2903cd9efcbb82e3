use vstd::prelude::*;
use vstd::arithmetic::power2::pow2;
use crate::activity::Activity;
use crate::bone::BoneControllerDesc;
use crate::events::EventKind;
use crate::events::EventRecord;
use crate::model::Model;
use crate::motion::Motion;
use crate::sequence::SequenceDesc;

verus! {

broadcast use vstd::seq_lib::group_seq_properties;

/// The little-endian 32-bit unsigned value stored at byte offset `off`.
pub open spec fn le_u32_spec(data: Seq<u8>, off: int) -> int {
    data[off] + 0x100 * data[off + 1] + 0x1_0000 * data[off + 2] + 0x100_0000 * data[off + 3]
}

/// The little-endian 32-bit two's-complement value stored at byte offset
/// `off`.
pub open spec fn le_i32_spec(data: Seq<u8>, off: int) -> int {
    let u = le_u32_spec(data, off);
    if u < 0x8000_0000 {
        u
    } else {
        u - 0x1_0000_0000
    }
}

/// The magnitude of an IEEE-754 single-precision value with (biased)
/// exponent `e` and fraction `m`, truncated toward zero: the significand
/// `2^23 + m` scaled by `2^(e - 150)`.
pub open spec fn f32_mag_trunc(e: u32, m: u32) -> int {
    if e >= 150 {
        (0x80_0000 + m) * pow2((e - 150) as nat)
    } else {
        (0x80_0000 + m) as int / pow2((150 - e) as nat) as int
    }
}

/// The integer a single-precision IEEE-754 value truncates to (toward
/// zero), from its raw bits, saturated to the 32-bit signed range. The
/// non-finite encodings (exponent 255) saturate as well.
pub open spec fn f32_bits_trunc(bits: u32) -> int {
    let e = (bits >> 23) & 0xff;
    let m = bits & 0x7f_ffff;
    let mag = f32_mag_trunc(e, m);
    if bits >> 31 == 1 {
        if mag >= 0x8000_0000 {
            -0x8000_0000
        } else {
            -mag
        }
    } else {
        if mag > 0x7fff_ffff {
            0x7fff_ffff
        } else {
            mag
        }
    }
}

/// The length of the NUL-terminated text at `off` inside a field of `max`
/// bytes: the distance to the first NUL, or `max` if there is none.
pub open spec fn cstr_len(data: Seq<u8>, off: int, max: int) -> int
    decreases max,
{
    if max <= 0 {
        0
    } else if data[off] == 0 {
        0
    } else {
        1 + cstr_len(data, off + 1, max - 1)
    }
}

proof fn lemma_cstr_len_char(data: Seq<u8>, off: int, max: int)
    requires
        max >= 0,
    ensures
        0 <= cstr_len(data, off, max) <= max,
        forall|k: int| off <= k < off + cstr_len(data, off, max) ==> data[k] != 0,
        cstr_len(data, off, max) < max ==> data[off + cstr_len(data, off, max)] == 0,
    decreases max,
{
    if max > 0 && data[off] != 0 {
        lemma_cstr_len_char(data, off + 1, max - 1);
    }
}


/// Byte offset of bone controller record `i`.
pub open spec fn bc_desc_off(data: Seq<u8>, i: int) -> int {
    le_i32_spec(data, 152) + i * 24
}

/// Byte offset of sequence descriptor `i`.
pub open spec fn seq_desc_off(data: Seq<u8>, i: int) -> int {
    le_i32_spec(data, 168) + i * 176
}

/// Byte offset of event record `k` of the sequence descriptor at `off`.
pub open spec fn seq_event_off(data: Seq<u8>, off: int, k: int) -> int {
    le_i32_spec(data, off + 52) + k * 76
}

/// A table of `count` elements of `size` bytes at byte offset `off` lies
/// within a buffer of `len` bytes.
pub open spec fn table_ok(len: int, count: int, off: int, size: int) -> bool {
    count >= 0 && off >= 0 && off + count * size <= len
}

/// The fixed header is present and its three variable-length tables (bone
/// controllers, sequences, transitions) lie within the buffer.
pub open spec fn header_ok(data: Seq<u8>) -> bool {
    &&& data.len() >= 244
    &&& table_ok(data.len() as int, le_i32_spec(data, 148), le_i32_spec(data, 152), 24)
    &&& table_ok(data.len() as int, le_i32_spec(data, 164), le_i32_spec(data, 168), 176)
    &&& table_ok(data.len() as int, le_i32_spec(data, 236), le_i32_spec(data, 240), 1)
}

/// The event table of the sequence descriptor at byte offset `off` lies
/// within the buffer.
pub open spec fn seq_events_ok(data: Seq<u8>, off: int) -> bool {
    table_ok(data.len() as int, le_i32_spec(data, off + 48), le_i32_spec(data, off + 52), 76)
}

/// Everything `from_bytes` validates: the header with its three tables, and
/// each sequence's event table.
pub open spec fn model_ok(data: Seq<u8>) -> bool {
    &&& header_ok(data)
    &&& forall|i: int|
        0 <= i < le_i32_spec(data, 164) ==> seq_events_ok(data, #[trigger] seq_desc_off(data, i))
}

/// Three raw 32-bit fields at consecutive offsets.
pub open spec fn vec3_matches(data: Seq<u8>, off: int, v: [u32; 3]) -> bool {
    &&& v@.len() == 3
    &&& v@[0] as int == le_u32_spec(data, off)
    &&& v@[1] as int == le_u32_spec(data, off + 4)
    &&& v@[2] as int == le_u32_spec(data, off + 8)
}

/// `ev` is the decoding of the event record at byte offset `off`.
pub open spec fn event_matches(data: Seq<u8>, off: int, ev: EventRecord) -> bool {
    &&& ev.frame as int == le_i32_spec(data, off)
    &&& ev.kind.raw as int == le_i32_spec(data, off + 4)
    &&& ev.options@ == data.subrange(off + 12, off + 12 + cstr_len(data, off + 12, 64))
}

/// `bc` is the decoding of the bone controller record at byte offset
/// `off`: the motion bitset, the range bounds truncated from their
/// single-precision encodings, and the external slot identifier.
pub open spec fn bone_controller_matches(data: Seq<u8>, off: int, bc: BoneControllerDesc) -> bool {
    &&& bc.motion.bits as int == le_u32_spec(data, off + 4)
    &&& bc.start as int == f32_bits_trunc(le_u32_spec(data, off + 8) as u32)
    &&& bc.end as int == f32_bits_trunc(le_u32_spec(data, off + 12) as u32)
    &&& bc.index as int == le_i32_spec(data, off + 20)
}

/// `s` is the decoding of the sequence descriptor at byte offset `off`,
/// events included.
pub open spec fn sequence_matches(data: Seq<u8>, off: int, s: SequenceDesc) -> bool {
    &&& s.label@ == data.subrange(off, off + cstr_len(data, off, 32))
    &&& s.fps_bits as int == le_u32_spec(data, off + 32)
    &&& s.flags as int == le_i32_spec(data, off + 36)
    &&& s.activity.raw as int == le_i32_spec(data, off + 40)
    &&& s.activity_weight as int == le_i32_spec(data, off + 44)
    &&& s.frames as int == le_i32_spec(data, off + 56)
    &&& vec3_matches(data, off + 76, s.linear_movement_bits)
    &&& vec3_matches(data, off + 96, s.bbmin_bits)
    &&& vec3_matches(data, off + 108, s.bbmax_bits)
    &&& s.entry_node as int == le_i32_spec(data, off + 160)
    &&& s.exit_node as int == le_i32_spec(data, off + 164)
    &&& s.events@.len() == le_i32_spec(data, off + 48)
    &&& forall|k: int|
        0 <= k < s.events@.len() ==> event_matches(
            data,
            #[trigger] seq_event_off(data, off, k),
            s.events@[k],
        )
}

/// `m` is the decoding of the whole asset.
pub open spec fn model_matches(data: Seq<u8>, m: Model) -> bool {
    &&& m.name@ == data.subrange(8, 8 + cstr_len(data, 8, 64))
    &&& m.version as int == le_i32_spec(data, 4)
    &&& m.flags as int == le_i32_spec(data, 136)
    &&& vec3_matches(data, 76, m.eye_position_bits)
    &&& vec3_matches(data, 88, m.min_bits)
    &&& vec3_matches(data, 100, m.max_bits)
    &&& vec3_matches(data, 112, m.bbmin_bits)
    &&& vec3_matches(data, 124, m.bbmax_bits)
    &&& m.bone_controllers@.len() == le_i32_spec(data, 148)
    &&& forall|i: int|
        0 <= i < m.bone_controllers@.len() ==> bone_controller_matches(
            data,
            #[trigger] bc_desc_off(data, i),
            m.bone_controllers@[i],
        )
    &&& m.sequences@.len() == le_i32_spec(data, 164)
    &&& forall|i: int|
        0 <= i < m.sequences@.len() ==> sequence_matches(
            data,
            #[trigger] seq_desc_off(data, i),
            m.sequences@[i],
        )
    &&& m.transitions@ == data.subrange(
        le_i32_spec(data, 240),
        le_i32_spec(data, 240) + le_i32_spec(data, 236),
    )
}

/// Reads the little-endian 32-bit unsigned field at `off`.
fn read_u32(data: &Vec<u8>, off: usize) -> (r: u32)
    requires
        off + 4 <= data@.len(),
    ensures
        r as int == le_u32_spec(data@, off as int),
{
    proof {
        vstd::std_specs::vec::axiom_spec_len(data);
    }
    let b0 = data[off] as u32;
    let b1 = data[off + 1] as u32;
    let b2 = data[off + 2] as u32;
    let b3 = data[off + 3] as u32;
    b0 + 0x100 * b1 + 0x1_0000 * b2 + 0x100_0000 * b3
}

/// Reads the little-endian 32-bit signed field at `off`.
fn read_i32(data: &Vec<u8>, off: usize) -> (r: i32)
    requires
        off + 4 <= data@.len(),
    ensures
        r as int == le_i32_spec(data@, off as int),
{
    let u = read_u32(data, off);
    if u < 0x8000_0000 {
        u as i32
    } else {
        -((0xffff_ffffu32 - u) as i32) - 1
    }
}

/// Truncates the single-precision value with raw bits `bits` toward zero,
/// saturating to the 32-bit signed range.
pub fn f32_bits_to_i32(bits: u32) -> (r: i32)
    ensures
        r as int == f32_bits_trunc(bits),
{
    let sign: u32 = bits >> 31;
    let e: u32 = (bits >> 23) & 0xff;
    let m: u32 = bits & 0x7f_ffff;
    proof {
        assert((bits & 0x7f_ffff) < 0x80_0000u32 && ((bits >> 23) & 0xff) < 0x100u32 && (bits
            >> 31) < 2u32) by (bit_vector);
    }
    let frac: u64 = m as u64 + 0x80_0000;
    let mag: u64 = if e >= 150 {
        let sh = e - 150;
        if sh >= 31 {
            proof {
                if sh > 31 {
                    vstd::arithmetic::power2::lemma_pow2_strictly_increases(31, sh as nat);
                }
                vstd::arithmetic::power2::lemma2_to64();
                assert(frac * pow2(sh as nat) >= 0x8000_0000) by (nonlinear_arith)
                    requires
                        frac >= 0x80_0000,
                        pow2(sh as nat) >= 0x8000_0000,
                ;
            }
            0x1_0000_0000u64
        } else {
            proof {
                if sh < 30 {
                    vstd::arithmetic::power2::lemma_pow2_strictly_increases(sh as nat, 30);
                }
                vstd::arithmetic::power2::lemma2_to64();
                assert(frac * pow2(sh as nat) <= 0x40_0000_0000_0000) by (nonlinear_arith)
                    requires
                        frac < 0x100_0000,
                        pow2(sh as nat) <= 0x4000_0000,
                ;
                vstd::bits::lemma_u64_shl_is_mul(frac, sh as u64);
            }
            frac << (sh as u64)
        }
    } else {
        let sh = 150 - e;
        if sh >= 64 {
            proof {
                vstd::arithmetic::power2::lemma_pow2_strictly_increases(24, sh as nat);
                vstd::arithmetic::power2::lemma2_to64();
                assert(frac as int / pow2(sh as nat) as int == 0) by (nonlinear_arith)
                    requires
                        0 <= frac < 0x100_0000,
                        pow2(sh as nat) > 0x100_0000,
                ;
            }
            0u64
        } else {
            proof {
                vstd::bits::lemma_u64_shr_is_div(frac, sh as u64);
            }
            frac >> (sh as u64)
        }
    };
    if sign == 1 {
        if mag >= 0x8000_0000 {
            -0x7fff_ffff - 1
        } else {
            -(mag as i32)
        }
    } else {
        if mag > 0x7fff_ffff {
            0x7fff_ffff
        } else {
            mag as i32
        }
    }
}

/// Copies the NUL-terminated text at `off` out of a field of `max` bytes.
fn read_cstr(data: &Vec<u8>, off: usize, max: usize) -> (r: Vec<u8>)
    requires
        off + max <= data@.len(),
    ensures
        r@ == data@.subrange(off as int, off as int + cstr_len(data@, off as int, max as int)),
{
    proof {
        vstd::std_specs::vec::axiom_spec_len(data);
        lemma_cstr_len_char(data@, off as int, max as int);
    }
    let mut r: Vec<u8> = Vec::new();
    let mut j: usize = 0;
    while j < max
        invariant
            off + max <= data@.len(),
            j <= max,
            r@ == data@.subrange(off as int, off as int + j as int),
            forall|k: int| off <= k < off + j ==> data@[k] != 0,
        decreases max - j,
    {
        proof {
            vstd::std_specs::vec::axiom_spec_len(data);
        }
        let b = data[off + j];
        if b == 0 {
            proof {
                lemma_cstr_len_char(data@, off as int, max as int);
            }
            return r;
        }
        r.push(b);
        proof {
            assert(r@ =~= data@.subrange(off as int, off as int + (j + 1) as int));
        }
        j += 1;
    }
    proof {
        lemma_cstr_len_char(data@, off as int, max as int);
    }
    r
}

/// Reads three consecutive raw 32-bit fields.
fn read_vec3_bits(data: &Vec<u8>, off: usize) -> (r: [u32; 3])
    requires
        off + 12 <= data@.len(),
    ensures
        vec3_matches(data@, off as int, r),
{
    proof {
        vstd::std_specs::vec::axiom_spec_len(data);
    }
    let a = read_u32(data, off);
    let b = read_u32(data, off + 4);
    let c = read_u32(data, off + 8);
    let r = [a, b, c];
    r
}

impl Model {
    /// Decodes a model asset from its bytes. The header's three
    /// variable-length tables and every sequence's event table are
    /// bounds-checked against the buffer before anything is read through
    /// them; the result is `None` exactly when one of those checks fails,
    /// and otherwise the full decoding of the asset.
    pub fn from_bytes(data: &Vec<u8>) -> (r: Option<Model>)
        ensures
            r.is_some() <==> model_ok(data@),
            r matches Some(m) ==> model_matches(data@, m),
    {
        if data.len() < 244 {
            return None;
        }
        let len64 = data.len() as u64;
        let nbc = read_i32(data, 148);
        let bci = read_i32(data, 152);
        if nbc < 0 || bci < 0 || bci as u64 + nbc as u64 * 24 > len64 {
            return None;
        }
        let nseq = read_i32(data, 164);
        let sqi = read_i32(data, 168);
        if nseq < 0 || sqi < 0 || sqi as u64 + nseq as u64 * 176 > len64 {
            return None;
        }
        let ntr = read_i32(data, 236);
        let tri = read_i32(data, 240);
        if ntr < 0 || tri < 0 || tri as u64 + ntr as u64 > len64 {
            return None;
        }
        let nseq_us = nseq as usize;
        let sqi_us = sqi as usize;

        // Validate every sequence's event table before building anything.
        let mut i: usize = 0;
        while i < nseq_us
            invariant
                model_ok_prefix_holds(data@, i as int),
                header_ok(data@),
                data@.len() >= 244,
                len64 == data@.len(),
                i <= nseq_us,
                nseq_us == le_i32_spec(data@, 164),
                sqi_us == le_i32_spec(data@, 168),
                sqi_us + nseq_us * 176 <= data@.len(),
            decreases nseq_us - i,
        {
            proof {
                vstd::std_specs::vec::axiom_spec_len(data);
                assert((i as int) * 176 + 176 <= (nseq_us as int) * 176) by (nonlinear_arith)
                    requires
                        (i as int) < nseq_us as int,
                ;
            }
            let off = sqi_us + i * 176;
            let ne = read_i32(data, off + 48);
            let evi = read_i32(data, off + 52);
            if ne < 0 || evi < 0 || evi as u64 + ne as u64 * 76 > len64 {
                proof {
                    assert(!seq_events_ok(data@, seq_desc_off(data@, i as int)));
                }
                return None;
            }
            i += 1;
        }

        // Header scalars and geometry.
        let name = read_cstr(data, 8, 64);
        let version = read_i32(data, 4);
        let flags = read_i32(data, 136);
        let eye_position_bits = read_vec3_bits(data, 76);
        let min_bits = read_vec3_bits(data, 88);
        let max_bits = read_vec3_bits(data, 100);
        let bbmin_bits = read_vec3_bits(data, 112);
        let bbmax_bits = read_vec3_bits(data, 124);

        // Bone controller table.
        let nbc_us = nbc as usize;
        let bci_us = bci as usize;
        let mut bone_controllers: Vec<BoneControllerDesc> = Vec::new();
        let mut i: usize = 0;
        while i < nbc_us
            invariant
                data@.len() >= 244,
                nbc_us == le_i32_spec(data@, 148),
                bci_us == le_i32_spec(data@, 152),
                bci_us + nbc_us * 24 <= data@.len(),
                i <= nbc_us,
                bone_controllers@.len() == i,
                forall|j: int|
                    0 <= j < i ==> bone_controller_matches(
                        data@,
                        #[trigger] bc_desc_off(data@, j),
                        bone_controllers@[j],
                    ),
            decreases nbc_us - i,
        {
            proof {
                vstd::std_specs::vec::axiom_spec_len(data);
                assert((i as int) * 24 + 24 <= (nbc_us as int) * 24) by (nonlinear_arith)
                    requires
                        (i as int) < nbc_us as int,
                ;
            }
            let off = bci_us + i * 24;
            let motion = Motion { bits: read_u32(data, off + 4) };
            let start = f32_bits_to_i32(read_u32(data, off + 8));
            let end = f32_bits_to_i32(read_u32(data, off + 12));
            let index = read_i32(data, off + 20);
            bone_controllers.push(BoneControllerDesc { motion, start, end, index });
            i += 1;
        }

        // Sequence table, events included.
        let mut sequences: Vec<SequenceDesc> = Vec::new();
        let mut i: usize = 0;
        while i < nseq_us
            invariant
                model_ok(data@),
                data@.len() >= 244,
                nseq_us == le_i32_spec(data@, 164),
                sqi_us == le_i32_spec(data@, 168),
                sqi_us + nseq_us * 176 <= data@.len(),
                i <= nseq_us,
                sequences@.len() == i,
                forall|j: int|
                    0 <= j < i ==> sequence_matches(
                        data@,
                        #[trigger] seq_desc_off(data@, j),
                        sequences@[j],
                    ),
            decreases nseq_us - i,
        {
            proof {
                vstd::std_specs::vec::axiom_spec_len(data);
                assert((i as int) * 176 + 176 <= (nseq_us as int) * 176) by (nonlinear_arith)
                    requires
                        (i as int) < nseq_us as int,
                ;
                assert(seq_events_ok(data@, seq_desc_off(data@, i as int)));
            }
            let off = sqi_us + i * 176;
            let label = read_cstr(data, off, 32);
            let fps_bits = read_u32(data, off + 32);
            let sflags = read_i32(data, off + 36);
            let activity = Activity { raw: read_i32(data, off + 40) };
            let activity_weight = read_i32(data, off + 44);
            let frames = read_i32(data, off + 56);
            let linear_movement_bits = read_vec3_bits(data, off + 76);
            let bbmin_bits = read_vec3_bits(data, off + 96);
            let bbmax_bits = read_vec3_bits(data, off + 108);
            let entry_node = read_i32(data, off + 160);
            let exit_node = read_i32(data, off + 164);
            let ne = read_i32(data, off + 48);
            let evi = read_i32(data, off + 52);
            let ne_us = ne as usize;
            let evi_us = evi as usize;
            let mut events: Vec<EventRecord> = Vec::new();
            let mut k: usize = 0;
            while k < ne_us
                invariant
                    data@.len() >= 244,
                    ne_us == le_i32_spec(data@, off as int + 48),
                    evi_us == le_i32_spec(data@, off as int + 52),
                    evi_us + ne_us * 76 <= data@.len(),
                    k <= ne_us,
                    events@.len() == k,
                    forall|q: int|
                        0 <= q < k ==> event_matches(
                            data@,
                            #[trigger] seq_event_off(data@, off as int, q),
                            events@[q],
                        ),
                decreases ne_us - k,
            {
                proof {
                    vstd::std_specs::vec::axiom_spec_len(data);
                    assert((k as int) * 76 + 76 <= (ne_us as int) * 76) by (nonlinear_arith)
                        requires
                            (k as int) < ne_us as int,
                    ;
                }
                let ev_off = evi_us + k * 76;
                let frame = read_i32(data, ev_off);
                let kind = EventKind { raw: read_i32(data, ev_off + 4) };
                let options = read_cstr(data, ev_off + 12, 64);
                events.push(EventRecord { frame, kind, options });
                k += 1;
            }
            sequences.push(
                SequenceDesc {
                    label,
                    fps_bits,
                    flags: sflags,
                    activity,
                    activity_weight,
                    frames,
                    linear_movement_bits,
                    bbmin_bits,
                    bbmax_bits,
                    entry_node,
                    exit_node,
                    events,
                },
            );
            i += 1;
        }

        // Transition byte table.
        let ntr_us = ntr as usize;
        let tri_us = tri as usize;
        let mut transitions: Vec<u8> = Vec::new();
        let mut i: usize = 0;
        while i < ntr_us
            invariant
                data@.len() >= 244,
                tri_us + ntr_us <= data@.len(),
                i <= ntr_us,
                transitions@ == data@.subrange(tri_us as int, tri_us as int + i as int),
            decreases ntr_us - i,
        {
            proof {
                vstd::std_specs::vec::axiom_spec_len(data);
            }
            transitions.push(data[tri_us + i]);
            proof {
                assert(transitions@ =~= data@.subrange(tri_us as int, tri_us as int + (i + 1)));
            }
            i += 1;
        }

        Some(
            Model {
                name,
                version,
                flags,
                eye_position_bits,
                min_bits,
                max_bits,
                bbmin_bits,
                bbmax_bits,
                bone_controllers,
                sequences,
                transitions,
            },
        )
    }
}

/// The event tables of the first `n` sequences have been validated.
pub open spec fn model_ok_prefix_holds(data: Seq<u8>, n: int) -> bool {
    forall|i: int| 0 <= i < n ==> seq_events_ok(data, #[trigger] seq_desc_off(data, i))
}

} // verus!
