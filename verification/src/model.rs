use vstd::prelude::*;
use crate::activity::Activity;
use crate::bone::BoneControllerDesc;
use crate::bone::ControllerSetting;
use crate::bone::controller_setting;
use crate::bone::reconstructed_value_num;
use crate::bone::remap_exec;
use crate::rng::RandomSource;
use crate::sequence::PrecachePlan;
use crate::sequence::SequenceDesc;

verus! {

broadcast use vstd::seq_lib::group_seq_properties;

/// A loaded model asset, reduced to the data this layer queries: identity
/// and bounds from the header, the bone controller table, the sequence
/// table, and the transition byte table. Every field is an owned plain
/// value decoded from the asset's bytes; nothing borrows the asset.
///
/// Geometry fields are stored as the raw IEEE-754 bits of the asset's
/// fields; this layer never does arithmetic on them.
#[derive(Clone, Debug)]
pub struct Model {
    /// The model's name, without any terminator.
    pub name: Vec<u8>,
    pub version: i32,
    pub flags: i32,
    pub eye_position_bits: [u32; 3],
    pub min_bits: [u32; 3],
    pub max_bits: [u32; 3],
    pub bbmin_bits: [u32; 3],
    pub bbmax_bits: [u32; 3],
    /// The bone controller table, in storage order.
    pub bone_controllers: Vec<BoneControllerDesc>,
    /// The sequence table, in storage order; a sequence's identity is its
    /// index here.
    pub sequences: Vec<SequenceDesc>,
    /// The transition byte table.
    pub transitions: Vec<u8>,
}

/// ASCII lower-casing of one byte, the alphabet of the case-insensitive
/// sequence-name match.
pub open spec fn lower_byte(b: u8) -> u8 {
    if 65 <= b <= 90 {
        (b + 32) as u8
    } else {
        b
    }
}

/// Case-insensitive (ASCII) equality of two names.
pub open spec fn name_eq(a: Seq<u8>, b: Seq<u8>) -> bool {
    a.len() == b.len() && forall|i: int| 0 <= i < a.len() ==> lower_byte(a[i]) == lower_byte(b[i])
}

/// The position of the first sequence at or after `i` whose label matches
/// `name` case-insensitively; `None` if there is none.
pub open spec fn first_name_match_from(seqs: Seq<SequenceDesc>, name: Seq<u8>, i: int) -> Option<
    int,
>
    decreases seqs.len() - i,
{
    if i < 0 || i >= seqs.len() {
        None
    } else if name_eq(seqs[i].label@, name) {
        Some(i)
    } else {
        first_name_match_from(seqs, name, i + 1)
    }
}

/// The position of the first sequence whose label matches `name`
/// case-insensitively; `None` if there is none.
pub open spec fn first_name_match(seqs: Seq<SequenceDesc>, name: Seq<u8>) -> Option<int> {
    first_name_match_from(seqs, name, 0)
}

/// What `first_name_match` promises: a match is a real position with a
/// matching label and nothing before it matches; no match means nothing
/// matches at all.
pub proof fn lemma_first_name_match(seqs: Seq<SequenceDesc>, name: Seq<u8>)
    ensures
        match first_name_match(seqs, name) {
            Some(k) => 0 <= k < seqs.len() && name_eq(seqs[k].label@, name) && forall|j: int|
                0 <= j < k ==> !name_eq(seqs[j].label@, name),
            None => forall|j: int| 0 <= j < seqs.len() ==> !name_eq(seqs[j].label@, name),
        },
{
    lemma_first_name_match_from(seqs, name, 0);
}

proof fn lemma_first_name_match_from(seqs: Seq<SequenceDesc>, name: Seq<u8>, i: int)
    requires
        0 <= i,
    ensures
        match first_name_match_from(seqs, name, i) {
            Some(k) => i <= k < seqs.len() && name_eq(seqs[k].label@, name) && forall|j: int|
                i <= j < k ==> !name_eq(seqs[j].label@, name),
            None => forall|j: int| i <= j < seqs.len() ==> !name_eq(seqs[j].label@, name),
        },
    decreases seqs.len() - i,
{
    if 0 <= i < seqs.len() && !name_eq(seqs[i].label@, name) {
        lemma_first_name_match_from(seqs, name, i + 1);
    }
}

/// Lower-cases one ASCII byte.
fn lower(b: u8) -> (r: u8)
    ensures
        r == lower_byte(b),
{
    if b >= 65 && b <= 90 {
        b + 32
    } else {
        b
    }
}

/// Case-insensitive (ASCII) comparison of two names.
pub fn bytes_eq_ignore_case(a: &Vec<u8>, b: &Vec<u8>) -> (r: bool)
    ensures
        r == name_eq(a@, b@),
{
    if a.len() != b.len() {
        return false;
    }
    let n = a.len();
    let mut i: usize = 0;
    while i < n
        invariant
            n == a@.len() == b@.len(),
            i <= n,
            forall|j: int| 0 <= j < i ==> lower_byte(a@[j]) == lower_byte(b@[j]),
        decreases n - i,
    {
        if lower(a[i]) != lower(b[i]) {
            return false;
        }
        i += 1;
    }
    true
}

impl Model {
    /// The model's name bytes.
    pub fn name(&self) -> (r: &Vec<u8>)
        ensures
            r == &self.name,
    {
        &self.name
    }

    pub fn version(&self) -> (r: i32)
        ensures
            r == self.version,
    {
        self.version
    }

    pub fn flags(&self) -> (r: i32)
        ensures
            r == self.flags,
    {
        self.flags
    }

    pub fn eye_position_bits(&self) -> (r: [u32; 3])
        ensures
            r == self.eye_position_bits,
    {
        self.eye_position_bits
    }

    pub fn min_bits(&self) -> (r: [u32; 3])
        ensures
            r == self.min_bits,
    {
        self.min_bits
    }

    pub fn max_bits(&self) -> (r: [u32; 3])
        ensures
            r == self.max_bits,
    {
        self.max_bits
    }

    pub fn bbmin_bits(&self) -> (r: [u32; 3])
        ensures
            r == self.bbmin_bits,
    {
        self.bbmin_bits
    }

    pub fn bbmax_bits(&self) -> (r: [u32; 3])
        ensures
            r == self.bbmax_bits,
    {
        self.bbmax_bits
    }

    /// The bone controller table.
    pub fn bone_controllers(&self) -> (r: &Vec<BoneControllerDesc>)
        ensures
            r == &self.bone_controllers,
    {
        &self.bone_controllers
    }

    /// The sequence table; a sequence's identity is its index here.
    pub fn sequences(&self) -> (r: &Vec<SequenceDesc>)
        ensures
            r == &self.sequences,
    {
        &self.sequences
    }

    /// The transition byte table.
    pub fn transitions_raw(&self) -> (r: &Vec<u8>)
        ensures
            r == &self.transitions,
    {
        &self.transitions
    }

    /// The sequence at `index`: succeeds exactly for `index` below the
    /// number of sequences, and fails ("not found") for every other index.
    pub fn sequence(&self, index: usize) -> (r: Option<&SequenceDesc>)
        ensures
            r.is_some() <==> index < self.sequences@.len(),
            r matches Some(s) ==> s == &self.sequences@[index as int],
    {
        if index < self.sequences.len() {
            Some(&self.sequences[index])
        } else {
            None
        }
    }

    /// Searches for the first sequence whose label matches `name`
    /// case-insensitively (ASCII) and returns its index; `None` if no label
    /// matches.
    pub fn find_sequence(&self, name: &Vec<u8>) -> (r: Option<usize>)
        ensures
            r.is_some() == first_name_match(self.sequences@, name@).is_some(),
            first_name_match(self.sequences@, name@) matches Some(k) ==> r matches Some(u) && u
                == k,
    {
        let n = self.sequences.len();
        let mut i: usize = 0;
        while i < n
            invariant
                n == self.sequences@.len(),
                i <= n,
                first_name_match(self.sequences@, name@) == first_name_match_from(
                    self.sequences@,
                    name@,
                    i as int,
                ),
            decreases n - i,
        {
            if bytes_eq_ignore_case(&self.sequences[i].label, name) {
                return Some(i);
            }
            i += 1;
        }
        None
    }

    /// Searches for the first sequence whose label matches `name`
    /// case-insensitively and returns its index, with `0` as the documented
    /// "no match" sentinel — sequence `0` is the conventional default, so a
    /// result of `0` is ambiguous between "first sequence" and "absent" and
    /// only `find_sequence` can tell them apart.
    pub fn find_sequence_index(&self, name: &Vec<u8>) -> (r: usize)
        ensures
            r as int == (match first_name_match(self.sequences@, name@) {
                Some(k) => k,
                None => 0,
            }),
    {
        match self.find_sequence(name) {
            Some(i) => i,
            None => 0,
        }
    }

    /// Runs `precache` for the first sequence whose label matches `name`,
    /// if any; `None` (and no precache decision) if no label matches.
    pub fn precache_sequence_by_name(&self, name: &Vec<u8>) -> (r: Option<PrecachePlan>)
        ensures
            r.is_some() == first_name_match(self.sequences@, name@).is_some(),
            first_name_match(self.sequences@, name@) matches Some(k) ==> r matches Some(plan)
                && crate::sequence::precache_plan_ok(self.sequences@[k].events@, plan),
    {
        proof {
            lemma_first_name_match(self.sequences@, name@);
        }
        match self.find_sequence(name) {
            Some(i) => Some(self.sequences[i].precache()),
            None => None,
        }
    }
}

/// Whether sequence `j` carries the activity tag `act`.
pub open spec fn is_activity_candidate(seqs: Seq<SequenceDesc>, act: Activity, j: int) -> bool {
    0 <= j < seqs.len() && seqs[j].activity == act
}

/// The sum of the activity weights of the candidates among the first `n`
/// sequences — the running total of the weighted selection.
pub open spec fn activity_weight_sum(seqs: Seq<SequenceDesc>, act: Activity, n: int) -> int
    decreases n,
{
    if n <= 0 || n > seqs.len() {
        0
    } else {
        activity_weight_sum(seqs, act, n - 1) + if seqs[n - 1].activity == act {
            seqs[n - 1].activity_weight as int
        } else {
            0
        }
    }
}

/// With non-negative candidate weights every running total is non-negative
/// and no larger than the full sum.
proof fn lemma_weight_sum_bounds(seqs: Seq<SequenceDesc>, act: Activity, n: int)
    requires
        0 <= n <= seqs.len(),
        forall|j: int| is_activity_candidate(seqs, act, j) ==> seqs[j].activity_weight >= 0,
    ensures
        0 <= activity_weight_sum(seqs, act, n),
        activity_weight_sum(seqs, act, n) <= activity_weight_sum(seqs, act, seqs.len() as int),
    decreases seqs.len() - n,
{
    if n > 0 {
        lemma_weight_sum_nonneg(seqs, act, n - 1);
    }
    if n < seqs.len() {
        lemma_weight_sum_bounds(seqs, act, n + 1);
        assert(is_activity_candidate(seqs, act, n) ==> seqs[n].activity_weight >= 0);
    }
    lemma_weight_sum_nonneg(seqs, act, n);
}

proof fn lemma_weight_sum_nonneg(seqs: Seq<SequenceDesc>, act: Activity, n: int)
    requires
        forall|j: int| is_activity_candidate(seqs, act, j) ==> seqs[j].activity_weight >= 0,
    ensures
        0 <= activity_weight_sum(seqs, act, n),
    decreases n,
{
    if 0 < n <= seqs.len() {
        lemma_weight_sum_nonneg(seqs, act, n - 1);
        assert(is_activity_candidate(seqs, act, n - 1) ==> seqs[n - 1].activity_weight >= 0);
    }
}

/// A running total of zero means no candidate so far has a positive weight;
/// with no candidates at all it is trivially zero.
proof fn lemma_weight_sum_no_candidates(seqs: Seq<SequenceDesc>, act: Activity, n: int)
    requires
        0 <= n <= seqs.len(),
        forall|j: int| 0 <= j < n ==> !is_activity_candidate(seqs, act, j),
    ensures
        activity_weight_sum(seqs, act, n) == 0,
    decreases n,
{
    if n > 0 {
        lemma_weight_sum_no_candidates(seqs, act, n - 1);
        assert(!is_activity_candidate(seqs, act, n - 1));
    }
}

/// The first-encountered heaviest candidate among the first `n` sequences:
/// a later candidate replaces the current best only with a strictly larger
/// weight, so ties keep the lowest index.
pub open spec fn heaviest_candidate_upto(seqs: Seq<SequenceDesc>, act: Activity, n: int) -> Option<
    int,
>
    decreases n,
{
    if n <= 0 || n > seqs.len() {
        None
    } else {
        let prev = heaviest_candidate_upto(seqs, act, n - 1);
        if seqs[n - 1].activity != act {
            prev
        } else {
            match prev {
                None => Some(n - 1),
                Some(b) => if seqs[n - 1].activity_weight > seqs[b].activity_weight {
                    Some(n - 1)
                } else {
                    Some(b)
                },
            }
        }
    }
}

/// The first-encountered heaviest candidate over the whole sequence table.
pub open spec fn heaviest_candidate(seqs: Seq<SequenceDesc>, act: Activity) -> Option<int> {
    heaviest_candidate_upto(seqs, act, seqs.len() as int)
}

proof fn lemma_heaviest_candidate_upto(seqs: Seq<SequenceDesc>, act: Activity, n: int)
    requires
        0 <= n <= seqs.len(),
    ensures
        match heaviest_candidate_upto(seqs, act, n) {
            Some(b) => is_activity_candidate(seqs, act, b) && b < n && forall|j: int|
                0 <= j < n && is_activity_candidate(seqs, act, j) ==> seqs[j].activity_weight
                    <= seqs[b].activity_weight && (j < b ==> seqs[j].activity_weight < seqs[
                    b
                ].activity_weight),
            None => forall|j: int| 0 <= j < n ==> !is_activity_candidate(seqs, act, j),
        },
    decreases n,
{
    if n > 0 {
        lemma_heaviest_candidate_upto(seqs, act, n - 1);
    }
}

/// What `heaviest_candidate` promises: the result is a candidate carrying
/// the maximum weight, and every candidate before it is strictly lighter
/// (ties are broken toward the lowest index); no result means no candidate
/// exists.
pub proof fn lemma_heaviest_candidate(seqs: Seq<SequenceDesc>, act: Activity)
    ensures
        match heaviest_candidate(seqs, act) {
            Some(b) => is_activity_candidate(seqs, act, b) && forall|j: int|
                is_activity_candidate(seqs, act, j) ==> seqs[j].activity_weight <= seqs[
                    b
                ].activity_weight && (j < b ==> seqs[j].activity_weight < seqs[
                    b
                ].activity_weight),
            None => forall|j: int| !is_activity_candidate(seqs, act, j),
        },
{
    lemma_heaviest_candidate_upto(seqs, act, seqs.len() as int);
}

/// Heaviest-candidate selection is deterministic and idempotent: any two
/// results that `find_sequence_by_activity_heaviest` may return for the
/// same sequence table and activity — its contract pins each to
/// `heaviest_candidate` — are the same index.
pub proof fn lemma_heaviest_selection_deterministic(
    seqs: Seq<SequenceDesc>,
    act: Activity,
    r1: Option<usize>,
    r2: Option<usize>,
)
    requires
        r1.is_some() == heaviest_candidate(seqs, act).is_some(),
        heaviest_candidate(seqs, act) matches Some(b) ==> r1 matches Some(u) && u == b,
        r2.is_some() == heaviest_candidate(seqs, act).is_some(),
        heaviest_candidate(seqs, act) matches Some(b) ==> r2 matches Some(u) && u == b,
    ensures
        r1 == r2,
{
    match heaviest_candidate(seqs, act) {
        Some(b) => {
            assert(r1 == Some(b as usize) && r2 == Some(b as usize));
        },
        None => {
            assert(r1 is None && r2 is None);
        },
    }
}

impl Model {
    /// The indices of the sequences carrying the activity tag `activity`,
    /// in storage order.
    pub fn sequences_by_activity(&self, activity: Activity) -> (r: Vec<usize>)
        ensures
            forall|k: int|
                0 <= k < r@.len() ==> is_activity_candidate(
                    self.sequences@,
                    activity,
                    r@[k] as int,
                ),
            forall|k1: int, k2: int| 0 <= k1 < k2 < r@.len() ==> r@[k1] < r@[k2],
            forall|j: int|
                is_activity_candidate(self.sequences@, activity, j) ==> r@.contains(j as usize),
    {
        let mut r: Vec<usize> = Vec::new();
        let n = self.sequences.len();
        let mut i: usize = 0;
        while i < n
            invariant
                n == self.sequences@.len(),
                i <= n,
                forall|k: int|
                    0 <= k < r@.len() ==> r@[k] < i && is_activity_candidate(
                        self.sequences@,
                        activity,
                        r@[k] as int,
                    ),
                forall|k1: int, k2: int| 0 <= k1 < k2 < r@.len() ==> r@[k1] < r@[k2],
                forall|j: int|
                    0 <= j < i && is_activity_candidate(self.sequences@, activity, j)
                        ==> r@.contains(j as usize),
            decreases n - i,
        {
            if self.sequences[i].activity == activity {
                r.push(i);
            }
            i += 1;
        }
        r
    }

    /// Weighted random selection among the sequences carrying `activity`:
    /// one pass of reservoir-style sampling in which each candidate is
    /// accepted with probability proportional to its weight (a candidate is
    /// always accepted while the running total is zero). The result is a
    /// candidate's index whenever any candidate exists, `None` otherwise;
    /// with a single candidate that candidate is returned whatever the
    /// random source draws.
    pub fn find_sequence_by_activity<R: RandomSource>(
        &self,
        rng: &mut R,
        activity: Activity,
    ) -> (r: Option<usize>)
        requires
            forall|j: int|
                is_activity_candidate(self.sequences@, activity, j)
                    ==> self.sequences@[j].activity_weight >= 0,
            activity_weight_sum(self.sequences@, activity, self.sequences@.len() as int)
                <= 0x7fff_ffff,
        ensures
            r.is_some() <==> exists|j: int| is_activity_candidate(self.sequences@, activity, j),
            r matches Some(k) ==> is_activity_candidate(self.sequences@, activity, k as int),
            r matches Some(k) ==> self.sequences@[k as int].activity_weight > 0
                || activity_weight_sum(self.sequences@, activity, k as int + 1) == 0,
            (forall|j1: int, j2: int|
                is_activity_candidate(self.sequences@, activity, j1) && is_activity_candidate(
                    self.sequences@,
                    activity,
                    j2,
                ) ==> j1 == j2) ==> forall|j: int|
                is_activity_candidate(self.sequences@, activity, j) ==> r == Some(j as usize),
    {
        let ghost seqs = self.sequences@;
        let mut ret: Option<usize> = None;
        let mut weight_total: i32 = 0;
        let n = self.sequences.len();
        let mut i: usize = 0;
        while i < n
            invariant
                n == seqs.len(),
                seqs == self.sequences@,
                i <= n,
                forall|j: int|
                    is_activity_candidate(seqs, activity, j) ==> seqs[j].activity_weight >= 0,
                activity_weight_sum(seqs, activity, seqs.len() as int) <= 0x7fff_ffff,
                weight_total == activity_weight_sum(seqs, activity, i as int),
                0 <= weight_total,
                ret.is_some() <==> exists|j: int|
                    0 <= j < i && is_activity_candidate(seqs, activity, j),
                ret matches Some(k) ==> k < i && is_activity_candidate(seqs, activity, k as int),
                ret matches Some(k) ==> seqs[k as int].activity_weight > 0 || activity_weight_sum(
                    seqs,
                    activity,
                    k as int + 1,
                ) == 0,
                (forall|j1: int, j2: int|
                    0 <= j1 < i && 0 <= j2 < i && is_activity_candidate(seqs, activity, j1)
                        && is_activity_candidate(seqs, activity, j2) ==> j1 == j2) ==> forall|
                    j: int,
                |
                    0 <= j < i && is_activity_candidate(seqs, activity, j) ==> ret == Some(
                        j as usize,
                    ),
            decreases n - i,
        {
            let seq = &self.sequences[i];
            if seq.activity == activity {
                let w = seq.activity_weight;
                proof {
                    lemma_weight_sum_bounds(seqs, activity, i as int + 1);
                    lemma_weight_sum_nonneg(seqs, activity, i as int + 1);
                    assert(is_activity_candidate(seqs, activity, i as int));
                    if !(exists|j: int| 0 <= j < i && is_activity_candidate(seqs, activity, j)) {
                        lemma_weight_sum_no_candidates(seqs, activity, i as int);
                    }
                }
                weight_total = weight_total + w;
                let accept: bool = if weight_total == 0 {
                    true
                } else {
                    let draw = rng.random_int(0, weight_total - 1);
                    draw < w
                };
                proof {
                    if ret is None {
                        assert(accept);
                    }
                }
                if accept {
                    ret = Some(i);
                }
            }
            i += 1;
        }
        ret
    }

    /// Weighted random selection by activity, returning the index with `0`
    /// as the "no candidate" sentinel.
    pub fn find_sequence_index_by_activity<R: RandomSource>(
        &self,
        rng: &mut R,
        activity: Activity,
    ) -> (r: usize)
        requires
            forall|j: int|
                is_activity_candidate(self.sequences@, activity, j)
                    ==> self.sequences@[j].activity_weight >= 0,
            activity_weight_sum(self.sequences@, activity, self.sequences@.len() as int)
                <= 0x7fff_ffff,
        ensures
            (forall|j: int| !is_activity_candidate(self.sequences@, activity, j)) ==> r == 0,
            (exists|j: int| is_activity_candidate(self.sequences@, activity, j))
                ==> is_activity_candidate(self.sequences@, activity, r as int),
    {
        match self.find_sequence_by_activity(rng, activity) {
            Some(i) => i,
            None => 0,
        }
    }

    /// Deterministic selection among the sequences carrying `activity`: the
    /// candidate with the maximum activity weight, ties broken by the
    /// first-encountered (lowest) index; `None` when no candidate exists.
    pub fn find_sequence_by_activity_heaviest(&self, activity: Activity) -> (r: Option<usize>)
        ensures
            r.is_some() == heaviest_candidate(self.sequences@, activity).is_some(),
            heaviest_candidate(self.sequences@, activity) matches Some(b) ==> r matches Some(u)
                && u == b,
    {
        let ghost seqs = self.sequences@;
        let mut ret: Option<usize> = None;
        let n = self.sequences.len();
        let mut i: usize = 0;
        while i < n
            invariant
                n == seqs.len(),
                seqs == self.sequences@,
                i <= n,
                ret.is_some() == heaviest_candidate_upto(seqs, activity, i as int).is_some(),
                heaviest_candidate_upto(seqs, activity, i as int) matches Some(b) ==> ret
                    matches Some(u) && u == b && b < i,
            decreases n - i,
        {
            let seq = &self.sequences[i];
            if seq.activity == activity {
                match ret {
                    None => {
                        ret = Some(i);
                    },
                    Some(b) => {
                        if seq.activity_weight > self.sequences[b].activity_weight {
                            ret = Some(i);
                        }
                    },
                }
            }
            i += 1;
        }
        ret
    }

    /// Deterministic heaviest-candidate selection by activity, returning
    /// the index with `0` as the "no candidate" sentinel.
    pub fn find_sequence_index_by_activity_heaviest(&self, activity: Activity) -> (r: usize)
        ensures
            r as int == (match heaviest_candidate(self.sequences@, activity) {
                Some(b) => b,
                None => 0,
            }),
    {
        match self.find_sequence_by_activity_heaviest(activity) {
            Some(i) => i,
            None => 0,
        }
    }
}

/// The position of the first bone controller at or after `i` whose external
/// slot identifier is `controller`; `None` if there is none.
pub open spec fn first_controller_from(
    bcs: Seq<BoneControllerDesc>,
    controller: i32,
    i: int,
) -> Option<int>
    decreases bcs.len() - i,
{
    if i < 0 || i >= bcs.len() {
        None
    } else if bcs[i].index == controller {
        Some(i)
    } else {
        first_controller_from(bcs, controller, i + 1)
    }
}

/// The position of the first bone controller whose external slot identifier
/// is `controller`; `None` if there is none.
pub open spec fn first_controller(bcs: Seq<BoneControllerDesc>, controller: i32) -> Option<int> {
    first_controller_from(bcs, controller, 0)
}

/// Locates the first descriptor carrying the external slot identifier
/// `controller`.
fn find_controller_exec(bcs: &Vec<BoneControllerDesc>, controller: i32) -> (r: Option<usize>)
    ensures
        r.is_some() == first_controller(bcs@, controller).is_some(),
        first_controller(bcs@, controller) matches Some(ci) ==> r matches Some(u) && u == ci && ci
            < bcs@.len(),
{
    let n = bcs.len();
    let mut i: usize = 0;
    while i < n
        invariant
            n == bcs@.len(),
            i <= n,
            first_controller(bcs@, controller) == first_controller_from(bcs@, controller, i as int),
        decreases n - i,
    {
        if bcs[i].index == controller {
            return Some(i);
        }
        i += 1;
    }
    None
}

impl Model {
    /// Resolves bone controller `controller` to an 8-bit setting for
    /// `value`, writes it into the external controller-state array
    /// `state` at slot `controller`, and returns it together with the value
    /// it stands for (quantised, as a numerator over 255). Fails — leaving
    /// `state` untouched — exactly when no descriptor carries that slot
    /// identifier.
    ///
    /// A degenerate (zero-width) range on the matched descriptor is a
    /// caller precondition violation, as is a slot outside `state`.
    pub fn set_bone_controller(
        &self,
        state: &mut Vec<u8>,
        controller: i32,
        value: i32,
    ) -> (r: Option<ControllerSetting>)
        requires
            first_controller(self.bone_controllers@, controller) matches Some(ci) ==> self
                .bone_controllers@[ci].start != self.bone_controllers@[ci].end && 0 <= controller
                < old(state)@.len(),
        ensures
            r.is_some() == first_controller(self.bone_controllers@, controller).is_some(),
            first_controller(self.bone_controllers@, controller) matches Some(ci) ==> {
                let bc = self.bone_controllers@[ci];
                let setting = controller_setting(
                    bc.motion.bits,
                    bc.start as int,
                    bc.end as int,
                    value as int,
                );
                &&& r matches Some(cs) && cs.setting == setting
                    && cs.reconstructed_num == reconstructed_value_num(
                    setting,
                    bc.start as int,
                    bc.end as int,
                )
                &&& final(state)@ == old(state)@.update(controller as int, setting as u8)
            },
            first_controller(self.bone_controllers@, controller) is None ==> final(state)@ == old(
                state,
            )@,
    {
        let i = match find_controller_exec(&self.bone_controllers, controller) {
            Some(i) => i,
            None => {
                return None;
            },
        };
        let bc = &self.bone_controllers[i];
        let setting = remap_exec(bc.motion, bc.start, bc.end, value);
        let diff: i64 = bc.end as i64 - bc.start as i64;
        proof {
            assert((setting as i64) * diff <= 0x1_0000_0000_0000i64 && (setting as i64) * diff
                >= -0x1_0000_0000_0000i64) by (nonlinear_arith)
                requires
                    0 <= setting as i64 <= 255,
                    -0x1_0000_0000 <= diff <= 0x1_0000_0000,
            ;
        }
        let recon: i64 = setting as i64 * diff + 255 * (bc.start as i64);
        state.set(controller as usize, setting);
        Some(ControllerSetting { setting, reconstructed_num: recon })
    }
}

} // verus!
