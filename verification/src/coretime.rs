//! Core-level primitives: the 80-bit occupancy mask, the self-encoding
//! region identifier, and the region descriptor.

use vstd::prelude::*;

verus! {

/// The type used for identifying regions.
///
/// This `u128` actually holds parts of the region metadata: the `begin`
/// timeslice in the top 32 bits, the core index in the next 16, and the
/// 80-bit core mask in the low bits.
pub type RawRegionId = u128;

/// Relay chain time unit in which regions are scheduled.
pub type Timeslice = u32;

/// Index of a compute core.
pub type CoreIndex = u16;

/// Number of relay chain blocks in a single timeslice.
pub const TIMESLICE_DURATION_IN_BLOCKS: u32 = 80;

/// Number of relay chain blocks in a single timeslice.
pub const TIMESLICE_PERIOD: u32 = 80;

/// Number of bits in a core mask.
pub const CORE_MASK_BIT_LEN: u32 = 80;

/// Whether bit `i` (in big-endian bit order: bit 0 is the highest bit of the
/// first byte) is set in the byte sequence `s`.
pub open spec fn seq_bit(s: Seq<u8>, i: int) -> bool {
    ((s[i / 8] >> ((7 - (i % 8)) as u8)) & 1u8) == 1u8
}

/// Number of set bits of `s` at positions `from <= i < to`.
pub open spec fn seq_ones(s: Seq<u8>, from: int, to: int) -> nat
    decreases to - from,
{
    if to <= from {
        0
    } else {
        seq_ones(s, from, to - 1) + (if seq_bit(s, to - 1) {
            1nat
        } else {
            0nat
        })
    }
}

/// All regions are associated with a core mask: an 80-bit bitmap (stored as
/// 10 bytes, big-endian bit order) denoting the regularity at which the
/// region may be scheduled on its core. Positions `0..80` are meaningful.
#[derive(Clone, Copy, Debug)]
pub struct CoreMask(pub [u8; 10]);

impl CoreMask {
    /// Whether bit `i` of the mask is set.
    pub open spec fn spec_bit(&self, i: int) -> bool {
        seq_bit(self.0@, i)
    }

    /// Number of set bits at positions `from <= i < to`.
    pub open spec fn spec_ones(&self, from: int, to: int) -> nat {
        seq_ones(self.0@, from, to)
    }

    /// Number of set bits of the whole mask.
    pub open spec fn ones(&self) -> nat {
        self.spec_ones(0, 80)
    }

    fn get_bit(&self, i: u32) -> (b: bool)
        requires
            i < 80,
        ensures
            b == self.spec_bit(i as int),
    {
        let byte: u8 = self.0[(i / 8) as usize];
        ((byte >> ((7 - (i % 8)) as u8)) & 1u8) == 1u8
    }

    /// The mask with no bit set.
    pub fn void() -> (r: Self)
        ensures
            forall|i: int| 0 <= i < 80 ==> !r.spec_bit(i),
            r.ones() == 0,
    {
        let r = Self([0u8; 10]);
        proof {
            assert forall|i: int| 0 <= i < 80 implies !seq_bit(r.0@, i) by {
                assert(r.0@[i / 8] == 0u8);
                let k = (7 - (i % 8)) as u8;
                assert(((0u8 >> k) & 1u8) != 1u8) by (bit_vector);
            }
            lemma_seq_ones_none(r.0@, 0, 80);
        }
        r
    }

    /// The mask with all 80 bits set.
    pub fn complete() -> (r: Self)
        ensures
            forall|i: int| 0 <= i < 80 ==> r.spec_bit(i),
            r.ones() == 80,
    {
        let r = Self([255u8; 10]);
        proof {
            assert forall|i: int| 0 <= i < 80 implies seq_bit(r.0@, i) by {
                assert(r.0@[i / 8] == 255u8);
                let k = (7 - (i % 8)) as u8;
                assert(k < 8 ==> ((255u8 >> k) & 1u8) == 1u8) by (bit_vector);
            }
            lemma_seq_ones_all(r.0@, 0, 80);
        }
        r
    }

    /// Number of clear bits among the 80 mask positions.
    pub fn count_zeros(&self) -> (r: u32)
        ensures
            r == 80 - self.ones(),
    {
        proof {
            lemma_seq_ones_bound(self.0@, 0, 80);
        }
        80 - self.count_ones()
    }

    /// Number of set bits among the 80 mask positions.
    pub fn count_ones(&self) -> (r: u32)
        ensures
            r == self.ones(),
    {
        let mut c: u32 = 0;
        let mut i: u32 = 0;
        while i < 80
            invariant
                i <= 80,
                c == self.spec_ones(0, i as int),
                c <= i,
            decreases 80 - i,
        {
            if self.get_bit(i) {
                c = c + 1;
            }
            i = i + 1;
        }
        c
    }

    /// Number of set bits at positions at or after `index`; positions at or
    /// beyond the mask width count for nothing, so `index >= 80` yields 0.
    pub fn count_ones_from(&self, index: u32) -> (r: u32)
        ensures
            index < 80 ==> r == self.spec_ones(index as int, 80),
            index >= 80 ==> r == 0,
    {
        let mut c: u32 = 0;
        let mut i: u32 = if index < 80 {
            index
        } else {
            80
        };
        let ghost start = i as int;
        while i < 80
            invariant
                start <= i <= 80,
                c == self.spec_ones(start, i as int),
                c <= i,
            decreases 80 - i,
        {
            if self.get_bit(i) {
                c = c + 1;
            }
            i = i + 1;
        }
        c
    }

    /// The mask whose set bits are exactly the positions in `[from, to)`,
    /// with both bounds clamped to the mask width of 80.
    pub fn from_chunk(from: u32, to: u32) -> (r: Self)
        ensures
            forall|i: int| 0 <= i < 80 ==> (r.spec_bit(i) <==> from <= i < to),
    {
        let mut v: [u8; 10] = [0u8; 10];
        proof {
            assert forall|j: int| 0 <= j < 80 implies !seq_bit(v@, j) by {
                let k = (7 - (j % 8)) as u8;
                assert(((0u8 >> k) & 1u8) != 1u8) by (bit_vector);
            }
        }
        let start = if from < 80 {
            from
        } else {
            80
        };
        let end = if to < 80 {
            to
        } else {
            80
        };
        let mut i = start;
        while i < end
            invariant
                start <= i,
                i <= end || i == start,
                end <= 80,
                forall|j: int| 0 <= j < 80 ==> (seq_bit(v@, j) <==> start <= j < i),
            decreases end - i,
        {
            set_bit(&mut v, i);
            i = i + 1;
        }
        Self(v)
    }
}

/// Set bit `i` of the 10-byte mask representation, leaving all other bit
/// positions unchanged.
fn set_bit(v: &mut [u8; 10], i: u32)
    requires
        i < 80,
    ensures
        forall|j: int|
            0 <= j < 80 ==> (seq_bit(final(v)@, j) <==> (seq_bit(old(v)@, j) || j == i)),
{
    let idx = (i / 8) as usize;
    let old_byte = v[idx];
    let new_byte = old_byte | (128u8 >> ((i % 8) as u8));
    v[idx] = new_byte;
    proof {
        assert forall|j: int|
            0 <= j < 80 implies (seq_bit(v@, j) <==> (seq_bit(old(v)@, j) || j == i)) by {
            vstd::arithmetic::div_mod::lemma_fundamental_div_mod(j, 8);
            vstd::arithmetic::div_mod::lemma_fundamental_div_mod(i as int, 8);
            if j / 8 == i as int / 8 {
                let b = old(v)@[j / 8];
                let ki = (i % 8) as u8;
                let kj = (j % 8) as u8;
                assert(((b | (128u8 >> ki)) >> ((7 - kj) as u8)) & 1u8 == 1u8 <==> (((b >> ((7
                    - kj) as u8)) & 1u8 == 1u8) || ki == kj)) by (bit_vector)
                    requires
                        ki < 8 && kj < 8,
                ;
            }
        }
    }
}

/// The mask whose 10 bytes are the low 80 bits of `x`, high byte first.
pub open spec fn spec_mask_of(x: u128) -> CoreMask {
    CoreMask(
        [
            (x >> 72) as u8,
            (x >> 64) as u8,
            (x >> 56) as u8,
            (x >> 48) as u8,
            (x >> 40) as u8,
            (x >> 32) as u8,
            (x >> 24) as u8,
            (x >> 16) as u8,
            (x >> 8) as u8,
            x as u8,
        ],
    )
}

/// The integer whose low 80 bits are the mask's bytes, high byte first.
pub open spec fn spec_mask_value(m: CoreMask) -> u128 {
    ((m.0@[0] as u128) << 72) | ((m.0@[1] as u128) << 64) | ((m.0@[2] as u128) << 56) | ((
    m.0@[3] as u128) << 48) | ((m.0@[4] as u128) << 40) | ((m.0@[5] as u128) << 32) | ((
    m.0@[6] as u128) << 24) | ((m.0@[7] as u128) << 16) | ((m.0@[8] as u128) << 8) | (
    m.0@[9] as u128)
}

impl From<u128> for CoreMask {
    /// Keeps the low 80 bits of `x`, discarding the rest.
    fn from(x: u128) -> (r: Self) {
        Self(
            [
                (x >> 72) as u8,
                (x >> 64) as u8,
                (x >> 56) as u8,
                (x >> 48) as u8,
                (x >> 40) as u8,
                (x >> 32) as u8,
                (x >> 24) as u8,
                (x >> 16) as u8,
                (x >> 8) as u8,
                x as u8,
            ],
        )
    }
}

impl vstd::std_specs::convert::FromSpecImpl<u128> for CoreMask {
    open spec fn obeys_from_spec() -> bool {
        true
    }

    open spec fn from_spec(x: u128) -> CoreMask {
        spec_mask_of(x)
    }
}

impl From<CoreMask> for u128 {
    fn from(m: CoreMask) -> (r: u128) {
        ((m.0[0] as u128) << 72) | ((m.0[1] as u128) << 64) | ((m.0[2] as u128) << 56) | ((
        m.0[3] as u128) << 48) | ((m.0[4] as u128) << 40) | ((m.0[5] as u128) << 32) | ((
        m.0[6] as u128) << 24) | ((m.0[7] as u128) << 16) | ((m.0[8] as u128) << 8) | (
        m.0[9] as u128)
    }
}

impl vstd::std_specs::convert::FromSpecImpl<CoreMask> for u128 {
    open spec fn obeys_from_spec() -> bool {
        true
    }

    open spec fn from_spec(m: CoreMask) -> u128 {
        spec_mask_value(m)
    }
}

impl PartialEq for CoreMask {
    /// Two masks are equal when all 10 bytes agree.
    fn eq(&self, other: &CoreMask) -> (r: bool) {
        let r = self.0[0] == other.0[0] && self.0[1] == other.0[1] && self.0[2] == other.0[2]
            && self.0[3] == other.0[3] && self.0[4] == other.0[4] && self.0[5] == other.0[5]
            && self.0[6] == other.0[6] && self.0[7] == other.0[7] && self.0[8] == other.0[8]
            && self.0[9] == other.0[9];
        proof {
            if r {
                assert(self.0@ =~= other.0@);
            }
        }
        r
    }
}

impl vstd::std_specs::cmp::PartialEqSpecImpl for CoreMask {
    open spec fn obeys_eq_spec() -> bool {
        true
    }

    open spec fn eq_spec(&self, other: &CoreMask) -> bool {
        self.0@ == other.0@
    }
}

impl Eq for CoreMask {}

impl Default for CoreMask {
    /// The default mask has no bit set.
    fn default() -> (r: Self)
        ensures
            forall|k: int| 0 <= k < 10 ==> r.0@[k] == 0u8,
    {
        Self([0u8; 10])
    }
}

/// Self-describing identity for a region: the raw 128-bit identifier packs
/// these three components.
#[derive(Clone, Copy, Debug)]
pub struct RegionId {
    /// The timeslice at which the region starts.
    pub begin: Timeslice,
    /// The index of the core on which this region will be scheduled.
    pub core: CoreIndex,
    /// The regularity parts in which this region will be scheduled.
    pub mask: CoreMask,
}

/// The components packed into a raw region identifier: `begin` in the top 32
/// bits, `core` in the next 16, and the mask in the low 80.
pub open spec fn spec_region_id_of(x: u128) -> RegionId {
    RegionId { begin: (x >> 96) as u32, core: (x >> 80) as u16, mask: spec_mask_of(x) }
}

/// The raw identifier that packs the given components.
pub open spec fn spec_raw_region_id_of(id: RegionId) -> u128 {
    ((id.begin as u128) << 96) | ((id.core as u128) << 80) | spec_mask_value(id.mask)
}

impl From<u128> for RegionId {
    /// Unpacks a raw identifier into its components.
    fn from(x: u128) -> (r: Self) {
        Self { begin: (x >> 96) as u32, core: (x >> 80) as u16, mask: CoreMask::from(x) }
    }
}

impl vstd::std_specs::convert::FromSpecImpl<u128> for RegionId {
    open spec fn obeys_from_spec() -> bool {
        true
    }

    open spec fn from_spec(x: u128) -> RegionId {
        spec_region_id_of(x)
    }
}

impl From<RegionId> for u128 {
    /// Packs the components into a raw identifier.
    fn from(id: RegionId) -> (r: u128) {
        ((id.begin as u128) << 96) | ((id.core as u128) << 80) | u128::from(id.mask)
    }
}

impl vstd::std_specs::convert::FromSpecImpl<RegionId> for u128 {
    open spec fn obeys_from_spec() -> bool {
        true
    }

    open spec fn from_spec(id: RegionId) -> u128 {
        spec_raw_region_id_of(id)
    }
}

/// Decoding a raw region identifier reproduces exactly the `begin`, `core`
/// and `mask` that were packed into it.
pub proof fn lemma_region_id_roundtrip(id: RegionId)
    ensures
        spec_region_id_of(spec_raw_region_id_of(id)).begin == id.begin,
        spec_region_id_of(spec_raw_region_id_of(id)).core == id.core,
        spec_region_id_of(spec_raw_region_id_of(id)).mask.0@ == id.mask.0@,
{
    let b = id.begin;
    let c = id.core;
    let b0 = id.mask.0@[0];
    let b1 = id.mask.0@[1];
    let b2 = id.mask.0@[2];
    let b3 = id.mask.0@[3];
    let b4 = id.mask.0@[4];
    let b5 = id.mask.0@[5];
    let b6 = id.mask.0@[6];
    let b7 = id.mask.0@[7];
    let b8 = id.mask.0@[8];
    let b9 = id.mask.0@[9];
    let v = ((b0 as u128) << 72) | ((b1 as u128) << 64) | ((b2 as u128) << 56) | ((b3 as u128)
        << 48) | ((b4 as u128) << 40) | ((b5 as u128) << 32) | ((b6 as u128) << 24) | ((
    b7 as u128) << 16) | ((b8 as u128) << 8) | (b9 as u128);
    let raw = ((b as u128) << 96) | ((c as u128) << 80) | v;
    assert((raw >> 96) as u32 == b && (raw >> 80) as u16 == c && (raw >> 72) as u8 == b0 && (raw
        >> 64) as u8 == b1 && (raw >> 56) as u8 == b2 && (raw >> 48) as u8 == b3 && (raw
        >> 40) as u8 == b4 && (raw >> 32) as u8 == b5 && (raw >> 24) as u8 == b6 && (raw
        >> 16) as u8 == b7 && (raw >> 8) as u8 == b8 && raw as u8 == b9) by (bit_vector)
        requires
            v == ((b0 as u128) << 72) | ((b1 as u128) << 64) | ((b2 as u128) << 56) | ((
            b3 as u128) << 48) | ((b4 as u128) << 40) | ((b5 as u128) << 32) | ((b6 as u128)
                << 24) | ((b7 as u128) << 16) | ((b8 as u128) << 8) | (b9 as u128),
            raw == ((b as u128) << 96) | ((c as u128) << 80) | v,
    ;
    assert(spec_region_id_of(raw).mask.0@ =~= id.mask.0@);
}

/// Packing the components decoded from a raw identifier gives the identifier
/// back: the three fields together cover all 128 bits.
pub proof fn lemma_raw_region_id_roundtrip(x: u128)
    ensures
        spec_raw_region_id_of(spec_region_id_of(x)) == x,
{
    assert((((x >> 96) as u32 as u128) << 96) | (((x >> 80) as u16 as u128) << 80) | ((((x
        >> 72) as u8 as u128) << 72) | (((x >> 64) as u8 as u128) << 64) | (((x
        >> 56) as u8 as u128) << 56) | (((x >> 48) as u8 as u128) << 48) | (((x
        >> 40) as u8 as u128) << 40) | (((x >> 32) as u8 as u128) << 32) | (((x
        >> 24) as u8 as u128) << 24) | (((x >> 16) as u8 as u128) << 16) | (((x
        >> 8) as u8 as u128) << 8) | ((x as u8) as u128)) == x) by (bit_vector);
}

/// The descriptor of a region: its validity window, core and occupancy.
#[derive(Clone, Copy, Debug)]
pub struct Region {
    /// The timeslice at which the region starts.
    pub begin: Timeslice,
    /// The timeslice at which the region ends.
    pub end: Timeslice,
    /// The index of the core on which this region will be scheduled.
    pub core: CoreIndex,
    /// The regularity parts in which this region will be scheduled.
    pub mask: CoreMask,
}

impl PartialEq for Region {
    /// Two descriptors are equal when all their components agree.
    fn eq(&self, other: &Region) -> (r: bool) {
        self.begin == other.begin && self.end == other.end && self.core == other.core
            && self.mask == other.mask
    }
}

impl vstd::std_specs::cmp::PartialEqSpecImpl for Region {
    open spec fn obeys_eq_spec() -> bool {
        true
    }

    open spec fn eq_spec(&self, other: &Region) -> bool {
        self.begin == other.begin && self.end == other.end && self.core == other.core
            && self.mask.0@ == other.mask.0@
    }
}

impl Eq for Region {}

impl Default for Region {
    /// The default descriptor is all zero, with an empty mask.
    fn default() -> (r: Self)
        ensures
            r.begin == 0 && r.end == 0 && r.core == 0,
            forall|k: int| 0 <= k < 10 ==> r.mask.0@[k] == 0u8,
    {
        Self { begin: 0, end: 0, core: 0, mask: CoreMask::default() }
    }
}

/// A mask with no bit set in `[from, to)` has no ones there.
pub proof fn lemma_seq_ones_none(s: Seq<u8>, from: int, to: int)
    requires
        forall|i: int| from <= i < to ==> !seq_bit(s, i),
    ensures
        seq_ones(s, from, to) == 0,
    decreases to - from,
{
    if to > from {
        lemma_seq_ones_none(s, from, to - 1);
    }
}

/// A mask with every bit set in `[from, to)` has exactly `to - from` ones
/// there.
pub proof fn lemma_seq_ones_all(s: Seq<u8>, from: int, to: int)
    requires
        forall|i: int| from <= i < to ==> seq_bit(s, i),
        from <= to,
    ensures
        seq_ones(s, from, to) == to - from,
    decreases to - from,
{
    if to > from {
        lemma_seq_ones_all(s, from, to - 1);
    }
}

/// There are at most `to - from` ones in `[from, to)`.
pub proof fn lemma_seq_ones_bound(s: Seq<u8>, from: int, to: int)
    requires
        from <= to,
    ensures
        seq_ones(s, from, to) <= to - from,
    decreases to - from,
{
    if to > from {
        lemma_seq_ones_bound(s, from, to - 1);
    }
}

} // verus!
