use vstd::prelude::*;

use crate::mapping::{
    CHANNELS_PER_UNIVERSE,
    lemma_chain_composition, offset_in_range, pixel_address, DmxAddress, LedMappingEnum,
    LedMappingTrait,
};
use crate::matrix_mapping::LedMatrix;

verus! {

/// Nominal position of a fixture in the shared scene, in pixel units.
#[derive(Debug, Clone, Copy, PartialEq, Eq)]
pub struct ScenePos {
    pub x: i32,
    pub y: i32,
}

/// A fixture placed in the scene and in the protocol address space.
#[derive(Debug, Clone, Copy)]
pub struct LedMappingInfo {
    pub mapping: LedMappingEnum,
    pub dmx_address: DmxAddress,
    pub pos_offset: ScenePos,
}

impl LedMappingInfo {
    pub fn new(mapping: LedMappingEnum, pos_offset: ScenePos, dmx_address: DmxAddress) -> (r: Self)
        ensures
            r.mapping == mapping,
            r.pos_offset == pos_offset,
            r.dmx_address == dmx_address,
    {
        LedMappingInfo { mapping, pos_offset, dmx_address }
    }
}

/// Base address of the `k`-th fixture in a chain of fixtures of `n` pixels
/// each, starting at `base`.
pub open spec fn chained_address(base: DmxAddress, n: int, k: int) -> DmxAddress {
    pixel_address(base, k * n)
}

/// Whether a chain of `count` fixtures of `n` pixels each can be addressed
/// from `base`: the base of its last fixture is in range.
pub open spec fn chain_in_range(base: DmxAddress, n: int, count: int) -> bool {
    count > 0 ==> offset_in_range(base, (count - 1) * n)
}

proof fn lemma_chain_step(base: DmxAddress, n: int, k: int, count: int)
    requires
        0 <= n,
        0 <= k,
        k + 1 < count,
        chain_in_range(base, n, count),
    ensures
        offset_in_range(base, k * n),
        offset_in_range(chained_address(base, n, k), n),
        pixel_address(chained_address(base, n, k), n) == chained_address(base, n, k + 1),
{
    assert((k + 1) * n <= (count - 1) * n) by (nonlinear_arith)
        requires
            k + 1 < count,
            0 <= n,
    ;
    assert(0 <= k * n) by (nonlinear_arith)
        requires
            0 <= k,
            0 <= n,
    ;
    assert((k + 1) * n == k * n + n) by (nonlinear_arith);
    assert(offset_in_range(base, (k + 1) * n));
    lemma_chain_composition(base, k * n, n);
}

/// Lays out `count` copies of `mapping` one after another in address space:
/// each fixture starts on the address right after the last pixel of the one
/// before it.
pub fn chained_led_mappings<T: LedMappingTrait + Copy>(
    address: DmxAddress,
    mapping: T,
    count: usize,
) -> (r: Vec<(DmxAddress, T)>)
    requires
        address.wf(),
        mapping.wf(),
        chain_in_range(address, mapping.num_pixels() as int, count as int),
    ensures
        r.len() == count,
        forall|k: int|
            0 <= k < count ==> (#[trigger] r[k]).0 == chained_address(
                address,
                mapping.num_pixels() as int,
                k,
            ) && r[k].1 == mapping,
{
    let n = mapping.get_num_pixels();
    let mut r: Vec<(DmxAddress, T)> = Vec::with_capacity(count);
    if count == 0 {
        return r;
    }
    let mut next = address;
    assert(next == chained_address(address, n as int, 0)) by {
        assert(0 * n == 0);
        assert(address.channel as int / CHANNELS_PER_UNIVERSE as int == 0);
        assert(address.channel as int % CHANNELS_PER_UNIVERSE as int == address.channel);
    }
    let mut k: usize = 0;
    while k < count
        invariant
            mapping.wf(),
            n == mapping.num_pixels(),
            chain_in_range(address, n as int, count as int),
            count > 0,
            k <= count,
            r.len() == k,
            k < count ==> next == chained_address(address, n as int, k as int),
            forall|j: int|
                0 <= j < k ==> (#[trigger] r[j]).0 == chained_address(address, n as int, j)
                    && r[j].1 == mapping,
        decreases count - k,
    {
        r.push((next, mapping));
        if k + 1 < count {
            proof {
                lemma_chain_step(address, n as int, k as int, count as int);
            }
            next = next.pixel_offset(n);
        }
        k = k + 1;
    }
    r
}

/// Chains one square matrix of the given width per scene position, in order,
/// starting at `address`.
pub fn chained_led_matrices(width: usize, address: DmxAddress, pos: &Vec<ScenePos>) -> (r: Vec<
    LedMappingInfo,
>)
    requires
        address.wf(),
        width * width <= usize::MAX,
        width <= u32::MAX,
        chain_in_range(address, (width * width) as int, pos.len() as int),
    ensures
        r.len() == pos.len(),
        forall|k: int|
            0 <= k < pos.len() ==> {
                &&& (#[trigger] r[k]).dmx_address == chained_address(
                    address,
                    (width * width) as int,
                    k,
                )
                &&& r[k].pos_offset == pos[k]
                &&& r[k].mapping == LedMappingEnum::LedMatrix(LedMatrix::new_spec(width))
            },
{
    let matrix = LedMatrix::new(width, DmxAddress { universe: 0, channel: 0 });
    let chain = chained_led_mappings(address, matrix, pos.len());
    let mut r: Vec<LedMappingInfo> = Vec::with_capacity(pos.len());
    let mut k: usize = 0;
    while k < pos.len()
        invariant
            chain.len() == pos.len(),
            k <= pos.len(),
            r.len() == k,
            matrix == LedMatrix::new_spec(width),
            forall|j: int|
                0 <= j < pos.len() ==> (#[trigger] chain[j]).0 == chained_address(
                    address,
                    (width * width) as int,
                    j,
                ) && chain[j].1 == matrix,
            forall|j: int|
                0 <= j < k ==> {
                    &&& (#[trigger] r[j]).dmx_address == chained_address(
                        address,
                        (width * width) as int,
                        j,
                    )
                    &&& r[j].pos_offset == pos[j]
                    &&& r[j].mapping == LedMappingEnum::LedMatrix(matrix)
                },
        decreases pos.len() - k,
    {
        let (dmx_address, m) = chain[k];
        r.push(LedMappingInfo::new(LedMappingEnum::LedMatrix(m), pos[k], dmx_address));
        k = k + 1;
    }
    r
}

/// Pixels of the fixtures before the `k`-th one.
pub open spec fn pixels_before(fixtures: Seq<(LedMappingEnum, ScenePos)>, k: int) -> int
    decreases k,
{
    if k <= 0 {
        0
    } else {
        pixels_before(fixtures, k - 1) + fixtures[k - 1].0.num_pixels()
    }
}

proof fn lemma_pixels_before_monotone(fixtures: Seq<(LedMappingEnum, ScenePos)>, j: int, k: int)
    requires
        0 <= j <= k,
    ensures
        0 <= pixels_before(fixtures, j) <= pixels_before(fixtures, k),
    decreases k - j,
{
    if j < k {
        lemma_pixels_before_monotone(fixtures, j, k - 1);
    } else {
        lemma_pixels_before_nonneg(fixtures, j);
    }
}

proof fn lemma_pixels_before_nonneg(fixtures: Seq<(LedMappingEnum, ScenePos)>, k: int)
    ensures
        0 <= pixels_before(fixtures, k),
    decreases k,
{
    if k > 0 {
        lemma_pixels_before_nonneg(fixtures, k - 1);
    }
}

/// Places the fixtures in order, each on the address right after the last
/// pixel of the one before it, the first on `address`, each at its scene
/// position. The same input always gives the same placements.
pub fn chain_fixtures(address: DmxAddress, fixtures: &Vec<(LedMappingEnum, ScenePos)>) -> (r: Vec<
    LedMappingInfo,
>)
    requires
        address.wf(),
        forall|k: int| 0 <= k < fixtures.len() ==> (#[trigger] fixtures[k]).0.wf(),
        fixtures.len() > 0 ==> offset_in_range(address, pixels_before(fixtures@, fixtures.len() - 1)),
    ensures
        r.len() == fixtures.len(),
        forall|k: int|
            0 <= k < fixtures.len() ==> {
                &&& (#[trigger] r[k]).dmx_address == pixel_address(
                    address,
                    pixels_before(fixtures@, k),
                )
                &&& r[k].mapping == fixtures[k].0
                &&& r[k].pos_offset == fixtures[k].1
            },
{
    let mut r: Vec<LedMappingInfo> = Vec::with_capacity(fixtures.len());
    let mut next = address;
    proof {
        assert(address.channel as int / CHANNELS_PER_UNIVERSE as int == 0);
        assert(address.channel as int % CHANNELS_PER_UNIVERSE as int == address.channel);
        assert(next == pixel_address(address, pixels_before(fixtures@, 0)));
    }
    let mut k: usize = 0;
    while k < fixtures.len()
        invariant
            address.wf(),
            forall|j: int| 0 <= j < fixtures.len() ==> (#[trigger] fixtures[j]).0.wf(),
            fixtures.len() > 0 ==> offset_in_range(
                address,
                pixels_before(fixtures@, fixtures.len() - 1),
            ),
            k <= fixtures.len(),
            r.len() == k,
            k < fixtures.len() ==> next == pixel_address(address, pixels_before(fixtures@, k as int)),
            forall|j: int|
                0 <= j < k ==> {
                    &&& (#[trigger] r[j]).dmx_address == pixel_address(
                        address,
                        pixels_before(fixtures@, j),
                    )
                    &&& r[j].mapping == fixtures[j].0
                    &&& r[j].pos_offset == fixtures[j].1
                },
        decreases fixtures.len() - k,
    {
        let (mapping, pos) = fixtures[k];
        r.push(LedMappingInfo::new(mapping, pos, next));
        if k + 1 < fixtures.len() {
            let n = mapping.get_num_pixels();
            proof {
                let before = pixels_before(fixtures@, k as int);
                lemma_pixels_before_monotone(fixtures@, k + 1, fixtures.len() - 1);
                lemma_pixels_before_nonneg(fixtures@, k as int);
                assert(pixels_before(fixtures@, k + 1) == before + n);
                lemma_chain_composition(address, before, n as int);
            }
            next = next.pixel_offset(n);
        }
        k = k + 1;
    }
    r
}

} // verus!
