use vstd::prelude::*;

use crate::matrix_mapping::LedMatrix;
use crate::strip_mapping::StripMapping;

verus! {

/// Index of a pixel inside a given fixture.
///
/// Each pixel is made up of 3 DMX channels; the ordering of the index is the
/// order of the DMX channels. Valid indices are `0 <= i < num_pixels`.
pub type LedIndex = usize;

/// Usable channels of one universe.
pub const CHANNELS_PER_UNIVERSE: usize = 510;

/// Bytes of a universe buffer as it goes out on the wire.
pub const UNIVERSE_SIZE: usize = 512;

/// A protocol address: universe and channel within it.
#[derive(Debug, Clone, Copy, Hash, PartialEq, Eq, PartialOrd, Ord)]
pub struct DmxAddress {
    /// Pretty much the universe
    pub universe: u8,
    /// The DMX512 address
    pub channel: usize,
}

/// Absolute channel of the first component of pixel `index`, counted from the
/// start of `base`'s universe.
pub open spec fn absolute_channel(base: DmxAddress, index: int) -> int {
    base.channel + 3 * index
}

/// Universe of pixel `index` counted from `base`, as an unbounded integer.
pub open spec fn universe_of(base: DmxAddress, index: int) -> int {
    base.universe + absolute_channel(base, index) / (CHANNELS_PER_UNIVERSE as int)
}

/// Channel of pixel `index` counted from `base`.
pub open spec fn channel_of(base: DmxAddress, index: int) -> int {
    absolute_channel(base, index) % (CHANNELS_PER_UNIVERSE as int)
}

/// Whether the address of pixel `index` counted from `base` can be held:
/// its universe fits in a `u8` and its absolute channel in a `usize`.
pub open spec fn offset_in_range(base: DmxAddress, index: int) -> bool {
    &&& 0 <= index
    &&& absolute_channel(base, index) <= usize::MAX
    &&& universe_of(base, index) <= u8::MAX
}

/// The address of pixel `index` counted from `base`.
pub open spec fn pixel_address(base: DmxAddress, index: int) -> DmxAddress {
    DmxAddress {
        universe: universe_of(base, index) as u8,
        channel: channel_of(base, index) as usize,
    }
}

impl DmxAddress {
    /// The channel lies inside the universe.
    pub open spec fn wf(&self) -> bool {
        self.channel < CHANNELS_PER_UNIVERSE
    }

    /// Calculate the DMX address for a given pixel.
    ///
    /// The three components of pixel `index` start `3 * index` channels after
    /// `self`; the count rolls into the next universe every
    /// `CHANNELS_PER_UNIVERSE` channels.
    pub fn pixel_offset(&self, index: LedIndex) -> (r: DmxAddress)
        requires
            offset_in_range(*self, index as int),
        ensures
            r == pixel_address(*self, index as int),
            r.universe == universe_of(*self, index as int),
            r.channel == channel_of(*self, index as int),
            r.channel < CHANNELS_PER_UNIVERSE,
    {
        let rgb_index = index * 3;
        let absolute_index = rgb_index + self.channel;
        // split the absolute channel into DMX channels and universes
        let dmx_channel = absolute_index % CHANNELS_PER_UNIVERSE;
        let dmx_universe = self.universe + (absolute_index / CHANNELS_PER_UNIVERSE) as u8;
        DmxAddress { channel: dmx_channel, universe: dmx_universe }
    }
}

/// Whether pixel `index` counted from `base` has an address that can be held:
/// its absolute channel fits in a `usize` and its universe in a `u8`.
pub fn addressable(base: DmxAddress, index: LedIndex) -> (r: bool)
    ensures
        r == offset_in_range(base, index as int),
{
    match index.checked_mul(3) {
        None => false,
        Some(rgb_index) => match rgb_index.checked_add(base.channel) {
            None => false,
            Some(absolute_index) => {
                absolute_index / CHANNELS_PER_UNIVERSE <= (255 - base.universe) as usize
            },
        },
    }
}

impl From<(usize, u8)> for DmxAddress {
    fn from(value: (usize, u8)) -> (r: Self)
        ensures
            r == (DmxAddress { channel: value.0, universe: value.1 }),
    {
        DmxAddress { channel: value.0, universe: value.1 }
    }
}

impl vstd::std_specs::convert::FromSpecImpl<(usize, u8)> for DmxAddress {
    open spec fn obeys_from_spec() -> bool {
        true
    }

    open spec fn from_spec(value: (usize, u8)) -> DmxAddress {
        DmxAddress { channel: value.0, universe: value.1 }
    }
}

/// Every generated address lies inside its universe, and the three
/// components of the pixel fit in the universe buffer; this holds for every
/// base and index, also where `base.channel + 3 * index` is a multiple of
/// `CHANNELS_PER_UNIVERSE`.
pub proof fn lemma_channel_within_universe(base: DmxAddress, index: int)
    requires
        0 <= index,
    ensures
        0 <= channel_of(base, index) < CHANNELS_PER_UNIVERSE,
        channel_of(base, index) + 3 <= UNIVERSE_SIZE,
{
}

/// Addressing `n2` pixels past the address that follows `n1` pixels gives the
/// same address as addressing `n1 + n2` pixels from the base: chaining a
/// fixture of `n1` pixels and one of `n2` pixels is addressed exactly like a
/// single fixture of `n1 + n2` pixels.
pub proof fn lemma_chain_composition(base: DmxAddress, first: int, second: int)
    requires
        0 <= first,
        0 <= second,
        offset_in_range(base, first + second),
    ensures
        offset_in_range(base, first),
        offset_in_range(pixel_address(base, first), second),
        pixel_address(base, first + second) == pixel_address(pixel_address(base, first), second),
{
    let n1 = first;
    let n2 = second;
    let u = CHANNELS_PER_UNIVERSE as int;
    let a1 = absolute_channel(base, n1);
    let a = absolute_channel(base, n1 + n2);
    assert(a == a1 + 3 * n2);
    let q = a1 / u;
    let r = a1 % u;
    vstd::arithmetic::div_mod::lemma_fundamental_div_mod(a1, u);
    assert(a == u * q + (r + 3 * n2));
    assert(a / u == q + (r + 3 * n2) / u) by {
        vstd::arithmetic::div_mod::lemma_hoist_over_denominator(r + 3 * n2, q, u as nat);
        assert(r + 3 * n2 + q * u == a);
    }
    assert(a % u == (r + 3 * n2) % u) by {
        vstd::arithmetic::div_mod::lemma_mod_multiples_vanish(q, r + 3 * n2, u);
    }
    assert(a1 / u <= a / u) by {
        vstd::arithmetic::div_mod::lemma_div_is_ordered(a1, a, u);
    }
}

/// Position of a pixel in 2-D space, counted from the origin; also the size of a fixture.
#[derive(Debug, Clone, Copy, PartialEq, Eq, Hash)]
pub struct UPos {
    pub x: u32,
    pub y: u32,
}

/// Maps an LED fixture to 2-D coordinates.
pub trait LedMappingTrait {
    /// The fixture's parameters are in the range the methods can compute with.
    spec fn wf(&self) -> bool;

    /// Number of pixels in the fixture.
    spec fn num_pixels(&self) -> nat;

    /// Position of pixel `index` in the fixture's own grid.
    spec fn pos(&self, index: int) -> UPos;

    /// Bounding size of the whole fixture.
    spec fn size(&self) -> UPos;

    /// Get the position of the pixel in 2-D space.
    fn get_pos(&self, index: LedIndex) -> (r: UPos)
        requires
            self.wf(),
            index < self.num_pixels(),
        ensures
            r == self.pos(index as int),
            r.x < self.size().x,
            r.y < self.size().y,
    ;

    /// Maximum size of the whole fixture.
    fn get_size(&self) -> (r: UPos)
        requires
            self.wf(),
        ensures
            r == self.size(),
    ;

    /// Number of pixels in the fixture.
    fn get_num_pixels(&self) -> (r: usize)
        requires
            self.wf(),
        ensures
            r == self.num_pixels(),
    ;
}

/// The closed set of fixture shapes.
#[derive(Debug, Clone, Copy)]
pub enum LedMappingEnum {
    LedMatrix(LedMatrix),
    StripMapping(StripMapping),
}

impl From<LedMatrix> for LedMappingEnum {
    fn from(value: LedMatrix) -> (r: Self)
        ensures
            r == LedMappingEnum::LedMatrix(value),
    {
        LedMappingEnum::LedMatrix(value)
    }
}

impl vstd::std_specs::convert::FromSpecImpl<LedMatrix> for LedMappingEnum {
    open spec fn obeys_from_spec() -> bool {
        true
    }

    open spec fn from_spec(value: LedMatrix) -> LedMappingEnum {
        LedMappingEnum::LedMatrix(value)
    }
}

impl From<StripMapping> for LedMappingEnum {
    fn from(value: StripMapping) -> (r: Self)
        ensures
            r == LedMappingEnum::StripMapping(value),
    {
        LedMappingEnum::StripMapping(value)
    }
}

impl vstd::std_specs::convert::FromSpecImpl<StripMapping> for LedMappingEnum {
    open spec fn obeys_from_spec() -> bool {
        true
    }

    open spec fn from_spec(value: StripMapping) -> LedMappingEnum {
        LedMappingEnum::StripMapping(value)
    }
}

impl LedMappingTrait for LedMappingEnum {
    open spec fn wf(&self) -> bool {
        match self {
            LedMappingEnum::LedMatrix(m) => m.wf(),
            LedMappingEnum::StripMapping(s) => s.wf(),
        }
    }

    open spec fn num_pixels(&self) -> nat {
        match self {
            LedMappingEnum::LedMatrix(m) => m.num_pixels(),
            LedMappingEnum::StripMapping(s) => s.num_pixels(),
        }
    }

    open spec fn pos(&self, index: int) -> UPos {
        match self {
            LedMappingEnum::LedMatrix(m) => m.pos(index),
            LedMappingEnum::StripMapping(s) => s.pos(index),
        }
    }

    open spec fn size(&self) -> UPos {
        match self {
            LedMappingEnum::LedMatrix(m) => m.size(),
            LedMappingEnum::StripMapping(s) => s.size(),
        }
    }

    fn get_pos(&self, index: LedIndex) -> (r: UPos) {
        match self {
            LedMappingEnum::LedMatrix(m) => m.get_pos(index),
            LedMappingEnum::StripMapping(s) => s.get_pos(index),
        }
    }

    fn get_size(&self) -> (r: UPos) {
        match self {
            LedMappingEnum::LedMatrix(m) => m.get_size(),
            LedMappingEnum::StripMapping(s) => s.get_size(),
        }
    }

    fn get_num_pixels(&self) -> (r: usize) {
        match self {
            LedMappingEnum::LedMatrix(m) => m.get_num_pixels(),
            LedMappingEnum::StripMapping(s) => s.get_num_pixels(),
        }
    }
}

} // verus!
