use vstd::prelude::*;

use crate::mapping::{DmxAddress, UNIVERSE_SIZE};

verus! {

/// Number of universes a frame can address: every value of a `u8`.
pub const NUM_UNIVERSES: usize = 256;

/// Bytes of all universe buffers of a frame together.
pub const FRAME_BYTES: usize = 131072;

/// One pixel's color: red, green and blue components.
#[derive(Debug, Clone, Copy, PartialEq, Eq, Hash)]
pub struct Rgb {
    pub r: u8,
    pub g: u8,
    pub b: u8,
}

/// A universe buffer no pixel has been written to.
pub open spec fn blank_universe() -> Seq<u8> {
    Seq::new(UNIVERSE_SIZE as nat, |i: int| 0u8)
}

/// The universe buffers after the components of one pixel are written at
/// `address`; a universe that held no buffer yet starts from a blank one.
pub open spec fn write_pixel_spec(frame: Map<int, Seq<u8>>, address: DmxAddress, color: Rgb) -> Map<
    int,
    Seq<u8>,
> {
    let u = address.universe as int;
    let c = address.channel as int;
    let buf = if frame.contains_key(u) {
        frame[u]
    } else {
        blank_universe()
    };
    frame.insert(u, buf.update(c, color.r).update(c + 1, color.g).update(c + 2, color.b))
}

/// The universe buffers after the given pixel writes are applied in order;
/// where two writes overlap, the later one wins.
pub open spec fn apply_writes(frame: Map<int, Seq<u8>>, writes: Seq<(DmxAddress, Rgb)>) -> Map<
    int,
    Seq<u8>,
>
    decreases writes.len(),
{
    if writes.len() == 0 {
        frame
    } else {
        write_pixel_spec(apply_writes(frame, writes.drop_last()), writes.last().0, writes.last().1)
    }
}

/// The per-universe output buffers of one frame.
///
/// All 256 possible universes share one flat byte store, allocated once per
/// frame, with a flag per universe that says whether a pixel was written to
/// it. A map keyed by universe would be walked in the order its hasher picks;
/// the flags let the packets go out in ascending order of universe, which the
/// contract of `frame_packets` states.
pub struct DmxFrame {
    data: Vec<u8>,
    used: Vec<bool>,
}

/// Buffer of universe `u` inside the flat byte store.
pub open spec fn universe_slice(data: Seq<u8>, u: int) -> Seq<u8> {
    data.subrange(u * UNIVERSE_SIZE as int, u * UNIVERSE_SIZE as int + UNIVERSE_SIZE as int)
}

/// Byte `i` of universe `u` inside the flat byte store.
pub open spec fn store_byte(data: Seq<u8>, u: int, i: int) -> u8 {
    data[u * UNIVERSE_SIZE as int + i]
}

impl View for DmxFrame {
    type V = Map<int, Seq<u8>>;

    /// Each universe that some pixel was written to, with its buffer.
    closed spec fn view(&self) -> Map<int, Seq<u8>> {
        Map::new(
            |u: int| 0 <= u < NUM_UNIVERSES && self.used@[u],
            |u: int| universe_slice(self.data@, u),
        )
    }
}

impl DmxFrame {
    /// The byte store has room for every universe, and a universe that no
    /// pixel was written to is still blank.
    pub closed spec fn wf(&self) -> bool {
        &&& self.data.len() == FRAME_BYTES
        &&& self.used.len() == NUM_UNIVERSES
        &&& forall|u: int, i: int|
            0 <= u < NUM_UNIVERSES && 0 <= i < UNIVERSE_SIZE && !self.used@[u] ==> #[trigger] store_byte(
                self.data@,
                u,
                i,
            ) == 0
    }

    /// A frame with no universe in it.
    pub fn new() -> (r: Self)
        ensures
            r.wf(),
            r@ == Map::<int, Seq<u8>>::empty(),
    {
        let mut data: Vec<u8> = Vec::with_capacity(FRAME_BYTES);
        let mut k: usize = 0;
        while k < FRAME_BYTES
            invariant
                k <= FRAME_BYTES,
                data.len() == k,
                forall|j: int| 0 <= j < k ==> data@[j] == 0,
            decreases FRAME_BYTES - k,
        {
            data.push(0);
            k = k + 1;
        }
        let mut used: Vec<bool> = Vec::with_capacity(NUM_UNIVERSES);
        let mut k: usize = 0;
        while k < NUM_UNIVERSES
            invariant
                k <= NUM_UNIVERSES,
                used.len() == k,
                forall|j: int| 0 <= j < k ==> !used@[j],
            decreases NUM_UNIVERSES - k,
        {
            used.push(false);
            k = k + 1;
        }
        let r = DmxFrame { data, used };
        assert forall|u: int, i: int|
            0 <= u < NUM_UNIVERSES && 0 <= i < UNIVERSE_SIZE && !r.used@[u] implies #[trigger] store_byte(
                r.data@,
                u,
                i,
            ) == 0 by {
            assert(0 <= u * UNIVERSE_SIZE as int + i < FRAME_BYTES);
        }
        assert(r@ =~= Map::<int, Seq<u8>>::empty());
        r
    }

    /// Writes the components of one pixel at `address`.
    pub fn write_pixel(&mut self, address: DmxAddress, color: Rgb)
        requires
            old(self).wf(),
            address.wf(),
        ensures
            final(self).wf(),
            final(self)@ == write_pixel_spec(old(self)@, address, color),
    {
        let u = address.universe as usize;
        let c = address.channel;
        let start = u * UNIVERSE_SIZE + c;
        self.data[start] = color.r;
        self.data[start + 1] = color.g;
        self.data[start + 2] = color.b;
        self.used[u] = true;
        proof {
            let ui = u as int;
            let ci = c as int;
            let old_data = old(self).data@;
            let expected = write_pixel_spec(old(self)@, address, color);
            assert forall|v: int, i: int|
                0 <= v < NUM_UNIVERSES && 0 <= i < UNIVERSE_SIZE && !self.used@[v] implies #[trigger] store_byte(
                    self.data@,
                    v,
                    i,
                ) == 0 by {
                assert(v != ui);
                assert(!old(self).used@[v]);
                assert(store_byte(old_data, v, i) == 0);
            }
            assert forall|v: int| #[trigger] self@.contains_key(v) implies self@[v]
                =~= expected[v] by {
                if v == ui {
                    if !old(self).used@[v] {
                        assert forall|i: int| 0 <= i < UNIVERSE_SIZE implies universe_slice(
                            old_data,
                            v,
                        )[i] == 0 by {
                            assert(store_byte(old_data, v, i) == 0);
                        }
                        assert(universe_slice(old_data, v) =~= blank_universe());
                    }
                } else {
                    assert(old(self)@.contains_key(v));
                    assert(universe_slice(self.data@, v) =~= universe_slice(old_data, v));
                }
            }
            assert(self@ =~= expected);
        }
    }

    /// Only universes a `u8` can name are present, each with a full buffer.
    pub proof fn lemma_universes_in_range(&self)
        requires
            self.wf(),
        ensures
            forall|u: int|
                #[trigger] self@.contains_key(u) ==> 0 <= u < NUM_UNIVERSES && self@[u].len()
                    == UNIVERSE_SIZE,
    {
    }

    /// Whether some pixel was written to `universe`.
    pub fn contains_universe(&self, universe: u8) -> (r: bool)
        requires
            self.wf(),
        ensures
            r == self@.contains_key(universe as int),
    {
        self.used[universe as usize]
    }

    /// A copy of the buffer of `universe`.
    pub fn universe_data(&self, universe: u8) -> (r: Vec<u8>)
        requires
            self.wf(),
        ensures
            r@.len() == UNIVERSE_SIZE,
            self@.contains_key(universe as int) ==> r@ == self@[universe as int],
            !self@.contains_key(universe as int) ==> r@ == blank_universe(),
    {
        let start = universe as usize * UNIVERSE_SIZE;
        let mut r: Vec<u8> = Vec::with_capacity(UNIVERSE_SIZE);
        let mut k: usize = 0;
        while k < UNIVERSE_SIZE
            invariant
                self.wf(),
                start == universe as int * UNIVERSE_SIZE as int,
                k <= UNIVERSE_SIZE,
                r@ =~= self.data@.subrange(start as int, start + k),
            decreases UNIVERSE_SIZE - k,
        {
            r.push(self.data[start + k]);
            k = k + 1;
        }
        proof {
            if !self@.contains_key(universe as int) {
                assert forall|i: int| 0 <= i < UNIVERSE_SIZE implies r@[i] == 0 by {
                    assert(store_byte(self.data@, universe as int, i) == 0);
                }
                assert(r@ =~= blank_universe());
            }
        }
        r
    }
}

} // verus!
