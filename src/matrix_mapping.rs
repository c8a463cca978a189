use vstd::prelude::*;

use crate::mapping::{DmxAddress, LedIndex, LedMappingTrait, UPos};

verus! {

/// A square grid of `width * width` pixels wired as a serpentine: even rows
/// run left to right, odd rows right to left.
#[derive(Debug, Clone, Copy)]
pub struct LedMatrix {
    pub start_address: DmxAddress,
    pub width: LedIndex,
}

/// Column of pixel `index` in a serpentine grid `width` pixels wide.
pub open spec fn serpentine_x(width: int, index: int) -> int {
    if (index / width) % 2 == 1 {
        width - 1 - index % width
    } else {
        index % width
    }
}

impl LedMatrix {
    /// The matrix that `new` makes for a chain, before its own start address matters.
    pub open spec fn new_spec(width: LedIndex) -> Self {
        LedMatrix { width, start_address: DmxAddress { universe: 0, channel: 0 } }
    }

    pub fn new(width: LedIndex, address: DmxAddress) -> (r: Self)
        ensures
            r.width == width,
            r.start_address == address,
    {
        Self { width, start_address: address }
    }
}

/// Serpentine layout: for every width `w >= 1` and index `i < w * w`, the
/// pixel lies in row `i / w`, at column `i % w` on even rows and
/// `w - 1 - i % w` on odd rows.
pub proof fn lemma_serpentine_position(m: LedMatrix, index: int)
    requires
        m.wf(),
        0 <= index < m.num_pixels(),
    ensures
        m.width >= 1,
        m.pos(index).y == index / m.width as int,
        (index / m.width as int) % 2 == 0 ==> m.pos(index).x == index % m.width as int,
        (index / m.width as int) % 2 == 1 ==> m.pos(index).x == m.width - 1 - index % m.width as int,
{
    let w = m.width as int;
    assert(w > 0) by (nonlinear_arith)
        requires
            0 <= index < w * w,
            w >= 0,
    ;
    assert(index / w < w) by (nonlinear_arith)
        requires
            0 <= index < w * w,
            w > 0,
    ;
}

impl Default for LedMatrix {
    fn default() -> (r: Self)
        ensures
            r.width == 16,
            r.start_address == (DmxAddress { channel: 0, universe: 0 }),
    {
        Self { width: 16, start_address: DmxAddress { channel: 0, universe: 0 } }
    }
}

impl LedMappingTrait for LedMatrix {
    open spec fn wf(&self) -> bool {
        &&& self.width * self.width <= usize::MAX
        &&& self.width <= u32::MAX
    }

    open spec fn num_pixels(&self) -> nat {
        (self.width * self.width) as nat
    }

    open spec fn pos(&self, index: int) -> UPos {
        UPos { x: serpentine_x(self.width as int, index) as u32, y: (index / self.width as int) as u32 }
    }

    open spec fn size(&self) -> UPos {
        UPos { x: self.width as u32, y: self.width as u32 }
    }

    fn get_pos(&self, index: LedIndex) -> (r: UPos) {
        let w = self.width;
        assert(w > 0) by (nonlinear_arith)
            requires
                index < w * w,
        ;
        assert(index / w < w) by (nonlinear_arith)
            requires
                index < w * w,
                w > 0,
        ;
        let mut x = index % w;
        let y = index / w;
        let is_odd_row = y % 2 == 1;
        if is_odd_row {
            x = w - 1 - x;
        }
        UPos { x: x as u32, y: y as u32 }
    }

    fn get_size(&self) -> (r: UPos) {
        UPos { x: self.width as u32, y: self.width as u32 }
    }

    fn get_num_pixels(&self) -> (r: usize) {
        self.width * self.width
    }
}

} // verus!
