use vstd::prelude::*;

use crate::mapping::{LedIndex, LedMappingTrait, UPos};

verus! {

/// A line of `length` pixels, optionally wired from its far end.
#[derive(Debug, Clone, Copy)]
pub struct StripMapping {
    length: LedIndex,
    inverted: bool,
}

impl StripMapping {
    pub fn new(length: LedIndex, inverted: bool) -> (r: Self)
        ensures
            r.length() == length,
            r.inverted() == inverted,
    {
        Self { length, inverted }
    }

    pub closed spec fn length(&self) -> nat {
        self.length as nat
    }

    pub closed spec fn inverted(&self) -> bool {
        self.inverted
    }
}

impl Default for StripMapping {
    fn default() -> (r: Self)
        ensures
            r.length() == 16,
            !r.inverted(),
    {
        Self { length: 16, inverted: false }
    }
}

impl LedMappingTrait for StripMapping {
    open spec fn wf(&self) -> bool {
        self.length() <= u32::MAX
    }

    open spec fn num_pixels(&self) -> nat {
        self.length()
    }

    open spec fn pos(&self, index: int) -> UPos {
        let x = index % (self.length() as int);
        UPos { x: (if self.inverted() { self.length() - 1 - x } else { x }) as u32, y: 0 }
    }

    open spec fn size(&self) -> UPos {
        UPos { x: self.length() as u32, y: 1 }
    }

    fn get_pos(&self, index: LedIndex) -> (r: UPos) {
        let mut x = index % self.length;
        x = if self.inverted {
            self.length - 1 - x
        } else {
            x
        };
        UPos { x: x as u32, y: 0 }
    }

    fn get_size(&self) -> (r: UPos) {
        UPos { x: self.length as u32, y: 1 }
    }

    fn get_num_pixels(&self) -> (r: usize) {
        self.length
    }
}

} // verus!
