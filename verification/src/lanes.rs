//! A vector of four 32-bit lanes with the lane-wise operations that the
//! vector engine needs.
//!
//! The lanes are four plain words. Every operation treats them alike
//! and none looks at another lane, so a compiler is free to keep a
//! vector in one 128-bit register.

use vstd::prelude::*;

verus! {

/// Number of lanes in a vector.
pub const LANES: usize = 4;

/// Lane-wise `&`.
pub open spec fn lanes_and(a: Seq<u32>, b: Seq<u32>) -> Seq<u32> {
    Seq::new(LANES as nat, |i: int| a[i] & b[i])
}

/// Lane-wise `^`.
pub open spec fn lanes_xor(a: Seq<u32>, b: Seq<u32>) -> Seq<u32> {
    Seq::new(LANES as nat, |i: int| a[i] ^ b[i])
}

/// Lane-wise `<<`: lane `i` of `a` shifted left by lane `i` of `by`.
pub open spec fn lanes_shl(a: Seq<u32>, by: Seq<u32>) -> Seq<u32> {
    Seq::new(LANES as nat, |i: int| a[i] << by[i])
}

/// Lane-wise logical `>>`: lane `i` of `a` shifted right by lane `i` of `by`.
pub open spec fn lanes_shr(a: Seq<u32>, by: Seq<u32>) -> Seq<u32> {
    Seq::new(LANES as nat, |i: int| a[i] >> by[i])
}

/// Every lane is a shift amount that a 32-bit word admits.
pub open spec fn shift_amounts(by: Seq<u32>) -> bool {
    by.len() == LANES && forall|i: int| 0 <= i < LANES ==> by[i] < 32
}

/// Four unsigned 32-bit lanes, processed together.
#[derive(Clone, Copy, Debug)]
pub struct U32x4 {
    pub lanes: [u32; 4],
}

impl View for U32x4 {
    type V = Seq<u32>;

    open spec fn view(&self) -> Seq<u32> {
        self.lanes@
    }
}

impl U32x4 {
    /// The vector with the given lanes, lane 0 first.
    pub fn from_array(lanes: [u32; 4]) -> (v: Self)
        ensures
            v@ == lanes@,
    {
        U32x4 { lanes }
    }

    /// The lanes, lane 0 first.
    pub fn to_array(self) -> (lanes: [u32; 4])
        ensures
            lanes@ == self@,
    {
        self.lanes
    }

    /// Lane-wise `&`.
    pub fn and(self, rhs: Self) -> (v: Self)
        ensures
            v@ == lanes_and(self@, rhs@),
    {
        let a = self.lanes;
        let b = rhs.lanes;
        U32x4 { lanes: [a[0] & b[0], a[1] & b[1], a[2] & b[2], a[3] & b[3]] }
    }

    /// Lane-wise `^`.
    pub fn xor(self, rhs: Self) -> (v: Self)
        ensures
            v@ == lanes_xor(self@, rhs@),
    {
        let a = self.lanes;
        let b = rhs.lanes;
        U32x4 { lanes: [a[0] ^ b[0], a[1] ^ b[1], a[2] ^ b[2], a[3] ^ b[3]] }
    }

    /// Lane-wise `<<`, each lane by its own amount. Bits shifted out are
    /// dropped.
    pub fn shl(self, by: Self) -> (v: Self)
        requires
            shift_amounts(by@),
        ensures
            v@ == lanes_shl(self@, by@),
    {
        let a = self.lanes;
        let b = by.lanes;
        U32x4 { lanes: [a[0] << b[0], a[1] << b[1], a[2] << b[2], a[3] << b[3]] }
    }

    /// Lane-wise logical `>>`, each lane by its own amount.
    pub fn shr(self, by: Self) -> (v: Self)
        requires
            shift_amounts(by@),
        ensures
            v@ == lanes_shr(self@, by@),
    {
        let a = self.lanes;
        let b = by.lanes;
        U32x4 { lanes: [a[0] >> b[0], a[1] >> b[1], a[2] >> b[2], a[3] >> b[3]] }
    }
}

} // verus!
