//! Fixed-point trigonometry and the spherical-to-Cartesian projection.
//!
//! Angles are in hundredths of a degree and lengths in micrometres. Sines are
//! fixed-point numbers with `SINE_ONE` standing for 1, so projected coordinates
//! come out in micrometres times `SINE_ONE` squared, exactly.
use vstd::prelude::*;

use crate::consts::FULL_TURN;

verus! {

/// The fixed-point value of 1 in a sine table.
pub const SINE_ONE: i64 = 1073741824;

/// A quarter turn, in hundredths of a degree.
pub const QUARTER_TURN: u32 = 9000;

/// A table of sines, one per hundredth of a degree.
#[derive(Debug)]
pub struct SineTable {
    values: Vec<i64>,
}

/// A point in sensor-frame Cartesian coordinates (+y forward, +z up).
#[derive(Clone, Copy, Debug, PartialEq, Eq, Structural)]
pub struct Xyz {
    pub x: i128,
    pub y: i128,
    pub z: i128,
}

/// An angle reduced into `[0°, 360°)`.
pub open spec fn wrap_angle(a: int) -> int {
    a % (FULL_TURN as int)
}

/// The projection of a return at `distance` seen at the angles whose sines and
/// cosines are given, from a laser mounted at the given offsets.
pub open spec fn project(
    distance: int,
    sin_el: int,
    cos_el: int,
    sin_az: int,
    cos_az: int,
    v_offset: int,
    h_offset: int,
) -> Xyz {
    let d_plane = distance * cos_el - v_offset * sin_el;
    Xyz {
        x: (d_plane * sin_az - h_offset * SINE_ONE * cos_az) as i128,
        y: (d_plane * cos_az + h_offset * SINE_ONE * sin_az) as i128,
        z: ((distance * sin_el + v_offset * cos_el) * SINE_ONE) as i128,
    }
}

/// The largest distance that a packet can describe, in micrometres.
pub const MAX_DISTANCE: u64 = 281474976710655;

impl SineTable {
    pub closed spec fn values(&self) -> Seq<i64> {
        self.values@
    }

    #[verifier::type_invariant]
    spec fn inv(self) -> bool {
        &&& self.values@.len() == FULL_TURN
        &&& forall|i: int| 0 <= i < self.values@.len() ==> -SINE_ONE <= #[trigger] self.values@[i] <= SINE_ONE
    }

    /// One value per hundredth of a degree, each within `[-1, 1]`.
    pub open spec fn wf(&self) -> bool {
        &&& self.values().len() == FULL_TURN
        &&& forall|i: int| 0 <= i < self.values().len() ==> -SINE_ONE <= #[trigger] self.values()[i]
            <= SINE_ONE
    }

    /// The table's sine of `a`.
    pub open spec fn sin(&self, a: int) -> int {
        self.values()[wrap_angle(a)] as int
    }

    /// The table's cosine of `a`: the sine a quarter turn further on.
    pub open spec fn cos(&self, a: int) -> int {
        self.values()[wrap_angle(a + QUARTER_TURN)] as int
    }

    /// Takes a table of sines; `None` unless it has one value per hundredth of
    /// a degree, each within `[-SINE_ONE, SINE_ONE]`.
    pub fn new(values: Vec<i64>) -> (r: Option<SineTable>)
        ensures
            match r {
                Some(t) => t.values() == values@ && t.wf(),
                None => !(values@.len() == FULL_TURN && forall|i: int|
                    0 <= i < values@.len() ==> -SINE_ONE <= #[trigger] values@[i] <= SINE_ONE),
            },
    {
        if values.len() != FULL_TURN as usize {
            return None;
        }
        let mut i: usize = 0;
        while i < values.len()
            invariant
                i <= values@.len(),
                forall|j: int| 0 <= j < i ==> -SINE_ONE <= #[trigger] values@[j] <= SINE_ONE,
            decreases values@.len() - i,
        {
            if values[i] < -SINE_ONE || values[i] > SINE_ONE {
                return None;
            }
            i = i + 1;
        }
        Some(SineTable { values })
    }

    /// The sine and the cosine of `a`.
    pub fn sin_cos(&self, a: i64) -> (r: (i64, i64))
        requires
            -0x1_0000_0000 <= a <= 0x1_0000_0000,
        ensures
            r.0 == self.sin(a as int),
            r.1 == self.cos(a as int),
            -SINE_ONE <= r.0 <= SINE_ONE,
            -SINE_ONE <= r.1 <= SINE_ONE,
    {
        proof {
            use_type_invariant(self);
        }
        let turn = FULL_TURN as i64;
        let i = ((a % turn) + turn) % turn;
        let q = ((a + QUARTER_TURN as i64) % turn + turn) % turn;
        assert(i == wrap_angle(a as int)) by {
            vstd::arithmetic::div_mod::lemma_fundamental_div_mod(a as int, FULL_TURN as int);
        }
        assert(q == wrap_angle(a + QUARTER_TURN)) by {
            vstd::arithmetic::div_mod::lemma_fundamental_div_mod(a + QUARTER_TURN, FULL_TURN as int);
        }
        (self.values[i as usize], self.values[q as usize])
    }
}

proof fn lemma_mul_bound(a: int, b: int, x: int, y: int)
    requires
        -x <= a <= x,
        -y <= b <= y,
    ensures
        -(x * y) <= a * b <= x * y,
{
    assert(-(x * y) <= a * b <= x * y) by (nonlinear_arith)
        requires
            -x <= a <= x,
            -y <= b <= y,
    ;
}

/// Projects a return at `distance` into Cartesian coordinates, given the sines
/// and cosines of the elevation and the azimuth and the laser's vertical and
/// horizontal mount offsets.
pub fn spherical_to_xyz(
    distance: u64,
    sin_el: i64,
    cos_el: i64,
    sin_az: i64,
    cos_az: i64,
    vertical_offset: i32,
    horizontal_offset: i32,
) -> (r: Xyz)
    requires
        distance <= MAX_DISTANCE,
        -SINE_ONE <= sin_el <= SINE_ONE,
        -SINE_ONE <= cos_el <= SINE_ONE,
        -SINE_ONE <= sin_az <= SINE_ONE,
        -SINE_ONE <= cos_az <= SINE_ONE,
    ensures
        r == project(
            distance as int,
            sin_el as int,
            cos_el as int,
            sin_az as int,
            cos_az as int,
            vertical_offset as int,
            horizontal_offset as int,
        ),
{
    let s: i128 = SINE_ONE as i128;
    let d = distance as i128;
    let v = vertical_offset as i128;
    let h = horizontal_offset as i128;
    let se = sin_el as i128;
    let ce = cos_el as i128;
    let sa = sin_az as i128;
    let ca = cos_az as i128;
    let ghost big: int = 0x1_0000_0000_0000_0000_0000int;
    proof {
        lemma_mul_bound(d as int, ce as int, MAX_DISTANCE as int, SINE_ONE as int);
        lemma_mul_bound(v as int, se as int, 0x8000_0000, SINE_ONE as int);
        lemma_mul_bound(d as int, se as int, MAX_DISTANCE as int, SINE_ONE as int);
        lemma_mul_bound(v as int, ce as int, 0x8000_0000, SINE_ONE as int);
    }
    let d_plane = d * ce - v * se;
    let elev = d * se + v * ce;
    let hs = h * s;
    proof {
        lemma_mul_bound(d_plane as int, sa as int, big, SINE_ONE as int);
        lemma_mul_bound(d_plane as int, ca as int, big, SINE_ONE as int);
        lemma_mul_bound(hs as int, ca as int, big, SINE_ONE as int);
        lemma_mul_bound(hs as int, sa as int, big, SINE_ONE as int);
        lemma_mul_bound(elev as int, s as int, big, SINE_ONE as int);
    }
    Xyz { x: d_plane * sa - hs * ca, y: d_plane * ca + hs * sa, z: elev * s }
}

/// A return at distance zero lands on the laser's mount offsets, turned by
/// the elevation and the azimuth alone.
pub proof fn lemma_zero_distance(sin_el: int, cos_el: int, sin_az: int, cos_az: int, v_offset: int, h_offset: int)
    ensures
        project(0, sin_el, cos_el, sin_az, cos_az, v_offset, h_offset) == (Xyz {
            x: (-(v_offset * sin_el) * sin_az - h_offset * SINE_ONE * cos_az) as i128,
            y: (-(v_offset * sin_el) * cos_az + h_offset * SINE_ONE * sin_az) as i128,
            z: (v_offset * cos_el * SINE_ONE) as i128,
        }),
{
    assert(0 * cos_el == 0 && 0 * sin_el == 0);
}

} // verus!
