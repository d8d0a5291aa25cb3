//! Color spaces and conversions.
//!
//! The base [`Color`] struct represents a tristimulus color value in a
//! specific color space, carried as an uninhabited-by-value phantom tag:
//! arithmetic works within one space, while colors from different spaces
//! cannot be added or compared without an explicit conversion.
//!
//! Two color spaces are supported, [`CIE1931`] and [`LinearRGB`], with
//! the convenience typedefs [`XYZ`] and [`RGB`]. A sampled spectrum is
//! projected to XYZ against the CIE color-matching tables; XYZ converts
//! to linear RGB through a fixed 3x3 transform; and linear RGB converts
//! to an 8-bit display triple by sRGB gamma encoding followed by the
//! order-dependent gamut correction — desaturate toward white first,
//! then rescale uniformly — and 8-bit quantization.

use core::marker::PhantomData;
use vstd::prelude::*;

use crate::geo::vector::{v3_add, v3_add_ok, v3_neg, v3_neg_ok, v3_scale, v3_scale_ok, V3, Vector};
use crate::scalar::{iabs, in64, lemma_smul_bound, lemma_smul_nonneg, sdiv, smul, Scalar, SCALE};
use crate::spectrum::{dot_prefix, Sampled, SAMPLE_COUNT};

verus! {

/// The CIE 1931 color space.
#[derive(Debug, Clone, Copy, PartialEq, Eq, Structural, Default)]
pub struct CIE1931;

/// Linear RGB color space.
#[derive(Debug, Clone, Copy, PartialEq, Eq, Structural, Default)]
pub struct LinearRGB;

/// The normalization constant applied to CIE projections: the reciprocal
/// of the integral of the CIE-Y curve, so that a uniform unit-radiance
/// spectrum maps to a Y value of about one.
pub const CIE_NORM_BITS: i64 = 40193818;

pub const CIE_X_BITS: [i64; 80] = [
    5875515, 9603546, 18223546, 32856499, 61460982,
    99600291, 186874027, 333418311, 577157705, 922430126,
    1219341215, 1410896756, 1495851209, 1494906317, 1443968004,
    1368806077, 1248976489, 1078466288, 839064810, 610314852,
    410770672, 248893397, 137481903, 63136019, 21045339,
    10307921, 39943195, 124983548, 271742580, 470728415,
    710817087, 969588437, 1247258502, 1544899736, 1861653144,
    2199238433, 2553358057, 2913705813, 3273194576, 3618509946,
    3935478533, 4203054995, 4407924935, 4538491941, 4562114261,
    4490817804, 4306134210, 4030397310, 3669834376, 3227238426,
    2759086990, 2327442777, 1923715851, 1549624200, 1217623228,
    939309347, 708240107, 520550036, 375380141, 273159920,
    200875620, 141304424, 97495757, 68032281, 48787220,
    34836118, 24869346, 17649983, 12452514, 8801204,
    6184628, 4294749, 2963865, 2044495, 1427222,
    1008570, 713610, 504284, 356805, 252142,
];

pub const CIE_Y_BITS: [i64; 80] = [
    167503, 274877, 515396, 932007, 1700807,
    2748779, 5196910, 9363028, 17179869, 31353261,
    49821620, 72327249, 98784247, 127990025, 163208757,
    206158430, 257698037, 317398083, 390756124, 483613317,
    597086353, 727137963, 893439096, 1110678542, 1387274436,
    1749340179, 2160368549, 2612199109, 3049426780, 3406768059,
    3702261809, 3929251260, 4097398800, 4210356440, 4273278140,
    4294967296, 4273492459, 4203054995, 4088808865, 3931613062,
    3736621547, 3505981803, 3251290243, 2984572773, 2710124363,
    2434387463, 2160368549, 1894939570, 1636382539, 1378684502,
    1138166333, 932007903, 751619276, 593564480, 459561500,
    350469331, 261993005, 191469642, 137438953, 99643241,
    73014444, 51196010, 35261681, 24580097, 17617955,
    12579959, 8980776, 6373731, 4496830, 3178275,
    2233382, 1550912, 1070305, 738304, 515396,
    364213, 257698, 182106, 128849, 91053,
];

pub const CIE_Z_BITS: [i64; 80] = [
    27702543, 45311862, 86114137, 155520765, 291413573,
    473305396, 890776217, 1594721357, 2772830886, 4462686198,
    5951106685, 6970560122, 7503565564, 7656208701, 7611154494,
    7490852460, 7169159410, 6563139525, 5530371689, 4474926425,
    3491594092, 2646558847, 1997932886, 1517411945, 1168231104,
    911821556, 679463826, 479747846, 336081147, 245886920,
    181075821, 128161824, 87187836, 57552561, 37580959,
    24696057, 16750372, 11811155, 9019431, 7730941,
    7086700, 6012954, 4724464, 4294967, 3435973,
    2576980, 1460288, 1030792, 816043, 429496,
    214748, 128849, 85899, 42949, 0,
    0, 0, 0, 0, 0,
    0, 0, 0, 0, 0,
    0, 0, 0, 0, 0,
    0, 0, 0, 0, 0,
    0, 0, 0, 0, 0,
];

/// The CIE X matching curve as unbounded integers.
pub open spec fn cie_x_seq() -> Seq<int> {
    CIE_X_BITS@.map_values(|b: i64| b as int)
}

/// The CIE Y matching curve as unbounded integers.
pub open spec fn cie_y_seq() -> Seq<int> {
    CIE_Y_BITS@.map_values(|b: i64| b as int)
}

/// The CIE Z matching curve as unbounded integers.
pub open spec fn cie_z_seq() -> Seq<int> {
    CIE_Z_BITS@.map_values(|b: i64| b as int)
}

/// Row `r` of the fixed transform taking CIE XYZ to linear sRGB.
pub const XYZ_TO_RGB_R0: [i64; 3] = [13917644813, -6601959586, -2141176059];

/// Row 1 of the fixed transform taking CIE XYZ to linear sRGB.
pub const XYZ_TO_RGB_R1: [i64; 3] = [-4162965771, 8057405032, 178481660];

/// Row 2 of the fixed transform taking CIE XYZ to linear sRGB.
pub const XYZ_TO_RGB_R2: [i64; 3] = [238986583, -876284568, 4540747658];

/// A tristimulus color value, parameterized by its color space.
#[derive(Debug, Copy, PartialEq)]
pub struct Color<CS> {
    vals: Vector,
    _colorspace: PhantomData<CS>,
}

impl<CS> Clone for Color<CS> {
    fn clone(&self) -> (r: Self)
        ensures
            r == *self,
    {
        Color { vals: self.vals, _colorspace: PhantomData }
    }
}

/// A CIE 1931 tristimulus color value.
pub type XYZ = Color<CIE1931>;

/// A linear RGB color value.
pub type RGB = Color<LinearRGB>;

impl<CS> View for Color<CS> {
    type V = V3;

    closed spec fn view(&self) -> V3 {
        self.vals@
    }
}

impl<CS> Color<CS> {
    /// A color from its three channel values.
    pub fn from_channels(a: Scalar, b: Scalar, c: Scalar) -> (r: Color<CS>)
        ensures
            r@ == (V3 { x: a@, y: b@, z: c@ }),
    {
        Color { vals: Vector::new(a, b, c), _colorspace: PhantomData }
    }

    /// The additive identity: all channels zero.
    pub fn zero() -> (r: Color<CS>)
        ensures
            r@ == (V3 { x: 0, y: 0, z: 0 }),
    {
        Color { vals: Vector::zero(), _colorspace: PhantomData }
    }

    /// The channels as a plain vector.
    pub fn to_vector(&self) -> (r: Vector)
        ensures
            r@ == self@,
    {
        self.vals
    }

    /// Exact channel-wise sum, within one color space.
    pub fn add(self, rhs: Color<CS>) -> (r: Color<CS>)
        requires
            v3_add_ok(self@, rhs@),
        ensures
            r@ == v3_add(self@, rhs@),
    {
        Color { vals: self.vals.add(rhs.vals), _colorspace: PhantomData }
    }

    /// Every channel scaled by `rhs`, truncated per channel.
    pub fn mul(self, rhs: Scalar) -> (r: Color<CS>)
        requires
            v3_scale_ok(self@, rhs@),
        ensures
            r@ == v3_scale(self@, rhs@),
    {
        Color { vals: self.vals.mul(rhs), _colorspace: PhantomData }
    }

    /// Every channel divided by `rhs`, truncated per channel.
    pub fn div(self, rhs: Scalar) -> (r: Color<CS>)
        requires
            rhs@ != 0,
            in64(sdiv(self@.x, rhs@)),
            in64(sdiv(self@.y, rhs@)),
            in64(sdiv(self@.z, rhs@)),
        ensures
            r@.x == sdiv(self@.x, rhs@),
            r@.y == sdiv(self@.y, rhs@),
            r@.z == sdiv(self@.z, rhs@),
    {
        Color { vals: self.vals.div(rhs), _colorspace: PhantomData }
    }
}

impl<CS> Default for Color<CS> {
    /// The additive identity color.
    fn default() -> (r: Color<CS>)
        ensures
            r@ == (V3 { x: 0, y: 0, z: 0 }),
    {
        Color::zero()
    }
}

/// Whether projecting `s` against the matching curve `t` stays
/// representable: every product and every running sum fits.
pub open spec fn cie_dot_ok(s: Seq<int>, t: Seq<int>) -> bool {
    &&& forall|i: int| 0 <= i < SAMPLE_COUNT ==> in64(smul(#[trigger] s[i], t[i]))
    &&& forall|n: int| 0 <= n <= SAMPLE_COUNT ==> in64(#[trigger] dot_prefix(s, t, n))
}

/// Whether the whole spectrum-to-XYZ projection stays representable.
pub open spec fn xyz_from_ok(s: Seq<int>) -> bool {
    &&& cie_dot_ok(s, cie_x_seq())
    &&& cie_dot_ok(s, cie_y_seq())
    &&& cie_dot_ok(s, cie_z_seq())
    &&& in64(smul(dot_prefix(s, cie_x_seq(), SAMPLE_COUNT as int), CIE_NORM_BITS as int))
    &&& in64(smul(dot_prefix(s, cie_y_seq(), SAMPLE_COUNT as int), CIE_NORM_BITS as int))
    &&& in64(smul(dot_prefix(s, cie_z_seq(), SAMPLE_COUNT as int), CIE_NORM_BITS as int))
}

impl XYZ {
    /// Converts a sampled spectrum to XYZ by projecting it against the
    /// CIE color-matching curves and applying the fixed normalization.
    /// Returns the additive identity when a value leaves the
    /// representation.
    pub fn from_sampled(s: &Sampled) -> (r: XYZ)
        requires
            s.wf(),
        ensures
            xyz_from_ok(s@) ==> r@ == (V3 {
                x: smul(dot_prefix(s@, cie_x_seq(), SAMPLE_COUNT as int), CIE_NORM_BITS as int),
                y: smul(dot_prefix(s@, cie_y_seq(), SAMPLE_COUNT as int), CIE_NORM_BITS as int),
                z: smul(dot_prefix(s@, cie_z_seq(), SAMPLE_COUNT as int), CIE_NORM_BITS as int),
            }),
    {
        let mut ax = Scalar::zero();
        let mut ay = Scalar::zero();
        let mut az = Scalar::zero();
        let mut i: usize = 0;
        while i < SAMPLE_COUNT
            invariant
                s.wf(),
                i <= SAMPLE_COUNT,
                xyz_from_ok(s@) ==> ax@ == dot_prefix(s@, cie_x_seq(), i as int) && ay@
                    == dot_prefix(s@, cie_y_seq(), i as int) && az@ == dot_prefix(
                    s@,
                    cie_z_seq(),
                    i as int,
                ),
            decreases SAMPLE_COUNT - i,
        {
            let sv = s.get(i);
            let xi = Scalar::from_bits(CIE_X_BITS[i]);
            let yi = Scalar::from_bits(CIE_Y_BITS[i]);
            let zi = Scalar::from_bits(CIE_Z_BITS[i]);
            proof {
                assert(xi@ == cie_x_seq()[i as int]);
                assert(yi@ == cie_y_seq()[i as int]);
                assert(zi@ == cie_z_seq()[i as int]);
            }
            let px = match sv.checked_mul(xi) {
                Some(v) => v,
                None => { return Color::zero(); },
            };
            let py = match sv.checked_mul(yi) {
                Some(v) => v,
                None => { return Color::zero(); },
            };
            let pz = match sv.checked_mul(zi) {
                Some(v) => v,
                None => { return Color::zero(); },
            };
            proof {
                if xyz_from_ok(s@) {
                    assert(dot_prefix(s@, cie_x_seq(), i + 1) == dot_prefix(
                        s@,
                        cie_x_seq(),
                        i as int,
                    ) + smul(s@[i as int], cie_x_seq()[i as int]));
                    assert(dot_prefix(s@, cie_y_seq(), i + 1) == dot_prefix(
                        s@,
                        cie_y_seq(),
                        i as int,
                    ) + smul(s@[i as int], cie_y_seq()[i as int]));
                    assert(dot_prefix(s@, cie_z_seq(), i + 1) == dot_prefix(
                        s@,
                        cie_z_seq(),
                        i as int,
                    ) + smul(s@[i as int], cie_z_seq()[i as int]));
                }
            }
            ax = match ax.checked_add(px) {
                Some(v) => v,
                None => { return Color::zero(); },
            };
            ay = match ay.checked_add(py) {
                Some(v) => v,
                None => { return Color::zero(); },
            };
            az = match az.checked_add(pz) {
                Some(v) => v,
                None => { return Color::zero(); },
            };
            i += 1;
        }
        proof {
            if xyz_from_ok(s@) {
                assert(ax@ == dot_prefix(s@, cie_x_seq(), SAMPLE_COUNT as int));
                assert(ay@ == dot_prefix(s@, cie_y_seq(), SAMPLE_COUNT as int));
                assert(az@ == dot_prefix(s@, cie_z_seq(), SAMPLE_COUNT as int));
                assert(in64(smul(ax@, CIE_NORM_BITS as int)));
                assert(in64(smul(ay@, CIE_NORM_BITS as int)));
                assert(in64(smul(az@, CIE_NORM_BITS as int)));
            }
        }
        let norm = Scalar::from_bits(CIE_NORM_BITS);
        let nx = match ax.checked_mul(norm) {
            Some(v) => v,
            None => { return Color::zero(); },
        };
        let ny = match ay.checked_mul(norm) {
            Some(v) => v,
            None => { return Color::zero(); },
        };
        let nz = match az.checked_mul(norm) {
            Some(v) => v,
            None => { return Color::zero(); },
        };
        Color::from_channels(nx, ny, nz)
    }
}

/// Row `i` of the XYZ-to-RGB transform applied to the channels of `c`.
pub open spec fn xyz_to_rgb_row(m0: int, m1: int, m2: int, c: V3) -> int {
    smul(m0, c.x) + smul(m1, c.y) + smul(m2, c.z)
}

/// Whether one row of the XYZ-to-RGB transform stays representable.
pub open spec fn xyz_to_rgb_row_ok(m0: int, m1: int, m2: int, c: V3) -> bool {
    &&& in64(smul(m0, c.x))
    &&& in64(smul(m1, c.y))
    &&& in64(smul(m2, c.z))
    &&& in64(smul(m0, c.x) + smul(m1, c.y))
    &&& in64(xyz_to_rgb_row(m0, m1, m2, c))
}

impl RGB {
    /// Converts an XYZ color to linear RGB through the fixed 3x3
    /// transform.
    pub fn from_xyz(xyz: XYZ) -> (r: RGB)
        requires
            xyz_to_rgb_row_ok(XYZ_TO_RGB_R0@[0] as int, XYZ_TO_RGB_R0@[1] as int, XYZ_TO_RGB_R0@[2] as int, xyz@),
            xyz_to_rgb_row_ok(XYZ_TO_RGB_R1@[0] as int, XYZ_TO_RGB_R1@[1] as int, XYZ_TO_RGB_R1@[2] as int, xyz@),
            xyz_to_rgb_row_ok(XYZ_TO_RGB_R2@[0] as int, XYZ_TO_RGB_R2@[1] as int, XYZ_TO_RGB_R2@[2] as int, xyz@),
        ensures
            r@.x == xyz_to_rgb_row(XYZ_TO_RGB_R0@[0] as int, XYZ_TO_RGB_R0@[1] as int, XYZ_TO_RGB_R0@[2] as int, xyz@),
            r@.y == xyz_to_rgb_row(XYZ_TO_RGB_R1@[0] as int, XYZ_TO_RGB_R1@[1] as int, XYZ_TO_RGB_R1@[2] as int, xyz@),
            r@.z == xyz_to_rgb_row(XYZ_TO_RGB_R2@[0] as int, XYZ_TO_RGB_R2@[1] as int, XYZ_TO_RGB_R2@[2] as int, xyz@),
    {
        let v = xyz.to_vector();
        let c0 = Scalar::from_bits(XYZ_TO_RGB_R0[0]).mul(v.x).add(
            Scalar::from_bits(XYZ_TO_RGB_R0[1]).mul(v.y),
        ).add(Scalar::from_bits(XYZ_TO_RGB_R0[2]).mul(v.z));
        let c1 = Scalar::from_bits(XYZ_TO_RGB_R1[0]).mul(v.x).add(
            Scalar::from_bits(XYZ_TO_RGB_R1[1]).mul(v.y),
        ).add(Scalar::from_bits(XYZ_TO_RGB_R1[2]).mul(v.z));
        let c2 = Scalar::from_bits(XYZ_TO_RGB_R2[0]).mul(v.x).add(
            Scalar::from_bits(XYZ_TO_RGB_R2[1]).mul(v.y),
        ).add(Scalar::from_bits(XYZ_TO_RGB_R2[2]).mul(v.z));
        Color::from_channels(c0, c1, c2)
    }
}


/// The `n`-th truncating power of a count: the unit, multiplied by `y`
/// through [`smul`] `n` times. This is the exact arithmetic the display
/// encoding performs, truncation included.
pub open spec fn powt(y: int, n: nat) -> int
    decreases n,
{
    if n == 0 {
        SCALE as int
    } else {
        smul(powt(y, (n - 1) as nat), y)
    }
}

/// A truncating power of a non-negative count is non-negative.
pub proof fn lemma_powt_nonneg(y: int, n: nat)
    requires
        y >= 0,
    ensures
        powt(y, n) >= 0,
    decreases n,
{
    if n > 0 {
        lemma_powt_nonneg(y, (n - 1) as nat);
        crate::scalar::lemma_smul_nonneg(powt(y, (n - 1) as nat), y);
    }
}

/// The truncating power is monotone in its base over non-negative bases.
pub proof fn lemma_powt_mono(a: int, b: int, n: nat)
    requires
        0 <= a <= b,
    ensures
        powt(a, n) <= powt(b, n),
    decreases n,
{
    if n > 0 {
        lemma_powt_mono(a, b, (n - 1) as nat);
        lemma_powt_nonneg(a, (n - 1) as nat);
        crate::scalar::lemma_smul_mono(powt(a, (n - 1) as nat), a, powt(b, (n - 1) as nat), b);
    }
}

/// Characterizes the truncated twelfth root of `x`: the greatest count
/// whose twelfth truncating power does not exceed `x`.
pub open spec fn is_root12(x: int, r: int) -> bool {
    &&& r >= 0
    &&& powt(r, 12) <= x
    &&& x < powt(r + 1, 12)
}

/// The truncated twelfth root of `x` as a value.
pub open spec fn root12_v(x: int) -> int {
    choose|r: int| is_root12(x, r)
}

/// Any root satisfying [`is_root12`] is the value of [`root12_v`].
pub proof fn lemma_root12_unique(x: int, r: int)
    requires
        is_root12(x, r),
    ensures
        root12_v(x) == r,
{
    assert(is_root12(x, r));
    let w = choose|w: int| is_root12(x, w);
    assert(is_root12(x, w));
    if w < r {
        lemma_powt_mono(w + 1, r, 12);
        assert(false);
    }
    if r < w {
        lemma_powt_mono(r + 1, w, 12);
        assert(false);
    }
}

/// The twelfth truncating power, for bases up to four.
fn powt12(y: Scalar) -> (r: Scalar)
    requires
        0 <= y@ <= 0x4_0000_0000,
    ensures
        r@ == powt(y@, 12),
        r@ >= 0,
{
    let acc = Scalar::one();
    proof {
        assert(acc@ == powt(y@, 0));
    }
        proof {
            assert(4294967296int * 0x4_0000_0000int == 17179869184int * 0x1_0000_0000int);
            vstd::arithmetic::div_mod::lemma_div_multiples_vanish(17179869184, SCALE as int);
            lemma_smul_bound(acc@, y@, 4294967296, 0x4_0000_0000);
            lemma_smul_nonneg(acc@, y@);
        }
        let acc = acc.mul(y);
        proof {
            assert(acc@ == powt(y@, 1));
        }
        proof {
            assert(17179869184int * 0x4_0000_0000int == 68719476736int * 0x1_0000_0000int);
            vstd::arithmetic::div_mod::lemma_div_multiples_vanish(68719476736, SCALE as int);
            lemma_smul_bound(acc@, y@, 17179869184, 0x4_0000_0000);
            lemma_smul_nonneg(acc@, y@);
        }
        let acc = acc.mul(y);
        proof {
            assert(acc@ == powt(y@, 2));
        }
        proof {
            assert(68719476736int * 0x4_0000_0000int == 274877906944int * 0x1_0000_0000int);
            vstd::arithmetic::div_mod::lemma_div_multiples_vanish(274877906944, SCALE as int);
            lemma_smul_bound(acc@, y@, 68719476736, 0x4_0000_0000);
            lemma_smul_nonneg(acc@, y@);
        }
        let acc = acc.mul(y);
        proof {
            assert(acc@ == powt(y@, 3));
        }
        proof {
            assert(274877906944int * 0x4_0000_0000int == 1099511627776int * 0x1_0000_0000int);
            vstd::arithmetic::div_mod::lemma_div_multiples_vanish(1099511627776, SCALE as int);
            lemma_smul_bound(acc@, y@, 274877906944, 0x4_0000_0000);
            lemma_smul_nonneg(acc@, y@);
        }
        let acc = acc.mul(y);
        proof {
            assert(acc@ == powt(y@, 4));
        }
        proof {
            assert(1099511627776int * 0x4_0000_0000int == 4398046511104int * 0x1_0000_0000int);
            vstd::arithmetic::div_mod::lemma_div_multiples_vanish(4398046511104, SCALE as int);
            lemma_smul_bound(acc@, y@, 1099511627776, 0x4_0000_0000);
            lemma_smul_nonneg(acc@, y@);
        }
        let acc = acc.mul(y);
        proof {
            assert(acc@ == powt(y@, 5));
        }
        proof {
            assert(4398046511104int * 0x4_0000_0000int == 17592186044416int * 0x1_0000_0000int);
            vstd::arithmetic::div_mod::lemma_div_multiples_vanish(17592186044416, SCALE as int);
            lemma_smul_bound(acc@, y@, 4398046511104, 0x4_0000_0000);
            lemma_smul_nonneg(acc@, y@);
        }
        let acc = acc.mul(y);
        proof {
            assert(acc@ == powt(y@, 6));
        }
        proof {
            assert(17592186044416int * 0x4_0000_0000int == 70368744177664int * 0x1_0000_0000int);
            vstd::arithmetic::div_mod::lemma_div_multiples_vanish(70368744177664, SCALE as int);
            lemma_smul_bound(acc@, y@, 17592186044416, 0x4_0000_0000);
            lemma_smul_nonneg(acc@, y@);
        }
        let acc = acc.mul(y);
        proof {
            assert(acc@ == powt(y@, 7));
        }
        proof {
            assert(70368744177664int * 0x4_0000_0000int == 281474976710656int * 0x1_0000_0000int);
            vstd::arithmetic::div_mod::lemma_div_multiples_vanish(281474976710656, SCALE as int);
            lemma_smul_bound(acc@, y@, 70368744177664, 0x4_0000_0000);
            lemma_smul_nonneg(acc@, y@);
        }
        let acc = acc.mul(y);
        proof {
            assert(acc@ == powt(y@, 8));
        }
        proof {
            assert(281474976710656int * 0x4_0000_0000int == 1125899906842624int * 0x1_0000_0000int);
            vstd::arithmetic::div_mod::lemma_div_multiples_vanish(1125899906842624, SCALE as int);
            lemma_smul_bound(acc@, y@, 281474976710656, 0x4_0000_0000);
            lemma_smul_nonneg(acc@, y@);
        }
        let acc = acc.mul(y);
        proof {
            assert(acc@ == powt(y@, 9));
        }
        proof {
            assert(1125899906842624int * 0x4_0000_0000int == 4503599627370496int * 0x1_0000_0000int);
            vstd::arithmetic::div_mod::lemma_div_multiples_vanish(4503599627370496, SCALE as int);
            lemma_smul_bound(acc@, y@, 1125899906842624, 0x4_0000_0000);
            lemma_smul_nonneg(acc@, y@);
        }
        let acc = acc.mul(y);
        proof {
            assert(acc@ == powt(y@, 10));
        }
        proof {
            assert(4503599627370496int * 0x4_0000_0000int == 18014398509481984int * 0x1_0000_0000int);
            vstd::arithmetic::div_mod::lemma_div_multiples_vanish(18014398509481984, SCALE as int);
            lemma_smul_bound(acc@, y@, 4503599627370496, 0x4_0000_0000);
            lemma_smul_nonneg(acc@, y@);
        }
        let acc = acc.mul(y);
        proof {
            assert(acc@ == powt(y@, 11));
        }
        proof {
            assert(18014398509481984int * 0x4_0000_0000int == 72057594037927936int * 0x1_0000_0000int);
            vstd::arithmetic::div_mod::lemma_div_multiples_vanish(72057594037927936, SCALE as int);
            lemma_smul_bound(acc@, y@, 18014398509481984, 0x4_0000_0000);
            lemma_smul_nonneg(acc@, y@);
        }
        let acc = acc.mul(y);
        proof {
            assert(acc@ == powt(y@, 12));
        }
        proof {
        lemma_powt_nonneg(y@, 12);
    }
    acc
}

/// The truncated twelfth root, found by bisection over the bracket
/// `powt(lo, 12) <= x < powt(hi, 12)`.
fn root12(x: Scalar) -> (r: Scalar)
    requires
        0 <= x@ <= 0x10_0000_0000_0000,
    ensures
        is_root12(x@, r@),
        0 <= r@ < 0x4_0000_0000,
{
    proof {
        assert(powt(0, 1) == 0);
        assert(powt(0, 2) == 0);
        assert(powt(0, 3) == 0);
        assert(powt(0, 4) == 0);
        assert(powt(0, 5) == 0);
        assert(powt(0, 6) == 0);
        assert(powt(0, 7) == 0);
        assert(powt(0, 8) == 0);
        assert(powt(0, 9) == 0);
        assert(powt(0, 10) == 0);
        assert(powt(0, 11) == 0);
        assert(powt(0, 12) == 0);
        assert(powt(0x4_0000_0000, 0) == SCALE as int);
        crate::scalar::lemma_smul_int(4294967296, 4);
        assert(powt(0x4_0000_0000, 1) == 17179869184);
        crate::scalar::lemma_smul_int(17179869184, 4);
        assert(powt(0x4_0000_0000, 2) == 68719476736);
        crate::scalar::lemma_smul_int(68719476736, 4);
        assert(powt(0x4_0000_0000, 3) == 274877906944);
        crate::scalar::lemma_smul_int(274877906944, 4);
        assert(powt(0x4_0000_0000, 4) == 1099511627776);
        crate::scalar::lemma_smul_int(1099511627776, 4);
        assert(powt(0x4_0000_0000, 5) == 4398046511104);
        crate::scalar::lemma_smul_int(4398046511104, 4);
        assert(powt(0x4_0000_0000, 6) == 17592186044416);
        crate::scalar::lemma_smul_int(17592186044416, 4);
        assert(powt(0x4_0000_0000, 7) == 70368744177664);
        crate::scalar::lemma_smul_int(70368744177664, 4);
        assert(powt(0x4_0000_0000, 8) == 281474976710656);
        crate::scalar::lemma_smul_int(281474976710656, 4);
        assert(powt(0x4_0000_0000, 9) == 1125899906842624);
        crate::scalar::lemma_smul_int(1125899906842624, 4);
        assert(powt(0x4_0000_0000, 10) == 4503599627370496);
        crate::scalar::lemma_smul_int(4503599627370496, 4);
        assert(powt(0x4_0000_0000, 11) == 18014398509481984);
        crate::scalar::lemma_smul_int(18014398509481984, 4);
        assert(powt(0x4_0000_0000, 12) == 72057594037927936);
    }
    let mut lo: u64 = 0;
    let mut hi: u64 = 0x4_0000_0000;
    while lo + 1 < hi
        invariant
            lo < hi,
            hi <= 0x4_0000_0000,
            0 <= x@ <= 0x10_0000_0000_0000,
            powt(lo as int, 12) <= x@,
            x@ < powt(hi as int, 12),
        decreases hi - lo,
    {
        let mid = lo + (hi - lo) / 2;
        let pm = powt12(Scalar::from_bits(mid as i64));
        if pm.le(x) {
            lo = mid;
        } else {
            hi = mid;
        }
    }
    Scalar::from_bits(lo as i64)
}

/// The fixed-point count of the sRGB linear-segment threshold, 0.0031308.
pub const SRGB_BREAK_BITS: i64 = 13446683;

/// The fixed-point count of the sRGB linear-segment gain, 12.92.
pub const SRGB_LINEAR_GAIN_BITS: i64 = 55490977464;

/// The fixed-point count of the sRGB curve gain, 1.055.
pub const SRGB_GAIN_BITS: i64 = 4531190497;

/// The fixed-point count of the sRGB curve offset, 0.055.
pub const SRGB_OFFSET_BITS: i64 = 236223201;

/// The largest channel magnitude [`gamma_encode`] accepts: sixteen.
pub const GAMMA_IN_LIMIT: i64 = 0x10_0000_0000;

/// A bound on the magnitude [`gamma_encode`] returns.
pub const GAMMA_OUT_LIMIT: i64 = 0xD0_0000_0000;

/// The sRGB piecewise transfer curve over fixed-point counts: the linear
/// segment below the threshold, and `1.055 * v^(5/12) - 0.055` above it,
/// with `v^(5/12)` taken as the truncated twelfth root of the truncating
/// fifth power.
pub open spec fn gamma_spec(v: int) -> int {
    if v <= SRGB_BREAK_BITS {
        smul(v, SRGB_LINEAR_GAIN_BITS as int)
    } else {
        smul(root12_v(powt(v, 5)), SRGB_GAIN_BITS as int) - SRGB_OFFSET_BITS
    }
}

/// Gamma-encode one linear channel value with the sRGB transfer curve.
pub fn gamma_encode(v: Scalar) -> (r: Scalar)
    requires
        iabs(v@) <= GAMMA_IN_LIMIT,
    ensures
        r@ == gamma_spec(v@),
        iabs(r@) <= GAMMA_OUT_LIMIT,
{
    let brk = Scalar::from_bits(SRGB_BREAK_BITS);
    if v.le(brk) {
        proof {
            assert(0x10_0000_0000int * 0xD_0000_0000int == 0xD0_0000_0000int * 0x1_0000_0000int);
            vstd::arithmetic::div_mod::lemma_div_multiples_vanish(0xD0_0000_0000, SCALE as int);
            lemma_smul_bound(v@, SRGB_LINEAR_GAIN_BITS as int, 0x10_0000_0000, 0xD_0000_0000);
        }
        v.mul(Scalar::from_bits(SRGB_LINEAR_GAIN_BITS))
    } else {
        let p1 = v;
        proof {
            assert(p1@ == powt(v@, 1)) by {
                assert(powt(v@, 0) == SCALE as int);
                crate::scalar::lemma_tdiv_multiple(v@, SCALE as int);
                assert(powt(v@, 1) == smul(SCALE as int, v@));
                assert((SCALE as int) * v@ == v@ * (SCALE as int)) by (nonlinear_arith);
            };
        }
        proof {
            assert(68719476736int * 0x10_0000_0000int == 1099511627776int * 0x1_0000_0000int);
            vstd::arithmetic::div_mod::lemma_div_multiples_vanish(1099511627776, SCALE as int);
            lemma_smul_bound(p1@, v@, 68719476736, 0x10_0000_0000);
            lemma_smul_nonneg(p1@, v@);
        }
        let p2 = p1.mul(v);
        proof {
            assert(p2@ == powt(v@, 2));
        }
        proof {
            assert(1099511627776int * 0x10_0000_0000int == 17592186044416int * 0x1_0000_0000int);
            vstd::arithmetic::div_mod::lemma_div_multiples_vanish(17592186044416, SCALE as int);
            lemma_smul_bound(p2@, v@, 1099511627776, 0x10_0000_0000);
            lemma_smul_nonneg(p2@, v@);
        }
        let p3 = p2.mul(v);
        proof {
            assert(p3@ == powt(v@, 3));
        }
        proof {
            assert(17592186044416int * 0x10_0000_0000int == 281474976710656int * 0x1_0000_0000int);
            vstd::arithmetic::div_mod::lemma_div_multiples_vanish(281474976710656, SCALE as int);
            lemma_smul_bound(p3@, v@, 17592186044416, 0x10_0000_0000);
            lemma_smul_nonneg(p3@, v@);
        }
        let p4 = p3.mul(v);
        proof {
            assert(p4@ == powt(v@, 4));
        }
        proof {
            assert(281474976710656int * 0x10_0000_0000int == 4503599627370496int * 0x1_0000_0000int);
            vstd::arithmetic::div_mod::lemma_div_multiples_vanish(4503599627370496, SCALE as int);
            lemma_smul_bound(p4@, v@, 281474976710656, 0x10_0000_0000);
            lemma_smul_nonneg(p4@, v@);
        }
        let p5 = p4.mul(v);
        proof {
            assert(p5@ == powt(v@, 5));
        }
        let y = root12(p5);
        proof {
            lemma_root12_unique(p5@, y@);
            assert(0x4_0000_0000int * 0x2_0000_0000int == 0x8_0000_0000int * 0x1_0000_0000int);
            vstd::arithmetic::div_mod::lemma_div_multiples_vanish(0x8_0000_0000, SCALE as int);
            lemma_smul_bound(y@, SRGB_GAIN_BITS as int, 0x4_0000_0000, 0x2_0000_0000);
        }
        y.mul(Scalar::from_bits(SRGB_GAIN_BITS)).sub(Scalar::from_bits(SRGB_OFFSET_BITS))
    }
}

/// The least of the three channels.
pub open spec fn min3(c: V3) -> int {
    if c.x <= c.y && c.x <= c.z {
        c.x
    } else if c.y <= c.z {
        c.y
    } else {
        c.z
    }
}

/// The greatest of the three channels.
pub open spec fn max3(c: V3) -> int {
    if c.x >= c.y && c.x >= c.z {
        c.x
    } else if c.y >= c.z {
        c.y
    } else {
        c.z
    }
}

/// The desaturation step: when any channel is negative, pull the color
/// toward white by adding the magnitude of the most negative channel to
/// all three, rather than clipping toward a hue-shifted result.
pub open spec fn desaturated(c: V3) -> V3 {
    let m = min3(c);
    if m < 0 {
        V3 { x: c.x - m, y: c.y - m, z: c.z - m }
    } else {
        c
    }
}

/// The rescale step: when any channel exceeds one, uniformly rescale all
/// three by the reciprocal of the greatest, preserving hue and relative
/// saturation rather than clamping each channel independently.
pub open spec fn rescaled(c: V3) -> V3 {
    let mx = max3(c);
    if mx > SCALE {
        V3 { x: sdiv(c.x, mx), y: sdiv(c.y, mx), z: sdiv(c.z, mx) }
    } else {
        c
    }
}

/// The two-step, order-dependent gamut correction: desaturate first,
/// then rescale. The order is load-bearing: reversing it produces
/// different results for colors that are both negative and over-bright.
pub open spec fn gamut_mapped(c: V3) -> V3 {
    rescaled(desaturated(c))
}

/// Whether the desaturation shift stays representable.
pub open spec fn gamut_ok(c: V3) -> bool {
    &&& in64(c.x - min3(c))
    &&& in64(c.y - min3(c))
    &&& in64(c.z - min3(c))
    &&& min3(c) != i64::MIN
}

/// A channel already in `[0, max]` divides to a value in `[0, SCALE]`
/// when the divisor is at least `SCALE`.
proof fn lemma_sdiv_within(a: int, b: int)
    requires
        0 <= a <= b,
        b >= SCALE,
    ensures
        0 <= sdiv(a, b) <= SCALE as int,
        in64(sdiv(a, b)),
{
    let s = SCALE as int;
    assert(a * s >= 0) by (nonlinear_arith)
        requires
            a >= 0,
            s > 0,
    ;
    assert(iabs(a * s) == a * s);
    assert(iabs(b) == b);
    assert(a * s <= b * s) by (nonlinear_arith)
        requires
            a <= b,
            s > 0,
    ;
    vstd::arithmetic::div_mod::lemma_div_is_ordered(a * s, b * s, b);
    assert((b * s) / b == s) by {
        vstd::arithmetic::div_mod::lemma_div_multiples_vanish(s, b);
        assert(b * s == s * b) by (nonlinear_arith);
    };
    vstd::arithmetic::div_mod::lemma_div_pos_is_pos(a * s, b);
}

impl RGB {
    /// Bring an out-of-range color into the displayable gamut: the
    /// desaturation step, then the rescale step. The result always has
    /// every channel in `[0, 1]`.
    pub fn map_gamut(self) -> (r: RGB)
        requires
            gamut_ok(self@),
        ensures
            r@ == gamut_mapped(self@),
            0 <= r@.x <= SCALE as int,
            0 <= r@.y <= SCALE as int,
            0 <= r@.z <= SCALE as int,
    {
        let v = self.to_vector();
        let zero = Scalar::zero();
        let m = v.min_component();
        let d = if m.lt(zero) {
            v.add(Vector::splat(m.neg()))
        } else {
            v
        };
        let one = Scalar::one();
        let mx = d.max_component();
        let out = if one.lt(mx) {
            proof {
                lemma_sdiv_within(d@.x, mx@);
                lemma_sdiv_within(d@.y, mx@);
                lemma_sdiv_within(d@.z, mx@);
            }
            d.div(mx)
        } else {
            d
        };
        Color { vals: out, _colorspace: PhantomData }
    }
}

/// A color already inside `[0, 1]` per channel is unchanged by the
/// desaturate/rescale gamut correction.
pub proof fn lemma_gamut_mapped_identity(c: V3)
    requires
        0 <= c.x <= SCALE as int,
        0 <= c.y <= SCALE as int,
        0 <= c.z <= SCALE as int,
    ensures
        gamut_mapped(c) == c,
{
}

/// Desaturation preserves the relative differences between channels —
/// the hue — and leaves every channel non-negative.
pub proof fn lemma_desaturated_preserves_differences(c: V3)
    ensures
        desaturated(c).x - desaturated(c).y == c.x - c.y,
        desaturated(c).y - desaturated(c).z == c.y - c.z,
        desaturated(c).x - desaturated(c).z == c.x - c.z,
        desaturated(c).x >= 0,
        desaturated(c).y >= 0,
        desaturated(c).z >= 0,
{
}

/// An 8-bit channel: the unit interval scaled to 255 and truncated.
pub open spec fn quantized(v: int) -> int {
    (255 * v) / (SCALE as int)
}

impl RGB {
    /// Convert linear RGB to an 8-bit sRGB triple: gamma-encode each
    /// channel, bring the result into gamut — desaturate, then rescale —
    /// and scale the unit interval to `0..=255`.
    pub fn to_srgb(&self) -> (r: [u8; 3])
        requires
            iabs(self@.x) <= GAMMA_IN_LIMIT,
            iabs(self@.y) <= GAMMA_IN_LIMIT,
            iabs(self@.z) <= GAMMA_IN_LIMIT,
        ensures
            ({
                let g = V3 {
                    x: gamma_spec(self@.x),
                    y: gamma_spec(self@.y),
                    z: gamma_spec(self@.z),
                };
                let m = gamut_mapped(g);
                r@[0] == quantized(m.x) && r@[1] == quantized(m.y) && r@[2] == quantized(m.z)
            }),
    {
        let v = self.to_vector();
        let gx = gamma_encode(v.x);
        let gy = gamma_encode(v.y);
        let gz = gamma_encode(v.z);
        let g: RGB = Color::from_channels(gx, gy, gz);
        let m = g.map_gamut();
        let mv = m.to_vector();
        let qx = Self::quantize(mv.x);
        let qy = Self::quantize(mv.y);
        let qz = Self::quantize(mv.z);
        [qx, qy, qz]
    }

    /// One channel of [`Self::to_srgb`]'s final scaling: a unit-interval
    /// value to `0..=255`.
    fn quantize(v: Scalar) -> (r: u8)
        requires
            0 <= v@ <= SCALE as int,
        ensures
            r == quantized(v@),
    {
        proof {
            crate::scalar::lemma_smul_int(v@, 255);
            assert(v@ * 255 == 255 * v@) by (nonlinear_arith);
            assert(255 * v@ <= 255 * (SCALE as int)) by (nonlinear_arith)
                requires
                    v@ <= SCALE as int,
            ;
            assert(255 * v@ >= 0) by (nonlinear_arith)
                requires
                    v@ >= 0,
            ;
            vstd::arithmetic::div_mod::lemma_div_is_ordered(
                255 * v@,
                255 * (SCALE as int),
                SCALE as int,
            );
            vstd::arithmetic::div_mod::lemma_div_multiples_vanish(255, SCALE as int);
            assert(255 * (SCALE as int) == (SCALE as int) * 255) by (nonlinear_arith);
            vstd::arithmetic::div_mod::lemma_div_pos_is_pos(255 * v@, SCALE as int);
        }
        let scaled = v.mul(Scalar::from_int(255));
        let q = (scaled.bits as u64) / (SCALE as u64);
        q as u8
    }
}

} // verus!
