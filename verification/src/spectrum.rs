//! # Spectrum module.
//!
//! A spectral distribution is a quantity that is a function of
//! wavelength: reflectance, refractive index, radiance. The core data
//! type is [`Sampled`], a spectrum defined at fixed, uniformly spaced
//! sample wavelengths covering the human-visible range 380-780nm in 5nm
//! buckets. Each value stands for the (conceptual) average of the
//! underlying continuous function over its bucket.
//!
//! Riemann integration of two sampled spectra against each other is
//! provided by [`integrate`]; it is the mechanism by which a radiance
//! spectrum is projected against the CIE color-matching curves.
//!
//! Of the analytic spectra, the Sellmeier dispersion relation is rational
//! and lives here as [`sellmeier`]. The blackbody and Gaussian spectra
//! need the exponential function, which has no place in the exact
//! fixed-point kernel; their evaluation belongs to the surrounding
//! program, which can hand the sampled values to [`Sampled::new`].

use vstd::prelude::*;

use crate::scalar::{iabs, in64, lemma_smul_bound, lemma_smul_int, sdiv, smul, Scalar, SCALE};

verus! {

/// The number of wavelength buckets.
pub const SAMPLE_COUNT: usize = 80;

/// The first sampled wavelength, in fixed-point nanometers.
pub const WAVELENGTH_MIN_BITS: i64 = 380 * SCALE;

/// One past the last sampled wavelength, in fixed-point nanometers.
pub const WAVELENGTH_MAX_BITS: i64 = 780 * SCALE;

/// The bucket width, in fixed-point nanometers.
pub const STEP_BITS: i64 = 5 * SCALE;

/// The magnitude cap on sample values accepted by [`integrate`], chosen
/// so that an 80-term sum of products stays representable.
pub const VALUE_LIMIT: i64 = 0x800_0000_0000;

/// The wavelength at which bucket `i` starts: `380 + 5 * i` nanometers.
pub open spec fn bucket_wavelength(i: int) -> int {
    (380 + 5 * i) * (SCALE as int)
}

/// The Riemann dot product of the first `n` buckets: the running sum of
/// the truncated products of corresponding samples.
pub open spec fn dot_prefix(f: Seq<int>, g: Seq<int>, n: int) -> int
    decreases n,
{
    if n <= 0 {
        0
    } else {
        dot_prefix(f, g, n - 1) + smul(f[n - 1], g[n - 1])
    }
}

/// A spectrum with values defined at the fixed sample wavelengths.
///
/// The sample wavelengths are uniform compile-time constants, which keeps
/// linear operations and Riemann summation to straightforward iteration.
#[derive(Debug, Clone, PartialEq, Eq)]
pub struct Sampled {
    values: Vec<Scalar>,
}

impl View for Sampled {
    type V = Seq<int>;

    closed spec fn view(&self) -> Seq<int> {
        self.values@.map_values(|s: Scalar| s@)
    }
}

impl Sampled {
    /// The shape invariant: one value per wavelength bucket.
    pub open spec fn wf(&self) -> bool {
        self@.len() == SAMPLE_COUNT
    }

    /// Creates a new sampled spectrum with the given values, one per
    /// bucket.
    pub fn new(values: Vec<Scalar>) -> (r: Sampled)
        requires
            values@.len() == SAMPLE_COUNT,
        ensures
            r.wf(),
            r@ == values@.map_values(|s: Scalar| s@),
    {
        Sampled { values }
    }

    /// Creates a new sampled spectrum with all values equal.
    pub fn splat(value: Scalar) -> (r: Sampled)
        ensures
            r.wf(),
            forall|i: int| 0 <= i < SAMPLE_COUNT ==> r@[i] == value@,
    {
        let mut values: Vec<Scalar> = Vec::new();
        let mut i: usize = 0;
        while i < SAMPLE_COUNT
            invariant
                i <= SAMPLE_COUNT,
                values@.len() == i,
                forall|k: int| 0 <= k < i ==> values@[k]@ == value@,
            decreases SAMPLE_COUNT - i,
        {
            values.push(value);
            i += 1;
        }
        Sampled { values }
    }

    /// The value of bucket `i`.
    pub fn get(&self, i: usize) -> (r: Scalar)
        requires
            self.wf(),
            i < SAMPLE_COUNT,
        ensures
            r@ == self@[i as int],
    {
        self.values[i]
    }

    /// Replace the value of bucket `i`.
    pub fn set(&mut self, i: usize, value: Scalar)
        requires
            old(self).wf(),
            i < SAMPLE_COUNT,
        ensures
            final(self).wf(),
            final(self)@ == old(self)@.update(i as int, value@),
    {
        self.values.set(i, value);
        proof {
            assert(self@ =~= old(self)@.update(i as int, value@));
        }
    }

    /// The wavelength at which bucket `i` starts.
    pub fn wavelength(i: usize) -> (r: Scalar)
        requires
            i < SAMPLE_COUNT,
        ensures
            r@ == bucket_wavelength(i as int),
    {
        Scalar::from_bits(WAVELENGTH_MIN_BITS + (i as i64) * STEP_BITS)
    }

    /// Element-wise sum of two spectra.
    pub fn add(&self, rhs: &Sampled) -> (r: Sampled)
        requires
            self.wf(),
            rhs.wf(),
            forall|i: int| 0 <= i < SAMPLE_COUNT ==> in64(#[trigger] self@[i] + rhs@[i]),
        ensures
            r.wf(),
            forall|i: int| 0 <= i < SAMPLE_COUNT ==> r@[i] == self@[i] + rhs@[i],
    {
        let mut values: Vec<Scalar> = Vec::new();
        let mut i: usize = 0;
        while i < SAMPLE_COUNT
            invariant
                self.wf(),
                rhs.wf(),
                forall|k: int| 0 <= k < SAMPLE_COUNT ==> in64(#[trigger] self@[k] + rhs@[k]),
                i <= SAMPLE_COUNT,
                values@.len() == i,
                forall|k: int| 0 <= k < i ==> values@[k]@ == self@[k] + rhs@[k],
            decreases SAMPLE_COUNT - i,
        {
            proof {
                assert(self@[i as int] == self.values@[i as int]@);
                assert(rhs@[i as int] == rhs.values@[i as int]@);
            }
            values.push(self.values[i].add(rhs.values[i]));
            i += 1;
        }
        Sampled { values }
    }

    /// Every value scaled by `rhs`, truncated per bucket.
    pub fn mul(&self, rhs: Scalar) -> (r: Sampled)
        requires
            self.wf(),
            forall|i: int| 0 <= i < SAMPLE_COUNT ==> in64(smul(#[trigger] self@[i], rhs@)),
        ensures
            r.wf(),
            forall|i: int| 0 <= i < SAMPLE_COUNT ==> r@[i] == smul(self@[i], rhs@),
    {
        let mut values: Vec<Scalar> = Vec::new();
        let mut i: usize = 0;
        while i < SAMPLE_COUNT
            invariant
                self.wf(),
                forall|k: int| 0 <= k < SAMPLE_COUNT ==> in64(smul(#[trigger] self@[k], rhs@)),
                i <= SAMPLE_COUNT,
                values@.len() == i,
                forall|k: int| 0 <= k < i ==> values@[k]@ == smul(self@[k], rhs@),
            decreases SAMPLE_COUNT - i,
        {
            proof {
                assert(self@[i as int] == self.values@[i as int]@);
            }
            values.push(self.values[i].mul(rhs));
            i += 1;
        }
        Sampled { values }
    }
}

impl Default for Sampled {
    /// Creates a default spectrum that is 0-valued everywhere.
    fn default() -> (r: Sampled)
        ensures
            r.wf(),
            forall|i: int| 0 <= i < SAMPLE_COUNT ==> r@[i] == 0,
    {
        Sampled::splat(Scalar::zero())
    }
}

/// Riemann integration of `f` against `g`: the bucket width times the
/// sum over all buckets of the product of corresponding samples. Valid
/// as an integral approximation because both operands share identical,
/// fixed sample wavelengths.
pub fn integrate(f: &Sampled, g: &Sampled) -> (r: Scalar)
    requires
        f.wf(),
        g.wf(),
        forall|i: int| 0 <= i < SAMPLE_COUNT ==> iabs(#[trigger] f@[i]) <= VALUE_LIMIT,
        forall|i: int| 0 <= i < SAMPLE_COUNT ==> iabs(#[trigger] g@[i]) <= VALUE_LIMIT,
    ensures
        r@ == smul(dot_prefix(f@, g@, SAMPLE_COUNT as int), STEP_BITS as int),
{
    let ghost term_bound: int = 0x40_0000_0000_0000;
    proof {
        assert(0x800_0000_0000int * 0x800_0000_0000int == 0x40_0000_0000_0000_0000_0000int);
        assert(0x1_0000_0000int * 0x40_0000_0000_0000int == 0x40_0000_0000_0000_0000_0000int);
        vstd::arithmetic::div_mod::lemma_div_multiples_vanish(term_bound, SCALE as int);
    }
    let mut acc = Scalar::zero();
    let mut i: usize = 0;
    while i < SAMPLE_COUNT
        invariant
            f.wf(),
            g.wf(),
            forall|k: int| 0 <= k < SAMPLE_COUNT ==> iabs(#[trigger] f@[k]) <= VALUE_LIMIT,
            forall|k: int| 0 <= k < SAMPLE_COUNT ==> iabs(#[trigger] g@[k]) <= VALUE_LIMIT,
            i <= SAMPLE_COUNT,
            acc@ == dot_prefix(f@, g@, i as int),
            iabs(acc@) <= i * term_bound,
            term_bound == 0x40_0000_0000_0000,
            ((VALUE_LIMIT as int) * (VALUE_LIMIT as int)) / (SCALE as int) == term_bound,
        decreases SAMPLE_COUNT - i,
    {
        proof {
            lemma_smul_bound(f@[i as int], g@[i as int], VALUE_LIMIT as int, VALUE_LIMIT as int);
        }
        proof {
            assert(f@[i as int] == f.values@[i as int]@);
            assert(g@[i as int] == g.values@[i as int]@);
        }
        let p = f.values[i].mul(g.values[i]);
        acc = acc.add(p);
        i += 1;
    }
    proof {
        lemma_smul_int(acc@, 5);
        assert(5 * (SCALE as int) == STEP_BITS as int);
    }
    acc.mul(Scalar::from_bits(STEP_BITS))
}

/// Integrating the unit spectrum against itself over the full visible
/// range yields exactly the width of that range: every bucket
/// contributes one times one times the bucket width. Together with the
/// contract of [`integrate`], the integral of `splat(1)` against itself
/// is the count representing 400 nanometers.
pub proof fn lemma_unit_spectrum_integral(f: Seq<int>, g: Seq<int>)
    requires
        forall|i: int| 0 <= i < SAMPLE_COUNT ==> #[trigger] f[i] == SCALE as int,
        forall|i: int| 0 <= i < SAMPLE_COUNT ==> #[trigger] g[i] == SCALE as int,
    ensures
        smul(dot_prefix(f, g, SAMPLE_COUNT as int), STEP_BITS as int) == 400 * (SCALE as int),
{
    lemma_ones_dot_prefix(f, g, SAMPLE_COUNT as int);
    lemma_smul_int(80 * (SCALE as int), 5);
    assert((80 * (SCALE as int)) * 5 == 400 * (SCALE as int)) by (nonlinear_arith);
}

/// The running Riemann sum of two unit spectra grows by one unit per
/// bucket.
proof fn lemma_ones_dot_prefix(f: Seq<int>, g: Seq<int>, n: int)
    requires
        0 <= n <= SAMPLE_COUNT,
        forall|i: int| 0 <= i < SAMPLE_COUNT ==> #[trigger] f[i] == SCALE as int,
        forall|i: int| 0 <= i < SAMPLE_COUNT ==> #[trigger] g[i] == SCALE as int,
    ensures
        dot_prefix(f, g, n) == n * (SCALE as int),
    decreases n,
{
    if n > 0 {
        lemma_ones_dot_prefix(f, g, n - 1);
        crate::scalar::lemma_tdiv_multiple(SCALE as int, SCALE as int);
        assert((SCALE as int) * (SCALE as int) == (SCALE as int) * (SCALE as int));
        assert(smul(f[n - 1], g[n - 1]) == SCALE as int);
        assert((n - 1) * (SCALE as int) + SCALE as int == n * (SCALE as int)) by (nonlinear_arith);
    } else {
        assert(n * (SCALE as int) == 0) by (nonlinear_arith)
            requires
                n == 0,
        ;
    }
}

/// Whether evaluating the Sellmeier relation stays representable and
/// off resonance: every intermediate value fits and no denominator is
/// zero. Under this condition [`sellmeier`] succeeds.
pub open spec fn sellmeier_ok(b0: int, b1: int, b2: int, c0: int, c1: int, c2: int, wl: int) -> bool {
    let w = smul(wl, (SCALE as int) / 1000);
    let w2 = smul(w, w);
    let t0 = sdiv(smul(b0, w2), w2 - c0);
    let t1 = sdiv(smul(b1, w2), w2 - c1);
    let t2 = sdiv(smul(b2, w2), w2 - c2);
    &&& in64(w)
    &&& in64(w2)
    &&& in64(smul(b0, w2))
    &&& in64(w2 - c0)
    &&& w2 - c0 != 0
    &&& in64(t0)
    &&& in64(smul(b1, w2))
    &&& in64(w2 - c1)
    &&& w2 - c1 != 0
    &&& in64(t1)
    &&& in64(smul(b2, w2))
    &&& in64(w2 - c2)
    &&& w2 - c2 != 0
    &&& in64(t2)
    &&& in64(t0 + t1)
    &&& in64(t0 + t1 + t2)
    &&& in64((SCALE as int) + t0 + t1 + t2)
}

/// The refractive index of a medium by the Sellmeier dispersion
/// relation: `n = 1 + sum of b[i] * w^2 / (w^2 - c[i])`, with `w` the
/// wavelength converted from nanometers to micrometers. `None` when a
/// denominator is zero — the wavelength sits on a resonance — or when a
/// value leaves the representation; succeeds whenever [`sellmeier_ok`]
/// holds.
pub fn sellmeier(bs: &[Scalar; 3], cs: &[Scalar; 3], wavelength: Scalar) -> (r: Option<Scalar>)
    ensures
        sellmeier_ok(bs@[0]@, bs@[1]@, bs@[2]@, cs@[0]@, cs@[1]@, cs@[2]@, wavelength@) ==> r
            is Some,
        (r matches Some(n) ==> ({
            let w = smul(wavelength@, (SCALE as int) / 1000);
            let w2 = smul(w, w);
            let t0 = sdiv(smul(bs@[0]@, w2), w2 - cs@[0]@);
            let t1 = sdiv(smul(bs@[1]@, w2), w2 - cs@[1]@);
            let t2 = sdiv(smul(bs@[2]@, w2), w2 - cs@[2]@);
            &&& w2 - cs@[0]@ != 0
            &&& w2 - cs@[1]@ != 0
            &&& w2 - cs@[2]@ != 0
            &&& n@ == (SCALE as int) + t0 + t1 + t2
        })),
{
    let w = match wavelength.checked_mul(Scalar::from_bits(SCALE / 1000)) {
        Some(v) => v,
        None => { return None; },
    };
    let w2 = match w.checked_mul(w) {
        Some(v) => v,
        None => { return None; },
    };
    let one = Scalar::one();
    let num0 = match bs[0].checked_mul(w2) {
        Some(v) => v,
        None => { return None; },
    };
    let den0 = match w2.checked_sub(cs[0]) {
        Some(v) => v,
        None => { return None; },
    };
    let t0 = match num0.checked_div(den0) {
        Some(v) => v,
        None => { return None; },
    };
    let num1 = match bs[1].checked_mul(w2) {
        Some(v) => v,
        None => { return None; },
    };
    let den1 = match w2.checked_sub(cs[1]) {
        Some(v) => v,
        None => { return None; },
    };
    let t1 = match num1.checked_div(den1) {
        Some(v) => v,
        None => { return None; },
    };
    let num2 = match bs[2].checked_mul(w2) {
        Some(v) => v,
        None => { return None; },
    };
    let den2 = match w2.checked_sub(cs[2]) {
        Some(v) => v,
        None => { return None; },
    };
    let t2 = match num2.checked_div(den2) {
        Some(v) => v,
        None => { return None; },
    };
    let s01 = match t0.checked_add(t1) {
        Some(v) => v,
        None => { return None; },
    };
    let s012 = match s01.checked_add(t2) {
        Some(v) => v,
        None => { return None; },
    };
    match one.checked_add(s012) {
        Some(v) => Some(v),
        None => None,
    }
}

} // verus!
