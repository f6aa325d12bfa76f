use vstd::prelude::*;

verus! {

/// Shortest wavelength of the visible band, in nanometres.
pub const VISIBLE_LOWER_NM: u32 = 380;

/// Longest wavelength of the visible band, in nanometres.
pub const VISIBLE_UPPER_NM: u32 = 780;

/// Number of samples taken over the visible band, one per nanometre, both ends included.
pub const SAMPLE_COUNT: usize = 401;

/// The wavelength, in nanometres, of the `i`-th integration sample.
pub open spec fn sample_nm(i: int) -> int {
    VISIBLE_LOWER_NM + i
}

/// Integration of a spectrum over the visible band.
pub struct Spectrum {}

impl Spectrum {
    /// The wavelengths at which a spectrum is sampled for the rectangle rule:
    /// every whole nanometre from the lower to the upper end of the visible band.
    pub fn wavelengths_nm() -> (r: Vec<u32>)
        ensures
            r@.len() == SAMPLE_COUNT,
            forall|i: int| 0 <= i < r@.len() ==> #[trigger] r@[i] == sample_nm(i),
            r@[0] == VISIBLE_LOWER_NM,
            r@[SAMPLE_COUNT - 1] == VISIBLE_UPPER_NM,
    {
        let mut r: Vec<u32> = Vec::new();
        let mut nm: u32 = VISIBLE_LOWER_NM;
        while nm <= VISIBLE_UPPER_NM
            invariant
                VISIBLE_LOWER_NM <= nm <= VISIBLE_UPPER_NM + 1,
                r@.len() == nm - VISIBLE_LOWER_NM,
                forall|i: int| 0 <= i < r@.len() ==> r@[i] == sample_nm(i),
            decreases VISIBLE_UPPER_NM + 1 - nm,
        {
            r.push(nm);
            nm = nm + 1;
        }
        assert(r@[0] == sample_nm(0));
        assert(r@[SAMPLE_COUNT - 1] == sample_nm(SAMPLE_COUNT - 1));
        r
    }
}

/// One lobe of a segmented Gaussian in exact decimal fixed point: the weight in
/// thousandths, the mean and the two standard deviations in tenths of a
/// nanometre. Below the mean the curve falls off with `sigma_below_dnm`, from
/// the mean upward with `sigma_above_dnm`.
#[derive(Clone, Copy, Debug, PartialEq, Eq, Structural)]
pub struct Lobe {
    pub weight_milli: i32,
    pub mean_dnm: u32,
    pub sigma_below_dnm: u32,
    pub sigma_above_dnm: u32,
}

pub open spec fn lobe(weight_milli: i32, mean_dnm: u32, sigma_below_dnm: u32, sigma_above_dnm: u32) -> Lobe {
    Lobe { weight_milli, mean_dnm, sigma_below_dnm, sigma_above_dnm }
}

impl Lobe {
    /// The standard deviation that governs the lobe at `wavelength_dnm`.
    pub open spec fn width_at_spec(self, wavelength_dnm: int) -> u32 {
        if wavelength_dnm < self.mean_dnm {
            self.sigma_below_dnm
        } else {
            self.sigma_above_dnm
        }
    }

    /// The standard deviation on the side of the mean where `wavelength_dnm`
    /// (in tenths of a nanometre) lies.
    pub fn width_at(&self, wavelength_dnm: u32) -> (r: u32)
        ensures
            r == self.width_at_spec(wavelength_dnm as int),
    {
        if wavelength_dnm < self.mean_dnm {
            self.sigma_below_dnm
        } else {
            self.sigma_above_dnm
        }
    }
}

/// The lobes of the x-bar matching curve.
pub open spec fn x_bar() -> Seq<Lobe> {
    seq![lobe(1056, 5998, 379, 310), lobe(362, 4420, 160, 267), lobe(-65i32, 5011, 204, 262)]
}

/// The lobes of the y-bar matching curve.
pub open spec fn y_bar() -> Seq<Lobe> {
    seq![lobe(821, 5688, 469, 405), lobe(286, 5309, 163, 311)]
}

/// The lobes of the z-bar matching curve.
pub open spec fn z_bar() -> Seq<Lobe> {
    seq![lobe(1217, 4370, 118, 360), lobe(681, 4590, 260, 138)]
}

/// Approximations of the CIE 1931 standard-observer matching curves, each a
/// weighted sum of segmented Gaussian lobes.
pub struct ColorFunction {}

impl ColorFunction {
    pub fn x_lobes() -> (r: Vec<Lobe>)
        ensures
            r@ == x_bar(),
    {
        let r = vec![
            Lobe { weight_milli: 1056, mean_dnm: 5998, sigma_below_dnm: 379, sigma_above_dnm: 310 },
            Lobe { weight_milli: 362, mean_dnm: 4420, sigma_below_dnm: 160, sigma_above_dnm: 267 },
            Lobe { weight_milli: -65, mean_dnm: 5011, sigma_below_dnm: 204, sigma_above_dnm: 262 },
        ];
        assert(r@ =~= x_bar());
        r
    }

    pub fn y_lobes() -> (r: Vec<Lobe>)
        ensures
            r@ == y_bar(),
    {
        let r = vec![
            Lobe { weight_milli: 821, mean_dnm: 5688, sigma_below_dnm: 469, sigma_above_dnm: 405 },
            Lobe { weight_milli: 286, mean_dnm: 5309, sigma_below_dnm: 163, sigma_above_dnm: 311 },
        ];
        assert(r@ =~= y_bar());
        r
    }

    pub fn z_lobes() -> (r: Vec<Lobe>)
        ensures
            r@ == z_bar(),
    {
        let r = vec![
            Lobe { weight_milli: 1217, mean_dnm: 4370, sigma_below_dnm: 118, sigma_above_dnm: 360 },
            Lobe { weight_milli: 681, mean_dnm: 4590, sigma_below_dnm: 260, sigma_above_dnm: 138 },
        ];
        assert(r@ =~= z_bar());
        r
    }
}

} // verus!
