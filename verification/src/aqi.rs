//! EPA Air Quality Index for PM2.5.
//!
//! Concentrations are fixed-point numbers in tenths of a microgram per cubic
//! metre, the resolution of the EPA breakpoint table: `354` stands for
//! 35.4 µg/m³. On that grid the six bands of the table touch without gaps, and
//! the interpolation is exact integer arithmetic.

use vstd::prelude::*;

verus! {

/// One band of the breakpoint table: a range of concentrations, in tenths of
/// µg/m³, and the range of AQI values that it maps onto. Both ranges include
/// their ends.
#[derive(Debug, Clone, Copy, PartialEq, Eq, Structural)]
pub struct Breakpoint {
    /// Lowest concentration of the band.
    pub conc_low: u32,
    /// Highest concentration of the band.
    pub conc_high: u32,
    /// AQI at `conc_low`.
    pub index_low: u16,
    /// AQI at `conc_high`.
    pub index_high: u16,
}

/// Number of bands in the breakpoint table.
pub const BAND_COUNT: usize = 6;

/// AQI reported for a concentration that no band contains.
pub const AQI_MAX: u16 = 500;

/// The PM2.5 breakpoints that the EPA published in 2024, in increasing order
/// of concentration.
pub open spec fn breakpoint_table() -> Seq<Breakpoint> {
    seq![
        Breakpoint { conc_low: 0, conc_high: 90, index_low: 0, index_high: 50 },
        Breakpoint { conc_low: 91, conc_high: 354, index_low: 51, index_high: 100 },
        Breakpoint { conc_low: 355, conc_high: 554, index_low: 101, index_high: 150 },
        Breakpoint { conc_low: 555, conc_high: 1254, index_low: 151, index_high: 200 },
        Breakpoint { conc_low: 1255, conc_high: 2254, index_low: 201, index_high: 300 },
        Breakpoint { conc_low: 2255, conc_high: 5000, index_low: 301, index_high: 500 },
    ]
}

/// The integer nearest to `num / den`, a tie going to the larger one. For a
/// non-negative ratio that is rounding half away from zero.
pub open spec fn round_ratio(num: int, den: int) -> int {
    (2 * num + den) / (2 * den)
}

impl Breakpoint {
    /// A band that `interpolate` can work on: both ranges are in order, the
    /// concentration range is not a single point, and the products formed
    /// during interpolation fit in 32 bits.
    pub open spec fn well_formed(self) -> bool {
        &&& self.conc_low < self.conc_high
        &&& self.conc_high <= 100_000
        &&& self.index_low <= self.index_high
        &&& self.index_high <= AQI_MAX
    }

    /// Whether the band contains the concentration `c`.
    pub open spec fn contains(self, c: int) -> bool {
        self.conc_low <= c <= self.conc_high
    }

    /// The AQI on the straight line through the band's two end points, at
    /// concentration `c`, rounded to the nearest integer.
    pub open spec fn interpolation(self, c: int) -> int {
        self.index_low + round_ratio(
            (self.index_high - self.index_low) * (c - self.conc_low),
            self.conc_high - self.conc_low,
        )
    }

    /// Interpolates the AQI for a concentration inside the band.
    pub fn interpolate(&self, pm25_tenths: u32) -> (aqi: u16)
        requires
            self.well_formed(),
            self.contains(pm25_tenths as int),
        ensures
            aqi as int == self.interpolation(pm25_tenths as int),
            self.index_low <= aqi <= self.index_high,
    {
        let span: u32 = (self.index_high - self.index_low) as u32;
        let offset: u32 = pm25_tenths - self.conc_low;
        let width: u32 = self.conc_high - self.conc_low;
        proof {
            lemma_scaled_product_bounds(span as int, offset as int, width as int);
        }
        let num: u32 = span * offset;
        let steps: u32 = (2 * num + width) / (2 * width);
        self.index_low + steps as u16
    }
}

/// For `0 <= offset <= width`, the product `span * offset` lies between `0`
/// and `span * width`, and rounding `span * offset / width` gives at most `span`.
proof fn lemma_scaled_product_bounds(span: int, offset: int, width: int)
    requires
        0 <= span <= 500,
        0 <= offset <= width,
        0 < width <= 100_000,
    ensures
        0 <= span * offset <= span * width <= 50_000_000,
        0 <= round_ratio(span * offset, width) <= span,
{
    assert(0 <= span * offset <= span * width <= 50_000_000) by (nonlinear_arith)
        requires
            0 <= span <= 500,
            0 <= offset <= width,
            0 < width <= 100_000,
    ;
    let num = span * offset;
    assert(0 <= (2 * num + width) / (2 * width) <= span) by (nonlinear_arith)
        requires
            0 <= num <= span * width,
            0 < width,
            0 <= span,
    ;
}

/// Index of the first band, at or after position `from`, that contains the
/// concentration `c`.
pub open spec fn first_band(c: int, from: int) -> Option<int>
    decreases BAND_COUNT - from,
{
    if from < 0 || from >= BAND_COUNT {
        None
    } else if breakpoint_table()[from].contains(c) {
        Some(from)
    } else {
        first_band(c, from + 1)
    }
}

/// The AQI of a PM2.5 concentration `c`, in tenths of µg/m³: the
/// interpolation within the first band of the table that contains `c`, and
/// `AQI_MAX` where none does.
pub open spec fn aqi_of(c: int) -> int {
    match first_band(c, 0) {
        Some(k) => breakpoint_table()[k].interpolation(c),
        None => AQI_MAX as int,
    }
}

/// `round_ratio(num, den)` is the integer nearest to the fraction
/// `num / den`: it differs from it by at most one half, and where two
/// integers are equally near it is the larger one.
pub proof fn law_round_ratio_is_nearest(num: int, den: int)
    requires
        den > 0,
    ensures
        2 * den * round_ratio(num, den) - den <= 2 * num < 2 * den * round_ratio(num, den) + den,
{
    let r = round_ratio(num, den);
    assert(2 * den * r <= 2 * num + den < 2 * den * r + 2 * den) by (nonlinear_arith)
        requires
            den > 0,
            r == (2 * num + den) / (2 * den),
    ;
}

/// Each band of the table is well formed, the first band starts at
/// concentration 0 and AQI 0, the last one ends at AQI `AQI_MAX`, and each
/// band starts one tenth and one AQI point above the end of the band before
/// it: the bands cover their whole range without gap or overlap.
pub proof fn law_table_is_contiguous(k: int)
    requires
        0 <= k < BAND_COUNT,
    ensures
        breakpoint_table().len() == BAND_COUNT,
        breakpoint_table()[k].well_formed(),
        breakpoint_table()[0].conc_low == 0,
        breakpoint_table()[0].index_low == 0,
        breakpoint_table()[BAND_COUNT - 1].index_high == AQI_MAX,
        k + 1 < BAND_COUNT ==> {
            &&& breakpoint_table()[k + 1].conc_low == breakpoint_table()[k].conc_high + 1
            &&& breakpoint_table()[k + 1].index_low == breakpoint_table()[k].index_high + 1
        },
{
}

/// Every concentration from 0 up to the end of the last band lies in
/// exactly one band, and that is the band which the scan finds; a
/// concentration outside that range lies in none.
pub proof fn law_band_is_unique(c: int)
    ensures
        match first_band(c, 0) {
            Some(k) => {
                &&& 0 <= k < BAND_COUNT
                &&& breakpoint_table()[k].contains(c)
                &&& forall|j: int|
                    0 <= j < BAND_COUNT && j != k ==> !(#[trigger] breakpoint_table()[j]).contains(c)
            },
            None => forall|j: int|
                0 <= j < BAND_COUNT ==> !(#[trigger] breakpoint_table()[j]).contains(c),
        },
        first_band(c, 0) is Some <==> 0 <= c <= breakpoint_table()[BAND_COUNT - 1].conc_high,
{
    reveal_with_fuel(first_band, 7);
}

/// The interpolation of a band whose four numbers are known, as one
/// quotient over those numbers.
proof fn lemma_interpolation_of(band: Breakpoint, c: int, lo: int, hi: int, il: int, ih: int)
    requires
        band.conc_low == lo,
        band.conc_high == hi,
        band.index_low == il,
        band.index_high == ih,
        lo < hi,
    ensures
        band.interpolation(c) == il + (2 * (ih - il) * (c - lo) + (hi - lo)) / (2 * (hi - lo)),
{
    let num = (band.index_high - band.index_low) * (c - band.conc_low);
    let den = band.conc_high - band.conc_low;
    assert(2 * num == 2 * (ih - il) * (c - lo)) by (nonlinear_arith)
        requires
            num == (ih - il) * (c - lo),
    ;
    assert(band.interpolation(c) == il + round_ratio(num, den));
}

/// The AQI written out band by band, each band with the numbers of the
/// table in it: the quotient is the band's slope times the distance from the
/// band's start, rounded to the nearest integer.
pub proof fn law_aqi_by_band(c: int)
    ensures
        c < 0 ==> aqi_of(c) == 500,
        0 <= c <= 90 ==> aqi_of(c) == (100 * c + 90) / 180,
        91 <= c <= 354 ==> aqi_of(c) == 51 + (98 * (c - 91) + 263) / 526,
        355 <= c <= 554 ==> aqi_of(c) == 101 + (98 * (c - 355) + 199) / 398,
        555 <= c <= 1254 ==> aqi_of(c) == 151 + (98 * (c - 555) + 699) / 1398,
        1255 <= c <= 2254 ==> aqi_of(c) == 201 + (198 * (c - 1255) + 999) / 1998,
        2255 <= c <= 5000 ==> aqi_of(c) == 301 + (398 * (c - 2255) + 2745) / 5490,
        5000 < c ==> aqi_of(c) == 500,
{
    reveal_with_fuel(first_band, 7);
    let t = breakpoint_table();
    if 0 <= c <= 90 {
        assert(first_band(c, 0) == Some(0int));
        lemma_interpolation_of(t[0], c, 0, 90, 0, 50);
    } else if 91 <= c <= 354 {
        assert(first_band(c, 0) == Some(1int));
        lemma_interpolation_of(t[1], c, 91, 354, 51, 100);
    } else if 355 <= c <= 554 {
        assert(first_band(c, 0) == Some(2int));
        lemma_interpolation_of(t[2], c, 355, 554, 101, 150);
    } else if 555 <= c <= 1254 {
        assert(first_band(c, 0) == Some(3int));
        lemma_interpolation_of(t[3], c, 555, 1254, 151, 200);
    } else if 1255 <= c <= 2254 {
        assert(first_band(c, 0) == Some(4int));
        lemma_interpolation_of(t[4], c, 1255, 2254, 201, 300);
    } else if 2255 <= c <= 5000 {
        assert(first_band(c, 0) == Some(5int));
        lemma_interpolation_of(t[5], c, 2255, 5000, 301, 500);
    } else {
        assert(first_band(c, 0) is None);
    }
}

/// At the two ends of a band the AQI is exactly the band's lowest and
/// highest index.
pub proof fn law_aqi_at_band_ends(k: int)
    requires
        0 <= k < BAND_COUNT,
    ensures
        aqi_of(breakpoint_table()[k].conc_low as int) == breakpoint_table()[k].index_low,
        aqi_of(breakpoint_table()[k].conc_high as int) == breakpoint_table()[k].index_high,
{
    law_aqi_by_band(breakpoint_table()[k].conc_low as int);
    law_aqi_by_band(breakpoint_table()[k].conc_high as int);
}

/// Crossing from the end of one band to the start of the next, one tenth
/// higher, raises the AQI by exactly one.
pub proof fn law_aqi_steps_by_one_between_bands(k: int)
    requires
        0 <= k < BAND_COUNT - 1,
    ensures
        aqi_of(breakpoint_table()[k].conc_high + 1) == aqi_of(breakpoint_table()[k].conc_high as int)
            + 1,
{
    law_aqi_by_band(breakpoint_table()[k].conc_high as int);
    law_aqi_by_band(breakpoint_table()[k].conc_high + 1);
}

/// A concentration above the last band has the AQI `AQI_MAX`.
pub proof fn law_aqi_saturates(c: int)
    requires
        c > breakpoint_table()[BAND_COUNT - 1].conc_high,
    ensures
        aqi_of(c) == AQI_MAX,
{
    reveal_with_fuel(first_band, 7);
}

/// The AQI of a non-negative concentration lies between 0 and `AQI_MAX`.
pub proof fn law_aqi_in_range(c: int)
    requires
        0 <= c,
    ensures
        0 <= aqi_of(c) <= AQI_MAX,
{
    law_aqi_by_band(c);
}

/// The AQI never decreases when the concentration rises: within a band, from
/// one band to the next, and beyond the last one.
pub proof fn law_aqi_is_monotonic(a: int, b: int)
    requires
        0 <= a <= b,
    ensures
        aqi_of(a) <= aqi_of(b),
{
    law_aqi_by_band(a);
    law_aqi_by_band(b);
}

/// The breakpoint table as a value.
pub fn breakpoints() -> (table: [Breakpoint; 6])
    ensures
        table@ == breakpoint_table(),
{
    let table = [
        Breakpoint { conc_low: 0, conc_high: 90, index_low: 0, index_high: 50 },
        Breakpoint { conc_low: 91, conc_high: 354, index_low: 51, index_high: 100 },
        Breakpoint { conc_low: 355, conc_high: 554, index_low: 101, index_high: 150 },
        Breakpoint { conc_low: 555, conc_high: 1254, index_low: 151, index_high: 200 },
        Breakpoint { conc_low: 1255, conc_high: 2254, index_low: 201, index_high: 300 },
        Breakpoint { conc_low: 2255, conc_high: 5000, index_low: 301, index_high: 500 },
    ];
    assert(table@ =~= breakpoint_table());
    table
}

/// Calculates the AQI for a PM2.5 concentration given in tenths of µg/m³.
///
/// The table is scanned in increasing order of concentration and the first
/// band that contains the concentration is interpolated. A concentration
/// above the last band gives `AQI_MAX`.
pub fn calculate_aqi(pm25_tenths: u32) -> (aqi: u16)
    ensures
        aqi as int == aqi_of(pm25_tenths as int),
        aqi <= AQI_MAX,
{
    let table = breakpoints();
    let mut i: usize = 0;
    while i < BAND_COUNT
        invariant
            i <= BAND_COUNT,
            table@ == breakpoint_table(),
            first_band(pm25_tenths as int, 0) == first_band(pm25_tenths as int, i as int),
        decreases BAND_COUNT - i,
    {
        let band = table[i];
        if band.conc_low <= pm25_tenths && pm25_tenths <= band.conc_high {
            return band.interpolate(pm25_tenths);
        }
        i += 1;
    }
    AQI_MAX
}

/// Colour that the EPA assigns to a range of AQI values, from the mildest
/// (`Green`) to the most severe (`DarkPurple`).
#[derive(Debug, Clone, Copy, PartialEq, Eq, Structural)]
pub enum Color {
    /// Good: AQI 0 to 50.
    Green,
    /// Moderate: AQI 51 to 100.
    Yellow,
    /// Unhealthy for sensitive groups: AQI 101 to 150.
    Orange,
    /// Unhealthy: AQI 151 to 200.
    Red,
    /// Very unhealthy: AQI 201 to 300.
    Purple,
    /// Hazardous: AQI 301 and above.
    DarkPurple,
}

/// The colour of an AQI value as a mathematical function: six contiguous
/// ranges, the last one unbounded above.
pub open spec fn color_of(aqi: int) -> Color {
    if aqi <= 50 {
        Color::Green
    } else if aqi <= 100 {
        Color::Yellow
    } else if aqi <= 150 {
        Color::Orange
    } else if aqi <= 200 {
        Color::Red
    } else if aqi <= 300 {
        Color::Purple
    } else {
        Color::DarkPurple
    }
}

/// Maps an AQI value to its EPA colour.
pub fn get_aqi_color(aqi: u16) -> (color: Color)
    ensures
        color == color_of(aqi as int),
{
    if aqi <= 50 {
        Color::Green
    } else if aqi <= 100 {
        Color::Yellow
    } else if aqi <= 150 {
        Color::Orange
    } else if aqi <= 200 {
        Color::Red
    } else if aqi <= 300 {
        Color::Purple
    } else {
        Color::DarkPurple
    }
}

} // verus!
