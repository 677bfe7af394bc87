//! The tunable figures of the memory model.

use vstd::prelude::*;

verus! {

/// The weights and limits that a scheduler works with.
///
/// `request_retention` and the weights are single-precision numbers, held as
/// their IEEE 754 bit patterns: the library carries them and never computes
/// on them. Any pattern is accepted for a weight.
pub struct Parameters {
    /// Bit pattern of the recall probability aimed at, a fraction above zero
    /// and up to one.
    pub request_retention: u32,
    /// The longest interval between two reviews, in days.
    pub maximum_interval: i32,
    /// Bit patterns of the weights.
    pub w: [u32; 17],
}

impl Parameters {
    /// Bit pattern of the default retention, nine tenths.
    pub open spec fn default_retention() -> u32 {
        0x3F66_6666
    }

    /// The default of the longest interval: a hundred years of 365 days.
    pub open spec fn default_maximum_interval() -> i32 {
        36500
    }

    /// Bit patterns of the default weights, which are, in hundredths:
    /// 40, 60, 240, 580, 493, 94, 86, 1, 149, 14, 94, 218, 5, 34, 126, 29, 261.
    pub open spec fn default_weights() -> Seq<u32> {
        seq![
            0x3ECC_CCCD,
            0x3F19_999A,
            0x4019_999A,
            0x40B9_999A,
            0x409D_C28F,
            0x3F70_A3D7,
            0x3F5C_28F6,
            0x3C23_D70A,
            0x3FBE_B852,
            0x3E0F_5C29,
            0x3F70_A3D7,
            0x400B_851F,
            0x3D4C_CCCD,
            0x3EAE_147B,
            0x3FA1_47AE,
            0x3E94_7AE1,
            0x4027_0A3D,
        ]
    }

    /// Whether the limits are in range: the retention is a fraction above
    /// zero and up to one, and the longest interval is at least a day. Among
    /// the patterns with a clear sign bit the greater number has the greater
    /// pattern, and one has the pattern `0x3F80_0000`.
    pub open spec fn spec_well_formed(&self) -> bool {
        &&& 0 < self.request_retention <= 0x3F80_0000
        &&& self.maximum_interval >= 1
    }

    /// Tests whether the limits are in range.
    #[verifier::when_used_as_spec(spec_well_formed)]
    pub fn well_formed(&self) -> (answer: bool)
        ensures
            answer == self.spec_well_formed(),
    {
        0 < self.request_retention && self.request_retention <= 0x3F80_0000
            && self.maximum_interval >= 1
    }
}

impl Default for Parameters {
    /// The default figures.
    fn default() -> (parameters: Self)
        ensures
            parameters.request_retention == Parameters::default_retention(),
            parameters.maximum_interval == Parameters::default_maximum_interval(),
            parameters.w@ == Parameters::default_weights(),
            parameters.well_formed(),
    {
        let w: [u32; 17] = [
            0x3ECC_CCCD,
            0x3F19_999A,
            0x4019_999A,
            0x40B9_999A,
            0x409D_C28F,
            0x3F70_A3D7,
            0x3F5C_28F6,
            0x3C23_D70A,
            0x3FBE_B852,
            0x3E0F_5C29,
            0x3F70_A3D7,
            0x400B_851F,
            0x3D4C_CCCD,
            0x3EAE_147B,
            0x3FA1_47AE,
            0x3E94_7AE1,
            0x4027_0A3D,
        ];
        assert(w@ =~= Parameters::default_weights());
        Parameters { request_retention: 0x3F66_6666, maximum_interval: 36500, w }
    }
}

} // verus!
