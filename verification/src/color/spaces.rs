//! Colour-space tables.

use vstd::prelude::*;
use crate::hdr::types::ColorSpace;

verus! {

/// Approximate coverage of the visible gamut, in hundredths.
pub open spec fn gamut_coverage_percent(cs: ColorSpace) -> nat {
    match cs {
        ColorSpace::Bt709 => 35,
        ColorSpace::Bt2020 => 76,
        ColorSpace::DciP3 => 53,
        ColorSpace::DisplayP3 => 53,
    }
}

/// Whether the colour space carries HDR content.
pub open spec fn color_space_hdr_compatible(cs: ColorSpace) -> bool {
    cs == ColorSpace::Bt2020
}

/// All supported colour spaces, in declaration order.
pub open spec fn all_color_spaces() -> Seq<ColorSpace> {
    seq![ColorSpace::Bt709, ColorSpace::Bt2020, ColorSpace::DciP3, ColorSpace::DisplayP3]
}

impl ColorSpace {
    /// All supported colour spaces.
    pub fn all() -> (r: Vec<ColorSpace>)
        ensures
            r@ == all_color_spaces(),
    {
        let r = vec![
            ColorSpace::Bt709,
            ColorSpace::Bt2020,
            ColorSpace::DciP3,
            ColorSpace::DisplayP3,
        ];
        assert(r@ =~= all_color_spaces());
        r
    }

    /// The HDR-compatible colour spaces, in the order of `all`.
    pub fn hdr_compatible() -> (r: Vec<ColorSpace>)
        ensures
            r@ == all_color_spaces().filter(|cs: ColorSpace| color_space_hdr_compatible(cs)),
    {
        let all = Self::all();
        let mut r: Vec<ColorSpace> = Vec::new();
        let mut i: usize = 0;
        while i < all.len()
            invariant
                all@ == all_color_spaces(),
                i <= all.len(),
                r@ == all@.subrange(0, i as int).filter(
                    |cs: ColorSpace| color_space_hdr_compatible(cs),
                ),
            decreases all.len() - i,
        {
            let cs = all[i];
            proof {
                reveal_with_fuel(Seq::filter, 1);
                assert(all@.subrange(0, i + 1).drop_last() =~= all@.subrange(0, i as int));
            }
            if cs == ColorSpace::Bt2020 {
                r.push(cs);
            }
            i = i + 1;
        }
        assert(all@.subrange(0, all@.len() as int) =~= all@);
        r
    }

    /// Whether the colour space covers more than 45% of the visible gamut.
    pub fn is_wide_gamut(&self) -> (r: bool)
        ensures
            r == (gamut_coverage_percent(*self) > 45),
    {
        match self {
            ColorSpace::Bt709 => false,
            _ => true,
        }
    }
}

} // verus!
