use vstd::prelude::*;

verus! {

/// Text size of the on-screen indicator.
#[derive(Clone, Copy, Debug, PartialEq, Eq, Structural)]
pub enum IndicatorSize {
    Small,
    Medium,
    Large,
}

/// Font height (in logical units, negative for a character height) for each size.
pub open spec fn spec_font_height(size: IndicatorSize) -> int {
    match size {
        IndicatorSize::Small => -96,
        IndicatorSize::Medium => -140,
        IndicatorSize::Large => -196,
    }
}

impl IndicatorSize {
    /// Font height used to draw the indicator text at this size.
    pub fn font_height(self) -> (h: i32)
        ensures
            h == spec_font_height(self),
    {
        match self {
            IndicatorSize::Small => -96,
            IndicatorSize::Medium => -140,
            IndicatorSize::Large => -196,
        }
    }
}

} // verus!
