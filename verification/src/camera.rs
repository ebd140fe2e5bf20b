//! The per-surface blur state: an ordered sequence of region records plus the
//! global blur-strength parameter.
//!
//! One `BlurRegionsCamera` is owned by each rendering surface that requests
//! the effect. Its region sequence is cleared exactly once per frame before
//! extraction and only appended to afterwards; no operation removes or
//! reorders existing entries except [`BlurRegionsCamera::clear`]. The order is
//! significant: the compositor resolves overlapping regions by first match
//! wins, so earlier records take precedence.

use vstd::prelude::*;
use crate::region::{BorderRadii, ComputedBlurRegion, Rect};
use crate::scalar::spec_sanitize;
use crate::settings::BlurRegionSettings;

verus! {

/// Bit pattern of 50.0, the default circle of confusion.
pub const DEFAULT_CIRCLE_OF_CONFUSION: u32 = 0x4248_0000;

/// The record appended for `rect`, `radii` and `settings`: the bounds are
/// taken verbatim, each supplied radius is clamped to a non-negative value.
pub open spec fn spec_pushed_region(
    rect: Rect,
    radii: BorderRadii,
    settings: BlurRegionSettings,
) -> ComputedBlurRegion {
    ComputedBlurRegion {
        min_x: rect.min_x,
        max_x: rect.max_x,
        min_y: rect.min_y,
        max_y: rect.max_y,
        border_radii: BorderRadii {
            top_left: spec_sanitize(radii.top_left),
            top_right: spec_sanitize(radii.top_right),
            bottom_right: spec_sanitize(radii.bottom_right),
            bottom_left: spec_sanitize(radii.bottom_left),
        },
        settings,
    }
}

/// The blur state of one surface: the diameter of the circle of confusion
/// around the pixel being blurred (in physical pixels, as a binary32 bit
/// pattern; larger means blurrier) and the ordered region records of the
/// current frame.
#[derive(Clone, Debug)]
pub struct BlurRegionsCamera {
    pub circle_of_confusion: u32,
    pub regions: Vec<ComputedBlurRegion>,
}

impl Default for BlurRegionsCamera {
    /// A fresh state: default blur strength of 50.0 physical pixels, no
    /// regions.
    fn default() -> (r: Self)
        ensures
            r.circle_of_confusion == DEFAULT_CIRCLE_OF_CONFUSION,
            r.regions@ == Seq::<ComputedBlurRegion>::empty(),
    {
        BlurRegionsCamera { circle_of_confusion: DEFAULT_CIRCLE_OF_CONFUSION, regions: Vec::new() }
    }
}

impl BlurRegionsCamera {
    /// Appends one region record with the given bounds and square corners.
    pub fn blur(&mut self, rect: Rect, settings: BlurRegionSettings)
        ensures
            final(self).circle_of_confusion == old(self).circle_of_confusion,
            final(self).regions@ == old(self).regions@.push(
                spec_pushed_region(rect, BorderRadii::spec_zero(), settings),
            ),
    {
        self.rounded_blur(rect, BorderRadii::zero(), settings);
        proof {
            crate::scalar::lemma_sanitize_non_negative(0);
        }
        assert(self.regions@ =~= old(self).regions@.push(
            spec_pushed_region(rect, BorderRadii::spec_zero(), settings),
        ));
    }

    /// Appends one region record with the given bounds and the four supplied
    /// corner radii, each clamped to a non-negative value.
    pub fn rounded_blur(&mut self, rect: Rect, border_radii: BorderRadii, settings: BlurRegionSettings)
        ensures
            final(self).circle_of_confusion == old(self).circle_of_confusion,
            final(self).regions@ == old(self).regions@.push(
                spec_pushed_region(rect, border_radii, settings),
            ),
    {
        let record = ComputedBlurRegion {
            min_x: rect.min_x,
            max_x: rect.max_x,
            min_y: rect.min_y,
            max_y: rect.max_y,
            border_radii: BorderRadii {
                top_left: crate::scalar::sanitize(border_radii.top_left),
                top_right: crate::scalar::sanitize(border_radii.top_right),
                bottom_right: crate::scalar::sanitize(border_radii.bottom_right),
                bottom_left: crate::scalar::sanitize(border_radii.bottom_left),
            },
            settings,
        };
        self.regions.push(record);
    }

    /// Appends one square-cornered record per rectangle, in the given order,
    /// all with the same settings.
    pub fn blur_all(&mut self, rects: &Vec<Rect>, settings: BlurRegionSettings)
        ensures
            final(self).circle_of_confusion == old(self).circle_of_confusion,
            final(self).regions@ == old(self).regions@ + rects@.map_values(
                |rect: Rect| spec_pushed_region(rect, BorderRadii::spec_zero(), settings),
            ),
    {
        let mut i: usize = 0;
        while i < rects.len()
            invariant
                i <= rects.len(),
                self.circle_of_confusion == old(self).circle_of_confusion,
                self.regions@ == old(self).regions@ + rects@.subrange(0, i as int).map_values(
                    |rect: Rect| spec_pushed_region(rect, BorderRadii::spec_zero(), settings),
                ),
            decreases rects.len() - i,
        {
            let ghost prev = self.regions@;
            self.blur(rects[i], settings);
            proof {
                let pushed = |rect: Rect| spec_pushed_region(rect, BorderRadii::spec_zero(), settings);
                assert(self.regions@ == prev.push(pushed(rects@[i as int])));
                assert(rects@.subrange(0, (i + 1) as int).map_values(pushed) =~= rects@.subrange(
                    0,
                    i as int,
                ).map_values(pushed).push(pushed(rects@[i as int])));
                assert(self.regions@ =~= old(self).regions@ + rects@.subrange(
                    0,
                    (i + 1) as int,
                ).map_values(pushed));
            }
            i = i + 1;
        }
        assert(rects@.subrange(0, rects@.len() as int) =~= rects@);
    }

    /// Appends one record per entry, in the given order, each with its own
    /// radii (clamped to non-negative values) and settings.
    pub fn rounded_blur_all(&mut self, entries: &Vec<(Rect, BorderRadii, BlurRegionSettings)>)
        ensures
            final(self).circle_of_confusion == old(self).circle_of_confusion,
            final(self).regions@ == old(self).regions@ + entries@.map_values(
                |e: (Rect, BorderRadii, BlurRegionSettings)| spec_pushed_region(e.0, e.1, e.2),
            ),
    {
        let mut i: usize = 0;
        while i < entries.len()
            invariant
                i <= entries.len(),
                self.circle_of_confusion == old(self).circle_of_confusion,
                self.regions@ == old(self).regions@ + entries@.subrange(0, i as int).map_values(
                    |e: (Rect, BorderRadii, BlurRegionSettings)| spec_pushed_region(e.0, e.1, e.2),
                ),
            decreases entries.len() - i,
        {
            let ghost prev = self.regions@;
            let entry = &entries[i];
            self.rounded_blur(entry.0, entry.1, entry.2);
            proof {
                let pushed = |e: (Rect, BorderRadii, BlurRegionSettings)| spec_pushed_region(
                    e.0,
                    e.1,
                    e.2,
                );
                assert(self.regions@ == prev.push(pushed(entries@[i as int])));
                assert(entries@.subrange(0, (i + 1) as int).map_values(pushed) =~= entries@.subrange(
                    0,
                    i as int,
                ).map_values(pushed).push(pushed(entries@[i as int])));
                assert(self.regions@ =~= old(self).regions@ + entries@.subrange(
                    0,
                    (i + 1) as int,
                ).map_values(pushed));
            }
            i = i + 1;
        }
        assert(entries@.subrange(0, entries@.len() as int) =~= entries@);
    }

    /// Empties the region sequence; called exactly once per frame before
    /// extraction runs. The blur strength is kept.
    pub fn clear(&mut self)
        ensures
            final(self).circle_of_confusion == old(self).circle_of_confusion,
            final(self).regions@ == Seq::<ComputedBlurRegion>::empty(),
            final(self).regions@.len() == 0,
    {
        self.regions.clear();
    }
}

} // verus!
