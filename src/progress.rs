//! A worker's progress notifications: after each finished image row it may
//! announce how far it has come, at steps of at least five percent.

use vstd::prelude::*;

verus! {

/// What a progress tracker holds: the image height and the row at which it
/// last announced progress (row 0 before any announcement).
pub struct ProgressView {
    pub height: nat,
    pub last_row: nat,
}

/// Whether finishing `row` is at least five percent of `height` rows past
/// `last_row`, that is `100 * (row - last_row) / height >= 5`.
pub open spec fn spec_progress_due(row: nat, last_row: nat, height: nat) -> bool {
    20 * (row - last_row) >= height
}

/// `100 * row / height` rounded to the nearest integer, halves rounded up.
pub open spec fn spec_rounded_percent(row: nat, height: nat) -> nat {
    (200 * row + height) / (2 * height)
}

/// Progress of one worker through the rows of its image.
pub struct Progress {
    height: u32,
    last_row: u32,
}

impl View for Progress {
    type V = ProgressView;

    closed spec fn view(&self) -> ProgressView {
        ProgressView { height: self.height as nat, last_row: self.last_row as nat }
    }
}

impl Progress {
    #[verifier::type_invariant]
    spec fn well_formed(self) -> bool {
        self.height > 0 && self.last_row < self.height
    }

    /// A tracker for an image of `height` rows that has announced nothing.
    pub fn new(height: u32) -> (r: Progress)
        requires
            height > 0,
        ensures
            r@ == (ProgressView { height: height as nat, last_row: 0 }),
    {
        Progress { height, last_row: 0 }
    }

    /// Records that row `row` is finished. When that is at least five percent
    /// of the image past the last announcement, returns the percentage done
    /// (`100 * row / height`, rounded) and remembers `row`; otherwise returns
    /// `None` and changes nothing.
    pub fn row_done(&mut self, row: u32) -> (r: Option<u32>)
        requires
            row < old(self)@.height,
        ensures
            final(self)@.height == old(self)@.height,
            spec_progress_due(row as nat, old(self)@.last_row, old(self)@.height) ==> r == Some(
                spec_rounded_percent(row as nat, old(self)@.height) as u32,
            ) && final(self)@.last_row == row,
            !spec_progress_due(row as nat, old(self)@.last_row, old(self)@.height) ==> r
                is None && final(self)@ == old(self)@,
            r matches Some(p) ==> p <= 100,
    {
        proof {
            use_type_invariant(&*self);
        }
        if row >= self.last_row && 20 * ((row - self.last_row) as u64) >= self.height as u64 {
            let h: u64 = self.height as u64;
            let p: u64 = (200 * (row as u64) + h) / (2 * h);
            proof {
                assert(p <= 100) by (nonlinear_arith)
                    requires
                        p == (200 * row + h) / (2 * h),
                        row < h,
                        h > 0,
                ;
            }
            self.last_row = row;
            Some(p as u32)
        } else {
            None
        }
    }
}

} // verus!
