//! Run statistics: per-file outcome counters and their combinator.

use vstd::prelude::*;

verus! {

/// Counters for one run or one subtree of a run.  Every counter saturates
/// at `u16::MAX` instead of wrapping.
#[derive(Debug, Clone, Copy, PartialEq, Eq, Structural)]
#[must_use]
pub struct Stats {
    changed: u16,
    not_changed: u16,
    skipped: u16,
    seo_warnings: u16,
    errors: u16,
}

/// Mathematical image of [`Stats`]: one field per counter.
pub ghost struct StatsV {
    pub changed: u16,
    pub not_changed: u16,
    pub skipped: u16,
    pub seo_warnings: u16,
    pub errors: u16,
}

impl View for Stats {
    type V = StatsV;

    closed spec fn view(&self) -> StatsV {
        StatsV {
            changed: self.changed,
            not_changed: self.not_changed,
            skipped: self.skipped,
            seo_warnings: self.seo_warnings,
            errors: self.errors,
        }
    }
}

/// Saturating addition of two counters.
pub open spec fn sat_add16(a: u16, b: u16) -> u16 {
    if a + b > u16::MAX {
        u16::MAX
    } else {
        (a + b) as u16
    }
}

impl StatsV {
    /// All counters zero.
    pub open spec fn zero() -> StatsV {
        StatsV { changed: 0, not_changed: 0, skipped: 0, seo_warnings: 0, errors: 0 }
    }

    /// Field-wise saturating sum.
    pub open spec fn combine(self, other: StatsV) -> StatsV {
        StatsV {
            changed: sat_add16(self.changed, other.changed),
            not_changed: sat_add16(self.not_changed, other.not_changed),
            skipped: sat_add16(self.skipped, other.skipped),
            seo_warnings: sat_add16(self.seo_warnings, other.seo_warnings),
            errors: sat_add16(self.errors, other.errors),
        }
    }
}

impl Stats {
    /// A fresh record with every counter at zero.
    pub fn new() -> (s: Stats)
        ensures
            s@ == StatsV::zero(),
    {
        Stats { changed: 0, not_changed: 0, skipped: 0, seo_warnings: 0, errors: 0 }
    }

    /// Current value of `changed`.
    pub fn changed(&self) -> (r: u16)
        ensures
            r == self@.changed,
    {
        self.changed
    }

    /// Current value of `not_changed`.
    pub fn not_changed(&self) -> (r: u16)
        ensures
            r == self@.not_changed,
    {
        self.not_changed
    }

    /// Current value of `skipped`.
    pub fn skipped(&self) -> (r: u16)
        ensures
            r == self@.skipped,
    {
        self.skipped
    }

    /// Current value of `errors`.
    pub fn errors(&self) -> (r: u16)
        ensures
            r == self@.errors,
    {
        self.errors
    }

    /// Current value of `seo_warnings`.
    pub fn seo_warnings(&self) -> (r: u16)
        ensures
            r == self@.seo_warnings,
    {
        self.seo_warnings
    }

    /// Increments `changed` by 1, saturating.
    pub fn inc_changed(&mut self)
        ensures
            final(self)@ == (StatsV { changed: sat_add16(old(self)@.changed, 1), ..old(self)@ }),
    {
        self.changed = if self.changed == u16::MAX {
            u16::MAX
        } else {
            self.changed + 1
        };
    }

    /// Increments `not_changed` by 1, saturating.
    pub fn inc_not_changed(&mut self)
        ensures
            final(self)@ == (StatsV {
                not_changed: sat_add16(old(self)@.not_changed, 1),
                ..old(self)@
            }),
    {
        self.not_changed = if self.not_changed == u16::MAX {
            u16::MAX
        } else {
            self.not_changed + 1
        };
    }

    /// Increments `skipped` by 1, saturating.
    pub fn inc_skipped(&mut self)
        ensures
            final(self)@ == (StatsV { skipped: sat_add16(old(self)@.skipped, 1), ..old(self)@ }),
    {
        self.skipped = if self.skipped == u16::MAX {
            u16::MAX
        } else {
            self.skipped + 1
        };
    }

    /// Increments `errors` by 1, saturating.
    pub fn inc_errors(&mut self)
        ensures
            final(self)@ == (StatsV { errors: sat_add16(old(self)@.errors, 1), ..old(self)@ }),
    {
        self.errors = if self.errors == u16::MAX {
            u16::MAX
        } else {
            self.errors + 1
        };
    }

    /// Increments `seo_warnings` by 1, saturating.
    pub fn inc_seo_warnings(&mut self)
        ensures
            final(self)@ == (StatsV {
                seo_warnings: sat_add16(old(self)@.seo_warnings, 1),
                ..old(self)@
            }),
    {
        self.seo_warnings = if self.seo_warnings == u16::MAX {
            u16::MAX
        } else {
            self.seo_warnings + 1
        };
    }

    /// Folds another record into this one, field-wise and saturating.
    pub fn add_assign(&mut self, rhs: Stats)
        ensures
            final(self)@ == old(self)@.combine(rhs@),
    {
        self.changed = if self.changed > u16::MAX - rhs.changed {
            u16::MAX
        } else {
            self.changed + rhs.changed
        };
        self.not_changed = if self.not_changed > u16::MAX - rhs.not_changed {
            u16::MAX
        } else {
            self.not_changed + rhs.not_changed
        };
        self.skipped = if self.skipped > u16::MAX - rhs.skipped {
            u16::MAX
        } else {
            self.skipped + rhs.skipped
        };
        self.seo_warnings = if self.seo_warnings > u16::MAX - rhs.seo_warnings {
            u16::MAX
        } else {
            self.seo_warnings + rhs.seo_warnings
        };
        self.errors = if self.errors > u16::MAX - rhs.errors {
            u16::MAX
        } else {
            self.errors + rhs.errors
        };
    }
}

impl Default for Stats {
    /// Same as [`Stats::new`].
    fn default() -> (s: Stats)
        ensures
            s@ == StatsV::zero(),
    {
        Stats::new()
    }
}

/// Combining two records is insensitive to their order.
pub proof fn lemma_combine_commutative(a: StatsV, b: StatsV)
    ensures
        a.combine(b) == b.combine(a),
{
}

/// Combining records is associative, so per-file deltas may be folded into
/// a run total in any grouping.
pub proof fn lemma_combine_associative(a: StatsV, b: StatsV, c: StatsV)
    ensures
        a.combine(b).combine(c) == a.combine(b.combine(c)),
{
}

} // verus!
