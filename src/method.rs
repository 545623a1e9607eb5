use vstd::prelude::*;

verus! {

/// How the weights adapt, as configured by the user.
pub enum MethodParams<R> {
    /// SAD, flattening the histogram above the temperature `min_t`.
    Sad { min_t: R },
    /// SAMC, whose step size stays 1 for the first `t0` moves and then
    /// falls as `t0 / t`.
    Samc { t0: u64 },
}

/// The running state of the adaptive scheme.  The variant is fixed when the
/// engine is built and never changes afterwards.
pub enum Method<R> {
    Sad {
        /// The lowest temperature of interest.
        min_t: R,
        /// The lower edge of the characterised window.
        too_lo: i64,
        /// The upper edge of the characterised window.
        too_hi: i64,
        /// The lowest energy found to matter at temperature `min_t`.
        min_important_energy: i64,
        /// The move count at the most recent first visit to a bin.
        t_l: u64,
        /// The number of bins discovered so far.
        n_found: u64,
    },
    Samc {
        t0: u64,
    },
}

impl<R> Method<R> {
    /// The state of a scheme that starts at energy `e`: SAD's window is the
    /// single energy `e`, one bin has been found and none since move 0.
    pub open spec fn start(p: MethodParams<R>, e: i64) -> Self {
        match p {
            MethodParams::Sad { min_t } => Method::Sad {
                min_t,
                too_lo: e,
                too_hi: e,
                min_important_energy: e,
                t_l: 0,
                n_found: 1,
            },
            MethodParams::Samc { t0 } => Method::Samc { t0 },
        }
    }

    /// The state of a scheme that starts at energy `e`.
    pub fn new(p: MethodParams<R>, e: i64) -> (r: Self)
        ensures
            r == Self::start(p, e),
    {
        match p {
            MethodParams::Sad { min_t } => Method::Sad {
                min_t,
                too_lo: e,
                too_hi: e,
                min_important_energy: e,
                t_l: 0,
                n_found: 1,
            },
            MethodParams::Samc { t0 } => Method::Samc { t0 },
        }
    }
}

} // verus!
