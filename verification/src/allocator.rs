//! The port allocator's scan policy.
//!
//! The allocator looks for a free loopback port by trying a fixed window of
//! candidate ports in ascending order; for each candidate the embedding
//! application attempts to bind (and immediately release) a listening
//! socket, and the first candidate that binds is the allocated port.  If no
//! candidate in the window binds, allocation fails with
//! [`StartupError::NoPortAvailable`] and no fallback range is tried.
//!
//! The bind itself is an operating-system call that the application makes;
//! [`PortScan`] fixes which candidate is tried at each step, in what order,
//! and when the scan gives up.

use vstd::prelude::*;

use crate::errors::StartupError;

verus! {

/// The first candidate port of the scan window the supervisor uses.
pub const SCAN_BASE: u16 = 5000;

/// How many consecutive candidate ports the scan window holds.
pub const SCAN_WINDOW: u16 = 100;

/// A walk over a fixed window of candidate ports, in ascending order.
///
/// `tried` counts the candidates already reported as failed; the current
/// candidate, when one is left, is always `base + tried`.
pub struct PortScan {
    pub base: u16,
    pub window: u16,
    pub tried: u16,
}

impl PortScan {
    /// The scan window never runs past the greatest port number.
    pub open spec fn wf(self) -> bool {
        self.base + self.window <= 65536 && self.tried <= self.window
    }

    pub open spec fn spec_base(self) -> u16 {
        self.base
    }

    pub open spec fn spec_window(self) -> u16 {
        self.window
    }

    pub open spec fn spec_tried(self) -> u16 {
        self.tried
    }

    /// The candidate the scan offers after `tried` failures: the ports
    /// `base`, `base + 1`, ... are visited in ascending order, and the
    /// scan is exhausted once the whole window has failed.
    pub open spec fn spec_current(self) -> Option<u16> {
        if self.tried < self.window {
            Some((self.base + self.tried) as u16)
        } else {
            None
        }
    }

    /// A fresh scan over the window `[base, base + window)`.
    pub fn new(base: u16, window: u16) -> (r: PortScan)
        requires
            base + window <= 65536,
        ensures
            r.wf(),
            r.spec_base() == base,
            r.spec_window() == window,
            r.spec_tried() == 0,
    {
        PortScan { base, window, tried: 0 }
    }

    /// The scan window the supervisor uses, a hundred ports from 5000 up.
    pub fn default_window() -> (r: PortScan)
        ensures
            r.wf(),
            r.spec_base() == SCAN_BASE,
            r.spec_window() == SCAN_WINDOW,
            r.spec_tried() == 0,
    {
        PortScan::new(SCAN_BASE, SCAN_WINDOW)
    }

    /// The candidate to try to bind next, or `None` once every candidate
    /// in the window has failed.
    pub fn current(&self) -> (r: Option<u16>)
        requires
            self.wf(),
        ensures
            r == self.spec_current(),
    {
        if self.tried < self.window {
            Some(self.base + self.tried)
        } else {
            None
        }
    }

    /// Record that the current candidate failed to bind and move to the
    /// next one.
    pub fn record_bind_failure(&mut self)
        requires
            old(self).wf(),
            old(self).spec_current() is Some,
        ensures
            final(self).wf(),
            final(self).spec_base() == old(self).spec_base(),
            final(self).spec_window() == old(self).spec_window(),
            final(self).spec_tried() == old(self).spec_tried() + 1,
    {
        self.tried = self.tried + 1;
    }

    /// The error allocation ends with when the scan is exhausted.
    pub fn exhausted_error(&self) -> (r: StartupError)
        requires
            self.wf(),
            self.spec_current() is None,
        ensures
            r == StartupError::NoPortAvailable,
    {
        StartupError::NoPortAvailable
    }
}

/// The candidates a scan offers are ascending and never leave the window:
/// after any number of failures the next candidate, if one is left, is
/// `base + tried`, strictly greater than every candidate already tried and
/// below `base + window`.
pub proof fn lemma_scan_ascending_and_bounded(s: PortScan)
    requires
        s.wf(),
        s.spec_current() is Some,
    ensures
        s.spec_current()->Some_0 == s.spec_base() + s.spec_tried(),
        s.spec_base() <= s.spec_current()->Some_0 < s.spec_base() + s.spec_window(),
{
}

} // verus!
