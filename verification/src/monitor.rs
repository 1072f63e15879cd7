//! Display monitors.
use vstd::prelude::*;

verus! {

/// A display monitor, identified by its raw `HMONITOR` value.
#[derive(Clone, Copy, Debug, PartialEq, Eq, Structural)]
pub struct Monitor {
    monitor: isize,
}

impl Monitor {
    /// The raw `HMONITOR` value of the monitor.
    pub closed spec fn handle(self) -> isize {
        self.monitor
    }

    /// Constructs a monitor from a raw `HMONITOR` value.
    pub fn from_raw_hmonitor(hmonitor: isize) -> (m: Monitor)
        ensures
            m.handle() == hmonitor,
    {
        Monitor { monitor: hmonitor }
    }

    /// Returns the raw `HMONITOR` value of the monitor.
    pub fn as_raw_hmonitor(&self) -> (hmonitor: isize)
        ensures
            hmonitor == self.handle(),
    {
        self.monitor
    }
}

/// A monitor is identified by its handle: two monitors with the same raw
/// `HMONITOR` value are the same monitor, so `as_raw_hmonitor` undoes
/// `from_raw_hmonitor` and the other way round.
pub proof fn lemma_handle_identifies_monitor(a: Monitor, b: Monitor)
    requires
        a.handle() == b.handle(),
    ensures
        a == b,
{
}

} // verus!
