//! Per-device work-mode bookkeeping: which mode each device's data is
//! produced in. The data generation itself is the external kernel's.

use vstd::prelude::*;
use crate::device::WorkMode;
use crate::strmap::StrMap;

verus! {

/// Work modes of the fleet, by device id.
pub struct ModeHandler {
    pub device_modes: StrMap<WorkMode>,
}

impl ModeHandler {
    /// The modes as a map from device id to mode.
    pub open spec fn view(&self) -> Map<Seq<char>, WorkMode> {
        self.device_modes@
    }

    /// Keys are stored once each.
    pub open spec fn wf(&self) -> bool {
        self.device_modes.wf()
    }

    /// No device has a mode set.
    pub fn new() -> (r: ModeHandler)
        ensures
            r.wf(),
            r@ == Map::<Seq<char>, WorkMode>::empty(),
    {
        ModeHandler { device_modes: StrMap::new() }
    }

    /// Sets a device's mode, replacing any earlier one.
    pub fn set_device_mode(&mut self, device_id: String, mode: WorkMode)
        requires
            old(self).wf(),
        ensures
            final(self).wf(),
            final(self)@ == old(self)@.insert(device_id@, mode),
    {
        self.device_modes.set(device_id.as_str(), mode);
    }

    /// A device's mode, where one was set.
    pub fn get_device_mode(&self, device_id: &str) -> (r: Option<&WorkMode>)
        requires
            self.wf(),
        ensures
            match r {
                Some(m) => self@.contains_key(device_id@) && *m == self@[device_id@],
                None => !self@.contains_key(device_id@),
            },
    {
        self.device_modes.get(device_id)
    }

    /// Every device's mode.
    pub fn get_all_modes(&self) -> (r: &StrMap<WorkMode>)
        ensures
            r@ == self@,
    {
        &self.device_modes
    }
}

} // verus!
