//! An in-memory relay bank.
//!
//! It answers for all 256 possible channels, starts with every channel
//! released, and records exactly what it is commanded. Tests drive the
//! controllers against it, and its contract is what the controller proofs
//! rely on; the process that talks to real hardware performs the same
//! commands on the GPIO lines instead.

use vstd::prelude::*;
use crate::error::AtmosError;
use crate::relay_ctrl::RelayStatus;

verus! {

/// Number of relay channels the bank answers for: one per possible pin.
pub const MOCK_RELAY_CHANNELS: usize = 256;

/// The recorded state of every relay channel.
pub struct MockRelayBank {
    pub states: Vec<RelayStatus>,
}

impl MockRelayBank {
    /// The bank always holds one state per possible channel.
    pub open spec fn wf(&self) -> bool {
        self.states@.len() == MOCK_RELAY_CHANNELS
    }

    /// A fresh bank with every channel released.
    pub fn new() -> (r: MockRelayBank)
        ensures
            r.wf(),
            forall|i: int| 0 <= i < MOCK_RELAY_CHANNELS ==> r.states@[i] == RelayStatus::Off,
    {
        let mut states: Vec<RelayStatus> = Vec::new();
        let mut i: usize = 0;
        while i < MOCK_RELAY_CHANNELS
            invariant
                i <= MOCK_RELAY_CHANNELS,
                states@.len() == i,
                forall|j: int| 0 <= j < i ==> states@[j] == RelayStatus::Off,
            decreases MOCK_RELAY_CHANNELS - i,
        {
            states.push(RelayStatus::Off);
            i = i + 1;
        }
        MockRelayBank { states }
    }

    /// Records the commanded state for `pin`. The bank never fails, so the
    /// result is always `Ok`; it keeps the fallible shape of a real
    /// actuation call.
    pub fn mock_change_relay_status(&mut self, pin: u8, status: RelayStatus) -> (r: Result<
        (),
        AtmosError,
    >)
        requires
            old(self).wf(),
        ensures
            final(self).wf(),
            r is Ok,
            final(self).states@ == old(self).states@.update(pin as int, status),
    {
        self.states.set(pin as usize, status);
        Ok(())
    }

    /// The last state commanded for `pin`, `Off` if it was never commanded.
    pub fn get_mock_relay_status(&self, pin: u8) -> (r: RelayStatus)
        requires
            self.wf(),
        ensures
            r == self.states@[pin as int],
    {
        self.states[pin as usize]
    }
}

} // verus!
