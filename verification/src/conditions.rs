//! The power and network conditions that a scheduled backup depends on.
use vstd::prelude::*;

verus! {

#[derive(Debug, Clone, Copy, PartialEq, Eq, Structural)]
pub struct SystemConditions {
    pub network_available: bool,
    pub on_battery: bool,
    pub metered_network: bool,
}

/// A network connection of the machine, as the operating system reports it.
#[derive(Debug, Clone, Copy, PartialEq, Eq, Structural)]
pub struct ConnectionProfile {
    pub connected: bool,
    pub unrestricted_cost: bool,
    pub roaming: bool,
    pub over_data_limit: bool,
}

impl ConnectionProfile {
    pub open spec fn is_metered(self) -> bool {
        !self.unrestricted_cost || self.roaming || self.over_data_limit
    }
}

pub fn profile_is_metered(profile: &ConnectionProfile) -> (metered: bool)
    ensures
        metered == profile.is_metered(),
{
    !profile.unrestricted_cost || profile.roaming || profile.over_data_limit
}

/// Holds the Windows Runtime on the thread of the event loop.
#[derive(Debug, PartialEq, Eq)]
pub struct WinRtApartment;

impl SystemConditions {
    /// There is a network where some profile is connected, and it is metered
    /// where every connected profile is. Power that is not known to come from
    /// the mains counts as battery power.
    pub open spec fn describes(self, mains: bool, profiles: Seq<ConnectionProfile>) -> bool {
        &&& self.on_battery == !mains
        &&& self.network_available == (exists|i: int|
            0 <= i < profiles.len() && (#[trigger] profiles[i]).connected)
        &&& self.metered_network == (self.network_available && forall|i: int|
            0 <= i < profiles.len() && (#[trigger] profiles[i]).connected
                ==> profiles[i].is_metered())
    }

    /// The conditions, given the line status of the power supply and the
    /// profiles of the network.
    pub fn query(ac_line_status: u8, profiles: &Vec<ConnectionProfile>) -> (conditions:
        SystemConditions)
        ensures
            conditions.describes(ac_line_status == 1, profiles@),
    {
        let mut any = false;
        let mut every_metered = true;
        let mut i: usize = 0;
        while i < profiles.len()
            invariant
                i <= profiles@.len(),
                any == (exists|j: int| 0 <= j < i && (#[trigger] profiles@[j]).connected),
                every_metered == (forall|j: int|
                    0 <= j < i && (#[trigger] profiles@[j]).connected
                        ==> profiles@[j].is_metered()),
            decreases profiles@.len() - i,
        {
            if profiles[i].connected {
                any = true;
                let metered = profile_is_metered(&profiles[i]);
                every_metered = every_metered && metered;
                proof {
                    assert(profiles@[i as int].connected);
                }
            }
            i = i + 1;
        }
        SystemConditions {
            network_available: any,
            on_battery: ac_line_status != 1,
            metered_network: any && every_metered,
        }
    }

    /// What is assumed where the conditions cannot be told.
    pub fn conservative() -> (conditions: SystemConditions)
        ensures
            conditions == (SystemConditions {
                network_available: false,
                on_battery: true,
                metered_network: true,
            }),
    {
        SystemConditions { network_available: false, on_battery: true, metered_network: true }
    }
}

} // verus!
