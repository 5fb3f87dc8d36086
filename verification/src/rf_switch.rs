//! Control sequences of the RF switch.
//!
//! Two push-pull outputs select the receive and the transmit path. Driving both
//! high is not a defined switch state.

use vstd::prelude::*;

verus! {

/// Switch control that an output drives.
#[derive(Clone, Copy, Debug, PartialEq, Eq, Structural)]
pub enum SwitchPin {
    Receive,
    Transmit,
}

/// One write to a switch output.
#[derive(Clone, Copy, Debug, PartialEq, Eq, Structural)]
pub struct PinWrite {
    pub pin: SwitchPin,
    pub high: bool,
}

/// Path that the switch selects.
#[derive(Clone, Copy, Debug, PartialEq, Eq, Structural)]
pub enum SwitchPath {
    Receive,
    Transmit,
    Off,
}

/// Levels of both outputs.
#[derive(Clone, Copy, Debug, PartialEq, Eq, Structural)]
pub struct SwitchLevels {
    pub receive: bool,
    pub transmit: bool,
}

impl SwitchLevels {
    pub open spec fn after(self, write: PinWrite) -> Self {
        match write.pin {
            SwitchPin::Receive => SwitchLevels { receive: write.high, ..self },
            SwitchPin::Transmit => SwitchLevels { transmit: write.high, ..self },
        }
    }

    /// The levels that select a path.
    pub open spec fn selecting(path: SwitchPath) -> Self {
        SwitchLevels { receive: path is Receive, transmit: path is Transmit }
    }
}

/// The two writes that select a path, in their order.
#[must_use]
pub fn switch_writes(path: SwitchPath) -> (writes: [PinWrite; 2])
    ensures
        forall|levels: SwitchLevels|
            #![trigger levels.after(writes@[0])]
            {
                // The path is selected, whatever the levels were.
                &&& levels.after(writes@[0]).after(writes@[1]) == SwitchLevels::selecting(path)
                // The first write only ever releases a control.
                &&& !writes@[0].high
                // Both controls are never high at once on the way.
                &&& !(levels.receive && levels.transmit) ==> !(levels.after(writes@[0]).receive
                    && levels.after(writes@[0]).transmit)
            },
        path is Transmit ==> writes@[0].pin == SwitchPin::Receive,
        path is Receive ==> writes@[0].pin == SwitchPin::Transmit,
        path is Off ==> writes@[0].pin == SwitchPin::Receive,
{
    match path {
        SwitchPath::Receive => [
            PinWrite { pin: SwitchPin::Transmit, high: false },
            PinWrite { pin: SwitchPin::Receive, high: true },
        ],
        SwitchPath::Transmit => [
            PinWrite { pin: SwitchPin::Receive, high: false },
            PinWrite { pin: SwitchPin::Transmit, high: true },
        ],
        SwitchPath::Off => [
            PinWrite { pin: SwitchPin::Receive, high: false },
            PinWrite { pin: SwitchPin::Transmit, high: false },
        ],
    }
}

} // verus!
