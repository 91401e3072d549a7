use crate::device_door::interface::DeviceDoorEvent;
use vstd::prelude::*;

verus! {

/// Where the relay of the door's magnet is wired.
#[derive(Clone, Copy, Debug, PartialEq, Eq, Structural)]
pub struct DogDoorRaspberryPiConfig {
    pub gpio_pin: u8,
}

impl Default for DogDoorRaspberryPiConfig {
    fn default() -> (c: DogDoorRaspberryPiConfig)
        ensures
            c.gpio_pin == 17,
    {
        DogDoorRaspberryPiConfig { gpio_pin: 17 }
    }
}

/// What to put on the relay's pin. High powers the magnet, which holds the
/// door; low cuts the power.
#[derive(Clone, Copy, Debug, PartialEq, Eq, Structural)]
pub enum RelayLevel {
    High,
    Low,
}

/// The door behind a relay, as far as it can be decided without the pin:
/// whether the magnet is powered, and what a command has to put on the pin.
/// Whoever owns the pin puts the level on it.
#[derive(Clone, Copy, Debug, PartialEq, Eq, Structural)]
pub struct DogDoorRaspberryPiRelay {
    pub config: DogDoorRaspberryPiConfig,
    pub is_locked: bool,
}

impl DogDoorRaspberryPiRelay {
    /// A door whose magnet is not powered.
    pub fn new(config: DogDoorRaspberryPiConfig) -> (d: DogDoorRaspberryPiRelay)
        ensures
            d.config == config,
            !d.is_locked,
    {
        DogDoorRaspberryPiRelay { config, is_locked: false }
    }

    /// Locks the door: the pin is to go high, unless the magnet is powered
    /// already.
    pub fn lock(&mut self) -> (level: Option<RelayLevel>)
        ensures
            final(self).is_locked,
            final(self).config == old(self).config,
            level == if old(self).is_locked {
                None
            } else {
                Some(RelayLevel::High)
            },
    {
        if !self.is_locked {
            self.is_locked = true;
            Some(RelayLevel::High)
        } else {
            None
        }
    }

    /// Unlocks the door: the pin is to go low, unless the magnet is
    /// without power already.
    pub fn unlock(&mut self) -> (level: Option<RelayLevel>)
        ensures
            !final(self).is_locked,
            final(self).config == old(self).config,
            level == if old(self).is_locked {
                Some(RelayLevel::Low)
            } else {
                None
            },
    {
        if self.is_locked {
            self.is_locked = false;
            Some(RelayLevel::Low)
        } else {
            None
        }
    }

    /// Whether the magnet is without power.
    pub fn is_unlocked(&self) -> (unlocked: bool)
        ensures
            unlocked == !self.is_locked,
    {
        !self.is_locked
    }

    /// What a reading of the pin tells of the door's link: a reading of zero
    /// that the door is there, any other that it is gone.
    pub fn link_event(value: u8) -> (event: DeviceDoorEvent)
        ensures
            event == if value == 0 {
                DeviceDoorEvent::Connected
            } else {
                DeviceDoorEvent::Disconnected
            },
    {
        if value == 0 {
            DeviceDoorEvent::Connected
        } else {
            DeviceDoorEvent::Disconnected
        }
    }

    /// What to do with the door when the controller shuts down: lock it.
    pub fn shutdown(&mut self) -> (level: Option<RelayLevel>)
        ensures
            final(self).is_locked,
            final(self).config == old(self).config,
            level == if old(self).is_locked {
                None
            } else {
                Some(RelayLevel::High)
            },
    {
        self.lock()
    }
}

} // verus!
