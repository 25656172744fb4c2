//! Console-driven debug switches and pending one-shot requests. They are
//! held in an explicit value the caller owns and threads through, so the
//! console handler and the main loop stay independently testable; the
//! caller serializes access.

use vstd::prelude::*;
use vstd::string::StringExecFns;

verus! {

/// Which debug log stream a console toggle addresses.
#[derive(Clone, Copy, Debug, PartialEq, Eq, Structural)]
pub enum DebugFlag {
    Touch,
    Bme280,
    Wifi,
    Weather,
    Imu,
}

/// Screen orientation a console command can request.
#[derive(Clone, Copy, Debug, PartialEq, Eq, Structural)]
pub enum OrientationMode {
    Auto,
    Landscape,
    Portrait,
}

/// The debug switches plus the pending requests the main loop polls.
/// A request slot holds a small non-negative code while a request is
/// pending and -1 when none is.
#[derive(Clone, Copy, Debug, PartialEq, Eq, Structural)]
pub struct DebugFlags {
    pub touch: bool,
    pub bme280: bool,
    pub wifi: bool,
    pub weather: bool,
    pub imu: bool,
    pub orientation_mode: i8,
    pub orientation_flip: i8,
    pub beep_tone: i8,
    pub beep_stop: bool,
}

/// The switch `flag` selects.
pub open spec fn flag_value(f: DebugFlags, flag: DebugFlag) -> bool {
    match flag {
        DebugFlag::Touch => f.touch,
        DebugFlag::Bme280 => f.bme280,
        DebugFlag::Wifi => f.wifi,
        DebugFlag::Weather => f.weather,
        DebugFlag::Imu => f.imu,
    }
}

/// `b` differs from `a` at most in the switch `flag` selects.
pub open spec fn only_flag_changed(a: DebugFlags, b: DebugFlags, flag: DebugFlag) -> bool {
    &&& (forall|other: DebugFlag| other != flag ==> flag_value(b, other) == flag_value(a, other))
    &&& b.orientation_mode == a.orientation_mode
    &&& b.orientation_flip == a.orientation_flip
    &&& b.beep_tone == a.beep_tone
    &&& b.beep_stop == a.beep_stop
}

/// The debug switches of `b` equal those of `a`.
pub open spec fn switches_unchanged(a: DebugFlags, b: DebugFlags) -> bool {
    &&& b.touch == a.touch
    &&& b.bme280 == a.bme280
    &&& b.wifi == a.wifi
    &&& b.weather == a.weather
    &&& b.imu == a.imu
}

/// The wire code of an orientation request.
pub open spec fn orientation_code(mode: OrientationMode) -> i8 {
    match mode {
        OrientationMode::Auto => 0,
        OrientationMode::Landscape => 1,
        OrientationMode::Portrait => 2,
    }
}

/// "ON" when set, "off" when clear, as a status line writes it.
pub open spec fn on_off(b: bool) -> Seq<char> {
    if b {
        "ON"@
    } else {
        "off"@
    }
}

impl DebugFlags {
    /// Everything off, nothing requested.
    pub fn new() -> (r: DebugFlags)
        ensures
            r == (DebugFlags {
                touch: false,
                bme280: false,
                wifi: false,
                weather: false,
                imu: false,
                orientation_mode: -1i8,
                orientation_flip: -1i8,
                beep_tone: -1i8,
                beep_stop: false,
            }),
    {
        DebugFlags {
            touch: false,
            bme280: false,
            wifi: false,
            weather: false,
            imu: false,
            orientation_mode: -1,
            orientation_flip: -1,
            beep_tone: -1,
            beep_stop: false,
        }
    }

    /// Whether a debug switch is on.
    pub fn is_on(&self, flag: DebugFlag) -> (r: bool)
        ensures
            r == flag_value(*self, flag),
    {
        match flag {
            DebugFlag::Touch => self.touch,
            DebugFlag::Bme280 => self.bme280,
            DebugFlag::Wifi => self.wifi,
            DebugFlag::Weather => self.weather,
            DebugFlag::Imu => self.imu,
        }
    }

    /// Set one debug switch.
    pub fn set(&mut self, flag: DebugFlag, val: bool)
        ensures
            flag_value(*final(self), flag) == val,
            only_flag_changed(*old(self), *final(self), flag),
    {
        match flag {
            DebugFlag::Touch => self.touch = val,
            DebugFlag::Bme280 => self.bme280 = val,
            DebugFlag::Wifi => self.wifi = val,
            DebugFlag::Weather => self.weather = val,
            DebugFlag::Imu => self.imu = val,
        }
    }

    /// Flip one debug switch; returns the new value.
    pub fn toggle(&mut self, flag: DebugFlag) -> (r: bool)
        ensures
            r == !flag_value(*old(self), flag),
            flag_value(*final(self), flag) == r,
            only_flag_changed(*old(self), *final(self), flag),
    {
        let old_val = self.is_on(flag);
        self.set(flag, !old_val);
        !old_val
    }

    /// One-line report of all debug switches.
    pub fn status_line(&self) -> (r: String)
        ensures
            r@ == "touch="@ + on_off(self.touch) + " bme280="@ + on_off(self.bme280) + " wifi="@
                + on_off(self.wifi) + " weather="@ + on_off(self.weather) + " imu="@ + on_off(
                self.imu,
            ),
    {
        let mut line = String::new();
        line.append("touch=");
        line.append(if self.touch {
            "ON"
        } else {
            "off"
        });
        line.append(" bme280=");
        line.append(if self.bme280 {
            "ON"
        } else {
            "off"
        });
        line.append(" wifi=");
        line.append(if self.wifi {
            "ON"
        } else {
            "off"
        });
        line.append(" weather=");
        line.append(if self.weather {
            "ON"
        } else {
            "off"
        });
        line.append(" imu=");
        line.append(if self.imu {
            "ON"
        } else {
            "off"
        });
        line
    }

    /// Ask the main loop to switch orientation handling.
    pub fn request_orientation_mode(&mut self, mode: OrientationMode)
        ensures
            *final(self) == (DebugFlags {
                orientation_mode: orientation_code(mode),
                ..*old(self)
            }),
    {
        self.orientation_mode = match mode {
            OrientationMode::Auto => 0,
            OrientationMode::Landscape => 1,
            OrientationMode::Portrait => 2,
        };
    }

    /// Take a pending orientation request, clearing the slot; a code
    /// outside the known range yields nothing.
    pub fn take_orientation_mode_request(&mut self) -> (r: Option<OrientationMode>)
        ensures
            *final(self) == (DebugFlags { orientation_mode: -1i8, ..*old(self) }),
            r == (if old(self).orientation_mode == 0 {
                Some(OrientationMode::Auto)
            } else if old(self).orientation_mode == 1 {
                Some(OrientationMode::Landscape)
            } else if old(self).orientation_mode == 2 {
                Some(OrientationMode::Portrait)
            } else {
                None::<OrientationMode>
            }),
    {
        let v = self.orientation_mode;
        self.orientation_mode = -1;
        match v {
            0 => Some(OrientationMode::Auto),
            1 => Some(OrientationMode::Landscape),
            2 => Some(OrientationMode::Portrait),
            _ => None,
        }
    }

    /// Ask the main loop to flip the screen.
    pub fn request_orientation_flip(&mut self, flip: bool)
        ensures
            *final(self) == (DebugFlags {
                orientation_flip: if flip {
                    1i8
                } else {
                    0i8
                },
                ..*old(self)
            }),
    {
        self.orientation_flip = if flip {
            1
        } else {
            0
        };
    }

    /// Take a pending flip request, clearing the slot.
    pub fn take_orientation_flip_request(&mut self) -> (r: Option<bool>)
        ensures
            *final(self) == (DebugFlags { orientation_flip: -1i8, ..*old(self) }),
            r == (if old(self).orientation_flip == 0 {
                Some(false)
            } else if old(self).orientation_flip == 1 {
                Some(true)
            } else {
                None::<bool>
            }),
    {
        let v = self.orientation_flip;
        self.orientation_flip = -1;
        match v {
            0 => Some(false),
            1 => Some(true),
            _ => None,
        }
    }

    /// Ask the speaker task for a tone, cancelling any pending stop.
    pub fn request_beep_tone(&mut self, tone: i8)
        ensures
            *final(self) == (DebugFlags { beep_tone: tone, beep_stop: false, ..*old(self) }),
    {
        self.beep_stop = false;
        self.beep_tone = tone;
    }

    /// Take a pending tone request, clearing the slot; only the three known
    /// tone codes yield one.
    pub fn take_beep_tone_request(&mut self) -> (r: Option<i8>)
        ensures
            *final(self) == (DebugFlags { beep_tone: -1i8, ..*old(self) }),
            r == (if 0 <= old(self).beep_tone <= 2 {
                Some(old(self).beep_tone)
            } else {
                None::<i8>
            }),
    {
        let v = self.beep_tone;
        self.beep_tone = -1;
        if 0 <= v && v <= 2 {
            Some(v)
        } else {
            None
        }
    }

    /// Ask the speaker task to stop.
    pub fn request_beep_stop(&mut self)
        ensures
            *final(self) == (DebugFlags { beep_stop: true, ..*old(self) }),
    {
        self.beep_stop = true;
    }

    /// Take a pending stop request, clearing it.
    pub fn take_beep_stop_request(&mut self) -> (r: bool)
        ensures
            r == old(self).beep_stop,
            *final(self) == (DebugFlags { beep_stop: false, ..*old(self) }),
    {
        let v = self.beep_stop;
        self.beep_stop = false;
        v
    }
}

} // verus!
