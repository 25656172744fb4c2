//! Alert tone selection: the mapping between console request codes and the
//! three alert patterns the speaker plays.

use vstd::prelude::*;

verus! {

/// The three alert patterns, by rising urgency.
#[derive(Clone, Copy, Debug, PartialEq, Eq, Structural)]
pub enum AlertTone {
    Advisory,
    Watch,
    Warning,
}

impl AlertTone {
    /// Decode a console request code; codes outside the known range yield
    /// nothing.
    pub fn from_request(v: i8) -> (r: Option<Self>)
        ensures
            r == (if v == 0 {
                Some(AlertTone::Advisory)
            } else if v == 1 {
                Some(AlertTone::Watch)
            } else if v == 2 {
                Some(AlertTone::Warning)
            } else {
                None::<AlertTone>
            }),
    {
        match v {
            0 => Some(Self::Advisory),
            1 => Some(Self::Watch),
            2 => Some(Self::Warning),
            _ => None,
        }
    }

    /// Display label of the tone.
    pub fn as_str(self) -> (r: &'static str)
        ensures
            self is Advisory ==> r@ == "advisory"@,
            self is Watch ==> r@ == "watch"@,
            self is Warning ==> r@ == "warning"@,
    {
        match self {
            AlertTone::Advisory => "advisory",
            AlertTone::Watch => "watch",
            AlertTone::Warning => "warning",
        }
    }
}

} // verus!
