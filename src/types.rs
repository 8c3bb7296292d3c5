use vstd::prelude::*;

use crate::time::ZonedInstant;

verus! {

/// What a change point's hour and minute are measured from, where they are
/// not a wall-clock time.
#[derive(Clone, Copy, Debug, PartialEq, Eq, Structural)]
pub enum FromRefTime {
    Sunset,
}

/// What the light does from a change point on.
#[derive(Clone, Copy, Debug, PartialEq, Eq, Structural)]
pub enum Action {
    /// Show a colour: fade toward the next point if that is a colour too.
    Color,
    /// Do nothing further.
    Stop,
}

/// Whether two strings hold the same characters.
fn same_text(a: &str, b: &str) -> (r: bool)
    ensures
        r == (a@ == b@),
{
    let a = a.to_owned();
    let b = b.to_owned();
    a == b
}

impl FromRefTime {
    /// The configuration token of this anchor.
    pub fn token(&self) -> (r: &'static str)
        ensures
            r@ == "sunset"@,
    {
        match self {
            FromRefTime::Sunset => "sunset",
        }
    }

    /// The anchor that a configuration token names, if any.
    pub fn from_token(s: &str) -> (r: Option<FromRefTime>)
        ensures
            r == (if s@ == "sunset"@ {
                Some(FromRefTime::Sunset)
            } else {
                None
            }),
    {
        if same_text(s, "sunset") {
            Some(FromRefTime::Sunset)
        } else {
            None
        }
    }
}

impl Action {
    /// The configuration token of this action.
    pub fn token(&self) -> (r: &'static str)
        ensures
            r@ == (match self {
                Action::Color => "color"@,
                Action::Stop => "stop"@,
            }),
    {
        match self {
            Action::Color => "color",
            Action::Stop => "stop",
        }
    }

    /// The action that a configuration token names, if any.
    pub fn from_token(s: &str) -> (r: Option<Action>)
        ensures
            r == (if s@ == "color"@ {
                Some(Action::Color)
            } else if s@ == "stop"@ {
                Some(Action::Stop)
            } else {
                None
            }),
    {
        if same_text(s, "color") {
            Some(Action::Color)
        } else if same_text(s, "stop") {
            Some(Action::Stop)
        } else {
            None
        }
    }
}

/// The change a point makes. A colour needs both `mirek` and `brightness`
/// by the time it is blended.
#[derive(Clone, Copy, Debug, PartialEq, Eq, Structural)]
pub struct ChangeItem {
    pub action: Action,
    pub mirek: Option<u16>,
    pub brightness: Option<u8>,
}

/// A change point as configured.
///
/// Without `from`, `hour` and `minute` are a wall-clock time of the day;
/// with `from: Sunset` they are a signed offset from that day's sunset.
/// Either defaults to zero.
#[derive(Clone, Copy, Debug, PartialEq, Eq, Structural)]
pub struct RawScheduleItem {
    pub hour: Option<i8>,
    pub minute: Option<i8>,
    pub from: Option<FromRefTime>,
    pub change: ChangeItem,
}

impl RawScheduleItem {
    pub open spec fn hour_or_zero(self) -> i8 {
        match self.hour {
            Some(h) => h,
            None => 0,
        }
    }

    pub open spec fn minute_or_zero(self) -> i8 {
        match self.minute {
            Some(m) => m,
            None => 0,
        }
    }
}

/// A change point resolved to an instant of one particular day.
#[derive(Clone, Copy, Debug, PartialEq, Eq, Structural)]
pub struct ProcessedScheduleItem {
    pub time: ZonedInstant,
    pub change: ChangeItem,
}

/// What the light should be doing at an instant.
#[derive(Clone, Copy, Debug, PartialEq, Eq, Structural)]
pub enum ChangeAction {
    /// Leave the light alone.
    NoChange,
    Color { mirek: u16, brightness: u8 },
}

} // verus!
