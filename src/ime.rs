use vstd::prelude::*;

verus! {

/// Classification of the active keyboard input source.
#[derive(Debug, Clone, Copy, PartialEq, Eq, Structural)]
pub enum ImeState {
    /// A non-Latin composition source is selected.
    On,
    /// An ASCII-capable source is selected.
    Off,
    /// The source could not be classified.
    Unknown,
}

/// Numeric code of a state, as carried between threads.
pub open spec fn code_of(s: ImeState) -> u8 {
    match s {
        ImeState::On => 1,
        ImeState::Off => 0,
        ImeState::Unknown => 2,
    }
}

impl ImeState {
    pub fn code(self) -> (r: u8)
        ensures
            r == code_of(self),
    {
        match self {
            ImeState::On => 1,
            ImeState::Off => 0,
            ImeState::Unknown => 2,
        }
    }
}

/// What the platform reported about its input sources during one probe.
#[derive(Debug, Clone, Copy, PartialEq, Eq, Structural)]
pub struct SourceReport {
    /// A current keyboard input source exists.
    pub has_current: bool,
    /// The system's ASCII-capable source, if found: whether it is the current one.
    pub current_is_ascii_source: Option<bool>,
    /// The current source's own "is ASCII capable" flag, if present.
    pub current_ascii_flag: Option<bool>,
}

pub open spec fn classify(r: SourceReport) -> ImeState {
    if !r.has_current {
        ImeState::Unknown
    } else {
        match r.current_is_ascii_source {
            Some(same) => if same { ImeState::Off } else { ImeState::On },
            None => match r.current_ascii_flag {
                Some(true) => ImeState::Off,
                Some(false) => ImeState::On,
                None => ImeState::Unknown,
            },
        }
    }
}

/// Classifies the input-source state from what the platform reported.
/// A platform without this introspection reports no current source and
/// gets `Unknown`.
pub fn current_state(report: &SourceReport) -> (r: ImeState)
    ensures
        r == classify(*report),
        !report.has_current ==> r == ImeState::Unknown,
{
    if !report.has_current {
        return ImeState::Unknown;
    }
    match report.current_is_ascii_source {
        Some(same) => if same { ImeState::Off } else { ImeState::On },
        None => match report.current_ascii_flag {
            Some(true) => ImeState::Off,
            Some(false) => ImeState::On,
            None => ImeState::Unknown,
        },
    }
}

} // verus!
