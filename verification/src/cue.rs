//! The audio-cue dispatch policy: which cue, if any, a `(status, remaining)`
//! snapshot asks for, and the resource each cue is bound to.

use vstd::prelude::*;
use crate::engine::Clock;
use crate::engine::Status;

verus! {

/// One audio cue per designated threshold of the work phase, plus the cue that
/// announces the next phase at the end of the rest phase.
#[derive(Clone, Copy, PartialEq, Eq, Structural, Debug)]
pub enum Cue {
    /// 90 seconds left in the work phase.
    T90,
    /// 60 seconds left in the work phase.
    T60,
    /// 30 seconds left in the work phase.
    T30,
    /// 10 seconds left in the work phase.
    T10,
    /// 5 seconds left in the work phase.
    T5,
    /// Work phase over; the rest phase begins.
    PhaseEnd,
    /// Rest phase over; the next work phase is due.
    NextPhase,
}

/// The dispatch policy over a snapshot: a work-phase threshold cue while
/// `Running`, the next-phase cue when the rest phase reaches zero, and no cue
/// in every other combination.
pub open spec fn cue_for(status: Status, remaining: usize) -> Option<Cue> {
    if status == Status::Running {
        if remaining == 90 {
            Some(Cue::T90)
        } else if remaining == 60 {
            Some(Cue::T60)
        } else if remaining == 30 {
            Some(Cue::T30)
        } else if remaining == 10 {
            Some(Cue::T10)
        } else if remaining == 5 {
            Some(Cue::T5)
        } else if remaining == 0 {
            Some(Cue::PhaseEnd)
        } else {
            None
        }
    } else if status == Status::RestRunning && remaining == 0 {
        Some(Cue::NextPhase)
    } else {
        None
    }
}

/// The audio resource bound to a cue, as a path relative to the application's
/// working directory.
pub open spec fn cue_path(c: Cue) -> Seq<char> {
    match c {
        Cue::T90 => "assets/audio/90.mp3"@,
        Cue::T60 => "assets/audio/60.mp3"@,
        Cue::T30 => "assets/audio/30.mp3"@,
        Cue::T10 => "assets/audio/10.mp3"@,
        Cue::T5 => "assets/audio/05.mp3"@,
        Cue::PhaseEnd => "assets/audio/rest.mp3"@,
        Cue::NextPhase => "assets/audio/next.mp3"@,
    }
}

impl Cue {
    /// The relative path of this cue's audio resource.
    pub fn file_path(&self) -> (r: &'static str)
        ensures
            r@ == cue_path(*self),
    {
        match self {
            Cue::T90 => "assets/audio/90.mp3",
            Cue::T60 => "assets/audio/60.mp3",
            Cue::T30 => "assets/audio/30.mp3",
            Cue::T10 => "assets/audio/10.mp3",
            Cue::T5 => "assets/audio/05.mp3",
            Cue::PhaseEnd => "assets/audio/rest.mp3",
            Cue::NextPhase => "assets/audio/next.mp3",
        }
    }
}

impl Clock {
    /// The cue to request this poll cycle, given whether the backing player
    /// still reports a cue as playing. At most one cue plays concurrently: a
    /// request made while one is playing is dropped, not queued and not
    /// restarted.
    pub fn voice_broadcast(&self, playing: bool) -> (r: Option<Cue>)
        ensures
            playing ==> r is None,
            !playing ==> r == cue_for(self.status, self.remaining),
    {
        if playing {
            None
        } else if self.status == Status::Running {
            if self.remaining == 90 {
                Some(Cue::T90)
            } else if self.remaining == 60 {
                Some(Cue::T60)
            } else if self.remaining == 30 {
                Some(Cue::T30)
            } else if self.remaining == 10 {
                Some(Cue::T10)
            } else if self.remaining == 5 {
                Some(Cue::T5)
            } else if self.remaining == 0 {
                Some(Cue::PhaseEnd)
            } else {
                None
            }
        } else if self.status == Status::RestRunning && self.remaining == 0 {
            Some(Cue::NextPhase)
        } else {
            None
        }
    }
}

} // verus!
