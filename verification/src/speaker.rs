//! The speaker: one pending beep, queued by the processor and taken by the
//! driver once per step.

use vstd::prelude::*;

verus! {

/// The interface the processor and the driver use to reach the speaker.
///
/// The view of a speaker says whether a beep is waiting to be played.
pub trait SpeakerTrait: View<V = bool> {
    /// Asks for one beep. Asking again before it was taken asks for no more.
    fn queue_beep(&mut self)
        ensures
            final(self)@,
    ;

    /// Takes the pending beep, if there is one: returns whether the caller
    /// has a beep to play, and leaves none pending.
    fn flush_queue(&mut self) -> (beep: bool)
        ensures
            beep == old(self)@,
            !final(self)@,
    ;

    /// Drops the pending beep unplayed.
    fn clear_queue(&mut self)
        ensures
            !final(self)@,
    ;
}

/// The speaker of the machine: whether a beep is waiting to be played.
pub struct Speaker {
    play_beep: bool,
}

impl View for Speaker {
    type V = bool;

    closed spec fn view(&self) -> bool {
        self.play_beep
    }
}

impl SpeakerTrait for Speaker {
    fn queue_beep(&mut self) {
        self.play_beep = true;
    }

    fn flush_queue(&mut self) -> (beep: bool) {
        let beep = self.play_beep;
        self.play_beep = false;
        beep
    }

    fn clear_queue(&mut self) {
        self.play_beep = false;
    }
}

impl Speaker {
    /// A speaker with no beep pending.
    pub fn new() -> (speaker: Speaker)
        ensures
            !speaker@,
    {
        Speaker { play_beep: false }
    }
}

} // verus!
