use crate::render::{spec_emph, spec_term_chars, spec_term_chars_styled};
use crate::state::PassedTime;
use crate::timespan::TimeSpan;
use vstd::prelude::*;

verus! {

/// The driver loop's state machine: it runs until the cancellation signal
/// has fired, and `Stopped` is terminal.
#[derive(Clone, Copy, Debug, PartialEq, Eq, Structural)]
pub enum DriverState {
    Running,
    Stopped,
}

impl DriverState {
    /// One cancellation poll: `Running` stays `Running` until the signal
    /// has fired, and no state ever leaves `Stopped`. The loop therefore
    /// exits on the first poll after the signal, at most one poll interval
    /// after it was published.
    pub fn step(self, cancelled: bool) -> (r: DriverState)
        ensures
            r == (if self == DriverState::Stopped || cancelled {
                DriverState::Stopped
            } else {
                DriverState::Running
            }),
    {
        match self {
            DriverState::Stopped => DriverState::Stopped,
            DriverState::Running => if cancelled {
                DriverState::Stopped
            } else {
                DriverState::Running
            },
        }
    }
}

/// One render cycle: take the snapshot for the elapsed time and format the
/// full status line for the current terminal width. The caller writes the
/// line, polls the cancellation signal, and sleeps.
pub fn render_cycle(passed: TimeSpan, entire: TimeSpan, width: usize) -> (r: String)
    requires
        passed.millis >= 0,
        entire.millis >= 0,
    ensures
        !spec_emph(passed.millis as int, entire.millis as int) ==> r@ == spec_term_chars(
            passed.millis as int,
            entire.millis as int,
            width as int,
        ),
        spec_emph(passed.millis as int, entire.millis as int) ==> (r@ == spec_term_chars(
            passed.millis as int,
            entire.millis as int,
            width as int,
        ) || r@ == spec_term_chars_styled(passed.millis as int, entire.millis as int, width as int)),
{
    let snapshot = PassedTime::new(passed, entire);
    snapshot.format_term(width)
}

} // verus!
