use vstd::prelude::*;
use crate::parse::{ParseError, battery_in, json_of};
use crate::raster::RenderError;
use crate::reading::BatteryReading;

verus! {

/// Why the daemon stops.
#[derive(Clone, Copy, Debug, PartialEq, Eq, Hash, Structural)]
pub enum DaemonError {
    /// The device tool could not be run.
    ExternalToolError,
    /// The tool's output gave no reading.
    Parse(ParseError),
    /// The icon could not be drawn.
    Render(RenderError),
}

/// What the refresh loop does after a poll.
#[derive(Clone, Copy, Debug, PartialEq, Eq, Hash, Structural)]
pub enum PollAction {
    /// The reading is unchanged: nothing to publish.
    Keep,
    /// A new reading replaces the published one.
    Publish(BatteryReading),
    /// Polling failed; every failure ends the daemon.
    Abort(DaemonError),
}

pub open spec fn action_of(current: BatteryReading, polled: Result<BatteryReading, DaemonError>) -> PollAction {
    match polled {
        Ok(r) => if r == current {
            PollAction::Keep
        } else {
            PollAction::Publish(r)
        },
        Err(e) => PollAction::Abort(e),
    }
}

/// Decides, from the published reading and the outcome of a poll, whether to
/// publish a new reading, keep the current one, or stop.
pub fn next_action(current: &BatteryReading, polled: Result<BatteryReading, DaemonError>) -> (a: PollAction)
    ensures
        a == action_of(*current, polled),
{
    match polled {
        Ok(r) => {
            if r == *current {
                PollAction::Keep
            } else {
                PollAction::Publish(r)
            }
        },
        Err(e) => PollAction::Abort(e),
    }
}

/// A launch failure of the tool, or the reading parsed from its output with
/// a parse error passed on unchanged.
pub open spec fn outcome_of(launched: bool, stdout: Seq<u8>) -> Result<BatteryReading, DaemonError> {
    if !launched {
        Err(DaemonError::ExternalToolError)
    } else {
        match battery_in(json_of(stdout)) {
            Ok(b) => Ok(b),
            Err(e) => Err(DaemonError::Parse(e)),
        }
    }
}

/// The outcome of one poll: a launch failure of the tool, or its output parsed.
pub fn poll_outcome(launched: bool, stdout: &[u8]) -> (r: Result<BatteryReading, DaemonError>)
    ensures
        r == outcome_of(launched, stdout@),
        launched && stdout@.len() == 0 ==> r == Err::<BatteryReading, DaemonError>(
            DaemonError::Parse(ParseError::DecodeError),
        ),
{
    if !launched {
        return Err(DaemonError::ExternalToolError);
    }
    match crate::parse::parse_battery(stdout) {
        Ok(b) => Ok(b),
        Err(e) => Err(DaemonError::Parse(e)),
    }
}

} // verus!
