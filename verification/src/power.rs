//! The sensor task: it sets the power sensor up, and then, once in every
//! period, either takes up a new range that was asked for or sends a sample to
//! the render loop.
//!
//! The task is run by carrying out the action that [`handle_power_start`]
//! names, then telling [`handle_power`] what happened and carrying out the
//! action that it names, and so on.

use vstd::prelude::*;
use crate::input::{Calibration, InputData, InputDataView, PowerMonitor};

verus! {

/// The time from one sample to the next, in milliseconds.
pub const SAMPLE_PERIOD_MS: u64 = 1000;

/// The time that the sensor is given after a change of its range, in
/// milliseconds.
pub const SETTLING_MS: u64 = 2000;

/// Where the sensor task stands.
#[derive(Clone, Copy, Debug, PartialEq, Eq, Structural)]
pub enum PollerState {
    /// The sensor is being set up with the first range.
    Initializing,
    /// A period has begun: the task looks whether a range was asked for.
    Checking,
    /// The sensor is being set up with a range that was asked for.
    Reinitializing(Calibration),
    /// The sensor is given time after the change of its range.
    Settling,
    /// A sample is being taken.
    Sampling,
    /// The sample is being sent to the render loop.
    Publishing(PowerMonitor),
    /// The task waits for the next period.
    Waiting,
    /// The sensor could not be set up. The task has ended.
    Stopped,
}

/// What happened to the sensor task.
#[derive(Clone, Copy, Debug, PartialEq, Eq, Structural)]
pub enum PollerEvent {
    /// The sensor was set up, or could not be.
    Initialized(bool),
    /// The range that was asked for since the task looked last, if any.
    Requested(Option<Calibration>),
    /// The time for settling is over.
    Settled,
    /// The sample that was taken, or none where the sensor failed.
    Sampled(Option<PowerMonitor>),
    /// The render loop has taken the sample.
    Sent,
    /// The next period has begun.
    Tick,
}

/// What the sensor task does next.
#[derive(Clone, Debug, PartialEq, Eq)]
pub enum PollerAction {
    /// Set the sensor up with this range.
    Initialize(Calibration),
    /// Look whether a range was asked for, and take it.
    TakeRequest,
    /// Wait for so many milliseconds.
    Settle(u64),
    /// Take a sample.
    Sample,
    /// Send this message to the render loop, waiting until it is taken.
    Send(InputData),
    /// Wait for the next period to begin; a period lasts so many milliseconds.
    WaitForTick(u64),
    /// End the task.
    Stop,
}

/// What a [`PollerAction`] says.
pub enum PollerActionView {
    Initialize(Calibration),
    TakeRequest,
    Settle(u64),
    Sample,
    Send(InputDataView),
    WaitForTick(u64),
    Stop,
}

impl View for PollerAction {
    type V = PollerActionView;

    open spec fn view(&self) -> PollerActionView {
        match self {
            PollerAction::Initialize(calibration) => PollerActionView::Initialize(*calibration),
            PollerAction::TakeRequest => PollerActionView::TakeRequest,
            PollerAction::Settle(millis) => PollerActionView::Settle(*millis),
            PollerAction::Sample => PollerActionView::Sample,
            PollerAction::Send(input) => PollerActionView::Send(input@),
            PollerAction::WaitForTick(millis) => PollerActionView::WaitForTick(*millis),
            PollerAction::Stop => PollerActionView::Stop,
        }
    }
}

/// Where the task stands after the event.
///
/// If the sensor cannot be set up at the start, the task ends. In every
/// period the task first looks for a range that was asked for. Where one was,
/// it sets the sensor up with that range and gives it time to settle, whether
/// or not the sensor took the range; no sample is taken in that period. Where
/// none was, it takes one sample. A sample is sent; a failure to take one is
/// passed over. Then the task waits for the next period. What does not answer
/// the action of the state changes nothing.
pub open spec fn poller_next(state: PollerState, event: PollerEvent) -> PollerState {
    match (state, event) {
        (PollerState::Initializing, PollerEvent::Initialized(true)) => PollerState::Checking,
        (PollerState::Initializing, PollerEvent::Initialized(false)) => PollerState::Stopped,
        (PollerState::Checking, PollerEvent::Requested(Some(calibration))) => {
            PollerState::Reinitializing(calibration)
        },
        (PollerState::Checking, PollerEvent::Requested(None)) => PollerState::Sampling,
        (PollerState::Reinitializing(_), PollerEvent::Initialized(_)) => PollerState::Settling,
        (PollerState::Settling, PollerEvent::Settled) => PollerState::Waiting,
        (PollerState::Sampling, PollerEvent::Sampled(Some(power))) => PollerState::Publishing(power),
        (PollerState::Sampling, PollerEvent::Sampled(None)) => PollerState::Waiting,
        (PollerState::Publishing(_), PollerEvent::Sent) => PollerState::Waiting,
        (PollerState::Waiting, PollerEvent::Tick) => PollerState::Checking,
        _ => state,
    }
}

/// What the task does in the state.
pub open spec fn poller_action(state: PollerState) -> PollerActionView {
    match state {
        PollerState::Initializing => PollerActionView::Initialize(Calibration::Range32V2A),
        PollerState::Checking => PollerActionView::TakeRequest,
        PollerState::Reinitializing(calibration) => PollerActionView::Initialize(calibration),
        PollerState::Settling => PollerActionView::Settle(SETTLING_MS),
        PollerState::Sampling => PollerActionView::Sample,
        PollerState::Publishing(power) => PollerActionView::Send(InputDataView::sampled(power)),
        PollerState::Waiting => PollerActionView::WaitForTick(SAMPLE_PERIOD_MS),
        PollerState::Stopped => PollerActionView::Stop,
    }
}

/// Whether the event is the one that the state's action ends with.
pub open spec fn poller_expects(state: PollerState, event: PollerEvent) -> bool {
    match (state, event) {
        (PollerState::Initializing, PollerEvent::Initialized(_)) => true,
        (PollerState::Checking, PollerEvent::Requested(_)) => true,
        (PollerState::Reinitializing(_), PollerEvent::Initialized(_)) => true,
        (PollerState::Settling, PollerEvent::Settled) => true,
        (PollerState::Sampling, PollerEvent::Sampled(_)) => true,
        (PollerState::Publishing(_), PollerEvent::Sent) => true,
        (PollerState::Waiting, PollerEvent::Tick) => true,
        _ => false,
    }
}

/// A task that sends a sample goes on only when the render loop has taken it,
/// and then waits for the next period. Only a failure at the start ends the
/// task: once the sensor has been set up, no event does. And a failure to take
/// a sample leads to the wait for the next period without anything being sent.
/// A sample is taken only in a period in which no range was asked for.
pub proof fn lemma_poller_degrades(state: PollerState, event: PollerEvent)
    ensures
        state is Publishing && poller_next(state, event) != state ==> event == PollerEvent::Sent
            && poller_next(state, event) == PollerState::Waiting,
        poller_next(state, event) == PollerState::Stopped ==> state == PollerState::Stopped || (
        state == PollerState::Initializing && event == PollerEvent::Initialized(false)),
        poller_next(PollerState::Sampling, PollerEvent::Sampled(None)) == PollerState::Waiting,
        poller_next(state, event) is Publishing ==> state is Publishing || (state
            == PollerState::Sampling && event is Sampled),
        poller_next(state, event) == PollerState::Sampling ==> state == PollerState::Sampling || (
        state == PollerState::Checking && event == PollerEvent::Requested(None)),
{
}

/// The action that the state calls for.
fn action_of(state: PollerState) -> (action: PollerAction)
    ensures
        action@ == poller_action(state),
{
    match state {
        PollerState::Initializing => PollerAction::Initialize(Calibration::Range32V2A),
        PollerState::Checking => PollerAction::TakeRequest,
        PollerState::Reinitializing(calibration) => PollerAction::Initialize(calibration),
        PollerState::Settling => PollerAction::Settle(SETTLING_MS),
        PollerState::Sampling => PollerAction::Sample,
        PollerState::Publishing(power) => PollerAction::Send(InputData::with_power(power)),
        PollerState::Waiting => PollerAction::WaitForTick(SAMPLE_PERIOD_MS),
        PollerState::Stopped => PollerAction::Stop,
    }
}

/// The state in which the sensor task starts, and its first action: to set the
/// sensor up with the range of 32 volts and 2 amperes.
pub fn handle_power_start() -> (start: (PollerState, PollerAction))
    ensures
        start.0 == PollerState::Initializing,
        start.1@ == poller_action(PollerState::Initializing),
{
    (PollerState::Initializing, action_of(PollerState::Initializing))
}

/// One step of the sensor task: where it stands after the event, and what it
/// does next. No action is named where the event is not the one that the
/// state waits for: then the task goes on with what it was doing.
pub fn handle_power(state: PollerState, event: PollerEvent) -> (step: (
    PollerState,
    Option<PollerAction>,
))
    ensures
        step.0 == poller_next(state, event),
        !poller_expects(state, event) ==> step.0 == state && step.1.is_none(),
        poller_expects(state, event) ==> step.1.is_some() && step.1.unwrap()@ == poller_action(
            step.0,
        ),
{
    let next = match (state, event) {
        (PollerState::Initializing, PollerEvent::Initialized(true)) => Some(PollerState::Checking),
        (PollerState::Initializing, PollerEvent::Initialized(false)) => Some(PollerState::Stopped),
        (PollerState::Checking, PollerEvent::Requested(Some(calibration))) => Some(
            PollerState::Reinitializing(calibration),
        ),
        (PollerState::Checking, PollerEvent::Requested(None)) => Some(PollerState::Sampling),
        (PollerState::Reinitializing(_), PollerEvent::Initialized(_)) => Some(PollerState::Settling),
        (PollerState::Settling, PollerEvent::Settled) => Some(PollerState::Waiting),
        (PollerState::Sampling, PollerEvent::Sampled(Some(power))) => Some(
            PollerState::Publishing(power),
        ),
        (PollerState::Sampling, PollerEvent::Sampled(None)) => Some(PollerState::Waiting),
        (PollerState::Publishing(_), PollerEvent::Sent) => Some(PollerState::Waiting),
        (PollerState::Waiting, PollerEvent::Tick) => Some(PollerState::Checking),
        _ => None,
    };
    match next {
        Some(next) => (next, Some(action_of(next))),
        None => (state, None),
    }
}

} // verus!
