//! The button tasks: each waits for its button, reports one press, and rests
//! for a while before it looks at the button again.
//!
//! A task is run by carrying out the action that [`button_start`] names, then
//! telling [`button_step`] what happened and carrying out the action that it
//! names, and so on.

use vstd::prelude::*;
use crate::input::{InputData, InputDataView};

verus! {

/// To which level a pin is pulled while its button is not pressed.
#[derive(Clone, Copy, Debug, PartialEq, Eq, Structural)]
pub enum Pull {
    Up,
    Down,
}

/// Which change of a pin's level counts as a press.
#[derive(Clone, Copy, Debug, PartialEq, Eq, Structural)]
pub enum EdgeKind {
    /// From high to low.
    Falling,
    /// From low to high.
    Rising,
    /// Either.
    Any,
}

/// How a button is wired and what its task does with it.
#[derive(Clone, Copy, Debug, PartialEq, Eq, Structural)]
pub struct ButtonConfig {
    /// The number under which presses are reported.
    pub button: i8,
    pub pull: Pull,
    pub edge: EdgeKind,
    /// How long the task rests after a press, in milliseconds.
    pub cooldown_ms: u64,
}

/// How long every button task rests after a press, in milliseconds.
pub const BUTTON_COOLDOWN_MS: u64 = 500;

/// Where a button task stands.
#[derive(Clone, Copy, Debug, PartialEq, Eq, Structural)]
pub enum ButtonState {
    /// Waiting for a press.
    Idle,
    /// A press was seen and is being reported.
    Emit,
    /// Resting; the button is not looked at.
    Cooldown,
    /// The pin failed. The task has ended.
    Stopped,
}

/// What happened to a button task.
#[derive(Clone, Copy, Debug, PartialEq, Eq, Structural)]
pub enum ButtonEvent {
    /// The pin changed its level in the way that counts as a press.
    EdgeDetected,
    /// The pin could not be read.
    PinFailed,
    /// The render loop has taken the report.
    Sent,
    /// The rest is over.
    CooldownElapsed,
}

/// What a button task does next.
#[derive(Clone, Debug, PartialEq, Eq)]
pub enum ButtonAction {
    /// Wait until the pin changes its level in this way.
    WaitForEdge(EdgeKind),
    /// Send this message to the render loop, waiting until it is taken.
    Send(InputData),
    /// Rest for so many milliseconds.
    Sleep(u64),
    /// End the task.
    Stop,
}

/// What a [`ButtonAction`] says.
pub enum ButtonActionView {
    WaitForEdge(EdgeKind),
    Send(InputDataView),
    Sleep(u64),
    Stop,
}

impl View for ButtonAction {
    type V = ButtonActionView;

    open spec fn view(&self) -> ButtonActionView {
        match self {
            ButtonAction::WaitForEdge(edge) => ButtonActionView::WaitForEdge(*edge),
            ButtonAction::Send(input) => ButtonActionView::Send(input@),
            ButtonAction::Sleep(millis) => ButtonActionView::Sleep(*millis),
            ButtonAction::Stop => ButtonActionView::Stop,
        }
    }
}

/// Where the task stands after the event. A press is seen only while the task
/// waits for one, and a failure of the pin ends the task only then. What does
/// not answer the action of the state changes nothing.
pub open spec fn button_next(state: ButtonState, event: ButtonEvent) -> ButtonState {
    match (state, event) {
        (ButtonState::Idle, ButtonEvent::EdgeDetected) => ButtonState::Emit,
        (ButtonState::Idle, ButtonEvent::PinFailed) => ButtonState::Stopped,
        (ButtonState::Emit, ButtonEvent::Sent) => ButtonState::Cooldown,
        (ButtonState::Cooldown, ButtonEvent::CooldownElapsed) => ButtonState::Idle,
        _ => state,
    }
}

/// What the task does in the state.
pub open spec fn button_action(config: ButtonConfig, state: ButtonState) -> ButtonActionView {
    match state {
        ButtonState::Idle => ButtonActionView::WaitForEdge(config.edge),
        ButtonState::Emit => ButtonActionView::Send(InputDataView::pressed(config.button)),
        ButtonState::Cooldown => ButtonActionView::Sleep(config.cooldown_ms),
        ButtonState::Stopped => ButtonActionView::Stop,
    }
}

/// The wiring of button 0: pulled up, pressed when the level falls.
pub open spec fn button_d0() -> ButtonConfig {
    ButtonConfig {
        button: 0,
        pull: Pull::Up,
        edge: EdgeKind::Falling,
        cooldown_ms: BUTTON_COOLDOWN_MS,
    }
}

/// The wiring of button 1: pulled down, pressed when the level rises.
pub open spec fn button_d1() -> ButtonConfig {
    ButtonConfig {
        button: 1,
        pull: Pull::Down,
        edge: EdgeKind::Rising,
        cooldown_ms: BUTTON_COOLDOWN_MS,
    }
}

/// The wiring of button 2: pulled down, pressed when the level rises.
pub open spec fn button_d2() -> ButtonConfig {
    ButtonConfig {
        button: 2,
        pull: Pull::Down,
        edge: EdgeKind::Rising,
        cooldown_ms: BUTTON_COOLDOWN_MS,
    }
}

/// A task that reports a press goes on only when the render loop has taken
/// the report. Between two reports lie the taking of the first and the end of
/// the rest: only these two events, in this order, lead back to waiting. No
/// press is seen during the rest, and a task that has ended stays ended.
pub proof fn lemma_one_report_per_press(first: ButtonEvent, second: ButtonEvent)
    ensures
        button_next(ButtonState::Emit, first) != ButtonState::Emit ==> first == ButtonEvent::Sent,
        button_next(ButtonState::Emit, first) != ButtonState::Idle,
        button_next(button_next(ButtonState::Emit, first), second) == ButtonState::Idle ==> first
            == ButtonEvent::Sent && second == ButtonEvent::CooldownElapsed,
        button_next(ButtonState::Cooldown, ButtonEvent::EdgeDetected) == ButtonState::Cooldown,
        button_next(ButtonState::Stopped, first) == ButtonState::Stopped,
{
}

/// The action that the state calls for.
fn action_of(config: &ButtonConfig, state: ButtonState) -> (action: ButtonAction)
    ensures
        action@ == button_action(*config, state),
{
    match state {
        ButtonState::Idle => ButtonAction::WaitForEdge(config.edge),
        ButtonState::Emit => ButtonAction::Send(InputData::with_button(config.button)),
        ButtonState::Cooldown => ButtonAction::Sleep(config.cooldown_ms),
        ButtonState::Stopped => ButtonAction::Stop,
    }
}

/// The state in which a button task starts, and its first action: to wait for
/// a press.
pub fn button_start(config: &ButtonConfig) -> (start: (ButtonState, ButtonAction))
    ensures
        start.0 == ButtonState::Idle,
        start.1@ == button_action(*config, ButtonState::Idle),
{
    (ButtonState::Idle, action_of(config, ButtonState::Idle))
}

/// One step of a button task: where it stands after the event, and what it
/// does next. No action is named where the event changed nothing: then the
/// task goes on with what it was doing.
pub fn button_step(config: &ButtonConfig, state: ButtonState, event: ButtonEvent) -> (step: (
    ButtonState,
    Option<ButtonAction>,
))
    ensures
        step.0 == button_next(state, event),
        step.0 == state ==> step.1.is_none(),
        step.0 != state ==> step.1.is_some() && step.1.unwrap()@ == button_action(*config, step.0),
{
    let next = match (state, event) {
        (ButtonState::Idle, ButtonEvent::EdgeDetected) => ButtonState::Emit,
        (ButtonState::Idle, ButtonEvent::PinFailed) => ButtonState::Stopped,
        (ButtonState::Emit, ButtonEvent::Sent) => ButtonState::Cooldown,
        (ButtonState::Cooldown, ButtonEvent::CooldownElapsed) => ButtonState::Idle,
        _ => state,
    };
    if next == state {
        (next, None)
    } else {
        (next, Some(action_of(config, next)))
    }
}

impl ButtonConfig {
    /// The wiring of button 0: pulled up, pressed when the level falls.
    pub fn d0() -> (config: ButtonConfig)
        ensures
            config == button_d0(),
    {
        ButtonConfig {
            button: 0,
            pull: Pull::Up,
            edge: EdgeKind::Falling,
            cooldown_ms: BUTTON_COOLDOWN_MS,
        }
    }

    /// The wiring of button 1: pulled down, pressed when the level rises.
    pub fn d1() -> (config: ButtonConfig)
        ensures
            config == button_d1(),
    {
        ButtonConfig {
            button: 1,
            pull: Pull::Down,
            edge: EdgeKind::Rising,
            cooldown_ms: BUTTON_COOLDOWN_MS,
        }
    }

    /// The wiring of button 2: pulled down, pressed when the level rises.
    pub fn d2() -> (config: ButtonConfig)
        ensures
            config == button_d2(),
    {
        ButtonConfig {
            button: 2,
            pull: Pull::Down,
            edge: EdgeKind::Rising,
            cooldown_ms: BUTTON_COOLDOWN_MS,
        }
    }
}

/// One step of the task of button 0, which is pulled up and reports a press
/// when its level falls.
pub fn handle_button_d0(state: ButtonState, event: ButtonEvent) -> (step: (
    ButtonState,
    Option<ButtonAction>,
))
    ensures
        step.0 == button_next(state, event),
        step.0 == state ==> step.1.is_none(),
        step.0 != state ==> step.1.is_some() && step.1.unwrap()@ == button_action(
            button_d0(),
            step.0,
        ),
{
    button_step(&ButtonConfig::d0(), state, event)
}

/// One step of the task of button 1, which is pulled down and reports a press
/// when its level rises.
pub fn handle_button_d1(state: ButtonState, event: ButtonEvent) -> (step: (
    ButtonState,
    Option<ButtonAction>,
))
    ensures
        step.0 == button_next(state, event),
        step.0 == state ==> step.1.is_none(),
        step.0 != state ==> step.1.is_some() && step.1.unwrap()@ == button_action(
            button_d1(),
            step.0,
        ),
{
    button_step(&ButtonConfig::d1(), state, event)
}

/// One step of the task of button 2, which is pulled down and reports a press
/// when its level rises.
pub fn handle_button_d2(state: ButtonState, event: ButtonEvent) -> (step: (
    ButtonState,
    Option<ButtonAction>,
))
    ensures
        step.0 == button_next(state, event),
        step.0 == state ==> step.1.is_none(),
        step.0 != state ==> step.1.is_some() && step.1.unwrap()@ == button_action(
            button_d2(),
            step.0,
        ),
{
    button_step(&ButtonConfig::d2(), state, event)
}

} // verus!
