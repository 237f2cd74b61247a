use vstd::prelude::*;

verus! {

/// What an application state asks for after handling an event: to go on, to end
/// the application, or to hand over to another state.
pub enum StateFlow<S> {
    Continue,
    Exit,
    SwitchState(S),
}

/// What the application does after an event reached the state and the state gave
/// its flow.
pub enum FlowStep<S> {
    /// Nothing more.
    Stay,
    /// Leave the event loop.
    ExitLoop,
    /// Drop the current state, make a fresh world sized to the window, and attach
    /// the new state.
    Switch { new_state: S, world_width: u32, world_height: u32 },
}

/// The step that a state's flow calls for, the window being `window_size` large.
pub fn flow_step<S>(flow: StateFlow<S>, window_size: (u32, u32)) -> (r: FlowStep<S>)
    ensures
        flow is Continue ==> r is Stay,
        flow is Exit ==> r is ExitLoop,
        flow is SwitchState ==> r == (FlowStep::Switch {
            new_state: flow->SwitchState_0,
            world_width: window_size.0,
            world_height: window_size.1,
        }),
{
    match flow {
        StateFlow::Continue => FlowStep::Stay,
        StateFlow::Exit => FlowStep::ExitLoop,
        StateFlow::SwitchState(new_state) => FlowStep::Switch {
            new_state,
            world_width: window_size.0,
            world_height: window_size.1,
        },
    }
}

/// How the application handles one window or device event.
#[derive(Clone, Copy, Debug, PartialEq, Eq)]
pub struct EventHandling {
    /// The event loop is asked to exit (the event is still handled).
    pub exit: bool,
    /// The renderer and the world are resized to this size.
    pub resize: Option<(u32, u32)>,
    /// The event goes on to the current state, which then gives its flow.
    pub deliver: bool,
}

/// A window event: a closed or destroyed window ends the loop; an event the user
/// interface consumed goes no further; otherwise a resize reaches the renderer and
/// the world, and the event reaches the state.
pub fn window_event_handling(
    close_requested: bool,
    destroyed: bool,
    consumed_by_ui: bool,
    resized_to: Option<(u32, u32)>,
) -> (r: EventHandling)
    ensures
        r.exit == (close_requested || destroyed),
        r.deliver == !consumed_by_ui,
        r.resize == if consumed_by_ui {
            None
        } else {
            resized_to
        },
{
    let exit = close_requested || destroyed;
    if consumed_by_ui {
        EventHandling { exit, resize: None, deliver: false }
    } else {
        EventHandling { exit, resize: resized_to, deliver: true }
    }
}

/// A device event: it always reaches the state; a closed or destroyed window ends
/// the loop.
pub fn device_event_handling(close_requested: bool, destroyed: bool) -> (r: EventHandling)
    ensures
        r == (EventHandling { exit: close_requested || destroyed, resize: None, deliver: true }),
{
    EventHandling { exit: close_requested || destroyed, resize: None, deliver: true }
}

} // verus!
