//! The single consumer of the command queue: it owns the arrival model and
//! turns each command into the actions that the shell carries out, so that
//! it never waits on the network itself.
//!
//! Fetching is gated by motion: a scheduled fetch with nobody seen within
//! the sleep threshold is skipped and the fetch timer left idle, and the next
//! motion schedules a fetch at once.
use vstd::prelude::*;
use crate::app_state::{fetch_allowed, fetch_outcome, state_frame, AppState, AppStateView};
use crate::error::ControllerError;
use crate::led_pipeline::{LEDBuffer, Pulse};

verus! {

/// A stimulus queued for the dispatcher by a timer, the motion input or the
/// network thread.
#[derive(Clone, Copy, Debug, PartialEq, Eq, Structural)]
pub enum Command {
    /// The fetch timer fired.
    FetchSchedule,
    /// The render timer fired.
    RenderLEDs,
    /// The motion input saw a rising edge.
    MotionSensed,
    /// The network link came up.
    WifiConnected,
}

/// Work for the shell.
pub enum Action {
    /// Fetch the arrivals on a worker thread and hand the outcome to
    /// `Dispatcher::fetch_completed`.
    StartFetch,
    /// Re-arm the one-shot fetch timer to fire after this many seconds.
    ScheduleFetch(u64),
    /// Hand this frame to the output stage.
    Show(LEDBuffer),
    /// Re-enable the motion input for its next edge.
    RearmMotionSensor,
}

/// The dispatcher's state: the model, and whether fetching waits for motion.
pub ghost struct DispatcherView {
    pub state: AppStateView,
    pub fetch_paused: bool,
}

/// Owner of the arrival model, fed one command at a time.
pub struct Dispatcher {
    app_state: AppState,
    fetch_paused: bool,
}

impl View for Dispatcher {
    type V = DispatcherView;

    closed spec fn view(&self) -> DispatcherView {
        DispatcherView { state: self.app_state@, fetch_paused: self.fetch_paused }
    }
}

impl Dispatcher {
    /// A dispatcher for a model created at boot time `now`.
    pub fn new(now: u64) -> (r: Dispatcher)
        ensures
            r@.state == (AppStateView { arrival_minutes: seq![], activity_started_at: None, last_motion_at: now }),
            !r@.fetch_paused,
    {
        Dispatcher { app_state: AppState::new(now), fetch_paused: false }
    }

    /// The model.
    pub fn state(&self) -> (r: &AppState)
        ensures
            r@ == self@.state,
    {
        &self.app_state
    }

    /// Handles one command at system time `now_us`, `since_fetch_us` on the
    /// fetch timer, with the activity pulse at `pulse`.
    ///
    /// - A scheduled fetch starts one, on the fetch timer's time base, if
    ///   none is in flight and motion was seen within the sleep threshold;
    ///   without motion it is skipped until the next motion.
    /// - A render tick shows the frame of the current model.
    /// - A link that came up schedules a fetch at once.
    /// - Motion is recorded, the motion input re-armed, and a skipped fetch
    ///   scheduled at once.
    pub fn handle_command(&mut self, command: Command, now_us: u64, since_fetch_us: u64, pulse: Pulse) -> (r: Vec<Action>)
        ensures
            match command {
                Command::FetchSchedule => if old(self)@.state.activity_started_at is Some {
                    &&& r@ == Seq::<Action>::empty()
                    &&& final(self)@ == old(self)@
                } else if fetch_allowed(old(self)@.state, now_us) {
                    &&& r@ == seq![Action::StartFetch]
                    &&& final(self)@ == (DispatcherView {
                        state: AppStateView { activity_started_at: Some(since_fetch_us), ..old(self)@.state },
                        fetch_paused: false,
                    })
                } else {
                    &&& r@ == Seq::<Action>::empty()
                    &&& final(self)@ == (DispatcherView { fetch_paused: true, ..old(self)@ })
                },
                Command::RenderLEDs => {
                    &&& r@.len() == 1
                    &&& r@[0] matches Action::Show(frame) && frame.cells() == state_frame(
                        old(self)@.state,
                        since_fetch_us,
                        pulse,
                    )
                    &&& final(self)@ == old(self)@
                },
                Command::WifiConnected => {
                    &&& r@ == seq![Action::ScheduleFetch(0)]
                    &&& final(self)@ == old(self)@
                },
                Command::MotionSensed => {
                    &&& r@ == if old(self)@.fetch_paused {
                        seq![Action::RearmMotionSensor, Action::ScheduleFetch(0)]
                    } else {
                        seq![Action::RearmMotionSensor]
                    }
                    &&& final(self)@ == (DispatcherView {
                        state: old(self)@.state.sensed_motion(now_us),
                        fetch_paused: false,
                    })
                },
            },
    {
        let mut actions: Vec<Action> = Vec::new();
        match command {
            Command::FetchSchedule => {
                if !self.app_state.fetch_in_flight() {
                    if self.app_state.should_perform_fetch(now_us) {
                        self.app_state.network_activity_started(since_fetch_us);
                        self.fetch_paused = false;
                        actions.push(Action::StartFetch);
                    } else {
                        self.fetch_paused = true;
                    }
                }
            },
            Command::RenderLEDs => {
                let frame = self.app_state.get_current_led_buffer(since_fetch_us, pulse);
                actions.push(Action::Show(frame));
            },
            Command::WifiConnected => {
                actions.push(Action::ScheduleFetch(0));
            },
            Command::MotionSensed => {
                self.app_state.motion_sensed(now_us);
                actions.push(Action::RearmMotionSensor);
                if self.fetch_paused {
                    self.fetch_paused = false;
                    actions.push(Action::ScheduleFetch(0));
                }
            },
        }
        actions
    }

    /// Takes the outcome of the fetch in flight and schedules the next fetch
    /// after the delay that the model gives.
    pub fn fetch_completed(&mut self, response: Result<String, ControllerError>) -> (r: Vec<Action>)
        ensures
            r@.len() == 1,
            r@[0] matches Action::ScheduleFetch(delay) && fetch_outcome(
                old(self)@.state,
                final(self)@.state,
                response,
                delay,
            ),
            final(self)@.fetch_paused == old(self)@.fetch_paused,
    {
        let delay = self.app_state.received_http_response(response);
        let mut actions: Vec<Action> = Vec::new();
        actions.push(Action::ScheduleFetch(delay));
        actions
    }
}

} // verus!
