//! Controller core for a transit-arrival light ring: the arrival model and
//! fetch-cadence policy, the render pipeline that turns it into a frame of 44
//! lights, the dispatcher that coordinates timers and sensor events, and the
//! serial encoding of a frame for the strip.
pub mod app_state;
pub mod color;
pub mod dispatcher;
pub mod error;
pub mod json;
pub mod json_value;
pub mod led_pipeline;
pub mod payload;
pub mod ws2812;

pub use app_state::AppState;
pub use color::Rgb;
pub use dispatcher::{Action, Command, Dispatcher};
pub use error::ControllerError;
pub use led_pipeline::{Dim, ETDLEDs, LEDBuffer, NetworkAnimation, PipelineStep, Pulse};
pub use payload::{Estimate, Etd, Root, Station};
