//! Protocol of the hardware mixer operated by commands.

pub mod cmd;
pub mod codec;
pub mod diff;
pub mod effects;
pub mod effects_state;
pub mod framer;
pub mod handler;
pub mod input;
pub mod input_state;
pub mod mixer;
pub mod mixer_state;
pub mod monitor;
pub mod monitor_state;
pub mod output;
pub mod output_state;
pub mod params;
pub mod reverb;
pub mod reverb_state;
