//! State engine of a single RGB light fixture: merging partial control updates,
//! rainbow hue stepping, power transitions and the resolved colour to render.
//!
//! Fractional quantities are held as fixed-point integers: hue in hundredths of
//! a degree, saturation and rainbow speed in hundredths of their percentage
//! scale, durations in milliseconds.

mod color;
mod config;
mod hass;
mod record;
mod session;
mod state;

pub use color::{Color, HsvFrame, MAX_VALUE};
pub use config::{
    default_blaster, default_home_assistant_topic, default_mqtt_port, default_mqtt_topic,
    default_step_duration, Config,
};
pub use hass::{
    HomeAssistantDevice, HomeAssistantLightConfig, HomeAssistantNumberConfig, HomeAssistantSelectConfig,
};
pub use record::{DecodeError, HsColorMode, StateRecord};
pub use session::{route_topic, ConnectActions, Session, Topic};
pub use state::{ControlMessage, Mode, OnState, State};
