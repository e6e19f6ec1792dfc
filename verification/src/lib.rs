//! Screen layout logic of a RandR configuration tool: output geometry,
//! display modes, rotation and reflection, configuration values and the
//! decisions taken when a new layout is applied to the X server.

pub mod g_math;
pub mod math;
pub mod enums;
pub mod update;
pub mod values;
pub mod text;
pub mod config;
pub mod mode;
pub mod modes;
pub mod output;
pub mod outputs;
pub mod randr;
pub mod xrandr;
pub mod disabled_area;
pub mod details;
pub mod output_view;
pub mod window;
pub mod plan;
