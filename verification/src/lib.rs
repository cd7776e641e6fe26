//! Input-method relay and host bridge logic of the WaylandCraft nested compositor.

pub mod keyboard;
pub mod ime_event;
pub mod relay;
pub mod channel;
pub mod host_bridge;
pub mod host_ime;
pub mod text;
pub mod dbus_value;
pub mod status;
pub mod diagnostic;
pub mod ime;
pub mod desktop;
pub mod surface_list;
pub mod launch;
pub mod system_ime;
pub mod audio;
pub mod satellite;
pub mod video;
pub mod text_input;
