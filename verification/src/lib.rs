pub mod backend;
pub mod devices;
pub mod console;
pub mod domain;
pub mod edit_state;
pub mod error;
pub mod events;
pub mod qemu_capabilities;
pub mod state;
pub mod text;
pub mod uri;
pub mod views;
pub mod xml_helpers;
pub mod xml_scan;
