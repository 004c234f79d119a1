pub mod channel;
pub mod console;
pub mod controller;
pub mod disk;
pub mod filesystem;
pub mod graphics;
pub mod hostdev;
pub mod input;
pub mod interface;
pub mod memballoon;
pub mod panic_dev;
pub mod redirdev;
pub mod rng;
pub mod serial;
pub mod smartcard;
pub mod sound;
pub mod tpm;
pub mod video;
pub mod vsock;
pub mod watchdog;
