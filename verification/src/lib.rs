//! Verified core of a game-modding loader: the error codes it reports, the
//! decisions it takes while hooking the game's container loader, and the byte
//! and text formats it reads and writes. Everything that touches process
//! memory, the operating system or the hooking engine lives in the
//! application around this library.
pub mod status;
pub mod error;
pub mod text;
pub mod hex;
pub mod startup;
pub mod wide;
pub mod proxy;
pub mod image;
pub mod container;
pub mod install;

pub use status::HookStatus;
pub use error::Error;
