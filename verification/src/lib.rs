//! A safe bridge between a media host and the plugin units it loads.
//!
//! A plugin unit declares what it can do by implementing capability traits.
//! The bridge assembles a descriptor with one callback slot per capability,
//! keeps the per-instance state of every running unit in a table addressed by
//! opaque handles, and guards the shared graphics device with a reentrant
//! lock.
//!
//! The crate holds no unsafe code, and its functions are verified against
//! their contracts. Four small items are believed, not proved: the
//! contracts given to `String::push`, `str::from_utf8`, `u32::from_ne_bytes`
//! and `num_traits::cast`. Each says so where it stands.
//!
//! The process of creating a plugin is:
//! 1. Create a struct that implements [`module::Module`].
//! 2. Create a struct that will store the state of the unit.
//! 3. Implement [`source::Sourceable`] and the capabilities of the unit.
//! 4. In the `load` method of the module, enable each capability on the
//!    builder of the descriptor, and register what the builder gives.

pub mod data;
pub mod graphics;
pub mod hotkey;
pub mod instance;
pub mod log;
pub mod media;
pub mod module;
pub mod native_enum;
pub mod output;
pub mod properties;
pub mod result;
pub mod source;
pub mod string;
pub mod wrapper;

pub use result::{Error, Result};
