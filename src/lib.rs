//! A verified lens algebra for pairing a value with a context.
//!
//! A lens reads a slice of a larger state and writes it back. The combinators
//! of [`Ctx`] build lenses that carry a context value next to the slice, and
//! that move the context into each case of a [`Promise`].
pub mod ctx;
pub mod data;
pub mod laws;
pub mod lens;
pub mod promise;

pub use ctx::{Ctx, CtxField, CtxMake, CtxMap, DataField, InPromise};
pub use data::Data;
pub use lens::{Identity, Lens, Then};
pub use promise::Promise;

