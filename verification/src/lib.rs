//! The decision logic of a binding to the minilibx windowing toolkit.
//!
//! Nothing here touches the toolkit. Each operation is split at the native
//! call: one function marshals the arguments into a [`NativeCall`] for the
//! caller to perform, another turns what the toolkit answered into a typed
//! result. Between the two stands whoever holds the real toolkit, or a
//! stand-in for it.

pub mod binding;
pub mod display;
pub mod error;
pub mod fractal;
pub mod hooks;
pub mod image;
pub mod native;
pub mod scope;
pub mod text;
pub mod window;

pub use error::MlxError;
pub use fractal::julia;
pub use display::Mlx;
pub use image::{ByteWrite, Endian, MlxImage};
pub use hooks::{HookKind, HookRegistry, Invocation, NativeEvent, Registration};
pub use native::NativeCall;
pub use scope::{Resource, Scope};
pub use window::MlxWindow;
