//! A typed session layer in front of the LabJack LJM device library.
//!
//! The crate holds everything that is decided on this side of the native
//! boundary: how a status code is classified, what is handed to each entry
//! point, how its reply is read, and the bookkeeping of streams and of the
//! script module. The native call itself is made by the caller, who passes
//! the reply in as plain values.

pub mod binding;
pub mod error;
pub mod handle;
pub mod laws;
pub mod library;
pub mod lua;
pub mod marshal;
pub mod script;
pub mod stream;
pub mod text;

pub use crate::error::LJMError;
pub use crate::error::LJMErrorCode;
pub use crate::handle::ConnectionType;
pub use crate::handle::DeviceHandleInfo;
pub use crate::handle::DeviceType;
pub use crate::library::LJMBinding;
pub use crate::library::LJMLibrary;
pub use crate::library::LJMSession;
pub use crate::lua::LJMLua;
pub use crate::marshal::EntryPoint;
pub use crate::script::LuaRegister;
pub use crate::script::ModuleAction;
pub use crate::script::ModuleEvent;
pub use crate::script::ModulePhase;
pub use crate::stream::LJMStream;
