//! A memory-safe binding layer for a foreign machine-code disassembly engine.
//!
//! The foreign engine is reached over a C-compatible call interface that this
//! library never performs itself: an unverified shell makes the raw calls and
//! hands every outcome to this library as plain values.  Everything that can
//! go wrong on this side of that boundary is decided here, with a proved
//! contract: encoding architectures, modes and options into the integers the
//! engine expects, turning numeric status codes into descriptive errors,
//! copying the engine's raw instruction records into independently owned
//! instruction values, and keeping the handle-lifecycle rules (a handle exists
//! only after a successful open, and yields its context exactly once for the
//! closing call).

pub mod codes;
pub mod engine;
pub mod error;
pub mod insn;
pub mod text;

pub use codes::Arch;
pub use codes::Mode;
pub use codes::Opt;
pub use engine::DisasmEvent;
pub use engine::Engine;
pub use error::Error;
pub use insn::Insn;
pub use insn::RawInsn;
