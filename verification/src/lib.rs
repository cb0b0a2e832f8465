//! Streaming message bodies and two combinators over them.
//!
//! A body is a pull-based producer of frames: chunks of data bytes,
//! optionally followed by a map of trailing metadata. [`Either`] unifies two
//! concrete body types behind one type known at construction; [`Limited`]
//! enforces a cumulative ceiling on the data bytes a wrapped body may yield.
//!
//! [`Either`]: either::Either
//! [`Limited`]: limited::Limited

pub mod body;
pub mod either;
pub mod full;
pub mod limited;
pub mod script;
pub mod size_hint;

pub use body::Body;
pub use body::Frame;
pub use body::PollFrame;
pub use either::Either;
pub use either::EitherError;
pub use full::Full;
pub use limited::LengthLimitError;
pub use limited::Limited;
pub use limited::LimitedError;
pub use script::ScriptBody;
pub use size_hint::SizeHint;
