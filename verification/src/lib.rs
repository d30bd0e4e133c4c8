//! Stack pinning of handles owned by a host runtime with a moving collector.
//!
//! A handle that native code holds must be reported to the collector as a
//! root for as long as it is in use. This crate provides the immovable
//! wrapper around such a handle, the guard that pairs every registration
//! with one deregistration, the conversion of raw handles into pinned typed
//! values, and the dispatch of a native function that takes a receiver and
//! one pinned argument.

pub mod box_value;
pub mod error;
pub mod gc;
pub mod numeric;
pub mod pin_convert;
pub mod pinned_method;
pub mod stack_pinned;
pub mod try_convert;
pub mod value;

pub use box_value::BoxValue;
pub use error::{Error, Exception, ExceptionClass};
pub use gc::{Address, RecordingRegistry, RootEvent, RootRegistry};
pub use numeric::NumericValue;
pub use pin_convert::{pin_to_box, pin_value, TryConvertPinned};
pub use pinned_method::{HostReply, Invocation, PinnedMethod1};
pub use stack_pinned::{with_pinned, PinGuard};
pub use try_convert::{IntoValue, ReturnValue, TryConvert};
pub use value::{ReprValue, Value, ValueKind};
