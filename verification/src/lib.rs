//! A polling state machine for an NFC user-identification flow.
//!
//! The poller owns at most one outstanding asynchronous identification
//! request at a time: first a tag scan, then — if a tag was found — a user
//! lookup keyed by that tag. Each scheduling tick the host polls the
//! outstanding request (non-blocking) and hands the poller what it observed;
//! the poller transitions its display state and says which request, if any,
//! to issue next. Hardware and driver failures are transient: a failed scan
//! resets the display, a failed lookup keeps the last known user.

pub mod laws;
pub mod poller;
pub mod trace;

pub use poller::Action;
pub use poller::DisplayState;
pub use poller::LookupError;
pub use poller::PollResult;
pub use poller::Poller;
pub use poller::PollerState;
pub use poller::ScanError;
pub use poller::UserRecord;
