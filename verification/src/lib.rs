//! Decision core of a desktop text-injection helper.
//!
//! The crate models the two decision-bearing pieces of the helper as
//! verified state machines: the edge-detecting global-hotkey listener
//! (`hotkey`) and the clipboard-and-paste injection sequence (`injector`).
//! A thin unverified shell drives the machines, performing each requested
//! OS action (clipboard write, sleep, key synthesis, script invocation)
//! and reporting its outcome back.

pub mod hotkey;
pub mod injector;
