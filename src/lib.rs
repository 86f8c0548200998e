//! A two-role multicast reachability tester: a broadcaster emits a fixed
//! batch of multicast probes while collecting unicast acknowledgments, and a
//! receiver acknowledges every probe it hears.

pub mod ledger;
pub mod error;
pub mod endpoint;
pub mod probe;
pub mod report;
pub mod collector;
pub mod broadcaster;
pub mod receiver;
pub mod mode;
