//! Capability features a queue can be built with. Each capability has a
//! marker type for "present" and one for "absent"; the queue and builder
//! types carry the selection as type parameters, so operations that need
//! a capability exist only where it was selected.

pub mod dead_letter;
pub mod encrypted;
pub mod journal;
pub mod transactional;
