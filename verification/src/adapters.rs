//! Adapter family: bindings of concrete concurrency strategies to the
//! capability contract.
//!
//! Each table owns its container and is driven through exclusive
//! references, so its operations are specified and proved against the
//! contract's transition functions; sharing one table across worker
//! threads (pinned handles, `Arc` cloning) is the surrounding harness's
//! concern and adds no observable behaviour of its own.
pub mod crossbeam_skiplist;
pub mod dashmap;
pub mod evmap;
pub mod flurry;
pub mod rwlock;
