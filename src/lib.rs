//! A fixed-capacity pool of at most 64 slots, handed out through a single
//! atomic bitmask: bit `i` of the table word is set while slot `i` is held.
//!
//! `slots` models the table word and proves the laws of its two steps,
//! `lock` shares one word between threads, `simple` and `async_pool` are the
//! front ends that never wait and that queue a waker while waiting.
pub mod async_pool;
pub mod lock;
pub mod simple;
pub mod slots;
