//! Logic of a daemon that lets a remote client attach to and control terminal
//! multiplexer sessions: the herdr backend, its event kernel and its push notifications.

pub mod multiplexer;
pub mod notify;
pub mod ratelimit;
pub mod seqs;
pub mod text;
