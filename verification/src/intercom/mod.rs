use vstd::prelude::*;

pub mod queue;

verus! {

/// What a receiver gets from a queue: at most one message, together with the
/// number of messages that were dropped since the last receive.
#[derive(Copy, Clone)]
pub struct ReceiveResult<T: Copy> {
    pub message: Option<T>,
    pub lost: usize,
}

impl<T: Copy> ReceiveResult<T> {
    /// A result that carries no message.
    pub fn empty(lost: usize) -> (r: Self)
        ensures
            r.message is None,
            r.lost == lost,
    {
        Self { message: None, lost }
    }

    /// A result that carries `message`.
    pub fn message(message: T, lost: usize) -> (r: Self)
        ensures
            r.message == Some(message),
            r.lost == lost,
    {
        Self { message: Some(message), lost }
    }
}

/// Outcome of sending one message to several queues: bit `i` is set when the
/// `i`-th queue had to drop its oldest message.
#[derive(Copy, Clone)]
pub struct FanoutReport {
    pub overwritten_mask: u32,
}

impl Default for FanoutReport {
    fn default() -> (r: Self)
        ensures
            r.overwritten_mask == 0,
    {
        FanoutReport { overwritten_mask: 0 }
    }
}

} // verus!
