//! The provider that sends nothing.

use vstd::prelude::*;
use crate::alcatel::{idle_session, Action, ActionView, SendSession};

verus! {

/// Reports every send as successful without calling any device.
#[derive(Clone, Copy, Debug, PartialEq, Eq)]
pub struct VoidSmsService;

impl VoidSmsService {
    /// A send that is over at once, with success and nothing to do.
    pub fn send_nothing(&self) -> (start: (SendSession, Action))
        ensures
            start.0@ == idle_session(),
            start.1@ == ActionView::Done(Ok(())),
    {
        (SendSession::idle(), Action::Done(Ok(())))
    }
}

} // verus!
