//! The hand-off of a permission request between the worker that waits on
//! it and the session that answers it. The caller keeps the state behind a
//! lock and wakes the waiter when it changes.

use vstd::prelude::*;
use crate::kinds::AcpError;
use crate::normalize::PermissionDecision;

verus! {

/// Whether a permission request is pending, and what has happened to it.
#[derive(Debug)]
pub struct PermissionGateState {
    pub pending: bool,
    pub decision: Option<PermissionDecision>,
    pub cancelled: bool,
    /// Released for good: the session is shutting down.
    pub closed: bool,
}

impl PermissionGateState {
    /// A gate with nothing pending.
    pub fn new() -> (res: Self)
        ensures
            !res.pending && res.decision is None && !res.cancelled && !res.closed,
    {
        PermissionGateState { pending: false, decision: None, cancelled: false, closed: false }
    }

    /// A permission request is now pending.
    pub fn begin(&mut self)
        ensures
            final(self).pending,
            final(self).decision == old(self).decision,
            final(self).cancelled == old(self).cancelled,
            final(self).closed == old(self).closed,
    {
        self.pending = true;
    }

    /// The pending request was answered; the next one may begin.
    pub fn finish(&mut self)
        ensures
            !final(self).pending && final(self).decision is None && !final(self).cancelled,
            final(self).closed == old(self).closed,
    {
        self.pending = false;
        self.decision = None;
        self.cancelled = false;
    }

    /// Records the session's decision on the pending request; refused when
    /// none is pending.
    pub fn decide(&mut self, decision: PermissionDecision) -> (res: Result<(), AcpError>)
        ensures
            old(self).pending ==> res is Ok && final(self).decision == Some(decision) && final(self).pending
                && final(self).cancelled == old(self).cancelled && final(self).closed == old(self).closed,
            !old(self).pending ==> (res matches Err(e) && e.0@ == "no permission request is pending"@)
                && *final(self) == *old(self),
    {
        if !self.pending {
            return Err(AcpError::new("no permission request is pending"));
        }
        self.decision = Some(decision);
        Ok(())
    }

    /// Cancels the pending request, if there is one.
    pub fn cancel(&mut self)
        ensures
            final(self).cancelled == (old(self).cancelled || old(self).pending),
            final(self).pending == old(self).pending,
            final(self).decision == old(self).decision,
            final(self).closed == old(self).closed,
    {
        if self.pending {
            self.cancelled = true;
        }
    }

    /// Shuts this hand-off for good.
    pub fn close(&mut self)
        ensures
            final(self).closed,
            final(self).pending == old(self).pending,
            final(self).decision == old(self).decision,
            final(self).cancelled == old(self).cancelled,
    {
        self.closed = true;
    }

    /// What the waiting worker gets now: the decision, taken; a refusal once
    /// the request was cancelled or the hand-off shut; otherwise nothing yet,
    /// and it waits on.
    pub fn poll(&mut self) -> (res: Option<PermissionDecision>)
        ensures
            match old(self).decision {
                Some(d) => res == Some(d) && final(self).decision is None,
                None => final(self).decision is None && if old(self).cancelled || old(self).closed {
                    res == Some(PermissionDecision::Cancelled)
                } else {
                    res is None
                },
            },
            final(self).pending == old(self).pending,
            final(self).cancelled == old(self).cancelled,
            final(self).closed == old(self).closed,
    {
        match self.decision.take() {
            Some(d) => Some(d),
            None => {
                if self.cancelled || self.closed {
                    Some(PermissionDecision::Cancelled)
                } else {
                    None
                }
            },
        }
    }
}

} // verus!
