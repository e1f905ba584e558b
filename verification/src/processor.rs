//! Processing of completed trees.
//!
//! A [`Processor`] consumes root-level [`Tree`]s: it may format and write
//! them, queue them, or discard them. Failure is reported with the tree
//! handed back whenever it was not consumed, so that a fallback processor
//! can retry; [`WithFallback`] composes a primary and a fallback processor.
use crate::tree::{wf_tree, Tree};
use vstd::prelude::*;

verus! {

/// Why processing a tree failed.
#[derive(Debug, Clone, Copy, PartialEq, Eq, Structural)]
pub enum ProcessCause {
    /// The tree could not be formatted.
    Format,
    /// The formatted tree could not be written.
    Write,
    /// The tree was to be queued, but the queue's receiving end was gone.
    ChannelClosed,
}

impl ProcessCause {
    /// Returns the description of the failure.
    pub fn message(&self) -> (r: &'static str)
        ensures
            *self == ProcessCause::Format ==> r@ == "formatting failed"@,
            *self == ProcessCause::Write ==> r@ == "writing failed"@,
            *self == ProcessCause::ChannelClosed ==> r@
                == "Sending on a closed channel. This is likely caused by dangling tasks. If this is intentional, try adding a fallback with `Processor::with_fallback`."@,
    {
        match self {
            ProcessCause::Format => "formatting failed",
            ProcessCause::Write => "writing failed",
            ProcessCause::ChannelClosed => "Sending on a closed channel. This is likely caused by dangling tasks. If this is intentional, try adding a fallback with `Processor::with_fallback`.",
        }
    }
}

/// Error returned by [`Processor::process`].
///
/// When the processor did not consume the [`Tree`], the report carries it,
/// and a fallback processor may try again with the same tree.
#[derive(Debug)]
pub struct ProcessReport {
    /// The tree that could not be processed, when it was not consumed.
    pub payload: Option<Tree>,
    /// Why processing failed.
    pub reason: ProcessCause,
}

impl ProcessReport {
    /// Returns a new report. A report built with the tree that failed lets
    /// fallback processors retry; one built with `None` states that the
    /// tree was consumed before the failure.
    pub fn new(payload: Option<Tree>, reason: ProcessCause) -> (r: ProcessReport)
        ensures
            r == (ProcessReport { payload, reason }),
    {
        ProcessReport { payload, reason }
    }

    /// Returns the description of the failure.
    pub fn message(&self) -> (r: &'static str)
        ensures
            r@ == self.reason.message_spec(),
    {
        self.reason.message()
    }

    /// Hands the payload to the fallback processor, when the report still
    /// carries it; otherwise returns the report unchanged. The result of a
    /// carried payload is exactly what the fallback returned for it.
    pub fn try_fallback<P: Processor>(self, fallback: &P) -> (r: Result<(), ProcessReport>)
        requires
            self.payload matches Some(t) ==> wf_tree(t),
        ensures
            r matches Err(rep) ==> (rep.payload matches Some(t) ==> self.payload matches Some(t0)
                && t == t0),
            self.payload matches Some(t) ==> call_ensures(P::process, (fallback, t), r),
            self.payload is None ==> (r matches Err(rep) && rep == self),
    {
        match self.payload {
            Some(tree) => fallback.process(tree),
            None => Err(self),
        }
    }
}

impl ProcessCause {
    /// The description of the failure, as a character sequence.
    pub open spec fn message_spec(self) -> Seq<char> {
        match self {
            ProcessCause::Format => "formatting failed"@,
            ProcessCause::Write => "writing failed"@,
            ProcessCause::ChannelClosed => "Sending on a closed channel. This is likely caused by dangling tasks. If this is intentional, try adding a fallback with `Processor::with_fallback`."@,
        }
    }
}

/// A type that can process completed trees.
///
/// Processing can mean writing to standard streams or a file, sending over
/// a channel, storing in memory, or discarding. Every implementation obeys
/// one rule: when processing fails and the report carries a payload, the
/// payload is the very tree that was handed in.
pub trait Processor: 'static + Sized {
    /// Processes a tree.
    ///
    /// On failure, the returned report carries the tree back whenever it
    /// was not consumed, so that a fallback processor can retry.
    fn process(&self, tree: Tree) -> (r: Result<(), ProcessReport>)
        requires
            wf_tree(tree),
        ensures
            r matches Err(rep) ==> (rep.payload matches Some(t) ==> t == tree),
    ;
}

/// Returns a processor that first attempts `primary`, and on a failure
/// that kept the tree hands it to `fallback`.
pub fn with_fallback<P: Processor, F: Processor>(primary: P, fallback: F) -> (r: WithFallback<
    P,
    F,
>)
    ensures
        r.primary == primary,
        r.fallback == fallback,
{
    WithFallback { primary, fallback }
}

/// Returns a processor that first attempts `primary`, and on a failure
/// that kept the tree silently discards it.
pub fn with_ignore_fallback<P: Processor>(primary: P) -> (r: WithFallback<P, Sink>)
    ensures
        r.primary == primary,
{
    WithFallback { primary, fallback: Sink }
}

/// A [`Processor`] composed of a primary and a fallback processor.
pub struct WithFallback<P, F> {
    /// The processor tried first.
    pub primary: P,
    /// The processor a kept tree is handed to when the primary fails.
    pub fallback: F,
}

impl<P: Processor, F: Processor> Processor for WithFallback<P, F> {
    /// Attempts the primary; a failure that kept the tree is retried with
    /// the fallback, whose result is then the composition's result; a
    /// failure that consumed the tree is surfaced unchanged, the fallback
    /// untouched.
    fn process(&self, tree: Tree) -> (r: Result<(), ProcessReport>)
        ensures
            r matches Err(rep) ==> (rep.payload matches Some(t) ==> t == tree),
            exists|pr: Result<(), ProcessReport>|
                #[trigger] call_ensures(P::process, (&self.primary, tree), pr) && (match pr {
                    Ok(u) => r is Ok,
                    Err(rep1) => match rep1.payload {
                        Some(t1) => call_ensures(F::process, (&self.fallback, t1), r),
                        None => r matches Err(rep) && rep == rep1,
                    },
                }),
    {
        let result = self.primary.process(tree);
        proof {
            assert(call_ensures(P::process, (&self.primary, tree), result));
        }
        match result {
            Ok(()) => Ok(()),
            Err(report) => report.try_fallback(&self.fallback),
        }
    }
}

/// A [`Processor`] that discards every tree. It never fails.
#[derive(Debug, Clone, Copy)]
pub struct Sink;

/// The older name of the discarding processor: ignores every tree and
/// never fails.
#[derive(Debug, Clone, Copy)]
pub struct NoProcessor;

impl Processor for NoProcessor {
    fn process(&self, tree: Tree) -> (r: Result<(), ProcessReport>)
        ensures
            r is Ok,
    {
        Ok(())
    }
}

impl Processor for Sink {
    fn process(&self, tree: Tree) -> (r: Result<(), ProcessReport>)
        ensures
            r is Ok,
    {
        Ok(())
    }
}

} // verus!
