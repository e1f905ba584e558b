//! The decoupled-worker strategy, modeled as a queue with a shutdown
//! switch.
//!
//! Producers enqueue completed trees without waiting; a single worker
//! receives them in order, formats and writes them. On shutdown the queue
//! stops accepting new trees, and everything already buffered is drained
//! and processed before the worker stops, so that no tree accepted before
//! a clean shutdown is lost. The embedding application supplies the actual
//! channel and task; this module carries the decisions and their
//! guarantees.
use crate::processor::{ProcessCause, ProcessReport, Processor};
use crate::tree::{wf_tree, Tree};
use vstd::prelude::*;

verus! {

/// The buffered trees and shutdown state shared between producers and the
/// worker: a model of an unbounded multi-producer, single-consumer
/// channel.
pub struct TreeQueue {
    /// The buffered trees, oldest first.
    pub items: Vec<Tree>,
    /// Whether the queue has stopped accepting new trees.
    pub closed: bool,
}

/// A well-formed queue: every buffered tree is well formed.
pub open spec fn wf_queue(q: TreeQueue) -> bool {
    forall|i: int| 0 <= i < q.items@.len() ==> wf_tree(#[trigger] q.items@[i])
}

impl TreeQueue {
    /// Returns an empty, open queue.
    pub fn new() -> (r: TreeQueue)
        ensures
            r.items@ =~= Seq::<Tree>::empty(),
            !r.closed,
            wf_queue(r),
    {
        let r = TreeQueue { items: Vec::new(), closed: false };
        proof {
            assert(r.items@ =~= Seq::<Tree>::empty());
        }
        r
    }

    /// Enqueues a tree. Succeeds and appends exactly when the queue is
    /// still open; on a closed queue the tree is handed back in the
    /// report, so a fallback processor can take it.
    pub fn send(&mut self, tree: Tree) -> (r: Result<(), ProcessReport>)
        requires
            wf_tree(tree),
        ensures
            final(self).closed == old(self).closed,
            wf_queue(*old(self)) ==> wf_queue(*final(self)),
            old(self).closed ==> (r matches Err(rep) && rep.payload == Some(tree) && rep.reason
                == ProcessCause::ChannelClosed) && final(self).items@ == old(self).items@,
            !old(self).closed ==> r is Ok && final(self).items@ == old(self).items@.push(tree),
    {
        if self.closed {
            Err(ProcessReport::new(Some(tree), ProcessCause::ChannelClosed))
        } else {
            self.items.push(tree);
            Ok(())
        }
    }

    /// Stops the queue from accepting new trees. What is already buffered
    /// stays buffered.
    pub fn close(&mut self)
        ensures
            final(self).closed,
            final(self).items@ == old(self).items@,
            wf_queue(*old(self)) ==> wf_queue(*final(self)),
    {
        self.closed = true;
    }

    /// Takes the oldest buffered tree, or returns `None` when the buffer
    /// is empty.
    pub fn try_recv(&mut self) -> (r: Option<Tree>)
        ensures
            final(self).closed == old(self).closed,
            wf_queue(*old(self)) ==> wf_queue(*final(self)),
            old(self).items@.len() == 0 ==> r is None && final(self).items@ == old(self).items@,
            old(self).items@.len() > 0 ==> (r == Some(old(self).items@[0]) && final(self).items@
                == old(self).items@.drop_first()),
    {
        if self.items.len() == 0 {
            None
        } else {
            let t = self.items.remove(0);
            proof {
                assert(final(self).items@ =~= old(self).items@.drop_first());
            }
            Some(t)
        }
    }

    /// Empties the buffer and returns every buffered tree, oldest first:
    /// nothing accepted before a shutdown is lost.
    pub fn drain(&mut self) -> (r: Vec<Tree>)
        ensures
            final(self).closed == old(self).closed,
            wf_queue(*final(self)),
            r@ == old(self).items@,
            final(self).items@.len() == 0,
    {
        let mut out: Vec<Tree> = Vec::new();
        proof {
            assert(out@ + self.items@ =~= old(self).items@);
        }
        loop
            invariant
                out@ + self.items@ == old(self).items@,
                self.closed == old(self).closed,
            decreases self.items@.len(),
        {
            match self.try_recv() {
                Some(t) => {
                    out.push(t);
                    proof {
                        assert(out@ + self.items@ =~= old(self).items@);
                    }
                },
                None => {
                    proof {
                        assert(out@ =~= old(self).items@);
                        assert(wf_queue(*self));
                    }
                    return out;
                },
            }
        }
    }
}

/// Every successful verdict of a processor on a unit-valued result is the
/// one `Ok` value.
proof fn lemma_ok_is_unit(r: Result<(), ProcessReport>)
    requires
        r is Ok,
    ensures
        r == Ok::<(), ProcessReport>(()),
{
    assert(r->Ok_0 == ());
    assert(r == Ok::<(), ProcessReport>(r->Ok_0));
}

/// Processes the given trees in order, stopping at the first failure.
/// Success means the processor accepted every tree; a failure is the
/// processor's own verdict on one of the trees, with the kept payload
/// being that very tree.
pub fn process_all<P: Processor>(processor: &P, trees: Vec<Tree>) -> (r: Result<(
), ProcessReport>)
    requires
        forall|i: int| 0 <= i < trees@.len() ==> wf_tree(#[trigger] trees@[i]),
    ensures
        r is Ok ==> forall|i: int|
            0 <= i < trees@.len() ==> call_ensures(
                P::process,
                (processor, #[trigger] trees@[i]),
                Ok::<(), ProcessReport>(()),
            ),
        r matches Err(rep) ==> (rep.payload matches Some(t) ==> trees@.contains(t)),
        r matches Err(rep) ==> exists|t: Tree|
            #![auto]
            trees@.contains(t) && call_ensures(P::process, (processor, t), Err(rep)),
{
    let mut rest = trees;
    while rest.len() > 0
        invariant
            rest@.len() <= trees@.len(),
            rest@ == trees@.subrange(trees@.len() - rest@.len(), trees@.len() as int),
            forall|i: int| 0 <= i < trees@.len() ==> wf_tree(#[trigger] trees@[i]),
            forall|i: int|
                0 <= i < trees@.len() - rest@.len() ==> call_ensures(
                    P::process,
                    (processor, #[trigger] trees@[i]),
                    Ok::<(), ProcessReport>(()),
                ),
        decreases rest@.len(),
    {
        let ghost snapshot = rest@;
        let ghost j = trees@.len() - rest@.len();
        let tree = rest.remove(0);
        proof {
            assert(rest@ =~= snapshot.drop_first());
            assert(tree == trees@[j]);
            assert(rest@ =~= trees@.subrange(trees@.len() - rest@.len(), trees@.len() as int));
            assert(trees@.contains(tree));
        }
        let result = processor.process(tree);
        proof {
            assert(call_ensures(P::process, (processor, trees@[j]), result));
        }
        match result {
            Ok(()) => {
                proof {
                    lemma_ok_is_unit(result);
                }
            },
            Err(rep) => {
                return Err(rep);
            },
        }
    }
    proof {
        assert(rest@.len() == 0);
    }
    Ok(())
}

/// The worker's reaction to a clean shutdown: stop accepting new trees,
/// then drain and process everything already buffered, in order. On
/// success the processor accepted every buffered tree, so nothing accepted
/// before a clean shutdown is lost; a failure is the processor's own
/// verdict on one of the buffered trees.
pub fn run_shutdown<P: Processor>(queue: &mut TreeQueue, processor: &P) -> (r: Result<(
), ProcessReport>)
    requires
        wf_queue(*old(queue)),
    ensures
        final(queue).closed,
        final(queue).items@.len() == 0,
        r is Ok ==> forall|i: int|
            0 <= i < old(queue).items@.len() ==> call_ensures(
                P::process,
                (processor, #[trigger] old(queue).items@[i]),
                Ok::<(), ProcessReport>(()),
            ),
        r matches Err(rep) ==> (rep.payload matches Some(t) ==> old(queue).items@.contains(t)),
        r matches Err(rep) ==> exists|t: Tree|
            #![auto]
            old(queue).items@.contains(t) && call_ensures(P::process, (processor, t), Err(rep)),
{
    queue.close();
    let buffered = queue.drain();
    proof {
        assert(forall|i: int|
            0 <= i < buffered@.len() ==> wf_tree(#[trigger] buffered@[i]));
    }
    process_all(processor, buffered)
}

/// The processor a subscriber uses to hand trees to the worker: a marker
/// around the sending side of the pipeline that forwards every tree.
pub struct InnerSender<P>(pub P);

impl<P: Processor> Processor for InnerSender<P> {
    /// Forwards the tree; the result is the wrapped processor's own
    /// verdict on it.
    fn process(&self, tree: Tree) -> (r: Result<(), ProcessReport>)
        ensures
            r matches Err(rep) ==> (rep.payload matches Some(t) ==> t == tree),
            call_ensures(P::process, (&self.0, tree), r),
    {
        let result = self.0.process(tree);
        proof {
            assert(call_ensures(P::process, (&self.0, tree), result));
        }
        result
    }
}

} // verus!
