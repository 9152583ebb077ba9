//! The pull-side driver: it owns the producer's progress, interprets each
//! resumption, and surfaces items, one terminal error, or end-of-sequence.
//!
//! The producer computation itself is opaque to the driver: all the driver
//! ever learns from one resumption is whether the computation completed,
//! failed, or suspended, plus what the slot holds. [`AsyncStream::resolve`]
//! is that interpretation. [`ScriptedProducer`] is a producer written as a
//! plain list of actions; driving it with [`AsyncStream::pull_from`] and
//! [`run`] shows, for every script, that the pulled sequence is exactly the
//! sent sequence, in order, followed by the script's terminal outcome.

use vstd::prelude::*;

use crate::handshake::Sender;
use crate::handshake::SenderFuture;

verus! {

/// What one resumption of the producer computation reported.
#[derive(Clone, Copy)]
pub enum StepResult<E> {
    /// The computation finished successfully: the sequence is over.
    Complete,
    /// The computation failed; `E` becomes the one terminal failure item.
    Failed(E),
    /// The computation suspended, either on a `send` handshake or on an
    /// internal wait of its own.
    Suspended,
}

/// What one retrieval surfaces to the consumer.
#[derive(Clone, Copy, PartialEq, Eq)]
pub enum Pulled<I, E> {
    /// The next item of the sequence.
    Item(I),
    /// The single terminal failure; every later pull reports [`Pulled::End`].
    Failure(E),
    /// End of the sequence.
    End,
    /// No item yet: the producer suspended for a reason of its own. The
    /// stream is not terminated; pull again once that wait resolves.
    NotReady,
}

/// Pull-side driver state: the slot shared with the producer, and whether
/// the stream has reached its terminal state.
#[must_use]
pub struct AsyncStream<I, E> {
    sender: Sender<I, E>,
    done: bool,
}

impl<I, E> AsyncStream<I, E> {
    /// Whether the stream has terminated (successfully or with a failure).
    pub closed spec fn done(self) -> bool {
        self.done
    }

    /// What the driver's slot currently holds.
    pub closed spec fn slot(self) -> Option<I> {
        self.sender.slot()
    }

    /// A fresh driver: empty slot, not terminated.
    pub fn new() -> (s: AsyncStream<I, E>)
        ensures
            !s.done(),
            s.slot() is None,
    {
        AsyncStream { sender: Sender::new(None), done: false }
    }

    /// Whether the stream has terminated; after that, every pull reports
    /// end-of-sequence.
    pub fn is_done(&self) -> (r: bool)
        ensures
            r == self.done(),
    {
        self.done
    }

    /// Interpret the outcome of resuming the producer computation once.
    ///
    /// `taken` is what the slot held at the moment of a suspension, already
    /// removed from it by the caller; it is ignored for a completed or
    /// failed computation. Successful completion and failure are terminal;
    /// a suspension surfaces the taken item if there was one and otherwise
    /// reports that no item is ready yet.
    pub fn resolve(&mut self, step: StepResult<E>, taken: Option<I>) -> (r: Pulled<I, E>)
        requires
            !old(self).done(),
        ensures
            final(self).slot() == old(self).slot(),
            (match step {
                StepResult::Complete => r is End && final(self).done(),
                StepResult::Failed(e) => r == Pulled::<I, E>::Failure(e) && final(self).done(),
                StepResult::Suspended => !final(self).done() && (match taken {
                    Some(i) => r == Pulled::<I, E>::Item(i),
                    None => r is NotReady,
                }),
            }),
    {
        match step {
            StepResult::Complete => {
                self.done = true;
                Pulled::End
            },
            StepResult::Failed(e) => {
                self.done = true;
                Pulled::Failure(e)
            },
            StepResult::Suspended => {
                match taken {
                    Some(i) => Pulled::Item(i),
                    None => Pulled::NotReady,
                }
            },
        }
    }
}

/// One step of a scripted producer.
#[derive(Clone, Copy)]
pub enum Action<I> {
    /// Call `send` with the item and await the returned handshake object.
    Emit(I),
    /// Suspend once for a reason of the producer's own (a timer, nested
    /// input) without sending anything.
    Wait,
}

/// The payloads of a script's `Emit` actions, in script order.
pub open spec fn emitted<I>(actions: Seq<Action<I>>) -> Seq<I>
    decreases actions.len(),
{
    if actions.len() == 0 {
        Seq::empty()
    } else {
        emitted(actions.drop_last()) + (match actions.last() {
            Action::Emit(i) => seq![i],
            Action::Wait => Seq::empty(),
        })
    }
}

/// A producer written as a plain script: a list of actions to perform, then
/// a terminal outcome (`None` is success, `Some(e)` is failure with `e`).
///
/// Between resumptions it remembers its position and, after an `Emit`, the
/// handshake object it is awaiting.
pub struct ScriptedProducer<I, E> {
    actions: Vec<Action<I>>,
    failure: Option<E>,
    pos: usize,
    pending: Option<SenderFuture>,
}

impl<I, E> ScriptedProducer<I, E> {
    /// The script's actions.
    pub closed spec fn actions(self) -> Seq<Action<I>> {
        self.actions@
    }

    /// The script's terminal outcome.
    pub closed spec fn failure(self) -> Option<E> {
        self.failure
    }

    /// How many actions have been performed.
    pub closed spec fn pos(self) -> int {
        self.pos as int
    }

    /// Whether the producer is suspended on a `send` handshake.
    pub closed spec fn awaiting(self) -> bool {
        self.pending is Some
    }

    /// The position never passes the script's end, and a handshake object
    /// the producer suspended on has already been polled once, so the next
    /// poll lets the producer continue.
    pub closed spec fn wf(self) -> bool {
        &&& self.pos <= self.actions.len()
        &&& (match self.pending {
            Some(fut) => fut.completed(),
            None => true,
        })
    }
}

impl<I: Copy, E: Copy> ScriptedProducer<I, E> {
    /// A producer at the start of its script, not awaiting anything.
    pub fn new(actions: Vec<Action<I>>, failure: Option<E>) -> (p: ScriptedProducer<I, E>)
        ensures
            p.wf(),
            p.actions() == actions@,
            p.failure() == failure,
            p.pos() == 0,
            !p.awaiting(),
    {
        ScriptedProducer { actions, failure, pos: 0, pending: None }
    }

    /// Resume the producer once: finish a pending handshake if there is
    /// one, then run to the next suspension point or to the end of the
    /// script.
    ///
    /// An `Emit` action sends its item through `sender` — overwriting the
    /// slot — and suspends on the fresh handshake object; a `Wait` action
    /// suspends without touching the slot; at the end of the script the
    /// terminal outcome is reported.
    pub fn step(&mut self, sender: &mut Sender<I, E>) -> (r: StepResult<E>)
        requires
            old(self).wf(),
        ensures
            final(self).wf(),
            final(self).actions() == old(self).actions(),
            final(self).failure() == old(self).failure(),
            ({
                if old(self).pos() == old(self).actions().len() {
                    &&& final(self).pos() == old(self).pos()
                    &&& !final(self).awaiting()
                    &&& final(sender).slot() == old(sender).slot()
                    &&& (match old(self).failure() {
                        Some(e) => r == StepResult::<E>::Failed(e),
                        None => r is Complete,
                    })
                } else {
                    &&& final(self).pos() == old(self).pos() + 1
                    &&& r is Suspended
                    &&& (match old(self).actions()[old(self).pos()] {
                        Action::Emit(i) => final(sender).slot() == Some(i)
                            && final(self).awaiting(),
                        Action::Wait => final(sender).slot() == old(sender).slot()
                            && !final(self).awaiting(),
                    })
                }
            }),
    {
        if self.pending.is_some() {
            let mut fut = self.pending.take().unwrap();
            let ready = fut.poll();
            // The handshake was polled once when the producer suspended on
            // it, so this second poll reports ready and the producer goes on.
            assert(ready);
        }
        if self.pos < self.actions.len() {
            let action = self.actions[self.pos];
            self.pos = self.pos + 1;
            match action {
                Action::Emit(i) => {
                    let mut fut = sender.send(i);
                    let ready = fut.poll();
                    // The first poll of the fresh handshake reports
                    // not-ready: the mandatory yield, one per sent item.
                    assert(!ready);
                    self.pending = Some(fut);
                    StepResult::Suspended
                },
                Action::Wait => StepResult::Suspended,
            }
        } else {
            match self.failure {
                Some(e) => StepResult::Failed(e),
                None => StepResult::Complete,
            }
        }
    }
}

impl<I: Copy, E: Copy> AsyncStream<I, E> {
    /// One retrieval from a scripted producer: resume it once — unless the
    /// stream already terminated — and interpret the outcome.
    ///
    /// After exhaustion nothing is resumed and every pull reports
    /// end-of-sequence. A `Wait` suspension surfaces as [`Pulled::NotReady`]
    /// without terminating the stream, and the pull that consumes the next
    /// `Emit(i)` surfaces exactly `Item(i)`.
    pub fn pull_from(&mut self, prod: &mut ScriptedProducer<I, E>) -> (r: Pulled<I, E>)
        requires
            old(prod).wf(),
        ensures
            final(prod).wf(),
            final(prod).actions() == old(prod).actions(),
            final(prod).failure() == old(prod).failure(),
            old(self).done() ==> r is End && *final(self) == *old(self)
                && *final(prod) == *old(prod),
            !old(self).done() ==> ({
                if old(prod).pos() == old(prod).actions().len() {
                    &&& final(prod).pos() == old(prod).pos()
                    &&& !final(prod).awaiting()
                    &&& final(self).done()
                    &&& final(self).slot() == old(self).slot()
                    &&& (match old(prod).failure() {
                        Some(e) => r == Pulled::<I, E>::Failure(e),
                        None => r is End,
                    })
                } else {
                    &&& final(prod).pos() == old(prod).pos() + 1
                    &&& !final(self).done()
                    &&& final(self).slot() is None
                    &&& (match old(prod).actions()[old(prod).pos()] {
                        Action::Emit(i) => r == Pulled::<I, E>::Item(i)
                            && final(prod).awaiting(),
                        Action::Wait => !final(prod).awaiting() && (match old(self).slot() {
                            Some(x) => r == Pulled::<I, E>::Item(x),
                            None => r is NotReady,
                        }),
                    })
                }
            }),
    {
        if self.done {
            return Pulled::End;
        }
        let step = prod.step(&mut self.sender);
        let taken = match step {
            StepResult::Suspended => self.sender.take(),
            _ => None,
        };
        self.resolve(step, taken)
    }
}

/// Appending one more action to the consumed prefix appends exactly that
/// action's payload, if it has one, to the emitted sequence.
proof fn lemma_emitted_step<I>(actions: Seq<Action<I>>, i: int)
    requires
        0 <= i < actions.len(),
    ensures
        emitted(actions.take(i + 1)) == emitted(actions.take(i)) + (match actions[i] {
            Action::Emit(x) => seq![x],
            Action::Wait => Seq::<I>::empty(),
        }),
{
    assert(actions.take(i + 1).drop_last() =~= actions.take(i));
    assert(actions.take(i + 1).last() == actions[i]);
}

/// Drive a scripted producer to exhaustion, collecting every pulled item
/// and the terminal failure, if any.
///
/// This states the library's central laws for every script: the items
/// pulled are exactly the `Emit` payloads, in script order — none dropped,
/// duplicated or reordered, whatever `Wait` suspensions stand between them —
/// and the stream ends with the script's own terminal outcome: no failure
/// item for a successful producer (in particular, a zero-item script gives
/// an immediately exhausted, error-free stream), and exactly the script's
/// failure otherwise.
pub fn run<I: Copy, E: Copy>(actions: Vec<Action<I>>, failure: Option<E>) -> (r: (
    Vec<I>,
    Option<E>,
))
    ensures
        r.0@ == emitted(actions@),
        r.1 == failure,
{
    let mut stream = AsyncStream::<I, E>::new();
    let mut prod = ScriptedProducer::<I, E>::new(actions, failure);
    let mut items: Vec<I> = Vec::new();
    let mut err: Option<E> = None;
    while !stream.is_done()
        invariant
            prod.wf(),
            prod.actions() == actions@,
            prod.failure() == failure,
            0 <= prod.pos() <= actions@.len(),
            items@ == emitted(actions@.take(prod.pos())),
            stream.slot() is None,
            !stream.done() ==> err is None,
            stream.done() ==> prod.pos() == actions@.len() && err == failure,
        decreases actions@.len() - prod.pos() + (if stream.done() {
            0int
        } else {
            1int
        }),
    {
        let ghost pos_before = prod.pos();
        let pulled = stream.pull_from(&mut prod);
        match pulled {
            Pulled::Item(i) => items.push(i),
            Pulled::Failure(e) => err = Some(e),
            Pulled::End => (),
            Pulled::NotReady => (),
        }
        proof {
            if pos_before < actions@.len() {
                lemma_emitted_step(actions@, pos_before);
            }
        }
    }
    proof {
        assert(actions@.take(actions@.len() as int) =~= actions@);
    }
    (items, err)
}

} // verus!
