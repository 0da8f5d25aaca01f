//! Single-threaded cooperative executor: a FIFO of tasks polled round-robin.
use vstd::prelude::*;
use std::collections::VecDeque;
use std::future::Future;
use std::pin::Pin;

verus! {

/// A suspended computation, owned by the executor's queue until it completes.
pub struct Task<F> {
    future: F,
}

impl<F: Future<Output = ()> + Unpin> Task<F> {
    /// The future that polling advances.
    pub closed spec fn future(&self) -> F {
        self.future
    }

    pub fn new(future: F) -> (r: Task<F>)
        ensures
            r.future() == future,
    {
        Task { future }
    }
}

/// Relies on waker_fn::waker_fn for a waker whose wake does nothing, and on the
/// task's own Future::poll; reports whether the poll returned Ready.
#[verifier::external_body]
fn poll_with_noop_waker<F: Future<Output = ()> + Unpin>(task: &mut Task<F>) -> (done: bool) {
    let waker = waker_fn::waker_fn(|| {});
    let mut context = std::task::Context::from_waker(&waker);
    Pin::new(&mut task.future).poll(&mut context).is_ready()
}

pub struct Executor<F> {
    tasks: VecDeque<Task<F>>,
}

impl<F: Future<Output = ()> + Unpin> View for Executor<F> {
    type V = Seq<Task<F>>;

    /// The queue, head first.
    closed spec fn view(&self) -> Seq<Task<F>> {
        self.tasks@
    }
}

impl<F: Future<Output = ()> + Unpin> Executor<F> {
    pub fn new() -> (r: Executor<F>)
        ensures
            r@ == Seq::<Task<F>>::empty(),
    {
        Executor { tasks: VecDeque::new() }
    }

    /// Appends a task at the tail of the queue.
    pub fn spawn(&mut self, task: Task<F>)
        ensures
            final(self)@ == old(self)@.push(task),
    {
        self.tasks.push_back(task);
    }

    pub fn len(&self) -> (r: usize)
        ensures
            r == self@.len(),
    {
        self.tasks.len()
    }

    pub fn is_empty(&self) -> (r: bool)
        ensures
            r == (self@.len() == 0),
    {
        self.tasks.len() == 0
    }

    /// One scheduling step: pops the head task and polls it once. A task that
    /// is still pending goes back to the tail; a finished one is dropped.
    /// Returns `None` on an empty queue, else whether the polled task finished.
    pub fn run_until_idle(&mut self) -> (polled: Option<bool>)
        ensures
            old(self)@.len() == 0 <==> polled is None,
            polled is None ==> final(self)@ == old(self)@,
            polled == Some(true) ==> final(self)@ == old(self)@.drop_first(),
            polled == Some(false) ==> {
                &&& final(self)@.len() == old(self)@.len()
                &&& final(self)@.drop_last() == old(self)@.drop_first()
            },
    {
        match self.tasks.pop_front() {
            Some(mut task) => {
                let done = poll_with_noop_waker(&mut task);
                if !done {
                    self.tasks.push_back(task);
                }
                Some(done)
            },
            None => None,
        }
    }
}

} // verus!
