//! A handle that owns a running task and a teardown action, which runs at
//! most once.
use vstd::prelude::*;

verus! {

/// Holds a future until it completes, and an action to run when the handle
/// is released. The action is handed out once: every later request finds
/// nothing, which makes releasing idempotent.
pub struct DroppingOnce<Fut, DropFn> {
    pub future: Option<Fut>,
    pub drop_fn: Option<DropFn>,
}

impl<Fut, DropFn> DroppingOnce<Fut, DropFn> {
    pub fn new(future: Fut, drop_fn: DropFn) -> (r: Self)
        ensures
            r.future == Some(future),
            r.drop_fn == Some(drop_fn),
    {
        DroppingOnce { future: Some(future), drop_fn: Some(drop_fn) }
    }

    /// The future, while it has not completed.
    pub fn future_mut(&mut self) -> (r: Option<&mut Fut>)
        ensures
            match old(self).future {
                None => r is None && final(self).future is None,
                Some(f) => {
                    &&& r is Some
                    &&& *r->0 == f
                    &&& final(self).future == Some(*final(r->0))
                },
            },
            final(self).drop_fn == old(self).drop_fn,
    {
        self.future.as_mut()
    }

    /// The future completed: it is dropped and the handle is terminated.
    pub fn finish(&mut self)
        ensures
            final(self).future is None,
            final(self).drop_fn == old(self).drop_fn,
    {
        self.future = None;
    }

    pub fn is_terminated(&self) -> (r: bool)
        ensures
            r == self.future is None,
    {
        self.future.is_none()
    }

    /// The number of items still to come: one while the future runs.
    pub fn size_hint(&self) -> (r: (usize, Option<usize>))
        ensures
            self.future is Some ==> r == (1usize, Some(1usize)),
            self.future is None ==> r == (0usize, Some(0usize)),
    {
        if self.future.is_some() {
            (1, Some(1))
        } else {
            (0, Some(0))
        }
    }

    /// Hands out the teardown action the first time, nothing afterwards.
    pub fn take_drop_fn(&mut self) -> (r: Option<DropFn>)
        ensures
            r == old(self).drop_fn,
            final(self).drop_fn is None,
            final(self).future == old(self).future,
    {
        self.drop_fn.take()
    }
}

} // verus!
