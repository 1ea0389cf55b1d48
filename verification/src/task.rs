//! A named unit of work and the decorators that wrap it.
use crate::context::Context;
use crate::hooks::TaskResult;
use crate::payload::Payload;
use vstd::prelude::*;

verus! {

/// A named unit of work. The name is fixed when the task is made; the body
/// is what the task runs, and a decorator replaces it by a body that wraps
/// it.
pub struct Task<B> {
    name: String,
    body: B,
}

/// What a task consists of.
pub struct TaskView<B> {
    pub name: Seq<char>,
    pub body: B,
}

impl<B> View for Task<B> {
    type V = TaskView<B>;

    closed spec fn view(&self) -> TaskView<B> {
        TaskView { name: self.name@, body: self.body }
    }
}

impl<B> Task<B> {
    #[verifier::type_invariant]
    spec fn named(self) -> bool {
        self.name@.len() > 0
    }

    /// A task called `name` that runs `body`.
    pub fn new(name: &str, body: B) -> (task: Task<B>)
        requires
            name@.len() > 0,
        ensures
            task@ == (TaskView { name: name@, body }),
    {
        Task { name: name.to_owned(), body }
    }

    /// The task's name.
    pub fn name(&self) -> (name: &str)
        ensures
            name@ == self@.name,
            name@.len() > 0,
    {
        proof {
            use_type_invariant(self);
        }
        self.name.as_str()
    }

    /// The task's body.
    pub fn body(&self) -> (body: &B)
        ensures
            *body == self@.body,
    {
        &self.body
    }

    /// Wraps the body in `decorator`: the new task has the same name, and its
    /// body is what `decorator` makes of the old body. Of two decorators the
    /// one attached later is the outer one, so it sees a call first and the
    /// result last.
    pub fn with_wrapper<D, C>(self, decorator: D) -> (wrapped: Task<C>) where D: FnOnce(B) -> C
        requires
            call_requires(decorator, (self@.body,)),
        ensures
            wrapped@.name == self@.name,
            call_ensures(decorator, (self@.body,), wrapped@.body),
    {
        proof {
            use_type_invariant(&self);
        }
        let Task { name, body } = self;
        Task { name, body: decorator(body) }
    }
}

impl<B: Fn(Context, &Payload) -> (Context, TaskResult)> Task<B> {
    /// Runs the body on `ctx` and `payload` and returns what the body
    /// returns: the context to go on with and the result, unchanged.
    pub fn execute(&self, ctx: Context, payload: &Payload) -> (out: (Context, TaskResult))
        requires
            call_requires(self@.body, (ctx, payload)),
        ensures
            call_ensures(self@.body, (ctx, payload), out),
    {
        (self.body)(ctx, payload)
    }
}

/// Attaching a first decorator and then a second one gives the body that the
/// second makes of what the first made of the task's own body: the second is
/// the outer one.
pub proof fn decorators_nest<B, C, E, D1: FnOnce(B) -> C, D2: FnOnce(C) -> E>(
    task: Task<B>,
    first: D1,
    once: Task<C>,
    second: D2,
    twice: Task<E>,
)
    requires
        once@.name == task@.name,
        call_ensures(first, (task@.body,), once@.body),
        twice@.name == once@.name,
        call_ensures(second, (once@.body,), twice@.body),
    ensures
        twice@.name == task@.name,
        exists|inner: C|
            call_ensures(first, (task@.body,), inner) && call_ensures(
                second,
                (inner,),
                twice@.body,
            ),
{
}

} // verus!
