//! The extension points around a task: what runs once at startup, what runs
//! before the task and what runs after it.
//!
//! A hook is any function of the right shape. It receives the context by
//! value and hands back the context to go on with, so that what a hook did to
//! the context is part of what it returned.
use crate::context::Context;
use crate::payload::Payload;
use vstd::prelude::*;

verus! {

/// What a task or an execution ends in: an output, or an error message.
pub type TaskResult = Result<String, String>;

/// Seeds the context before anything is executed.
pub trait Initializer: Send + Sync {
    /// Whether the hook may be called on `ctx`.
    spec fn accepts(&self, ctx: Context) -> bool;

    /// Whether the hook may return `out` when called on `ctx`.
    spec fn yields(&self, ctx: Context, out: Context) -> bool;

    fn apply(&self, ctx: Context) -> (out: Context)
        requires
            self.accepts(ctx),
        ensures
            self.yields(ctx, out),
    ;
}

impl<F: Fn(Context) -> Context + Send + Sync> Initializer for F {
    open spec fn accepts(&self, ctx: Context) -> bool {
        call_requires(*self, (ctx,))
    }

    open spec fn yields(&self, ctx: Context, out: Context) -> bool {
        call_ensures(*self, (ctx,), out)
    }

    fn apply(&self, ctx: Context) -> (out: Context) {
        self(ctx)
    }
}

/// Runs immediately before the task: may change the context and replace the
/// payload.
pub trait BeforeAction: Send + Sync {
    /// Whether the hook may be called on these arguments.
    spec fn accepts(&self, ctx: Context, payload: Payload) -> bool;

    /// Whether the hook may return `out` when called on these arguments.
    spec fn yields(&self, ctx: Context, payload: Payload, out: (Context, Payload)) -> bool;

    fn apply(&self, ctx: Context, payload: Payload) -> (out: (Context, Payload))
        requires
            self.accepts(ctx, payload),
        ensures
            self.yields(ctx, payload, out),
    ;
}

impl<F: Fn(Context, Payload) -> (Context, Payload) + Send + Sync> BeforeAction for F {
    open spec fn accepts(&self, ctx: Context, payload: Payload) -> bool {
        call_requires(*self, (ctx, payload))
    }

    open spec fn yields(&self, ctx: Context, payload: Payload, out: (Context, Payload)) -> bool {
        call_ensures(*self, (ctx, payload), out)
    }

    fn apply(&self, ctx: Context, payload: Payload) -> (out: (Context, Payload)) {
        self(ctx, payload)
    }
}

/// A before-action that changes the context and leaves the payload alone.
pub struct ContextOnly<M> {
    pub mutation: M,
}

impl<M: Fn(Context, &Payload) -> Context + Send + Sync> BeforeAction for ContextOnly<M> {
    open spec fn accepts(&self, ctx: Context, payload: Payload) -> bool {
        call_requires(self.mutation, (ctx, &payload))
    }

    open spec fn yields(&self, ctx: Context, payload: Payload, out: (Context, Payload)) -> bool {
        out.1 == payload && call_ensures(self.mutation, (ctx, &payload), out.0)
    }

    fn apply(&self, ctx: Context, payload: Payload) -> (out: (Context, Payload)) {
        let ctx = (self.mutation)(ctx, &payload);
        (ctx, payload)
    }
}

/// Runs immediately after the task, on the payload that the task saw and on
/// the task's result. What it returns is the final result.
pub trait AfterAction: Send + Sync {
    /// Whether the hook may be called on these arguments.
    spec fn accepts(&self, ctx: Context, payload: Payload, result: TaskResult) -> bool;

    /// Whether the hook may return `out` when called on these arguments.
    spec fn yields(
        &self,
        ctx: Context,
        payload: Payload,
        result: TaskResult,
        out: (Context, TaskResult),
    ) -> bool;

    fn apply(&self, ctx: Context, payload: Payload, result: TaskResult) -> (out: (
        Context,
        TaskResult,
    ))
        requires
            self.accepts(ctx, payload, result),
        ensures
            self.yields(ctx, payload, result, out),
    ;
}

impl<
    F: Fn(Context, Payload, TaskResult) -> (Context, TaskResult) + Send + Sync,
> AfterAction for F {
    open spec fn accepts(&self, ctx: Context, payload: Payload, result: TaskResult) -> bool {
        call_requires(*self, (ctx, payload, result))
    }

    open spec fn yields(
        &self,
        ctx: Context,
        payload: Payload,
        result: TaskResult,
        out: (Context, TaskResult),
    ) -> bool {
        call_ensures(*self, (ctx, payload, result), out)
    }

    fn apply(&self, ctx: Context, payload: Payload, result: TaskResult) -> (out: (
        Context,
        TaskResult,
    )) {
        self(ctx, payload, result)
    }
}

} // verus!
