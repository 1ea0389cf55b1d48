//! The executor: one task, the hooks around it, the context they share, and
//! the fixed order in which an execution runs them.
use crate::context::Context;
use crate::hooks::{AfterAction, BeforeAction, ContextOnly, Initializer, TaskResult};
use crate::payload::Payload;
use crate::runtime::{Runtime, KEY_RUNTIME};
use crate::task::Task;
use vstd::prelude::*;

verus! {

/// The context key under which the registered task's name is recorded.
pub const KEY_TASK_NAME: &'static str = "task_name";

/// The error message of an execution that found no task registered.
pub const NO_TASK_REGISTERED: &'static str = "No task registered";

/// Owns at most one task, the optional hooks and the context.
pub struct Executor<B> {
    task: Option<Task<B>>,
    initializer: Option<Box<dyn Initializer>>,
    after_action: Option<Box<dyn AfterAction>>,
    before_action: Option<Box<dyn BeforeAction>>,
    context: Context,
}

/// What an executor consists of.
pub struct ExecutorView<B> {
    pub task: Option<Task<B>>,
    pub initializer: Option<Box<dyn Initializer>>,
    pub after_action: Option<Box<dyn AfterAction>>,
    pub before_action: Option<Box<dyn BeforeAction>>,
    pub context: Context,
}

impl<B> View for Executor<B> {
    type V = ExecutorView<B>;

    closed spec fn view(&self) -> ExecutorView<B> {
        ExecutorView {
            task: self.task,
            initializer: self.initializer,
            after_action: self.after_action,
            before_action: self.before_action,
            context: self.context,
        }
    }
}

impl<B> Default for Executor<B> {
    fn default() -> (executor: Executor<B>)
        ensures
            executor@.task is None,
            executor@.initializer is None,
            executor@.before_action is None,
            executor@.after_action is None,
            executor@.context@ == Map::<Seq<char>, Seq<char>>::empty(),
    {
        Executor::new()
    }
}

/// An execution in flight: made by its first step and used up by its last,
/// so that the last step follows the first and happens once. It holds the
/// payload that the task gets.
pub struct Execution {
    payload: Payload,
}

impl View for Execution {
    type V = Payload;

    closed spec fn view(&self) -> Payload {
        self.payload
    }
}

impl Execution {
    /// The payload for the task.
    pub fn payload(&self) -> (payload: &Payload)
        ensures
            *payload == self@,
    {
        &self.payload
    }
}

/// The payload that an execution starts from: the one supplied, or the empty
/// payload when none was.
pub open spec fn supplied_payload(payload: Option<Payload>) -> Payload {
    match payload {
        Some(payload) => payload,
        None => Payload::Null,
    }
}

/// Whether `result` is what the task step of an execution reports for
/// `outcome`: the task's own result where a task ran, and the error that no
/// task is registered where none did.
pub open spec fn reported(outcome: Option<TaskResult>, result: TaskResult) -> bool {
    match outcome {
        Some(ran) => result == ran,
        None => result is Err && result->Err_0@ == NO_TASK_REGISTERED@,
    }
}

impl<B> ExecutorView<B> {
    /// The startup step: the initializer, where one is set, may turn `ctx`
    /// into `out`; without one the context stays as it is.
    pub open spec fn initializer_step(self, ctx: Context, out: Context) -> bool {
        match self.initializer {
            Some(hook) => hook.yields(ctx, out),
            None => out == ctx,
        }
    }

    /// The first step of an execution: the before-action, where one is set,
    /// may turn `ctx` and `payload` into `out`; without one both stay as they
    /// are.
    pub open spec fn before_step(self, ctx: Context, payload: Payload, out: (Context, Payload)) -> bool {
        match self.before_action {
            Some(hook) => hook.yields(ctx, payload, out),
            None => out == (ctx, payload),
        }
    }

    /// The last step of an execution: the after-action, where one is set, may
    /// turn `ctx` and `result` into `out`; without one both stay as they are.
    pub open spec fn after_step(
        self,
        ctx: Context,
        payload: Payload,
        result: TaskResult,
        out: (Context, TaskResult),
    ) -> bool {
        match self.after_action {
            Some(hook) => hook.yields(ctx, payload, result, out),
            None => out == (ctx, result),
        }
    }
}

impl<B> Executor<B> {
    /// An executor without task or hooks, on an empty context.
    pub fn new() -> (executor: Executor<B>)
        ensures
            executor@.task is None,
            executor@.initializer is None,
            executor@.before_action is None,
            executor@.after_action is None,
            executor@.context@ == Map::<Seq<char>, Seq<char>>::empty(),
    {
        Executor {
            task: None,
            initializer: None,
            after_action: None,
            before_action: None,
            context: Context::new(),
        }
    }

    /// The executor's context.
    pub fn context(&self) -> (ctx: &Context)
        ensures
            *ctx == self@.context,
    {
        &self.context
    }

    /// The executor's context, for writing. Task and hooks stay as they
    /// are.
    pub fn context_mut(&mut self) -> (ctx: &mut Context)
        ensures
            *ctx == old(self)@.context,
            final(self)@ == (ExecutorView { context: *final(ctx), ..old(self)@ }),
    {
        &mut self.context
    }

    /// The registered task, if there is one.
    pub fn task(&self) -> (task: Option<&Task<B>>)
        ensures
            match task {
                Some(task) => self@.task == Some(*task),
                None => self@.task is None,
            },
    {
        self.task.as_ref()
    }

    /// Registers `task`, in place of any task registered before, and records
    /// its name in the context.
    pub fn set_task(&mut self, task: Task<B>)
        ensures
            final(self)@.task == Some(task),
            final(self)@.context@ == old(self)@.context@.insert(KEY_TASK_NAME@, task@.name),
            final(self)@.initializer == old(self)@.initializer,
            final(self)@.before_action == old(self)@.before_action,
            final(self)@.after_action == old(self)@.after_action,
    {
        self.context.set(KEY_TASK_NAME, task.name().to_owned());
        self.task = Some(task);
    }
}

impl<B> Executor<B> {
    /// Sets the hook that seeds the context at startup, in place of any set
    /// before.
    pub fn set_initializer<C>(&mut self, initializer: C) where
        C: Fn(Context) -> Context + 'static + Send + Sync,

        ensures
            final(self)@.initializer is Some,
            forall|ctx: Context|
                final(self)@.initializer->0.accepts(ctx) == call_requires(initializer, (ctx,)),
            forall|ctx: Context, out: Context|
                final(self)@.initializer->0.yields(ctx, out) == call_ensures(
                    initializer,
                    (ctx,),
                    out,
                ),
            final(self)@.task == old(self)@.task,
            final(self)@.before_action == old(self)@.before_action,
            final(self)@.after_action == old(self)@.after_action,
            final(self)@.context == old(self)@.context,
    {
        self.initializer = Some(Box::new(initializer));
    }

    /// Sets the hook that runs after the task, in place of any set before.
    pub fn set_after_action<E>(&mut self, action: E) where
        E: Fn(Context, Payload, TaskResult) -> (Context, TaskResult) + 'static + Send + Sync,

        ensures
            final(self)@.after_action is Some,
            forall|ctx: Context, payload: Payload, result: TaskResult|
                final(self)@.after_action->0.accepts(ctx, payload, result) == call_requires(
                    action,
                    (ctx, payload, result),
                ),
            forall|ctx: Context, payload: Payload, result: TaskResult, out: (Context, TaskResult)|
                final(self)@.after_action->0.yields(ctx, payload, result, out) == call_ensures(
                    action,
                    (ctx, payload, result),
                    out,
                ),
            final(self)@.task == old(self)@.task,
            final(self)@.initializer == old(self)@.initializer,
            final(self)@.before_action == old(self)@.before_action,
            final(self)@.context == old(self)@.context,
    {
        self.after_action = Some(Box::new(action));
    }

    /// Sets the hook that runs before the task, in place of any set before.
    pub fn set_before_action<M>(&mut self, action: M) where
        M: Fn(Context, Payload) -> (Context, Payload) + 'static + Send + Sync,

        ensures
            final(self)@.before_action is Some,
            forall|ctx: Context, payload: Payload|
                final(self)@.before_action->0.accepts(ctx, payload) == call_requires(
                    action,
                    (ctx, payload),
                ),
            forall|ctx: Context, payload: Payload, out: (Context, Payload)|
                final(self)@.before_action->0.yields(ctx, payload, out) == call_ensures(
                    action,
                    (ctx, payload),
                    out,
                ),
            final(self)@.task == old(self)@.task,
            final(self)@.initializer == old(self)@.initializer,
            final(self)@.after_action == old(self)@.after_action,
            final(self)@.context == old(self)@.context,
    {
        self.before_action = Some(Box::new(action));
    }

    /// Sets a before-action that only changes the context, in place of any
    /// before-action set before: it sees the payload and hands back the
    /// context, and the payload goes on to the task as it is.
    pub fn set_before_mutation<M>(&mut self, mutation: M) where
        M: Fn(Context, &Payload) -> Context + 'static + Send + Sync,

        ensures
            final(self)@.before_action is Some,
            forall|ctx: Context, payload: Payload|
                final(self)@.before_action->0.accepts(ctx, payload) == call_requires(
                    mutation,
                    (ctx, &payload),
                ),
            forall|ctx: Context, payload: Payload, out: (Context, Payload)|
                final(self)@.before_action->0.yields(ctx, payload, out) == (out.1 == payload
                    && call_ensures(mutation, (ctx, &payload), out.0)),
            final(self)@.task == old(self)@.task,
            final(self)@.initializer == old(self)@.initializer,
            final(self)@.after_action == old(self)@.after_action,
            final(self)@.context == old(self)@.context,
    {
        self.before_action = Some(Box::new(ContextOnly { mutation }));
    }

    /// The first step of an execution. An omitted payload counts as the
    /// empty payload; the before-action, where one is set, then runs once on
    /// the context and that payload. What it returns is the payload for the
    /// task, held by the execution that this step starts.
    pub fn before_task(&mut self, payload: Option<Payload>) -> (execution: Execution)
        requires
            old(self)@.before_action matches Some(hook) ==> hook.accepts(
                old(self)@.context,
                supplied_payload(payload),
            ),
        ensures
            old(self)@.before_step(
                old(self)@.context,
                supplied_payload(payload),
                (final(self)@.context, execution@),
            ),
            final(self)@ == (ExecutorView { context: final(self)@.context, ..old(self)@ }),
    {
        let supplied = match payload {
            Some(payload) => payload,
            None => Payload::Null,
        };
        let mut ctx = Context::new();
        std::mem::swap(&mut self.context, &mut ctx);
        match &self.before_action {
            Some(hook) => {
                let (ctx, prepared) = hook.apply(ctx, supplied);
                self.context = ctx;
                Execution { payload: prepared }
            },
            None => {
                self.context = ctx;
                Execution { payload: supplied }
            },
        }
    }

    /// The last step of an execution, which uses the execution up.
    /// `outcome` is the result of the task, or `None` where no task ran,
    /// which counts as the error that no task is registered. The
    /// after-action, where one is set, then runs once on the context, the
    /// payload that the task got and that result; what it returns is final.
    pub fn after_task(&mut self, execution: Execution, outcome: Option<TaskResult>) -> (result:
        TaskResult)
        requires
            old(self)@.after_action matches Some(hook) ==> forall|ran: TaskResult|
                reported(outcome, ran) ==> hook.accepts(old(self)@.context, execution@, ran),
        ensures
            exists|ran: TaskResult| #[trigger]
                reported(outcome, ran) && old(self)@.after_step(
                    old(self)@.context,
                    execution@,
                    ran,
                    (final(self)@.context, result),
                ),
            final(self)@ == (ExecutorView { context: final(self)@.context, ..old(self)@ }),
    {
        let ran: TaskResult = match outcome {
            Some(ran) => ran,
            None => Err(NO_TASK_REGISTERED.to_owned()),
        };
        assert(reported(outcome, ran));
        let mut ctx = Context::new();
        std::mem::swap(&mut self.context, &mut ctx);
        match &self.after_action {
            Some(hook) => {
                let (ctx, result) = hook.apply(ctx, execution.payload, ran);
                self.context = ctx;
                result
            },
            None => {
                self.context = ctx;
                ran
            },
        }
    }
}

impl<B> Executor<B> {
    /// The one-time startup sequence: runs the initializer, where one is
    /// set, once, then records the name of `runtime` in the context under
    /// [`KEY_RUNTIME`]. Written last, the record always names the runtime
    /// that was selected. Serving the runtime is the caller's part.
    pub fn run(&mut self, runtime: Runtime)
        requires
            old(self)@.initializer matches Some(hook) ==> hook.accepts(old(self)@.context),
        ensures
            exists|seeded: Context| #[trigger]
                old(self)@.initializer_step(old(self)@.context, seeded) && final(self)@.context@
                    == seeded@.insert(KEY_RUNTIME@, runtime.name()),
            final(self)@ == (ExecutorView { context: final(self)@.context, ..old(self)@ }),
    {
        let mut ctx = Context::new();
        std::mem::swap(&mut self.context, &mut ctx);
        let mut seeded = match &self.initializer {
            Some(hook) => hook.apply(ctx),
            None => ctx,
        };
        assert(old(self)@.initializer_step(old(self)@.context, seeded));
        seeded.set(KEY_RUNTIME, runtime.to_string());
        self.context = seeded;
    }
}

/// What a local run reports when the execution has ended: the output of a
/// success or the message of a failure. Either way the run itself succeeded.
pub fn local_report(result: TaskResult) -> (report: String)
    ensures
        report == (match result {
            Ok(output) => output,
            Err(message) => message,
        }),
{
    match result {
        Ok(output) => output,
        Err(message) => message,
    }
}

impl<B: Fn(Context, &Payload) -> (Context, TaskResult)> ExecutorView<B> {
    /// The middle step of an execution: the registered task may turn `ctx`
    /// into `out.0` with the result `out.1`; without a task the context
    /// stays as it is and the result is the error that says so.
    pub open spec fn task_step(self, ctx: Context, payload: Payload, out: (Context, TaskResult)) -> bool {
        match self.task {
            Some(task) => call_ensures(task@.body, (ctx, &payload), out),
            None => out.0 == ctx && reported(None, out.1),
        }
    }

    /// Every step of an execution on `payload` may be called on what it
    /// gets: the before-action on the starting context and the supplied
    /// payload, the task on whatever the before-action may return, and the
    /// after-action on whatever the task may return.
    pub open spec fn can_execute(self, payload: Option<Payload>) -> bool {
        &&& self.before_action matches Some(hook) ==> hook.accepts(
            self.context,
            supplied_payload(payload),
        )
        &&& forall|prepared: (Context, Payload)| #[trigger]
            self.before_step(self.context, supplied_payload(payload), prepared) ==> (
            self.task matches Some(task) ==> call_requires(
                task@.body,
                (prepared.0, &prepared.1),
            ))
        &&& forall|prepared: (Context, Payload), ran: (Context, TaskResult)|
            self.before_step(self.context, supplied_payload(payload), prepared)
                && #[trigger] self.task_step(prepared.0, prepared.1, ran) ==> (
            self.after_action matches Some(hook) ==> hook.accepts(ran.0, prepared.1, ran.1))
    }

    /// An execution on `payload` may end with the context `end` and the
    /// result `result`: the before-action ran on the starting context and the
    /// supplied payload, the task on what the before-action returned, and
    /// the after-action on what the task returned, each once and in that
    /// order, and `end` and `result` are what the after-action returned.
    pub open spec fn executes(self, payload: Option<Payload>, end: Context, result: TaskResult) -> bool {
        exists|prepared: (Context, Payload), ran: (Context, TaskResult)|
            {
                &&& self.before_step(self.context, supplied_payload(payload), prepared)
                &&& #[trigger] self.task_step(prepared.0, prepared.1, ran)
                &&& self.after_step(ran.0, prepared.1, ran.1, (end, result))
            }
    }
}

impl<B: Fn(Context, &Payload) -> (Context, TaskResult)> Executor<B> {
    /// The middle step of an execution: runs the registered task once on
    /// the context and the payload of the execution. Returns the task's
    /// result, or `None` where no task is registered.
    pub fn run_task(&mut self, execution: &Execution) -> (outcome: Option<TaskResult>)
        requires
            old(self)@.task matches Some(task) ==> call_requires(
                task@.body,
                (old(self)@.context, &execution@),
            ),
        ensures
            match outcome {
                Some(ran) => old(self)@.task is Some && old(self)@.task_step(
                    old(self)@.context,
                    execution@,
                    (final(self)@.context, ran),
                ),
                None => old(self)@.task is None && final(self)@.context == old(self)@.context,
            },
            final(self)@ == (ExecutorView { context: final(self)@.context, ..old(self)@ }),
    {
        match &self.task {
            Some(task) => {
                let mut ctx = Context::new();
                std::mem::swap(&mut self.context, &mut ctx);
                let (ctx, ran) = task.execute(ctx, execution.payload());
                self.context = ctx;
                Some(ran)
            },
            None => None,
        }
    }

    /// One execution: the before-action, then the task, then the
    /// after-action, each once and in that order; a hook that is not set
    /// does nothing. Without a registered task the task step yields the
    /// error that no task is registered, which the after-action still sees.
    /// The result is what the last step returned; task and hooks stay as
    /// they are.
    pub fn execute_task(&mut self, payload: Option<Payload>) -> (result: TaskResult)
        requires
            old(self)@.can_execute(payload),
        ensures
            old(self)@.executes(payload, final(self)@.context, result),
            final(self)@ == (ExecutorView { context: final(self)@.context, ..old(self)@ }),
    {
        let ghost start = self@;
        let execution = self.before_task(payload);
        let ghost first = (self@.context, execution@);
        assert(start.before_step(start.context, supplied_payload(payload), first));
        let outcome = self.run_task(&execution);
        let ghost task_done = self@.context;
        assert forall|ran: TaskResult| reported(outcome, ran) implies start.task_step(
            first.0,
            first.1,
            (task_done, ran),
        ) by {}
        let result = self.after_task(execution, outcome);
        proof {
            let ran = choose|ran: TaskResult| #[trigger]
                reported(outcome, ran) && start.after_step(
                    task_done,
                    first.1,
                    ran,
                    (self@.context, result),
                );
            let second = (task_done, ran);
            assert(start.task_step(first.0, first.1, second));
            assert(start.after_step(second.0, first.1, second.1, (self@.context, result)));
        }
        result
    }
}

/// An execution on an executor without task and without before- or
/// after-action ends in the error that no task is registered, whatever the
/// payload, and leaves the context as it was.
pub proof fn unconfigured_execution_fails<B: Fn(Context, &Payload) -> (Context, TaskResult)>(
    executor: ExecutorView<B>,
    payload: Option<Payload>,
    end: Context,
    result: TaskResult,
)
    requires
        executor.task is None,
        executor.before_action is None,
        executor.after_action is None,
        executor.executes(payload, end, result),
    ensures
        result is Err,
        result->Err_0@ == NO_TASK_REGISTERED@,
        end == executor.context,
{
}

/// With a task and both hooks set, an execution is one call of the
/// before-action on the starting context and the supplied payload, then one
/// call of the task on what the before-action returned, then one call of the
/// after-action on what the task returned; what the after-action returns is
/// the outcome of the execution.
pub proof fn execution_order<B: Fn(Context, &Payload) -> (Context, TaskResult)>(
    executor: ExecutorView<B>,
    payload: Option<Payload>,
    end: Context,
    result: TaskResult,
)
    requires
        executor.task is Some,
        executor.before_action is Some,
        executor.after_action is Some,
        executor.executes(payload, end, result),
    ensures
        exists|prepared: (Context, Payload), ran: (Context, TaskResult)|
            {
                &&& executor.before_action->0.yields(
                    executor.context,
                    supplied_payload(payload),
                    prepared,
                )
                &&& #[trigger] call_ensures(
                    executor.task->0@.body,
                    (prepared.0, &prepared.1),
                    ran,
                )
                &&& executor.after_action->0.yields(ran.0, prepared.1, ran.1, (end, result))
            },
{
    let (prepared, ran) = choose|prepared: (Context, Payload), ran: (Context, TaskResult)|
        {
            &&& executor.before_step(executor.context, supplied_payload(payload), prepared)
            &&& #[trigger] executor.task_step(prepared.0, prepared.1, ran)
            &&& executor.after_step(ran.0, prepared.1, ran.1, (end, result))
        };
    assert(call_ensures(executor.task->0@.body, (prepared.0, &prepared.1), ran));
}

} // verus!
