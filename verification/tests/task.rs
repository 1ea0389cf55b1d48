use cloud_task_executor::{Context, Payload, Task, TaskResult};

fn note(mut ctx: Context, step: &str) -> Context {
    let trace = ctx.get("trace").unwrap_or_default();
    ctx.set("trace", format!("{}{};", trace, step));
    ctx
}

fn body(ctx: Context, payload: &Payload) -> (Context, TaskResult) {
    let ctx = note(ctx, "body");
    (ctx, Ok(payload.as_str().unwrap_or("none").to_string()))
}

#[test]
fn a_task_keeps_its_name_and_runs_its_body() {
    let task = Task::new("plain", body);
    assert_eq!(task.name(), "plain");
    let (ctx, result) = task.execute(Context::new(), &Payload::Text("in".to_string()));
    assert_eq!(result, Ok("in".to_string()));
    assert_eq!(ctx.get("trace"), Some("body;".to_string()));
}

#[test]
fn a_failure_of_the_body_comes_back_unchanged() {
    let task = Task::new("failing", |ctx: Context, _payload: &Payload| {
        (ctx, Err::<String, String>("body failed".to_string()))
    });
    let (_, result) = task.execute(Context::new(), &Payload::Null);
    assert_eq!(result, Err("body failed".to_string()));
}

#[test]
fn the_decorator_attached_last_is_the_outer_one() {
    let task = Task::new("decorated", body)
        .with_wrapper(|inner| {
            move |ctx: Context, payload: &Payload| {
                let ctx = note(ctx, "d1 in");
                let (ctx, result) = inner(ctx, payload);
                (note(ctx, "d1 out"), result.map(|output| format!("{} d1", output)))
            }
        })
        .with_wrapper(|inner| {
            move |ctx: Context, payload: &Payload| {
                let ctx = note(ctx, "d2 in");
                let (ctx, result) = inner(ctx, payload);
                (note(ctx, "d2 out"), result.map(|output| format!("{} d2", output)))
            }
        });
    assert_eq!(task.name(), "decorated");
    let (ctx, result) = task.execute(Context::new(), &Payload::Text("x".to_string()));
    assert_eq!(ctx.get("trace"), Some("d2 in;d1 in;body;d1 out;d2 out;".to_string()));
    assert_eq!(result, Ok("x d1 d2".to_string()));
}

#[test]
fn a_decorator_may_change_what_the_body_sees() {
    let task = Task::new("rewritten", body).with_wrapper(|inner| {
        move |ctx: Context, _payload: &Payload| inner(ctx, &Payload::Text("modified_value".to_string()))
    });
    let (_, result) = task.execute(Context::new(), &Payload::Null);
    assert_eq!(result, Ok("modified_value".to_string()));
}

#[test]
fn a_decorator_passes_a_failure_on() {
    let task = Task::new("failing", |ctx: Context, _payload: &Payload| {
        (ctx, Err::<String, String>("inner failed".to_string()))
    })
    .with_wrapper(|inner| {
        move |ctx: Context, payload: &Payload| {
            let (ctx, result): (Context, TaskResult) = inner(ctx, payload);
            (ctx, result.map(|output| format!("{} - modified", output)))
        }
    });
    let (_, result) = task.execute(Context::new(), &Payload::Null);
    assert_eq!(result, Err("inner failed".to_string()));
}
