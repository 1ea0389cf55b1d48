use cloud_task_executor::{get_runtime, Runtime, FC_SIGNAL, KEY_RUNTIME, LAMBDA_SIGNAL};

#[test]
fn the_function_host_signal_wins_over_the_event_loop_signal() {
    assert_eq!(get_runtime(true, true), Runtime::FC);
    assert_eq!(get_runtime(true, false), Runtime::FC);
}

#[test]
fn the_event_loop_signal_alone_selects_the_event_loop() {
    assert_eq!(get_runtime(false, true), Runtime::Lambda);
}

#[test]
fn without_a_signal_the_runtime_is_local() {
    assert_eq!(get_runtime(false, false), Runtime::Local);
}

#[test]
fn selection_is_repeatable() {
    for fc in [false, true] {
        for lambda in [false, true] {
            assert_eq!(get_runtime(fc, lambda), get_runtime(fc, lambda));
        }
    }
}

#[test]
fn runtime_names_are_lower_case() {
    assert_eq!(Runtime::FC.to_string(), "fc");
    assert_eq!(Runtime::Lambda.to_string(), "lambda");
    assert_eq!(Runtime::Local.to_string(), "local");
}

#[test]
fn the_runtime_key_is_task_runtime() {
    assert_eq!(KEY_RUNTIME, "task_runtime");
}

#[test]
fn hosted_runtimes_report_that_they_served() {
    assert_eq!(Runtime::FC.served_report(), Some("FC function executed".to_string()));
    assert_eq!(
        Runtime::Lambda.served_report(),
        Some("AWS Lambda function executed".to_string())
    );
    assert_eq!(Runtime::Local.served_report(), None);
}

#[test]
fn the_signals_are_the_region_variables_of_the_hosts() {
    assert_eq!(FC_SIGNAL, "FC_REGION");
    assert_eq!(LAMBDA_SIGNAL, "AWS_REGION");
}
