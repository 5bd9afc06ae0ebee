use sweetch_bot::init::incorrect_args_passed;
use sweetch_bot::init::init_arg_passed;
use sweetch_bot::init::init_config;
use sweetch_bot::init::usage;

#[test]
fn test_incorrect_args_passed_with_correct_args() {
    // given
    let args: Vec<String> = vec!["NOT_IMPORTANT".into(), "--init".into()];

    // when
    let incorrect_args_passed = incorrect_args_passed(&args);

    // then
    assert_eq!(incorrect_args_passed, false);
}

#[test]
fn test_incorrect_args_passed_with_too_many_args() {
    // given
    let args: Vec<String> = vec!["NOT_IMPORTANT".into(), "--init".into(), "TOO_MANY".into()];

    // when
    let incorrect_args_passed = incorrect_args_passed(&args);

    // then
    assert_eq!(incorrect_args_passed, true);
}

#[test]
fn test_incorrect_args_passed_without_init() {
    // given
    let args: Vec<String> = vec!["NOT_IMPORTANT".into(), "--other".into()];

    // when
    let incorrect_args_passed = incorrect_args_passed(&args);

    // then
    assert_eq!(incorrect_args_passed, true);
}

#[test]
fn test_incorrect_args_passed_with_too_few_args() {
    // given
    let args: Vec<String> = vec!["NOT_IMPORTANT".into()];

    // when
    let incorrect_args_passed = incorrect_args_passed(&args);

    // then
    assert_eq!(incorrect_args_passed, false);
}

#[test]
fn test_usage() {
    // when
    let usage = usage();

    // then
    assert!(usage.contains("USAGE"));
    assert!(usage.contains("--init"));
}

#[test]
fn test_init_arg_passed_with_more_than_2_args() {
    // given
    let args: Vec<String> = vec![
        "NOT_IMPORTANT".into(),
        "--init".into(),
        "NOT_IMPORTANT".into(),
    ];

    // when
    let init_arg_passed = init_arg_passed(&args);

    // then
    assert_eq!(init_arg_passed, true);
}

#[test]
fn test_init_arg_passed_when_not_passed() {
    // given
    let args: Vec<String> = vec!["NOT_IMPORTANT".into(), "--not-init".into()];

    // when
    let init_arg_passed = init_arg_passed(&args);

    // then
    assert_eq!(init_arg_passed, false);
}

#[test]
fn test_init_arg_passed_with_exactly_2_args() {
    // given
    let args: Vec<String> = vec!["NOT_IMPORTANT".into(), "--init".into()];

    // when
    let init_arg_passed = init_arg_passed(&args);

    // then
    assert_eq!(init_arg_passed, true);
}

#[test]
fn test_init_config() {
    // when
    let init_config = init_config();

    // then
    assert!(init_config.contains("[schedule]"));
    assert!(init_config.contains("run_at"));
    assert!(init_config.contains("[[watched_game]]"));
    assert!(init_config.contains("title"));
}
