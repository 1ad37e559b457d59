use webview_startup::arguments::{
    browser_arguments, browser_arguments_update, Platform, AUTOPLAY_POLICY_FLAG,
    BROWSER_ARGUMENTS_VAR, DISABLE_FEATURES_FLAG,
};
use webview_startup::startup::{BuildMode, LogLevel, Startup, StartupConfig, Step};

const FLAGS: &str =
    "--autoplay-policy=no-user-gesture-required --disable-features=AutoplayIgnoreWebAudio";

fn config(platform: Platform, build_mode: BuildMode) -> StartupConfig {
    StartupConfig { platform, build_mode }
}

/// Runs the sequence with every step succeeding and returns the steps in order.
fn all_steps(cfg: StartupConfig, prior: Option<&str>) -> Vec<Step> {
    let (mut s, mut step) = Startup::begin(cfg, prior);
    let mut steps = Vec::new();
    while !s.is_done() {
        let next = s.advance(Ok(()));
        steps.push(step);
        step = next;
    }
    steps.push(step);
    steps
}

#[test]
fn no_prior_value_gives_flags_alone() {
    assert_eq!(browser_arguments(None), FLAGS);
    assert_eq!(
        browser_arguments_update(Platform::Windows, None),
        Some(FLAGS.to_string())
    );
}

#[test]
fn prior_value_is_kept_before_flags() {
    assert_eq!(
        browser_arguments(Some("X")),
        "X --autoplay-policy=no-user-gesture-required --disable-features=AutoplayIgnoreWebAudio"
    );
}

#[test]
fn empty_prior_value_still_gets_a_separator() {
    assert_eq!(browser_arguments(Some("")), format!(" {}", FLAGS));
}

#[test]
fn flags_are_the_two_fixed_flags() {
    assert_eq!(format!("{} {}", AUTOPLAY_POLICY_FLAG, DISABLE_FEATURES_FLAG), FLAGS);
    assert_eq!(BROWSER_ARGUMENTS_VAR, "WEBVIEW2_ADDITIONAL_BROWSER_ARGUMENTS");
}

#[test]
fn other_platform_leaves_variable_alone() {
    assert_eq!(browser_arguments_update(Platform::Other, None), None);
    assert_eq!(browser_arguments_update(Platform::Other, Some("X")), None);
    for mode in [BuildMode::Debug, BuildMode::Release] {
        let steps = all_steps(config(Platform::Other, mode), Some("X"));
        assert!(!steps.iter().any(|s| matches!(s, Step::SetBrowserArguments(_))));
    }
}

#[test]
fn windows_sequence_starts_by_setting_variable() {
    let steps = all_steps(config(Platform::Windows, BuildMode::Release), Some("--foo"));
    match &steps[0] {
        Step::SetBrowserArguments(v) => assert_eq!(v, &format!("--foo {}", FLAGS)),
        other => panic!("unexpected first step {:?}", other),
    }
}

#[test]
fn debug_sequence_registers_logging_once_before_run_loop() {
    let steps = all_steps(config(Platform::Windows, BuildMode::Debug), None);
    assert_eq!(steps.len(), 5);
    assert!(matches!(&steps[0], Step::SetBrowserArguments(v) if v == FLAGS));
    assert!(matches!(steps[1], Step::RegisterHttp));
    assert!(matches!(steps[2], Step::RegisterLog(LogLevel::Info)));
    assert!(matches!(steps[3], Step::EnterRunLoop));
    assert!(matches!(steps[4], Step::Exit));
}

#[test]
fn release_sequence_never_registers_logging() {
    let steps = all_steps(config(Platform::Other, BuildMode::Release), None);
    assert_eq!(steps.len(), 3);
    assert!(matches!(steps[0], Step::RegisterHttp));
    assert!(matches!(steps[1], Step::EnterRunLoop));
    assert!(matches!(steps[2], Step::Exit));
}

#[test]
fn http_registered_once_in_every_configuration() {
    for platform in [Platform::Windows, Platform::Other] {
        for mode in [BuildMode::Debug, BuildMode::Release] {
            let steps = all_steps(config(platform, mode), None);
            let http = steps.iter().filter(|s| matches!(s, Step::RegisterHttp)).count();
            assert_eq!(http, 1);
            let logs = steps.iter().filter(|s| matches!(s, Step::RegisterLog(_))).count();
            assert_eq!(logs, if mode == BuildMode::Debug { 1 } else { 0 });
        }
    }
}

#[test]
fn setup_failure_aborts_before_run_loop() {
    let (mut s, step) = Startup::begin(config(Platform::Other, BuildMode::Debug), None);
    assert!(matches!(step, Step::RegisterHttp));
    assert!(matches!(s.advance(Ok(())), Step::RegisterLog(LogLevel::Info)));
    let step = s.advance(Err("logger unavailable".to_string()));
    assert!(matches!(&step, Step::Abort(m) if m == "logger unavailable"));
    assert!(s.is_done());
}

#[test]
fn run_loop_failure_aborts() {
    let (mut s, _) = Startup::begin(config(Platform::Other, BuildMode::Release), None);
    assert!(matches!(s.advance(Ok(())), Step::EnterRunLoop));
    assert!(!s.is_done());
    let step = s.advance(Err("no window".to_string()));
    assert!(matches!(&step, Step::Abort(m) if m == "no window"));
    assert!(s.is_done());
}
