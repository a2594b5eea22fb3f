use sageflow_shell::about::build_about_message;
use sageflow_shell::about::show_about_dialog;
use sageflow_shell::runtime::WindowRuntime;
use sageflow_shell::startup::SetupState;
use sageflow_shell::startup::StartupError;
use sageflow_shell::startup::StartupSequencer;
use sageflow_shell::version::get_app_version;

const EXPECTED_ABOUT_FOR_1_2_3: &str = "SageFlow Accounting\n\nVersion: 1.2.3\n\nModern accounting software for Ethiopian businesses.\n\n© 2026 SageFlow";

#[test]
fn version_is_nonempty_and_stable() {
    let first = get_app_version();
    let second = get_app_version();
    assert!(!first.is_empty());
    assert_eq!(first, second);
}

#[test]
fn about_message_for_version_1_2_3() {
    assert_eq!(build_about_message("1.2.3"), EXPECTED_ABOUT_FOR_1_2_3);
}

#[test]
fn about_message_embeds_the_version_it_is_given() {
    let message = build_about_message("9.9.9");
    assert!(message.contains("Version: 9.9.9"));
    assert_ne!(message, build_about_message("9.9.8"));
}

#[test]
fn new_runtime_is_empty() {
    let runtime = WindowRuntime::new();
    assert!(runtime.windows.is_empty());
    assert!(runtime.dialogs.is_empty());
    assert!(!runtime.show_fault);
}

#[test]
fn get_window_resolves_by_name() {
    let mut runtime = WindowRuntime::new();
    runtime.register_window(String::from("splash"));
    runtime.register_window(String::from("main"));
    assert_eq!(runtime.get_window(&String::from("splash")), Some(0));
    assert_eq!(runtime.get_window(&String::from("main")), Some(1));
    assert_eq!(runtime.get_window(&String::from("settings")), None);
}

#[test]
fn setup_shows_main_window_exactly_once() {
    let mut runtime = WindowRuntime::new();
    runtime.register_window(String::from("splash"));
    runtime.register_window(String::from("main"));
    assert!(!runtime.windows[1].visible);

    let mut sequencer = StartupSequencer::new();
    assert_eq!(sequencer.state, SetupState::Initializing);
    let outcome = sequencer.run_setup(&mut runtime);

    assert_eq!(outcome, Ok(()));
    assert_eq!(sequencer.state, SetupState::Ready);
    assert!(runtime.windows[1].visible);
    assert!(!runtime.windows[0].visible);
    assert!(runtime.dialogs.is_empty());
}

#[test]
fn setup_aborts_when_no_main_window_is_registered() {
    let mut runtime = WindowRuntime::new();
    runtime.register_window(String::from("splash"));

    let mut sequencer = StartupSequencer::new();
    let outcome = sequencer.run_setup(&mut runtime);

    assert_eq!(outcome, Err(StartupError::MainWindowNotFound));
    assert_eq!(sequencer.state, SetupState::Initializing);
    assert!(!runtime.windows[0].visible);
}

#[test]
fn setup_aborts_when_the_runtime_refuses_to_show() {
    let mut runtime = WindowRuntime::new();
    runtime.register_window(String::from("main"));
    runtime.inject_show_fault();

    let mut sequencer = StartupSequencer::new();
    let outcome = sequencer.run_setup(&mut runtime);

    assert_eq!(outcome, Err(StartupError::WindowShowFailed));
    assert_eq!(sequencer.state, SetupState::Initializing);
    assert!(!runtime.windows[0].visible);
}

#[test]
fn about_dialog_makes_exactly_one_request_per_call() {
    let mut runtime = WindowRuntime::new();
    runtime.register_window(String::from("main"));
    let window = runtime.get_window(&String::from("main")).unwrap();

    show_about_dialog(&mut runtime, window);
    assert_eq!(runtime.dialogs.len(), 1);
    assert_eq!(runtime.dialogs[0].parent, window);
    assert_eq!(runtime.dialogs[0].title, "About SageFlow");
    assert_eq!(
        runtime.dialogs[0].message,
        build_about_message(&get_app_version())
    );

    show_about_dialog(&mut runtime, window);
    assert_eq!(runtime.dialogs.len(), 2);
    assert_eq!(runtime.windows.len(), 1);
}

#[test]
fn version_is_unchanged_by_the_about_dialog() {
    let mut runtime = WindowRuntime::new();
    runtime.register_window(String::from("main"));

    let before = get_app_version();
    show_about_dialog(&mut runtime, 0);
    let after = get_app_version();

    assert_eq!(before, after);
    assert!(!before.is_empty());
}
