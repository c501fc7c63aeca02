use window_controller::controller::{grab_cursor, show_window, ControllerError, HostOutcome};
use window_controller::registry::Registry;

fn registry_with_main() -> Registry {
    let mut reg = Registry::new();
    assert!(reg.register("main".to_owned()));
    reg
}

#[test]
fn show_window_makes_main_visible_and_grabbed() {
    let mut reg = registry_with_main();
    assert!(!reg.windows[0].visible);
    assert!(!reg.windows[0].cursor_grab);
    let r = show_window(&mut reg, HostOutcome::Succeeded, HostOutcome::Succeeded);
    assert_eq!(r, Ok(()));
    assert!(reg.windows[0].visible);
    assert!(reg.windows[0].cursor_grab);
}

#[test]
fn show_window_keeps_an_already_visible_window_visible() {
    let mut reg = registry_with_main();
    let r = show_window(&mut reg, HostOutcome::Succeeded, HostOutcome::Succeeded);
    assert_eq!(r, Ok(()));
    let r = show_window(&mut reg, HostOutcome::Succeeded, HostOutcome::Succeeded);
    assert_eq!(r, Ok(()));
    assert!(reg.windows[0].visible);
    assert!(reg.windows[0].cursor_grab);
}

#[test]
fn grab_cursor_sets_grab_and_leaves_visibility_alone() {
    let mut reg = registry_with_main();
    let r = grab_cursor(&mut reg, HostOutcome::Succeeded);
    assert_eq!(r, Ok(()));
    assert!(reg.windows[0].cursor_grab);
    assert!(!reg.windows[0].visible);
}

#[test]
fn grab_cursor_twice_keeps_grab_on() {
    let mut reg = registry_with_main();
    assert_eq!(grab_cursor(&mut reg, HostOutcome::Succeeded), Ok(()));
    assert_eq!(grab_cursor(&mut reg, HostOutcome::Succeeded), Ok(()));
    assert!(reg.windows[0].cursor_grab);
    assert!(!reg.windows[0].visible);
}

#[test]
fn grab_cursor_without_main_reports_window_not_found() {
    let mut reg = Registry::new();
    let r = grab_cursor(&mut reg, HostOutcome::Succeeded);
    assert_eq!(r, Err(ControllerError::WindowNotFound));
    assert!(reg.windows.is_empty());
}

#[test]
fn show_window_without_main_reports_window_not_found() {
    let mut reg = Registry::new();
    assert!(reg.register("splash".to_owned()));
    let r = show_window(&mut reg, HostOutcome::Succeeded, HostOutcome::Succeeded);
    assert_eq!(r, Err(ControllerError::WindowNotFound));
    assert_eq!(reg.windows.len(), 1);
    assert_eq!(reg.windows[0].id, "splash");
    assert!(!reg.windows[0].visible);
    assert!(!reg.windows[0].cursor_grab);
}

#[test]
fn failed_show_primitive_reports_host_operation_failed() {
    let mut reg = registry_with_main();
    let r = show_window(&mut reg, HostOutcome::Failed, HostOutcome::Succeeded);
    assert_eq!(r, Err(ControllerError::HostOperationFailed));
    assert!(!reg.windows[0].visible);
    assert!(!reg.windows[0].cursor_grab);
}

#[test]
fn failed_grab_primitive_reports_host_operation_failed() {
    let mut reg = registry_with_main();
    let r = grab_cursor(&mut reg, HostOutcome::Failed);
    assert_eq!(r, Err(ControllerError::HostOperationFailed));
    assert!(!reg.windows[0].cursor_grab);
    assert!(!reg.windows[0].visible);
}

#[test]
fn failed_grab_after_successful_show_leaves_window_visible() {
    let mut reg = registry_with_main();
    let r = show_window(&mut reg, HostOutcome::Succeeded, HostOutcome::Failed);
    assert_eq!(r, Err(ControllerError::HostOperationFailed));
    assert!(reg.windows[0].visible);
    assert!(!reg.windows[0].cursor_grab);
}

#[test]
fn operations_touch_only_the_main_window() {
    let mut reg = Registry::new();
    assert!(reg.register("splash".to_owned()));
    assert!(reg.register("main".to_owned()));
    let r = show_window(&mut reg, HostOutcome::Succeeded, HostOutcome::Succeeded);
    assert_eq!(r, Ok(()));
    assert_eq!(reg.windows[0].id, "splash");
    assert!(!reg.windows[0].visible);
    assert!(!reg.windows[0].cursor_grab);
    assert_eq!(reg.windows[1].id, "main");
    assert!(reg.windows[1].visible);
    assert!(reg.windows[1].cursor_grab);
}

#[test]
fn register_refuses_a_taken_identifier() {
    let mut reg = registry_with_main();
    assert!(!reg.register("main".to_owned()));
    assert_eq!(reg.windows.len(), 1);
}

#[test]
fn find_reports_the_registered_windows() {
    let mut reg = Registry::new();
    assert!(reg.register("splash".to_owned()));
    assert!(reg.register("main".to_owned()));
    assert_eq!(reg.find(&"splash".to_owned()), Some(0));
    assert_eq!(reg.find(&"main".to_owned()), Some(1));
    assert_eq!(reg.find(&"other".to_owned()), None);
}
