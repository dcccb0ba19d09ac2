use xilem_baseview::app::XilemBaseview;
use xilem_baseview::driver::{
    handle_action, handle_async_action, handle_message_result, BaseviewDriver, DriverAction,
    MessageResult,
};

type Driver = BaseviewDriver<i32, &'static str, u8, u16, &'static str>;

#[test]
fn known_widgets_are_dispatched_along_their_path() {
    assert!(matches!(
        handle_action(Some(vec![1, 2]), "clicked"),
        DriverAction::Dispatch { path, message } if path == vec![1, 2] && message == "clicked"
    ));
    assert!(matches!(
        handle_async_action(vec![3], "done"),
        DriverAction::Dispatch { path, message } if path == vec![3] && message == "done"
    ));
}

#[test]
fn unknown_widgets_are_reported() {
    assert!(matches!(
        handle_action::<u8, _>(None, "clicked"),
        DriverAction::ReportUnknownWidget { message } if message == "clicked"
    ));
}

#[test]
fn message_results_decide_what_follows() {
    let follows = handle_message_result::<u8, u8>;
    assert!(matches!(follows(MessageResult::Action), DriverAction::RunLogic));
    assert!(matches!(follows(MessageResult::RequestRebuild), DriverAction::Rebuild));
    assert!(matches!(follows(MessageResult::Nop), DriverAction::Rest));
    assert!(matches!(follows(MessageResult::Stale), DriverAction::ReportStale));
}

#[test]
fn the_view_tree_is_replaced_by_each_run_of_the_logic() {
    let mut driver: Driver = BaseviewDriver::new(5, vec![]);
    assert!(driver.root_view.is_none());
    driver.build_initial("first", 1, 2);
    assert_eq!(driver.run_logic("second"), "first");
    assert_eq!(driver.run_logic("third"), "second");
    assert_eq!(driver.root_view, Some("third"));
    assert_eq!(driver.view_ctx, Some(1));
    assert_eq!(driver.view_state, Some(2));
    assert_eq!(driver.state, 5);
}

#[test]
fn fonts_are_handed_out_once_in_order() {
    let mut driver: Driver = BaseviewDriver::new(0, vec!["serif", "mono"]);
    assert_eq!(driver.register_fonts(), vec!["serif", "mono"]);
    assert!(driver.register_fonts().is_empty());
}

#[test]
fn a_builder_collects_fonts_in_order() {
    let builder = XilemBaseview::new_with_runtime(1, "logic", "runtime")
        .with_font("serif")
        .with_font("mono");
    assert_eq!(builder.state, 1);
    let (mut driver, logic, runtime) = builder.into_driver::<u8, u8, u8>();
    assert_eq!(driver.state, 1);
    assert!(driver.root_view.is_none());
    assert_eq!(driver.register_fonts(), vec!["serif", "mono"]);
    assert_eq!((logic, runtime), ("logic", "runtime"));
}
