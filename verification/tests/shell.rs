use gui_shell::driver::Action;
use gui_shell::driver::Driver;
use gui_shell::driver::DriverState;
use gui_shell::driver::LoopEvent;
use gui_shell::surface::SurfaceConfig;
use gui_shell::ui::UiElement;
use gui_shell::ui::describe_ui;

#[test]
fn resize_keeps_reported_size_when_at_least_one() {
    let mut c = SurfaceConfig::new(640, 480);
    c.resize(800, 600);
    assert_eq!(c, SurfaceConfig { width: 800, height: 600 });
    c.resize(1, 1);
    assert_eq!(c, SurfaceConfig { width: 1, height: 1 });
    c.resize(u32::MAX, u32::MAX);
    assert_eq!(c, SurfaceConfig { width: u32::MAX, height: u32::MAX });
}

#[test]
fn resize_clamps_zero_to_one() {
    let mut c = SurfaceConfig::new(640, 480);
    c.resize(0, 400);
    assert_eq!(c, SurfaceConfig { width: 1, height: 400 });
    c.resize(300, 0);
    assert_eq!(c, SurfaceConfig { width: 300, height: 1 });
    c.resize(0, 0);
    assert_eq!(c, SurfaceConfig { width: 1, height: 1 });
}

#[test]
fn startup_size_is_clamped() {
    let c = SurfaceConfig::new(0, 0);
    assert_eq!(c, SurfaceConfig { width: 1, height: 1 });
    let d = Driver::new(0, 720);
    assert_eq!(d.config, SurfaceConfig { width: 1, height: 720 });
    assert_eq!(d.state, DriverState::Idle);
}

#[test]
fn quit_click_terminates_from_any_state() {
    // From a fresh (idle) driver.
    let mut d = Driver::new(800, 600);
    assert_eq!(d.finish_frame(true), Action::Exit);
    assert_eq!(d.state, DriverState::Terminating);

    // From a redraw-pending driver.
    let mut d = Driver::new(800, 600);
    d.handle_event(LoopEvent::AboutToWait);
    assert_eq!(d.state, DriverState::RedrawPending);
    assert_eq!(d.finish_frame(true), Action::Exit);
    assert_eq!(d.state, DriverState::Terminating);
}

#[test]
fn close_request_terminates_from_any_state() {
    // From idle, without any click.
    let mut d = Driver::new(800, 600);
    assert_eq!(d.handle_event(LoopEvent::CloseRequested), Action::Exit);
    assert_eq!(d.state, DriverState::Terminating);

    // From redraw-pending.
    let mut d = Driver::new(800, 600);
    d.handle_event(LoopEvent::AboutToWait);
    assert_eq!(d.handle_event(LoopEvent::CloseRequested), Action::Exit);
    assert_eq!(d.state, DriverState::Terminating);
}

#[test]
fn about_to_wait_requests_redraw() {
    let mut d = Driver::new(800, 600);
    assert_eq!(d.handle_event(LoopEvent::AboutToWait), Action::RequestRedraw);
    assert_eq!(d.state, DriverState::RedrawPending);
}

#[test]
fn input_requests_redraw_only_when_engine_asks() {
    let mut d = Driver::new(800, 600);
    assert_eq!(d.handle_event(LoopEvent::Input { repaint: false }), Action::Continue);
    assert_eq!(d.state, DriverState::Idle);
    assert_eq!(d.handle_event(LoopEvent::Input { repaint: true }), Action::RequestRedraw);
    assert_eq!(d.state, DriverState::RedrawPending);
}

#[test]
fn terminating_is_terminal() {
    let mut d = Driver::new(800, 600);
    d.handle_event(LoopEvent::CloseRequested);
    let before = d.config;
    assert_eq!(d.handle_event(LoopEvent::Resized { width: 5, height: 5 }), Action::Exit);
    assert_eq!(d.config, before);
    assert_eq!(d.handle_event(LoopEvent::AboutToWait), Action::Exit);
    assert_eq!(d.handle_event(LoopEvent::RedrawRequested), Action::Exit);
    assert_eq!(d.finish_frame(false), Action::Exit);
    assert_eq!(d.state, DriverState::Terminating);
}

#[test]
fn ui_description_is_fixed_and_reports_no_click() {
    let a = describe_ui(false);
    let b = describe_ui(false);
    assert_eq!(a.elements, b.elements);
    assert!(!a.quit);
    assert_eq!(a.elements.len(), 4);
    assert_eq!(a.elements[0], UiElement::Heading { text: "Timings" });
    assert_eq!(a.elements[1], UiElement::Space { points: 5 });
    assert_eq!(a.elements[2], UiElement::Label { text: "draw 0.3ms" });
    assert_eq!(a.elements[3], UiElement::Button { text: "Quit" });

    // The widgets do not depend on the interaction, only the quit flag does.
    let c = describe_ui(true);
    assert_eq!(a.elements, c.elements);
    assert!(c.quit);
}

#[test]
fn first_redraw_after_startup_uses_reported_size() {
    // Start loop, window reports 800x600, first redraw happens.
    let mut d = Driver::new(800, 600);
    assert_eq!(d.config, SurfaceConfig { width: 800, height: 600 });
    assert_eq!(d.handle_event(LoopEvent::AboutToWait), Action::RequestRedraw);
    assert_eq!(d.handle_event(LoopEvent::RedrawRequested), Action::RenderFrame);
    let frame = describe_ui(false);
    assert_eq!(d.finish_frame(frame.quit), Action::Continue);
    assert_eq!(d.state, DriverState::Idle);
    assert_eq!(d.config, SurfaceConfig { width: 800, height: 600 });
}

#[test]
fn resize_to_zero_width_configures_one() {
    // Start loop, then a resize event reports {0, 400}.
    let mut d = Driver::new(800, 600);
    assert_eq!(d.handle_event(LoopEvent::Resized { width: 0, height: 400 }), Action::Reconfigure);
    assert_eq!(d.config, SurfaceConfig { width: 1, height: 400 });
    assert_eq!(d.state, DriverState::RedrawPending);
}

#[test]
fn quit_click_during_redraw_exits_loop() {
    // Start loop, a redraw runs, the quit button is clicked during it.
    let mut d = Driver::new(800, 600);
    assert_eq!(d.handle_event(LoopEvent::AboutToWait), Action::RequestRedraw);
    assert_eq!(d.handle_event(LoopEvent::RedrawRequested), Action::RenderFrame);
    let frame = describe_ui(true);
    assert!(frame.quit);
    // Action::Exit is what makes the surrounding loop leave with the
    // process's success code.
    assert_eq!(d.finish_frame(frame.quit), Action::Exit);
    assert_eq!(d.state, DriverState::Terminating);
}
