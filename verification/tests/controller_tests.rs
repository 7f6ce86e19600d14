use radar_monitor::controller::Controller;
use radar_monitor::controller::KeyPoll;
use radar_monitor::controller::StepAction;
use radar_monitor::history::Reading;

fn reading(angle: &str, distance: &str) -> Reading {
    Reading { angle: angle.to_string(), distance: distance.to_string() }
}

#[test]
fn running_step_pushes_and_renders() {
    let mut c = Controller::new(10);
    let a = c.step(KeyPoll::NoKey, Some(reading("45", "28 cm")));
    assert_eq!(a, StepAction::Render);
    let s = c.snapshot();
    assert_eq!(s.len(), 1);
    assert_eq!(s[0].angle, "45");
    assert_eq!(s[0].distance, "28 cm");
}

#[test]
fn running_step_without_data_still_renders() {
    let mut c = Controller::new(10);
    let a = c.step(KeyPoll::Other, None);
    assert_eq!(a, StepAction::Render);
    assert_eq!(c.snapshot().len(), 0);
}

#[test]
fn quit_key_terminates_without_touching_history() {
    let mut c = Controller::new(10);
    c.step(KeyPoll::NoKey, Some(reading("10", "a")));
    let a = c.step(KeyPoll::Quit, Some(reading("20", "b")));
    assert_eq!(a, StepAction::Cleanup);
    let s = c.snapshot();
    assert_eq!(s.len(), 1);
    assert_eq!(s[0].angle, "10");
}

#[test]
fn nothing_happens_after_quit() {
    let mut c = Controller::new(10);
    let a = c.step(KeyPoll::Quit, None);
    assert_eq!(a, StepAction::Cleanup);
    let b = c.step(KeyPoll::NoKey, Some(reading("30", "c")));
    assert_eq!(b, StepAction::Idle);
    let d = c.step(KeyPoll::Other, Some(reading("40", "d")));
    assert_eq!(d, StepAction::Idle);
    assert_eq!(c.snapshot().len(), 0);
}

#[test]
fn controller_history_evicts_oldest() {
    let mut c = Controller::new(2);
    c.step(KeyPoll::NoKey, Some(reading("1", "a")));
    c.step(KeyPoll::NoKey, Some(reading("2", "b")));
    c.step(KeyPoll::NoKey, Some(reading("3", "c")));
    let s = c.snapshot();
    assert_eq!(s.len(), 2);
    assert_eq!(s[0].angle, "2");
    assert_eq!(s[1].angle, "3");
}
