use surface_loop::action::{Action, ClearColor, Notice};
use surface_loop::frame::{
    render, SurfaceError, CLEAR_ALPHA, CLEAR_BLUE, CLEAR_GREEN, CLEAR_RED, SLOW_ACQUIRE_NANOS,
};

fn clear_and_present() -> Vec<Action> {
    vec![
        Action::ClearPass { color: ClearColor { red: 166, green: 227, blue: 161, alpha: 255 } },
        Action::Submit,
        Action::Notify { notice: Notice::Presenting },
        Action::Present,
    ]
}

#[test]
fn acquired_image_is_cleared_submitted_and_presented() {
    assert_eq!(render(Ok(()), 0), Ok(clear_and_present()));
}

#[test]
fn frame_submits_once_and_presents_once() {
    for elapsed in [0u128, 499_999_999, 500_000_001, u128::MAX] {
        let actions = render(Ok(()), elapsed).unwrap();
        assert_eq!(actions.iter().filter(|a| **a == Action::Submit).count(), 1);
        assert_eq!(actions.iter().filter(|a| **a == Action::Present).count(), 1);
        let submit = actions.iter().position(|a| *a == Action::Submit).unwrap();
        let present = actions.iter().position(|a| *a == Action::Present).unwrap();
        let pass = actions.iter().position(|a| matches!(a, Action::ClearPass { .. })).unwrap();
        assert!(pass < submit && submit < present);
    }
}

#[test]
fn clear_colour_is_the_fixed_green() {
    assert_eq!((CLEAR_RED, CLEAR_GREEN, CLEAR_BLUE, CLEAR_ALPHA), (166, 227, 161, 255));
    assert_eq!(CLEAR_RED as f64 / 255.0, 0.6509803921568628);
    assert_eq!(CLEAR_GREEN as f64 / 255.0, 0.8901960784313725);
    assert_eq!(CLEAR_BLUE as f64 / 255.0, 0.6313725490196078);
    assert_eq!(CLEAR_ALPHA as f64 / 255.0, 1.0);
}

#[test]
fn acquisition_at_the_soft_limit_is_not_reported() {
    assert_eq!(SLOW_ACQUIRE_NANOS, 500_000_000);
    assert_eq!(render(Ok(()), 500_000_000), Ok(clear_and_present()));
}

#[test]
fn acquisition_over_the_soft_limit_is_reported_and_still_presented() {
    let mut expected = vec![Action::Notify { notice: Notice::SlowAcquire { millis: 500 } }];
    expected.extend(clear_and_present());
    assert_eq!(render(Ok(()), 500_000_001), Ok(expected));
}

#[test]
fn slow_acquisition_is_reported_in_whole_milliseconds() {
    let actions = render(Ok(()), 1_234_999_999).unwrap();
    assert_eq!(actions[0], Action::Notify { notice: Notice::SlowAcquire { millis: 1234 } });
    assert_eq!(actions.len(), 5);
}

#[test]
fn failed_acquisition_hands_the_error_back() {
    for error in [
        SurfaceError::Timeout,
        SurfaceError::Outdated,
        SurfaceError::Lost,
        SurfaceError::OutOfMemory,
        SurfaceError::Other,
    ] {
        assert_eq!(render(Err(error), 0), Err(error));
        assert_eq!(render(Err(error), 900_000_000), Err(error));
    }
}
