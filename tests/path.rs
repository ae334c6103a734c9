use raytracer::path::{first_step, next_step, Bounce, PathStep};

/// Follows a path whose every traced ray meets `bounce`; returns its end and the number
/// of rays traced.
fn follow(bounces: u32, bounce: Bounce) -> (PathStep, u32) {
    let mut step = first_step(bounces);
    let mut traced = 0;
    while let PathStep::Trace { left } = step {
        traced += 1;
        step = next_step(left, bounce);
    }
    (step, traced)
}

#[test]
fn no_budget_is_black_without_tracing() {
    assert_eq!(first_step(0), PathStep::Black);
}

#[test]
fn first_step_traces_with_one_bounce_less() {
    assert_eq!(first_step(3), PathStep::Trace { left: 2 });
    assert_eq!(first_step(u32::MAX), PathStep::Trace { left: u32::MAX - 1 });
}

#[test]
fn each_bounce_leads_to_its_step() {
    assert_eq!(next_step(5, Bounce::Missed), PathStep::Background);
    assert_eq!(next_step(5, Bounce::Absorbed), PathStep::Black);
    assert_eq!(next_step(5, Bounce::Scattered), PathStep::Trace { left: 4 });
    assert_eq!(next_step(0, Bounce::Scattered), PathStep::Black);
}

#[test]
fn path_between_two_mirrors_stops_after_its_budget() {
    assert_eq!(follow(10, Bounce::Scattered), (PathStep::Black, 10));
}

#[test]
fn absorbed_path_is_black_at_any_depth() {
    for bounces in [1, 2, 5, 50] {
        assert_eq!(follow(bounces, Bounce::Absorbed), (PathStep::Black, 1));
    }
}

#[test]
fn missed_path_takes_the_background() {
    assert_eq!(follow(5, Bounce::Missed), (PathStep::Background, 1));
}
