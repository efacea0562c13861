use raytracer::integrator::{trace_step, TraceStep};

#[test]
fn no_budget_gives_black_whatever_happens() {
    for hit in [false, true] {
        for continues in [false, true] {
            assert_eq!(trace_step(0, hit, continues), TraceStep::Black);
        }
    }
}

#[test]
fn miss_gives_background() {
    assert_eq!(trace_step(15, false, false), TraceStep::Background);
    assert_eq!(trace_step(1, false, true), TraceStep::Background);
}

#[test]
fn ended_path_stops_at_the_hit() {
    assert_eq!(trace_step(15, true, false), TraceStep::Stop);
    assert_eq!(trace_step(1, true, false), TraceStep::Stop);
}

#[test]
fn continued_path_recurses_with_one_bounce_less() {
    assert_eq!(trace_step(15, true, true), TraceStep::Recurse(14));
    assert_eq!(trace_step(1, true, true), TraceStep::Recurse(0));
    assert_eq!(trace_step(u8::MAX, true, true), TraceStep::Recurse(u8::MAX - 1));
}

#[test]
fn endless_bounces_nest_exactly_depth_levels() {
    for start in [0u8, 1, 15, u8::MAX] {
        let mut depth = start;
        let mut nesting = 0u32;
        let last = loop {
            match trace_step(depth, true, true) {
                TraceStep::Recurse(d) => {
                    nesting += 1;
                    depth = d;
                }
                other => break other,
            }
        };
        assert_eq!(nesting, start as u32);
        assert_eq!(last, TraceStep::Black);
    }
}
