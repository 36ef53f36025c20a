use picotroller::latch::{ActiveLevel, Edge, EdgeLatch, Input, LineLevels, PendingEdges};

const INPUTS: [Input; 8] = [
    Input::ThumbL,
    Input::ThumbR,
    Input::UnderL,
    Input::UnderR,
    Input::FrontL,
    Input::FrontR,
    Input::Start,
    Input::Select,
];

#[test]
fn fresh_latch_reads_released() {
    let latch = EdgeLatch::new(LineLevels::stock());
    for input in INPUTS {
        assert!(!latch.read(input));
    }
}

#[test]
fn stock_wiring_pulls_the_thumbs_up() {
    let wiring = LineLevels::stock();
    assert_eq!(wiring.level(Input::ThumbL), ActiveLevel::Low);
    assert_eq!(wiring.level(Input::ThumbR), ActiveLevel::Low);
    for input in [
        Input::UnderL,
        Input::UnderR,
        Input::FrontL,
        Input::FrontR,
        Input::Start,
        Input::Select,
    ] {
        assert_eq!(wiring.level(input), ActiveLevel::High);
    }
}

#[test]
fn active_high_line_round_trip() {
    let mut latch = EdgeLatch::new(LineLevels::stock());
    latch.on_rising_edge(Input::Start);
    assert!(latch.read(Input::Start));
    latch.on_falling_edge(Input::Start);
    assert!(!latch.read(Input::Start));
}

#[test]
fn active_low_line_round_trip() {
    let mut latch = EdgeLatch::new(LineLevels::stock());
    latch.on_rising_edge(Input::ThumbL);
    assert!(!latch.read(Input::ThumbL));
    latch.on_falling_edge(Input::ThumbL);
    assert!(latch.read(Input::ThumbL));
    latch.on_rising_edge(Input::ThumbL);
    assert!(!latch.read(Input::ThumbL));
}

#[test]
fn an_edge_touches_one_line_only() {
    for target in INPUTS {
        let mut latch = EdgeLatch::new(LineLevels::stock());
        let pressing = match LineLevels::stock().level(target) {
            ActiveLevel::High => Edge::Rising,
            ActiveLevel::Low => Edge::Falling,
        };
        latch.on_edge(target, pressing);
        for input in INPUTS {
            assert_eq!(latch.read(input), input == target);
        }
    }
}

#[test]
fn the_last_edge_wins() {
    let mut latch = EdgeLatch::new(LineLevels::stock());
    for edge in [Edge::Rising, Edge::Rising, Edge::Falling, Edge::Rising] {
        latch.on_edge(Input::UnderL, edge);
    }
    assert!(latch.read(Input::UnderL));
    for edge in [Edge::Rising, Edge::Falling, Edge::Falling] {
        latch.on_edge(Input::UnderL, edge);
    }
    assert!(!latch.read(Input::UnderL));
}

#[test]
fn service_takes_the_falling_edge_first() {
    let mut latch = EdgeLatch::new(LineLevels::stock());
    let both = PendingEdges { low: true, high: true };
    assert_eq!(latch.service(Input::ThumbR, both), Some(Edge::Falling));
    assert!(latch.read(Input::ThumbR));
    let high = PendingEdges { low: false, high: true };
    assert_eq!(latch.service(Input::ThumbR, high), Some(Edge::Rising));
    assert!(!latch.read(Input::ThumbR));
}

#[test]
fn service_without_pending_edge_changes_nothing() {
    let mut latch = EdgeLatch::new(LineLevels::stock());
    latch.on_rising_edge(Input::FrontR);
    let before = latch;
    let none = PendingEdges { low: false, high: false };
    assert_eq!(latch.service(Input::FrontR, none), None);
    assert_eq!(latch, before);
    assert!(latch.read(Input::FrontR));
}

#[test]
fn service_on_active_high_line() {
    let mut latch = EdgeLatch::new(LineLevels::stock());
    let high = PendingEdges { low: false, high: true };
    assert_eq!(latch.service(Input::Select, high), Some(Edge::Rising));
    assert!(latch.read(Input::Select));
    let low = PendingEdges { low: true, high: false };
    assert_eq!(latch.service(Input::Select, low), Some(Edge::Falling));
    assert!(!latch.read(Input::Select));
}

#[test]
fn custom_wiring_is_respected() {
    let wiring = LineLevels {
        thumb_l: ActiveLevel::High,
        thumb_r: ActiveLevel::High,
        under_l: ActiveLevel::Low,
        under_r: ActiveLevel::Low,
        front_l: ActiveLevel::Low,
        front_r: ActiveLevel::Low,
        start: ActiveLevel::Low,
        select: ActiveLevel::Low,
    };
    let mut latch = EdgeLatch::new(wiring);
    latch.on_rising_edge(Input::ThumbL);
    assert!(latch.read(Input::ThumbL));
    latch.on_rising_edge(Input::Start);
    assert!(!latch.read(Input::Start));
    latch.on_falling_edge(Input::Start);
    assert!(latch.read(Input::Start));
}
