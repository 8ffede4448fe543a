use zecho::placement::{
    can_place_history, can_place_pill, choose_anchor, history_position, pill_position, Area,
    PillAnchor, Spot,
};

const MONITOR: Area = Area { x: 0, y: 0, width: 1920, height: 1080 };

#[test]
fn the_history_is_centred_above_the_pill() {
    let pill = Area { x: 900, y: 1000, width: 220, height: 46 };
    assert!(can_place_history(&pill, 400, 500, None));
    assert_eq!(history_position(&pill, 400, 500, None), Spot { x: 810, y: 492 });
    assert_eq!(history_position(&pill, 400, 500, Some(MONITOR)), Spot { x: 810, y: 492 });
}

#[test]
fn odd_sizes_are_halved_downwards() {
    let pill = Area { x: 10, y: 100, width: 5, height: 5 };
    assert_eq!(history_position(&pill, 7, 10, None), Spot { x: 9, y: 82 });
}

#[test]
fn the_history_is_kept_on_the_monitor() {
    let left = Area { x: -50, y: 20, width: 220, height: 46 };
    assert_eq!(history_position(&left, 400, 500, Some(MONITOR)), Spot { x: 0, y: 0 });
    let right = Area { x: 1800, y: 2000, width: 220, height: 46 };
    assert_eq!(history_position(&right, 400, 500, Some(MONITOR)), Spot { x: 1520, y: 580 });
    let second = Area { x: 1920, y: -200, width: 1000, height: 800 };
    let pill = Area { x: 1920, y: 0, width: 100, height: 40 };
    assert_eq!(history_position(&pill, 400, 500, Some(second)), Spot { x: 1920, y: -200 });
}

#[test]
fn a_history_larger_than_the_monitor_keeps_to_its_far_edges() {
    let pill = Area { x: 10, y: 10, width: 20, height: 20 };
    let small = Area { x: 0, y: 0, width: 100, height: 100 };
    assert_eq!(history_position(&pill, 300, 200, Some(small)), Spot { x: -200, y: -100 });
}

#[test]
fn positions_beyond_the_range_are_known() {
    let pill = Area { x: i32::MAX, y: 0, width: 10, height: 10 };
    assert!(!can_place_history(&pill, 10, 10, None));
    let pill = Area { x: 0, y: i32::MIN, width: 10, height: 10 };
    assert!(!can_place_history(&pill, 10, 10, None));
    let pill = Area { x: 0, y: 0, width: 10, height: 10 };
    assert!(can_place_history(&pill, 10, 10, Some(MONITOR)));
    let far = Area { x: i32::MAX, y: 0, width: 10, height: 10 };
    assert!(!can_place_history(&pill, 10, 10, Some(far)));
}

#[test]
fn the_saved_place_comes_first() {
    let saved = Some(Spot { x: 5, y: 900 });
    let visible = Some(Spot { x: 700, y: 1000 });
    assert_eq!(choose_anchor(saved, visible, 1920, 1080, 60), PillAnchor::Saved { left: 5, bottom: 900 });
    assert_eq!(
        choose_anchor(None, visible, 1920, 1080, 60),
        PillAnchor::VisibleFrame { middle: 700, bottom: 1000 }
    );
    assert_eq!(
        choose_anchor(None, None, 1920, 1080, 60),
        PillAnchor::Screen { width: 1920, height: 1080, margin: 60 }
    );
}

#[test]
fn the_pill_stands_on_its_anchor() {
    let saved = PillAnchor::Saved { left: 5, bottom: 900 };
    assert!(can_place_pill(&saved, 220, 46));
    assert_eq!(pill_position(&saved, 220, 46), Spot { x: 5, y: 854 });
    assert_eq!(pill_position(&saved, 220, 100), Spot { x: 5, y: 800 });
    let visible = PillAnchor::VisibleFrame { middle: 1440, bottom: 1000 };
    assert_eq!(pill_position(&visible, 221, 46), Spot { x: 1330, y: 954 });
    let screen = PillAnchor::Screen { width: 1920, height: 1080, margin: 60 };
    assert_eq!(pill_position(&screen, 220, 46), Spot { x: 850, y: 974 });
    let narrow = PillAnchor::Screen { width: 101, height: 100, margin: 0 };
    assert_eq!(pill_position(&narrow, 204, 40), Spot { x: -51, y: 60 });
}

#[test]
fn a_pill_beyond_the_range_is_known() {
    assert!(!can_place_pill(&PillAnchor::Saved { left: 0, bottom: i32::MIN }, 10, 1));
    assert!(!can_place_pill(&PillAnchor::VisibleFrame { middle: i32::MIN, bottom: 0 }, 10, 0));
    assert!(!can_place_pill(&PillAnchor::Screen { width: 10, height: 10, margin: i32::MIN }, 1, 1));
    assert!(can_place_pill(&PillAnchor::Screen { width: 10, height: 10, margin: 60 }, 220, 46));
}
