use monitor_placement::geometry::Point;
use monitor_placement::geometry::Rect;
use monitor_placement::geometry::WindowSize;
use monitor_placement::placement::Monitor;
use monitor_placement::placement::MoveOutcome;
use monitor_placement::placement::PlacementError;
use monitor_placement::placement::PlacementMemory;
use monitor_placement::placement::PlacementPlan;
use monitor_placement::placement::apply_move_outcome;
use monitor_placement::placement::plan_placement;
use monitor_placement::placement::resolve_target_monitor;

fn left_monitor() -> Monitor {
    Monitor { rect: Rect { x: 0, y: 0, width: 1920, height: 1080 }, name: Some("DP-1".to_string()) }
}

fn right_monitor() -> Monitor {
    Monitor {
        rect: Rect { x: 1920, y: 0, width: 1280, height: 1024 },
        name: Some("HDMI-1".to_string()),
    }
}

#[test]
fn cursor_strictly_inside_selects_that_monitor() {
    let monitors = vec![left_monitor(), right_monitor()];
    let cursor = Some(Point { x: 2500, y: 500 });
    let r = resolve_target_monitor(&monitors, cursor, &Some(left_monitor()));
    assert_eq!(r, Ok(right_monitor()));
}

#[test]
fn cursor_on_shared_edge_selects_first_in_order() {
    let monitors = vec![left_monitor(), right_monitor()];
    let cursor = Some(Point { x: 1920, y: 500 });
    let r = resolve_target_monitor(&monitors, cursor, &None);
    assert_eq!(r, Ok(left_monitor()));
}

#[test]
fn cursor_on_right_bottom_edge_still_counts() {
    let monitors = vec![left_monitor()];
    let cursor = Some(Point { x: 1920, y: 1080 });
    let r = resolve_target_monitor(&monitors, cursor, &Some(right_monitor()));
    assert_eq!(r, Ok(left_monitor()));
}

#[test]
fn cursor_outside_every_monitor_falls_back_to_primary() {
    let monitors = vec![left_monitor(), right_monitor()];
    let cursor = Some(Point { x: -500, y: 5000 });
    let r = resolve_target_monitor(&monitors, cursor, &Some(right_monitor()));
    assert_eq!(r, Ok(right_monitor()));
}

#[test]
fn missing_cursor_falls_back_to_primary() {
    let monitors = vec![left_monitor(), right_monitor()];
    let r = resolve_target_monitor(&monitors, None, &Some(left_monitor()));
    assert_eq!(r, Ok(left_monitor()));
}

#[test]
fn empty_monitor_list_and_no_primary_fails() {
    let monitors: Vec<Monitor> = vec![];
    let cursor = Some(Point { x: 10, y: 10 });
    let r = resolve_target_monitor(&monitors, cursor, &None);
    assert_eq!(r, Err(PlacementError::NoMonitorFound));

    let memory = PlacementMemory::new();
    let plan = plan_placement(
        &Some(vec![]),
        cursor,
        &None,
        Some(WindowSize { width: 800, height: 600 }),
        &memory,
    );
    assert_eq!(plan, Err(PlacementError::NoMonitorFound));
}

#[test]
fn enumeration_failure_aborts_placement() {
    let memory = PlacementMemory::new();
    let plan = plan_placement(
        &None,
        Some(Point { x: 10, y: 10 }),
        &Some(left_monitor()),
        Some(WindowSize { width: 800, height: 600 }),
        &memory,
    );
    assert_eq!(plan, Err(PlacementError::MonitorEnumerationFailed));
}

#[test]
fn missing_window_size_aborts_placement() {
    let memory = PlacementMemory::new();
    let plan = plan_placement(
        &Some(vec![left_monitor()]),
        Some(Point { x: 10, y: 10 }),
        &None,
        None,
        &memory,
    );
    assert_eq!(plan, Err(PlacementError::WindowSizeUnavailable));
}

#[test]
fn plan_carries_centered_position_and_name() {
    let memory = PlacementMemory::new();
    let plan = plan_placement(
        &Some(vec![left_monitor(), right_monitor()]),
        Some(Point { x: 2500, y: 500 }),
        &None,
        Some(WindowSize { width: 1300, height: 600 }),
        &memory,
    );
    assert_eq!(
        plan,
        Ok(PlacementPlan::Move {
            position: Point { x: 1910, y: 212 },
            monitor_name: Some("HDMI-1".to_string()),
        })
    );
}

#[test]
fn repeat_placement_on_same_monitor_short_circuits() {
    let mut memory = PlacementMemory::new();
    let monitors = Some(vec![left_monitor(), right_monitor()]);
    let cursor = Some(Point { x: 2500, y: 500 });
    let size = Some(WindowSize { width: 800, height: 600 });

    let first = plan_placement(&monitors, cursor, &None, size, &memory);
    let name = match first {
        Ok(PlacementPlan::Move { monitor_name, .. }) => monitor_name,
        other => panic!("expected a move, got {:?}", other),
    };
    let applied = apply_move_outcome(&mut memory, name, MoveOutcome::Moved);
    assert_eq!(applied, Ok(()));
    assert_eq!(memory.last_monitor_name, Some("HDMI-1".to_string()));

    let second = plan_placement(&monitors, cursor, &None, size, &memory);
    assert_eq!(second, Ok(PlacementPlan::Skip));
}

#[test]
fn move_failure_leaves_memory_unchanged() {
    let mut memory = PlacementMemory::new();
    let monitors = Some(vec![right_monitor()]);
    let cursor = Some(Point { x: 2500, y: 500 });
    let size = Some(WindowSize { width: 800, height: 600 });

    let first = plan_placement(&monitors, cursor, &None, size, &memory);
    let name = match first {
        Ok(PlacementPlan::Move { monitor_name, .. }) => monitor_name,
        other => panic!("expected a move, got {:?}", other),
    };
    let applied = apply_move_outcome(&mut memory, name, MoveOutcome::Failed);
    assert_eq!(applied, Err(PlacementError::MoveFailed));
    assert_eq!(memory.last_monitor_name, None);

    let second = plan_placement(&monitors, cursor, &None, size, &memory);
    assert!(matches!(second, Ok(PlacementPlan::Move { .. })));
}

#[test]
fn unnamed_monitor_never_short_circuits() {
    let unnamed = Monitor { rect: Rect { x: 0, y: 0, width: 800, height: 600 }, name: None };
    let mut memory = PlacementMemory::new();
    let monitors = Some(vec![unnamed]);
    let cursor = Some(Point { x: 100, y: 100 });
    let size = Some(WindowSize { width: 400, height: 300 });

    let first = plan_placement(&monitors, cursor, &None, size, &memory);
    assert_eq!(
        first,
        Ok(PlacementPlan::Move { position: Point { x: 200, y: 150 }, monitor_name: None })
    );
    let applied = apply_move_outcome(&mut memory, None, MoveOutcome::Moved);
    assert_eq!(applied, Ok(()));
    assert_eq!(memory.last_monitor_name, None);

    let second = plan_placement(&monitors, cursor, &None, size, &memory);
    assert_eq!(second, first);
}

#[test]
fn memory_starts_empty() {
    let memory = PlacementMemory::new();
    assert_eq!(memory.last_monitor_name, None);
}

#[test]
fn error_messages_name_the_failure() {
    assert_eq!(
        PlacementError::MonitorEnumerationFailed.message(),
        "failed to enumerate monitors"
    );
    assert_eq!(
        PlacementError::CursorUnavailable.message(),
        "failed to read the cursor position"
    );
    assert_eq!(PlacementError::NoMonitorFound.message(), "no monitor found");
    assert_eq!(
        PlacementError::WindowSizeUnavailable.message(),
        "failed to read the window size"
    );
    assert_eq!(PlacementError::MoveFailed.message(), "failed to move the window");
    assert_eq!(PlacementError::WindowNotFound.message(), "main window not found");
}
