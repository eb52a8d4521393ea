use dl_openvdb_query::marshal::{
    bounding_box_result, grid_action, grid_step, points_action, points_step, Bounds,
    GridNamesEvent, GridNamesQuery, NativeAction, PointsEvent, PointsQuery,
};
use dl_openvdb_query::{DlOpenVdbQuery, Error};

fn sphere_bounds() -> Bounds {
    let min = (-0.9416000247001648f64).to_bits();
    let max = (1.0593000277876854f64).to_bits();
    Bounds {
        xmin_bits: min,
        ymin_bits: min,
        zmin_bits: min,
        xmax_bits: max,
        ymax_bits: max,
        zmax_bits: max,
    }
}

#[test]
fn bounding_box_success_returns_the_copied_bounds() {
    let raw = sphere_bounds();
    assert_eq!(bounding_box_result(true, raw), Ok(raw));
}

#[test]
fn bounding_box_failure_discards_the_buffer() {
    assert_eq!(bounding_box_result(false, sphere_bounds()), Err(Error::QueryFailed));
}

#[test]
fn fixture_round_trip() {
    // The fixture volume: every native query on it answers with this
    // bounding box and this single grid name.
    let handle = DlOpenVdbQuery::new(String::from("/")).unwrap();
    let min = -0.9416000247001648f64;
    let max = 1.0593000277876854f64;

    let b = handle.bounding_box(true, sphere_bounds()).unwrap();
    let six = [
        f64::from_bits(b.xmin_bits),
        f64::from_bits(b.ymin_bits),
        f64::from_bits(b.zmin_bits),
        f64::from_bits(b.xmax_bits),
        f64::from_bits(b.ymax_bits),
        f64::from_bits(b.zmax_bits),
    ];
    assert_eq!(six, [min, min, min, max, max, max]);

    let s = handle.grid_names();
    let s = grid_step(s, GridNamesEvent::Returned { success: true, count: 1 });
    let s = grid_step(s, GridNamesEvent::Copied { names: vec![String::from("points")] });
    let s = grid_step(s, GridNamesEvent::Freed);
    match s {
        GridNamesQuery::Done { result: Ok(names), reported } => {
            assert_eq!(names, vec![String::from("points")]);
            assert_eq!(reported, 1);
        },
        _ => panic!("the query should have finished with the copied names"),
    }
}

#[test]
fn repeated_bounding_box_queries_are_identical() {
    let handle = DlOpenVdbQuery::new(String::from("/")).unwrap();
    let raw = sphere_bounds();
    let first = handle.bounding_box(true, raw);
    let second = handle.bounding_box(true, raw);
    assert_eq!(first, second);
    assert_eq!(handle.file().as_str(), "/");
}

#[test]
fn grid_names_copies_then_frees_exactly_once() {
    let mut frees = 0;
    let mut copies = 0;
    let mut s = GridNamesQuery::Calling;
    assert!(matches!(grid_action(&s), Some(NativeAction::Invoke)));
    s = grid_step(s, GridNamesEvent::Returned { success: true, count: 2 });
    loop {
        match grid_action(&s) {
            None => break,
            Some(NativeAction::Invoke) => panic!("the entry point runs only once"),
            Some(NativeAction::CopyOut) => {
                assert_eq!(frees, 0, "the copy must come before the free");
                copies += 1;
                s = grid_step(
                    s,
                    GridNamesEvent::Copied {
                        names: vec![String::from("density"), String::from("points")],
                    },
                );
            },
            Some(NativeAction::Release) => {
                frees += 1;
                s = grid_step(s, GridNamesEvent::Freed);
            },
        }
    }
    assert_eq!(copies, 1);
    assert_eq!(frees, 1);
    match s {
        GridNamesQuery::Done { result: Ok(names), reported } => {
            assert_eq!(names.len(), 2);
            assert_eq!(reported, 2);
        },
        _ => panic!("the query should have succeeded"),
    }
}

#[test]
fn successful_empty_grid_list_is_ok_and_still_freed() {
    // A successful call that reports zero grids is an empty success, not a
    // failure, and the (empty) native array is still released.
    let s = grid_step(
        GridNamesQuery::Calling,
        GridNamesEvent::Returned { success: true, count: 0 },
    );
    let s = grid_step(s, GridNamesEvent::Copied { names: Vec::new() });
    assert!(matches!(grid_action(&s), Some(NativeAction::Release)));
    let s = grid_step(s, GridNamesEvent::Freed);
    match s {
        GridNamesQuery::Done { result: Ok(names), reported } => {
            assert!(names.is_empty());
            assert_eq!(reported, 0);
        },
        _ => panic!("an empty grid list is still a success"),
    }
}

#[test]
fn failed_grid_names_query_frees_nothing() {
    let s = grid_step(
        GridNamesQuery::Calling,
        GridNamesEvent::Returned { success: false, count: 0 },
    );
    // The query is finished at once: no copy, no free.
    assert!(grid_action(&s).is_none());
    match s {
        GridNamesQuery::Done { result, reported } => {
            assert_eq!(result, Err(Error::QueryFailed));
            assert_eq!(reported, 0);
        },
        _ => panic!("a failed call finishes the query"),
    }
}

#[test]
fn zero_point_count_is_no_points_not_success() {
    let s = points_step(PointsQuery::Calling, PointsEvent::Returned { count: 0 });
    assert!(points_action(&s).is_none());
    match s {
        PointsQuery::Done { result, reported } => {
            assert_eq!(result, Err(Error::NoPoints));
            assert_eq!(reported, 0);
        },
        _ => panic!("a zero count finishes the query"),
    }
}

#[test]
fn nonzero_points_copy_three_floats_per_point() {
    let coords: Vec<u32> = vec![
        1.0f32.to_bits(),
        2.0f32.to_bits(),
        3.0f32.to_bits(),
        4.0f32.to_bits(),
        5.0f32.to_bits(),
        6.0f32.to_bits(),
    ];
    let mut frees = 0;
    let mut s = points_step(PointsQuery::Calling, PointsEvent::Returned { count: 2 });
    loop {
        match points_action(&s) {
            None => break,
            Some(NativeAction::Invoke) => panic!("the entry point runs only once"),
            Some(NativeAction::CopyOut) => {
                s = points_step(s, PointsEvent::Copied { points: coords.clone() });
            },
            Some(NativeAction::Release) => {
                frees += 1;
                s = points_step(s, PointsEvent::Freed);
            },
        }
    }
    assert_eq!(frees, 1);
    match s {
        PointsQuery::Done { result: Ok(points), reported } => {
            assert_eq!(reported, 2);
            assert_eq!(points.len(), 3 * reported);
            assert_eq!(f32::from_bits(points[0]), 1.0f32);
            assert_eq!(f32::from_bits(points[5]), 6.0f32);
        },
        _ => panic!("a nonzero count should succeed"),
    }
}
