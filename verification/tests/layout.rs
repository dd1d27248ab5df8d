use grackle::multicam::{
    camera_viewport, first_viewport_containing, rig, should_recalculate, viewport_contains,
    CameraAxis, MulticamState, ScreenFrac,
};
use grackle::panels::EditorPanels;

#[test]
fn the_rig_tiles_four_cameras_over_the_grid() {
    let names = vec![
        String::from("Free"),
        String::from("Front"),
        String::from("Top"),
        String::from("Right"),
    ];
    let cameras = rig(names);
    assert_eq!(cameras.len(), 4);
    assert_eq!(cameras[0].axis, CameraAxis::Free);
    assert_eq!(cameras[1].axis, CameraAxis::X);
    assert_eq!(cameras[2].axis, CameraAxis::Y);
    assert_eq!(cameras[3].axis, CameraAxis::Z);
    assert_eq!(cameras[0].screen_pos, (0, 0));
    assert_eq!(cameras[1].screen_pos, (1, 0));
    assert_eq!(cameras[2].screen_pos, (0, 1));
    assert_eq!(cameras[3].screen_pos, (1, 1));
    assert_eq!(cameras[2].name, "Top");
    for (idx, camera) in cameras.iter().enumerate() {
        assert_eq!(camera.id as usize, idx);
    }
}

#[test]
fn the_default_region_leaves_a_tenth_on_every_side() {
    let state = MulticamState::default();
    assert_eq!(state.start, ScreenFrac { x: 100, y: 100 });
    assert_eq!(state.end, ScreenFrac { x: 900, y: 900 });
}

#[test]
fn camera_viewports_tile_the_free_region() {
    let start = ScreenFrac { x: 100, y: 100 };
    let end = ScreenFrac { x: 900, y: 900 };
    // A 1000 x 500 window: the region runs (100, 50) to (900, 450), so each
    // camera is 400 x 200.
    let top_left = camera_viewport(start, end, 1000, 500, (0, 0));
    assert_eq!(top_left.pos, (100, 50));
    assert_eq!(top_left.size, (400, 200));

    let bottom_right = camera_viewport(start, end, 1000, 500, (1, 1));
    assert_eq!(bottom_right.pos, (500, 250));
    assert_eq!(bottom_right.size, (400, 200));
}

#[test]
fn quadrants_share_no_pixel() {
    let start = ScreenFrac { x: 0, y: 0 };
    let end = ScreenFrac { x: 1000, y: 1000 };
    let cells = [(0, 0), (1, 0), (0, 1), (1, 1)];
    let viewports: Vec<_> =
        cells.iter().map(|c| camera_viewport(start, end, 800, 600, *c)).collect();
    for x in [0u32, 399, 400, 799] {
        for y in [0u32, 299, 300, 599] {
            let containing =
                viewports.iter().filter(|vp| viewport_contains(vp, x, y)).count();
            assert_eq!(containing, 1);
        }
    }
}

#[test]
fn the_pointer_routes_to_the_first_containing_viewport() {
    let start = ScreenFrac { x: 0, y: 0 };
    let end = ScreenFrac { x: 1000, y: 1000 };
    let cells = [(0, 0), (1, 0), (0, 1), (1, 1)];
    let viewports: Vec<_> =
        cells.iter().map(|c| camera_viewport(start, end, 800, 600, *c)).collect();
    assert_eq!(first_viewport_containing(&viewports, 10, 10), Some(0));
    assert_eq!(first_viewport_containing(&viewports, 410, 10), Some(1));
    assert_eq!(first_viewport_containing(&viewports, 10, 310), Some(2));
    assert_eq!(first_viewport_containing(&viewports, 410, 310), Some(3));
    assert_eq!(first_viewport_containing(&viewports, 801, 10), None);
}

#[test]
fn the_grid_recalculates_on_resize_changes_and_first_frames() {
    assert!(should_recalculate(true, false, 100));
    assert!(should_recalculate(false, true, 100));
    assert!(should_recalculate(false, false, 0));
    assert!(should_recalculate(false, false, 2));
    assert!(!should_recalculate(false, false, 3));
}

#[test]
fn panels_shrink_the_viewport_region() {
    let panels = EditorPanels::new();
    let mut state = MulticamState::default();
    // A 1000 x 1000 window with 40 px side panels, a 20 px toolbar with a
    // 40 px top panel, and a 30 px bottom panel.
    panels.set_multicam_size(&mut state, 1000, 1000);
    assert_eq!(state.start, ScreenFrac { x: 40, y: 60 });
    assert_eq!(state.end, ScreenFrac { x: 960, y: 970 });
}

#[test]
fn panel_defaults_hold_the_documented_tabs() {
    let panels = EditorPanels::new();
    assert_eq!(panels.toolbar_height, 20);
    assert_eq!(panels.top_height, 40);
    assert_eq!(panels.bottom_height, 30);
    assert_eq!(panels.left_width, 40);
    assert_eq!(panels.right_width, 40);
    assert_eq!(panels.top_tabs.len(), 1);
    assert_eq!(panels.left_tabs.len(), 2);
    assert_eq!(panels.right_tabs.len(), 2);
    assert_eq!(panels.bottom_tabs.len(), 2);
}
