use proof_harness::placement::{PROOF_MARGIN_LOGICAL, PROOF_MAX_SETTLE_HEIGHT_LOGICAL};
use proof_harness::{
    proof_anchor_y, proof_settled_bottom, proof_window_position, proof_window_position_fits,
    proof_window_position_unjustified, MainWindow, ProofMonitor, PROOF_BOTTOM_INSET_PX,
};

/// A 1920x1080 monitor at scale 1 with a 40 pixel taskbar.
fn monitor() -> ProofMonitor {
    ProofMonitor {
        screen_width: 1920,
        work_top: 0,
        work_height: 1040,
        panel_width: 400,
        panel_height: 776,
        margin: 12,
        max_settle_height: 920,
    }
}

#[test]
fn tall_panel_bottom_edge_never_passes_work_bottom_minus_inset() {
    // 1920x1080 proof rig at 100% display scale: historical anchor y=252
    // (1040 work bottom - 776 default height - 12 margin); the tallest
    // legitimate settle is the frontend auto-fit cap, 920px.
    let max_settle = 920;
    // y is justified up to 112 so the capped settle bottoms out exactly
    // on the inset boundary...
    assert_eq!(proof_anchor_y(252, 1040, max_settle), 112);
    let bottom = proof_settled_bottom(252, max_settle, 1040, max_settle);
    assert!(bottom <= 1040 - PROOF_BOTTOM_INSET_PX);
    assert_eq!(bottom, 1032);
    // ...and any shorter settle keeps its bottom edge on screen too.
    assert!(proof_settled_bottom(252, 780, 1040, max_settle) <= 1040 - PROOF_BOTTOM_INSET_PX);
    assert!(proof_settled_bottom(252, 568, 1040, max_settle) <= 1040 - PROOF_BOTTOM_INSET_PX);
    // Tall displays where even the capped settle already fits keep the
    // historical anchor unchanged.
    assert_eq!(proof_anchor_y(252, 2000, max_settle), 252);
    // Degenerate anchors below the work bottom move fully above it.
    assert_eq!(proof_anchor_y(1500, 1040, max_settle), 112);
}

#[test]
fn anchor_on_the_boundary_is_kept_and_one_below_moves() {
    assert_eq!(proof_anchor_y(112, 1040, 920), 112);
    assert_eq!(proof_anchor_y(113, 1040, 920), 112);
    assert_eq!(proof_anchor_y(proof_anchor_y(500, 1040, 920), 1040, 920), 112);
    assert_eq!(proof_anchor_y(-50, 40, 920), -888);
}

#[test]
fn tray_position_comes_first() {
    let tray = Some((7, 9));
    for window in [MainWindow::Missing, MainWindow::NoMonitor, MainWindow::On(monitor())] {
        assert_eq!(proof_window_position_unjustified(tray, window), tray);
        assert_eq!(proof_window_position(tray, window), tray);
    }
    assert_eq!(proof_window_position(Some((7, 500)), MainWindow::On(monitor())), Some((7, 112)));
    assert_eq!(proof_window_position(Some((7, 500)), MainWindow::NoMonitor), Some((7, 500)));
}

#[test]
fn panel_stands_in_the_bottom_right_corner() {
    let window = MainWindow::On(monitor());
    assert_eq!(proof_window_position_unjustified(None, window), Some((1508, 252)));
    assert_eq!(proof_window_position(None, window), Some((1508, 112)));
    let shifted = MainWindow::On(ProofMonitor { work_top: 960, ..monitor() });
    assert_eq!(proof_window_position(None, shifted), Some((1508, 1072)));
}

#[test]
fn without_a_monitor_the_fallback_is_used() {
    assert_eq!(proof_window_position(None, MainWindow::NoMonitor), Some((800, 25)));
    assert_eq!(proof_window_position(None, MainWindow::Missing), None);
}

#[test]
fn sizes_past_the_signed_range_wrap() {
    let huge = MainWindow::On(ProofMonitor { screen_width: u32::MAX, ..monitor() });
    assert_eq!(proof_window_position_unjustified(None, huge), Some((-413, 252)));
}

#[test]
fn overflowing_coordinates_are_told_apart() {
    assert!(proof_window_position_fits(None, MainWindow::On(monitor())));
    assert!(proof_window_position_fits(None, MainWindow::NoMonitor));
    let low = MainWindow::On(ProofMonitor { work_top: i32::MAX, ..monitor() });
    assert!(!proof_window_position_fits(None, low));
    assert!(!proof_window_position_fits(Some((0, 0)), low));
    let wide = MainWindow::On(ProofMonitor { panel_width: i32::MIN, ..monitor() });
    assert!(!proof_window_position_fits(None, wide));
    assert!(proof_window_position_fits(Some((0, 0)), wide));
}

#[test]
fn logical_lengths_have_their_values() {
    assert_eq!(PROOF_BOTTOM_INSET_PX, 8);
    assert_eq!(PROOF_MAX_SETTLE_HEIGHT_LOGICAL, 920);
    assert_eq!(PROOF_MARGIN_LOGICAL, 12);
}
