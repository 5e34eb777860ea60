//! What holds of every position that is computed for the panel, and of every anchor.
use crate::placement::{
    proof_anchor_y, proof_settled_bottom, proof_window_position, proof_window_position_fits,
    proof_window_position_unjustified, MainWindow, ProofMonitor,
};
use vstd::prelude::*;

verus! {

/// The anchor that is computed leaves room for the tallest panel, is no lower than the given one,
/// and no anchor further down does both.
pub proof fn law_anchor_is_the_lowest_with_room(
    anchor_y: i32,
    work_bottom: i32,
    max_settle_height: i32,
    y: i32,
    other_y: int,
)
    requires
        call_ensures(proof_anchor_y, (anchor_y, work_bottom, max_settle_height), y),
    ensures
        y <= anchor_y,
        y + max_settle_height <= work_bottom - 8,
        other_y <= anchor_y && other_y + max_settle_height <= work_bottom - 8 ==> other_y <= y,
{
}

/// An anchor is computed for all coordinates on which no step of the computation overflows.
pub proof fn law_anchor_is_computed_wherever_it_fits(
    anchor_y: i32,
    work_bottom: i32,
    max_settle_height: i32,
)
    requires
        i32::MIN <= work_bottom - 8,
        i32::MIN <= work_bottom - 8 - max_settle_height <= i32::MAX,
    ensures
        call_requires(proof_anchor_y, (anchor_y, work_bottom, max_settle_height)),
{
}

/// The bottom edge of a settled panel is its height below the anchor of the panel, and does not pass
/// the inset boundary where the panel is no taller than the tallest.
pub proof fn law_settled_bottom_is_below_the_anchor(
    anchor_y: i32,
    settled_height: i32,
    work_bottom: i32,
    max_settle_height: i32,
    y: i32,
    bottom: i32,
)
    requires
        call_ensures(proof_anchor_y, (anchor_y, work_bottom, max_settle_height), y),
        call_ensures(
            proof_settled_bottom,
            (anchor_y, settled_height, work_bottom, max_settle_height),
            bottom,
        ),
    ensures
        bottom - settled_height == y,
        settled_height <= max_settle_height ==> bottom <= work_bottom - 8,
{
}

/// The bottom edge is computed for all coordinates on which no step of the computation overflows.
pub proof fn law_settled_bottom_is_computed_wherever_it_fits(
    anchor_y: i32,
    settled_height: i32,
    work_bottom: i32,
    max_settle_height: i32,
    y: i32,
)
    requires
        i32::MIN <= work_bottom - 8,
        i32::MIN <= work_bottom - 8 - max_settle_height <= i32::MAX,
        call_ensures(proof_anchor_y, (anchor_y, work_bottom, max_settle_height), y),
        i32::MIN <= y + settled_height <= i32::MAX,
    ensures
        call_requires(
            proof_settled_bottom,
            (anchor_y, settled_height, work_bottom, max_settle_height),
        ),
{
}

/// The position before it is moved is computed where the tray panel is known, without a monitor, and
/// wherever no step of the computation of the corner overflows.
pub proof fn law_corner_is_computed_wherever_it_fits(tray: Option<(i32, i32)>, window: MainWindow)
    requires
        tray is None ==> (window matches MainWindow::On(monitor) ==> {
            let width = monitor.screen_width - (if monitor.screen_width >= 0x8000_0000 {
                0x1_0000_0000
            } else {
                0int
            });
            let bottom = monitor.work_top + monitor.work_height - (if monitor.work_height
                >= 0x8000_0000 {
                0x1_0000_0000
            } else {
                0int
            });
            &&& i32::MIN <= bottom <= i32::MAX
            &&& i32::MIN <= width - monitor.panel_width <= i32::MAX
            &&& i32::MIN <= width - monitor.panel_width - monitor.margin <= i32::MAX
            &&& i32::MIN <= bottom - monitor.panel_height <= i32::MAX
            &&& i32::MIN <= bottom - monitor.panel_height - monitor.margin <= i32::MAX
        }),
    ensures
        call_requires(proof_window_position_unjustified, (tray, window)),
{
}

/// Where the tray panel is not known, the panel stands in the corner of its monitor: the panel and
/// the margin take up what is left of the screen to its right, and the panel and the margin take up
/// what is left of the work area below it. Sizes past the signed range count as negative.
pub proof fn law_panel_and_margin_fill_the_corner(
    monitor: ProofMonitor,
    position: Option<(i32, i32)>,
)
    requires
        call_ensures(
            proof_window_position_unjustified,
            (None::<(i32, i32)>, MainWindow::On(monitor)),
            position,
        ),
    ensures
        position matches Some((x, y)) && {
            &&& x + monitor.panel_width + monitor.margin == monitor.screen_width - (if monitor.screen_width
                >= 0x8000_0000 {
                0x1_0000_0000
            } else {
                0int
            })
            &&& y + monitor.panel_height + monitor.margin == monitor.work_top + monitor.work_height - (
            if monitor.work_height >= 0x8000_0000 {
                0x1_0000_0000
            } else {
                0int
            })
        },
{
}

/// Where the tray panel is known, the panel starts from there. Otherwise a panel without a monitor
/// goes to a fixed place, and one without a main window goes nowhere.
pub proof fn law_tray_position_comes_first(
    tray: Option<(i32, i32)>,
    window: MainWindow,
    position: Option<(i32, i32)>,
)
    requires
        call_ensures(proof_window_position_unjustified, (tray, window), position),
    ensures
        tray is Some ==> position == tray,
        tray is None && window is NoMonitor ==> position == Some((800i32, 25i32)),
        position is None <==> tray is None && window is Missing,
{
}

/// On a known monitor the position is moved up just enough: straight up, so that even the tallest
/// panel ends above the inset boundary, and to the lowest such place. Elsewhere it is kept.
pub proof fn law_position_moves_up_just_enough(
    tray: Option<(i32, i32)>,
    window: MainWindow,
    before: Option<(i32, i32)>,
    after: Option<(i32, i32)>,
    other_y: int,
)
    requires
        call_ensures(proof_window_position_unjustified, (tray, window), before),
        call_ensures(proof_window_position, (tray, window), after),
    ensures
        !(window is On) ==> after == before,
        window matches MainWindow::On(monitor) ==> {
            let limit = monitor.work_top + monitor.work_height - (if monitor.work_height
                >= 0x8000_0000 {
                0x1_0000_0000
            } else {
                0int
            }) - 8 - monitor.max_settle_height;
            &&& before matches Some((x0, y0)) && after matches Some((x, y)) && {
                &&& x == x0
                &&& y <= y0
                &&& y <= limit
                &&& other_y <= y0 && other_y <= limit ==> other_y <= y
                &&& y0 <= limit ==> y == y0
            }
        },
{
}

/// The positions that can be computed are those on which no step overflows: the bottom of the work
/// area, the inset boundary and the justified anchor on every known monitor, and the corner of the
/// monitor where the tray panel is not known. On all of these a position is computed.
pub proof fn law_position_is_computed_wherever_it_fits(
    tray: Option<(i32, i32)>,
    window: MainWindow,
    fits: bool,
)
    requires
        call_ensures(proof_window_position_fits, (tray, window), fits),
    ensures
        call_requires(proof_window_position_fits, (tray, window)),
        fits ==> call_requires(proof_window_position_unjustified, (tray, window)),
        fits ==> call_requires(proof_window_position, (tray, window)),
        !(window is On) ==> fits,
        window matches MainWindow::On(monitor) ==> {
            let width = monitor.screen_width - (if monitor.screen_width >= 0x8000_0000 {
                0x1_0000_0000
            } else {
                0int
            });
            let bottom = monitor.work_top + monitor.work_height - (if monitor.work_height
                >= 0x8000_0000 {
                0x1_0000_0000
            } else {
                0int
            });
            fits <==> {
                &&& i32::MIN + 8 <= bottom <= i32::MAX
                &&& i32::MIN <= bottom - 8 - monitor.max_settle_height <= i32::MAX
                &&& tray is None ==> {
                    &&& i32::MIN <= width - monitor.panel_width <= i32::MAX
                    &&& i32::MIN <= width - monitor.panel_width - monitor.margin <= i32::MAX
                    &&& i32::MIN <= bottom - monitor.panel_height <= i32::MAX
                    &&& i32::MIN <= bottom - monitor.panel_height - monitor.margin <= i32::MAX
                }
            }
        },
{
}

} // verus!
