//! Where the proof panel goes on the screen. All lengths are physical pixels unless they say
//! otherwise.
use vstd::prelude::*;

verus! {

/// The inset kept between the bottom edge of the proof panel and the bottom of the work area.
pub const PROOF_BOTTOM_INSET_PX: i32 = 8;

/// The tallest that the panel can settle, in logical pixels: the ceiling of its automatic fit.
pub const PROOF_MAX_SETTLE_HEIGHT_LOGICAL: u32 = 920;

/// The margin between the panel and the edges of the screen, in logical pixels.
pub const PROOF_MARGIN_LOGICAL: u32 = 12;

/// The left edge of a panel whose monitor is not known.
pub const FALLBACK_X: i32 = 800;

/// The top edge of a panel whose monitor is not known.
pub const FALLBACK_Y: i32 = 25;

/// Whether `n` is a value of `i32`.
pub open spec fn is_i32(n: int) -> bool {
    i32::MIN <= n <= i32::MAX
}

/// The anchor at which a panel of the tallest height ends on the inset boundary.
pub open spec fn justified_y(work_bottom: int, max_settle_height: int) -> int {
    work_bottom - PROOF_BOTTOM_INSET_PX - max_settle_height
}

/// The justified anchor can be computed, step by step.
pub open spec fn justified_y_fits(work_bottom: int, max_settle_height: int) -> bool {
    &&& is_i32(work_bottom - PROOF_BOTTOM_INSET_PX)
    &&& is_i32(justified_y(work_bottom, max_settle_height))
}

/// The anchor itself, or the justified one where that is higher up.
pub open spec fn anchored_y(anchor_y: int, work_bottom: int, max_settle_height: int) -> int {
    if anchor_y <= justified_y(work_bottom, max_settle_height) {
        anchor_y
    } else {
        justified_y(work_bottom, max_settle_height)
    }
}

/// The anchor of the proof panel. The panel is anchored once, so the anchor reserves room for the
/// tallest height at which it can settle: where that would pass the inset boundary, the anchor
/// moves up just enough; otherwise it stays as it is.
pub fn proof_anchor_y(anchor_y: i32, work_bottom: i32, max_settle_height_px: i32) -> (y: i32)
    requires
        justified_y_fits(work_bottom as int, max_settle_height_px as int),
    ensures
        y == anchored_y(anchor_y as int, work_bottom as int, max_settle_height_px as int),
{
    let justified: i32 = work_bottom - PROOF_BOTTOM_INSET_PX - max_settle_height_px;
    if anchor_y <= justified {
        anchor_y
    } else {
        justified
    }
}

/// The bottom edge of a settled panel that was anchored by [`proof_anchor_y`].
pub fn proof_settled_bottom(
    anchor_y: i32,
    settled_height: i32,
    work_bottom: i32,
    max_settle_height_px: i32,
) -> (bottom: i32)
    requires
        justified_y_fits(work_bottom as int, max_settle_height_px as int),
        is_i32(
            anchored_y(anchor_y as int, work_bottom as int, max_settle_height_px as int)
                + settled_height,
        ),
    ensures
        bottom == anchored_y(anchor_y as int, work_bottom as int, max_settle_height_px as int)
            + settled_height,
{
    proof_anchor_y(anchor_y, work_bottom, max_settle_height_px) + settled_height
}

/// A monitor, and the panel as it measures on it.
#[derive(Clone, Copy, Debug, PartialEq, Eq, Structural)]
pub struct ProofMonitor {
    /// The width of the screen.
    pub screen_width: u32,
    /// The top edge of the work area.
    pub work_top: i32,
    /// The height of the work area.
    pub work_height: u32,
    /// The default width of the panel at the scale of the monitor.
    pub panel_width: i32,
    /// The default height of the panel at the scale of the monitor.
    pub panel_height: i32,
    /// The margin at the scale of the monitor.
    pub margin: i32,
    /// The tallest height of the panel at the scale of the monitor.
    pub max_settle_height: i32,
}

/// The main window, as far as positioning it is concerned.
#[derive(Clone, Copy, Debug, PartialEq, Eq, Structural)]
pub enum MainWindow {
    /// There is no main window.
    Missing,
    /// No monitor is known for it.
    NoMonitor,
    /// It is on this monitor.
    On(ProofMonitor),
}

/// The `i32` with the same bits as `n`.
pub open spec fn as_signed(n: u32) -> int {
    if n <= i32::MAX {
        n as int
    } else {
        n - 0x1_0000_0000
    }
}

/// The `i32` with the same bits as `n`.
fn signed(n: u32) -> (r: i32)
    ensures
        r == as_signed(n),
{
    if n <= 0x7fff_ffff {
        n as i32
    } else {
        (n - 0x8000_0000) as i32 + i32::MIN
    }
}

impl ProofMonitor {
    /// The bottom edge of the work area.
    pub open spec fn work_bottom(self) -> int {
        self.work_top + as_signed(self.work_height)
    }

    /// The corner of a panel that stands in the bottom right of the work area, inside the margin.
    pub open spec fn corner(self) -> (int, int) {
        (
            as_signed(self.screen_width) - self.panel_width - self.margin,
            self.work_bottom() - self.panel_height - self.margin,
        )
    }

    /// The corner can be computed, step by step.
    pub open spec fn corner_fits(self) -> bool {
        &&& is_i32(self.work_bottom())
        &&& is_i32(as_signed(self.screen_width) - self.panel_width)
        &&& is_i32(self.corner().0)
        &&& is_i32(self.work_bottom() - self.panel_height)
        &&& is_i32(self.corner().1)
    }
}

/// The position of the panel before it is justified: that of the tray panel where it is known,
/// else the bottom right of the work area, else the fallback; none without a main window.
pub open spec fn unjustified_position(tray: Option<(i32, i32)>, window: MainWindow) -> Option<
    (int, int),
> {
    match tray {
        Some((x, y)) => Some((x as int, y as int)),
        None => match window {
            MainWindow::Missing => None,
            MainWindow::NoMonitor => Some((FALLBACK_X as int, FALLBACK_Y as int)),
            MainWindow::On(monitor) => Some(monitor.corner()),
        },
    }
}

/// The position before it is justified can be computed, step by step.
pub open spec fn unjustified_position_fits(tray: Option<(i32, i32)>, window: MainWindow) -> bool {
    tray is None ==> (window matches MainWindow::On(monitor) ==> monitor.corner_fits())
}

/// The position of the panel: the anchor leaves room for the tallest height wherever a monitor is
/// known.
pub open spec fn justified_position(tray: Option<(i32, i32)>, window: MainWindow) -> Option<
    (int, int),
> {
    match (unjustified_position(tray, window), window) {
        (Some((x, y)), MainWindow::On(monitor)) => Some(
            (x, anchored_y(y, monitor.work_bottom(), monitor.max_settle_height as int)),
        ),
        (position, _) => position,
    }
}

/// The position of the panel can be computed, step by step.
pub open spec fn justified_position_fits(tray: Option<(i32, i32)>, window: MainWindow) -> bool {
    &&& unjustified_position_fits(tray, window)
    &&& window matches MainWindow::On(monitor) ==> is_i32(monitor.work_bottom())
        && justified_y_fits(monitor.work_bottom(), monitor.max_settle_height as int)
}

/// The position behind an optional pair of coordinates.
pub open spec fn position_view(position: Option<(i32, i32)>) -> Option<(int, int)> {
    match position {
        Some((x, y)) => Some((x as int, y as int)),
        None => None,
    }
}

/// The position of the panel for proof captures, before it is justified. `tray` is the position of
/// the tray panel, where it is known.
pub fn proof_window_position_unjustified(tray: Option<(i32, i32)>, window: MainWindow) -> (position:
    Option<(i32, i32)>)
    requires
        unjustified_position_fits(tray, window),
    ensures
        position_view(position) == unjustified_position(tray, window),
{
    if let Some(position) = tray {
        return Some(position);
    }
    match window {
        MainWindow::Missing => None,
        MainWindow::NoMonitor => Some((FALLBACK_X, FALLBACK_Y)),
        MainWindow::On(monitor) => {
            let work_bottom: i32 = monitor.work_top + signed(monitor.work_height);
            let x: i32 = signed(monitor.screen_width) - monitor.panel_width - monitor.margin;
            let y: i32 = work_bottom - monitor.panel_height - monitor.margin;
            Some((x, y))
        },
    }
}

/// The position of the panel for proof captures. `tray` is the position of the tray panel, where it
/// is known.
pub fn proof_window_position(tray: Option<(i32, i32)>, window: MainWindow) -> (position: Option<
    (i32, i32),
>)
    requires
        justified_position_fits(tray, window),
    ensures
        position_view(position) == justified_position(tray, window),
{
    match proof_window_position_unjustified(tray, window) {
        Some((x, y)) => match window {
            MainWindow::On(monitor) => {
                let work_bottom: i32 = monitor.work_top + signed(monitor.work_height);
                Some((x, proof_anchor_y(y, work_bottom, monitor.max_settle_height)))
            },
            _ => Some((x, y)),
        },
        None => None,
    }
}

/// Whether `n` is a value of `i32`.
fn fits_i32(n: i64) -> (fits: bool)
    ensures
        fits == is_i32(n as int),
{
    -0x8000_0000 <= n && n <= 0x7fff_ffff
}

/// Whether [`proof_window_position`] can be computed on these coordinates.
pub fn proof_window_position_fits(tray: Option<(i32, i32)>, window: MainWindow) -> (fits: bool)
    ensures
        fits == justified_position_fits(tray, window),
{
    match window {
        MainWindow::On(monitor) => {
            let work_bottom: i64 = monitor.work_top as i64 + signed(monitor.work_height) as i64;
            let right: i64 = signed(monitor.screen_width) as i64 - monitor.panel_width as i64;
            let top: i64 = work_bottom - monitor.panel_height as i64;
            let inset: i64 = work_bottom - PROOF_BOTTOM_INSET_PX as i64;
            fits_i32(work_bottom) && fits_i32(inset) && fits_i32(
                inset - monitor.max_settle_height as i64,
            ) && (tray.is_some() || (fits_i32(right) && fits_i32(right - monitor.margin as i64)
                && fits_i32(top) && fits_i32(top - monitor.margin as i64)))
        },
        _ => true,
    }
}

/// However tall the panel settles, up to the tallest, its bottom edge does not pass the inset
/// boundary.
pub proof fn law_settled_panel_stays_above_the_inset(
    anchor_y: int,
    settled_height: int,
    work_bottom: int,
    max_settle_height: int,
)
    requires
        settled_height <= max_settle_height,
    ensures
        anchored_y(anchor_y, work_bottom, max_settle_height) + settled_height <= work_bottom
            - PROOF_BOTTOM_INSET_PX,
{
}

/// An anchor that already leaves room for the tallest panel is kept.
pub proof fn law_anchor_with_room_is_kept(anchor_y: int, work_bottom: int, max_settle_height: int)
    requires
        anchor_y + max_settle_height <= work_bottom - PROOF_BOTTOM_INSET_PX,
    ensures
        anchored_y(anchor_y, work_bottom, max_settle_height) == anchor_y,
{
}

/// The anchor moves up just enough: it is the lowest on the screen of all that are no lower than
/// the given one and leave room for the tallest panel.
pub proof fn law_anchor_moves_up_just_enough(
    anchor_y: int,
    work_bottom: int,
    max_settle_height: int,
    other_y: int,
)
    requires
        other_y <= anchor_y,
        other_y + max_settle_height <= work_bottom - PROOF_BOTTOM_INSET_PX,
    ensures
        other_y <= anchored_y(anchor_y, work_bottom, max_settle_height) <= anchor_y,
{
}

/// To anchor an anchored panel again changes nothing.
pub proof fn law_anchoring_is_idempotent(anchor_y: int, work_bottom: int, max_settle_height: int)
    ensures
        ({
            let y = anchored_y(anchor_y, work_bottom, max_settle_height);
            anchored_y(y, work_bottom, max_settle_height) == y
        }),
{
}

/// A position is found wherever the tray panel or the main window is; on a monitor, a panel at
/// that position stays above the inset boundary however tall it settles, and only its height on
/// the screen differs from the position before it was justified.
pub proof fn law_positioned_panel_stays_above_the_inset(
    tray: Option<(i32, i32)>,
    window: MainWindow,
    settled_height: int,
)
    ensures
        justified_position(tray, window) is None <==> tray is None && window
            == MainWindow::Missing,
        justified_position(tray, window) matches Some((x, y)) ==> {
            &&& unjustified_position(tray, window) matches Some((x0, y0)) && x == x0 && y <= y0
            &&& window matches MainWindow::On(monitor) ==> (settled_height
                <= monitor.max_settle_height ==> y + settled_height <= monitor.work_bottom()
                - PROOF_BOTTOM_INSET_PX)
        },
{
}

} // verus!
