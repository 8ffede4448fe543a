//! Where the windows go on the screen, in physical pixels.

use vstd::prelude::*;

verus! {

/// A window or a monitor: its upper left corner and its size.
#[derive(Debug, Clone, Copy, PartialEq, Eq, Structural)]
pub struct Area {
    pub x: i32,
    pub y: i32,
    pub width: u32,
    pub height: u32,
}

/// A position of a window's upper left corner.
#[derive(Debug, Clone, Copy, PartialEq, Eq, Structural)]
pub struct Spot {
    pub x: i32,
    pub y: i32,
}

/// The gap between the pill and the history window above it.
pub const HISTORY_GAP: i32 = 8;

/// Whether `n` is a value of `i32`.
pub open spec fn in_range(n: int) -> bool {
    i32::MIN <= n <= i32::MAX
}

/// A size as a signed number.
pub open spec fn extent(size: u32) -> int {
    size as i32 as int
}

/// Half of `n`, rounded towards zero.
pub open spec fn half(n: int) -> int {
    if n >= 0 {
        n / 2
    } else {
        -((-n) / 2)
    }
}

/// The start of a range of `length` that is moved off the edges of the range of
/// `room` at `low`: first away from the lower edge, then from the upper one.
pub open spec fn moved_inside(start: int, length: int, low: int, room: int) -> int {
    let raised = if start < low {
        low
    } else {
        start
    };
    if raised + length > low + room {
        low + room - length
    } else {
        raised
    }
}

/// Whether moving a range off the edges stays within `i32` at each step.
pub open spec fn movable(start: int, length: int, low: int, room: int) -> bool {
    let raised = if start < low {
        low
    } else {
        start
    };
    &&& in_range(raised + length)
    &&& in_range(low + room)
    &&& in_range(moved_inside(start, length, low, room))
}

/// The left edge of the history window, centred above the pill.
pub open spec fn history_left(pill: Area, width: u32) -> int {
    pill.x + half(extent(pill.width)) - half(extent(width))
}

/// The upper edge of the history window, above the pill.
pub open spec fn history_top(pill: Area, height: u32) -> int {
    pill.y - extent(height) - HISTORY_GAP
}

/// Whether the position of the history window can be computed within `i32`.
pub open spec fn history_computable(
    pill: Area,
    width: u32,
    height: u32,
    monitor: Option<Area>,
) -> bool {
    &&& in_range(pill.x + half(extent(pill.width)))
    &&& in_range(history_left(pill, width))
    &&& in_range(pill.y - extent(height))
    &&& in_range(history_top(pill, height))
    &&& monitor matches Some(m) ==> {
        &&& movable(history_left(pill, width), extent(width), m.x as int, extent(m.width))
        &&& movable(history_top(pill, height), extent(height), m.y as int, extent(m.height))
    }
}

/// The left edge of the history window on the monitor, if there is one.
pub open spec fn history_x(pill: Area, width: u32, monitor: Option<Area>) -> int {
    match monitor {
        Some(m) => moved_inside(
            history_left(pill, width),
            extent(width),
            m.x as int,
            extent(m.width),
        ),
        None => history_left(pill, width),
    }
}

/// The upper edge of the history window on the monitor, if there is one.
pub open spec fn history_y(pill: Area, height: u32, monitor: Option<Area>) -> int {
    match monitor {
        Some(m) => moved_inside(
            history_top(pill, height),
            extent(height),
            m.y as int,
            extent(m.height),
        ),
        None => history_top(pill, height),
    }
}

fn halve(n: i64) -> (r: i64)
    requires
        in_range(n as int),
    ensures
        r == half(n as int),
        in_range(r as int),
{
    if n >= 0 {
        n / 2
    } else {
        -((-n) / 2)
    }
}

fn is_in_range(n: i64) -> (r: bool)
    ensures
        r == in_range(n as int),
{
    i32::MIN as i64 <= n && n <= i32::MAX as i64
}

fn move_inside(start: i64, length: i64, low: i64, room: i64) -> (r: i64)
    requires
        in_range(start as int),
        in_range(length as int),
        in_range(low as int),
        in_range(room as int),
    ensures
        r == moved_inside(start as int, length as int, low as int, room as int),
{
    let raised = if start < low {
        low
    } else {
        start
    };
    if raised + length > low + room {
        low + room - length
    } else {
        raised
    }
}

fn is_movable(start: i64, length: i64, low: i64, room: i64) -> (r: bool)
    requires
        in_range(start as int),
        in_range(length as int),
        in_range(low as int),
        in_range(room as int),
    ensures
        r == movable(start as int, length as int, low as int, room as int),
{
    let raised = if start < low {
        low
    } else {
        start
    };
    is_in_range(raised + length) && is_in_range(low + room) && is_in_range(
        move_inside(start, length, low, room),
    )
}

/// Whether `history_position` can be computed.
pub fn can_place_history(pill: &Area, width: u32, height: u32, monitor: Option<Area>) -> (r: bool)
    ensures
        r == history_computable(*pill, width, height, monitor),
{
    let w = width as i32 as i64;
    let h = height as i32 as i64;
    let center = pill.x as i64 + halve(pill.width as i32 as i64);
    let left = center - halve(w);
    let top = pill.y as i64 - h - HISTORY_GAP as i64;
    if !(is_in_range(center) && is_in_range(left) && is_in_range(pill.y as i64 - h)
        && is_in_range(top)) {
        return false;
    }
    match monitor {
        Some(m) => is_movable(left, w, m.x as i64, m.width as i32 as i64) && is_movable(
            top,
            h,
            m.y as i64,
            m.height as i32 as i64,
        ),
        None => true,
    }
}

/// The position of a history window of the given size: centred above the pill,
/// and moved off the edges of the monitor.
pub fn history_position(pill: &Area, width: u32, height: u32, monitor: Option<Area>) -> (r: Spot)
    requires
        history_computable(*pill, width, height, monitor),
    ensures
        r.x == history_x(*pill, width, monitor),
        r.y == history_y(*pill, height, monitor),
{
    let w = width as i32 as i64;
    let h = height as i32 as i64;
    let left = pill.x as i64 + halve(pill.width as i32 as i64) - halve(w);
    let top = pill.y as i64 - h - HISTORY_GAP as i64;
    match monitor {
        Some(m) => {
            let x = move_inside(left, w, m.x as i64, m.width as i32 as i64);
            let y = move_inside(top, h, m.y as i64, m.height as i32 as i64);
            Spot { x: x as i32, y: y as i32 }
        },
        None => Spot { x: left as i32, y: top as i32 },
    }
}

/// What the pill is placed by.
#[derive(Debug, Clone, Copy, PartialEq, Eq, Structural)]
pub enum PillAnchor {
    /// Where the user left it: its left edge and its lower edge.
    Saved { left: i32, bottom: i32 },
    /// The free part of the screen: the middle of the pill and its lower edge.
    VisibleFrame { middle: i32, bottom: i32 },
    /// The whole screen, and the space to leave below the pill.
    Screen { width: u32, height: u32, margin: i32 },
}

/// The left edge of a pill of the given width.
pub open spec fn pill_x(anchor: PillAnchor, width: i32) -> int {
    match anchor {
        PillAnchor::Saved { left, .. } => left as int,
        PillAnchor::VisibleFrame { middle, .. } => middle - half(width as int),
        PillAnchor::Screen { width: w, .. } => half(extent(w) - width),
    }
}

/// The upper edge of a pill of the given height.
pub open spec fn pill_y(anchor: PillAnchor, height: i32) -> int {
    match anchor {
        PillAnchor::Saved { bottom, .. } => bottom - height,
        PillAnchor::VisibleFrame { bottom, .. } => bottom - height,
        PillAnchor::Screen { height: h, margin, .. } => extent(h) - height - margin,
    }
}

/// Whether the position of the pill can be computed within `i32`.
pub open spec fn pill_computable(anchor: PillAnchor, width: i32, height: i32) -> bool {
    &&& in_range(pill_x(anchor, width))
    &&& in_range(pill_y(anchor, height))
    &&& anchor matches PillAnchor::Screen { width: w, height: h, .. } ==> {
        &&& in_range(extent(w) - width)
        &&& in_range(extent(h) - height)
    }
}

/// What the pill is placed by, given what is known: the place where the user left
/// it comes first, then the free part of the screen, then the whole of it.
pub fn choose_anchor(
    saved: Option<Spot>,
    visible: Option<Spot>,
    width: u32,
    height: u32,
    margin: i32,
) -> (r: PillAnchor)
    ensures
        r == match (saved, visible) {
            (Some(at), _) => PillAnchor::Saved { left: at.x, bottom: at.y },
            (None, Some(at)) => PillAnchor::VisibleFrame { middle: at.x, bottom: at.y },
            (None, None) => PillAnchor::Screen { width, height, margin },
        },
{
    match (saved, visible) {
        (Some(at), _) => PillAnchor::Saved { left: at.x, bottom: at.y },
        (None, Some(at)) => PillAnchor::VisibleFrame { middle: at.x, bottom: at.y },
        (None, None) => PillAnchor::Screen { width, height, margin },
    }
}

fn place(anchor: &PillAnchor, width: i32, height: i32) -> (r: (i64, i64))
    ensures
        r.0 == pill_x(*anchor, width),
        r.1 == pill_y(*anchor, height),
        i32::MIN - 0x1_0000_0000 <= r.0 <= i32::MAX + 0x1_0000_0000,
        i32::MIN - 0x1_0000_0000 <= r.1 <= i32::MAX + 0x2_0000_0000,
{
    match anchor {
        PillAnchor::Saved { left, bottom } => (*left as i64, *bottom as i64 - height as i64),
        PillAnchor::VisibleFrame { middle, bottom } => (
            *middle as i64 - halve(width as i64),
            *bottom as i64 - height as i64,
        ),
        PillAnchor::Screen { width: w, height: h, margin } => {
            let gap = *w as i32 as i64 - width as i64;
            let x = if gap >= 0 {
                gap / 2
            } else {
                -((-gap) / 2)
            };
            (x, *h as i32 as i64 - height as i64 - *margin as i64)
        },
    }
}

/// Whether `pill_position` can be computed.
pub fn can_place_pill(anchor: &PillAnchor, width: i32, height: i32) -> (r: bool)
    ensures
        r == pill_computable(*anchor, width, height),
{
    let at = place(anchor, width, height);
    let inner = match anchor {
        PillAnchor::Screen { width: w, height: h, .. } => is_in_range(
            *w as i32 as i64 - width as i64,
        ) && is_in_range(*h as i32 as i64 - height as i64),
        _ => true,
    };
    is_in_range(at.0) && is_in_range(at.1) && inner
}

/// The position of a pill of the given size.
pub fn pill_position(anchor: &PillAnchor, width: i32, height: i32) -> (r: Spot)
    requires
        pill_computable(*anchor, width, height),
    ensures
        r.x == pill_x(*anchor, width),
        r.y == pill_y(*anchor, height),
{
    let at = place(anchor, width, height);
    Spot { x: at.0 as i32, y: at.1 as i32 }
}

/// A history window that is no larger than the monitor lies inside it.
pub proof fn law_history_inside(pill: Area, width: u32, height: u32, monitor: Area)
    requires
        0 <= extent(width) <= extent(monitor.width),
        0 <= extent(height) <= extent(monitor.height),
    ensures
        monitor.x <= history_x(pill, width, Some(monitor)),
        history_x(pill, width, Some(monitor)) + extent(width) <= monitor.x + extent(monitor.width),
        monitor.y <= history_y(pill, height, Some(monitor)),
        history_y(pill, height, Some(monitor)) + extent(height) <= monitor.y + extent(
            monitor.height,
        ),
{
}

/// A history window that would lie inside the monitor is not moved.
pub proof fn law_history_stays(pill: Area, width: u32, height: u32, monitor: Area)
    requires
        monitor.x <= history_left(pill, width),
        history_left(pill, width) + extent(width) <= monitor.x + extent(monitor.width),
        monitor.y <= history_top(pill, height),
        history_top(pill, height) + extent(height) <= monitor.y + extent(monitor.height),
    ensures
        history_x(pill, width, Some(monitor)) == history_x(pill, width, None),
        history_y(pill, height, Some(monitor)) == history_y(pill, height, None),
{
}

/// A pill that goes back to where it was left has its lower edge there, whatever
/// its height is now.
pub proof fn law_pill_keeps_its_foot(left: i32, bottom: i32, height: i32)
    ensures
        pill_y(PillAnchor::Saved { left, bottom }, height) + height == bottom,
{
}

/// A size that fits `i32` stands for itself; a larger one wraps around.
pub proof fn law_extent(size: u32)
    ensures
        size <= 0x7fff_ffff ==> extent(size) == size,
        size > 0x7fff_ffff ==> extent(size) == size - 0x1_0000_0000,
{
    assert(size > 0x7fff_ffffu32 ==> size as i32 == size - 0x1_0000_0000) by (bit_vector);
}

/// Without a monitor, the history window is centred above the pill, up to the pixel that
/// rounding takes, and its lower edge is eight pixels above the pill.
pub proof fn law_history_above_pill(pill: Area, width: u32, height: u32)
    requires
        pill.width <= 0x7fff_ffff,
        width <= 0x7fff_ffff,
        height <= 0x7fff_ffff,
    ensures
        history_x(pill, width, None) == pill.x + pill.width / 2 - width / 2,
        history_y(pill, height, None) + height + 8 == pill.y,
        -1 <= (2 * history_x(pill, width, None) + width) - (2 * pill.x + pill.width) <= 1,
{
}

/// A history window that would stick out of the monitor is moved just as far as it takes:
/// to the edge that it would cross.
pub proof fn law_history_moves_to_the_edge(pill: Area, width: u32, height: u32, monitor: Area)
    requires
        pill.width <= 0x7fff_ffff,
        width <= monitor.width <= 0x7fff_ffff,
        height <= monitor.height <= 0x7fff_ffff,
    ensures
        ({
            let left = pill.x + pill.width / 2 - width / 2;
            let top = pill.y - height - 8;
            let x = history_x(pill, width, Some(monitor));
            let y = history_y(pill, height, Some(monitor));
            &&& left < monitor.x ==> x == monitor.x
            &&& left + width > monitor.x + monitor.width ==> x + width == monitor.x + monitor.width
            &&& monitor.x <= left && left + width <= monitor.x + monitor.width ==> x == left
            &&& top < monitor.y ==> y == monitor.y
            &&& top + height > monitor.y + monitor.height ==> y + height == monitor.y
                + monitor.height
            &&& monitor.y <= top && top + height <= monitor.y + monitor.height ==> y == top
        }),
{
}

/// A history window that is larger than the monitor ends where the monitor does.
pub proof fn law_large_history(pill: Area, width: u32, height: u32, monitor: Area)
    requires
        monitor.width < width <= 0x7fff_ffff,
        monitor.height < height <= 0x7fff_ffff,
        pill.width <= 0x7fff_ffff,
    ensures
        history_x(pill, width, Some(monitor)) + width == monitor.x + monitor.width,
        history_y(pill, height, Some(monitor)) + height == monitor.y + monitor.height,
{
}

/// Positions and sizes of screens as they are made can always be computed with.
pub proof fn law_ordinary_screens_work(
    pill: Area,
    width: u32,
    height: u32,
    monitor: Area,
    anchor: PillAnchor,
)
    requires
        -0x800_0000 <= pill.x <= 0x800_0000,
        -0x800_0000 <= pill.y <= 0x800_0000,
        -0x800_0000 <= monitor.x <= 0x800_0000,
        -0x800_0000 <= monitor.y <= 0x800_0000,
        pill.width <= 0x800_0000,
        pill.height <= 0x800_0000,
        monitor.width <= 0x800_0000,
        monitor.height <= 0x800_0000,
        width <= 0x800_0000,
        height <= 0x800_0000,
        match anchor {
            PillAnchor::Saved { left, bottom } => -0x800_0000 <= left <= 0x800_0000 && -0x800_0000
                <= bottom <= 0x800_0000,
            PillAnchor::VisibleFrame { middle, bottom } => -0x800_0000 <= middle <= 0x800_0000
                && -0x800_0000 <= bottom <= 0x800_0000,
            PillAnchor::Screen { width: w, height: h, margin } => w <= 0x800_0000 && h <= 0x800_0000
                && 0 <= margin <= 0x800_0000,
        },
    ensures
        history_computable(pill, width, height, Some(monitor)),
        history_computable(pill, width, height, None),
        pill_computable(anchor, pill.width as i32, pill.height as i32),
{
}

/// Where the pill goes: with its left and lower edges where it was left; or with its
/// middle and lower edge where the free part of the screen says; or in the middle of the
/// screen, with the margin below it.
pub proof fn law_pill_follows_its_anchor(
    x: i32,
    bottom: i32,
    screen_width: u32,
    screen_height: u32,
    margin: i32,
    width: i32,
    height: i32,
)
    requires
        0 <= width <= screen_width <= 0x7fff_ffff,
        screen_height <= 0x7fff_ffff,
    ensures
        pill_x(PillAnchor::Saved { left: x, bottom }, width) == x,
        pill_y(PillAnchor::Saved { left: x, bottom }, height) + height == bottom,
        pill_x(PillAnchor::VisibleFrame { middle: x, bottom }, width) + width / 2 == x,
        pill_y(PillAnchor::VisibleFrame { middle: x, bottom }, height) + height == bottom,
        ({
            let on_screen = PillAnchor::Screen {
                width: screen_width,
                height: screen_height,
                margin,
            };
            &&& 0 <= (screen_width - width) - 2 * pill_x(on_screen, width) <= 1
            &&& pill_y(on_screen, height) + height + margin == screen_height
        }),
{
}

/// Halves are rounded towards zero, so that a pill that is wider than the screen sticks
/// out on either side alike, up to a pixel.
pub proof fn law_half(n: int)
    ensures
        half(n) == -half(-n),
        n >= 0 ==> 2 * half(n) <= n <= 2 * half(n) + 1,
{
}

/// For sizes of any kind: the history window starts half its width to the left of the
/// pill's middle, and its height and eight pixels above the pill.
pub proof fn law_history_for_any_size(pill: Area, width: u32, height: u32)
    ensures
        history_x(pill, width, None) == pill.x + half(extent(pill.width)) - half(extent(width)),
        history_y(pill, height, None) == pill.y - extent(height) - 8,
{
}

/// For sizes of any kind: the pill is half its width to the left of its middle, and half of
/// what the screen has over it from the left of the screen.
pub proof fn law_pill_for_any_size(
    middle: i32,
    bottom: i32,
    screen_width: u32,
    screen_height: u32,
    margin: i32,
    width: i32,
    height: i32,
)
    ensures
        pill_x(PillAnchor::VisibleFrame { middle, bottom }, width) == middle - half(width as int),
        ({
            let on_screen = PillAnchor::Screen {
                width: screen_width,
                height: screen_height,
                margin,
            };
            &&& pill_x(on_screen, width) == half(extent(screen_width) - width)
            &&& pill_y(on_screen, height) == extent(screen_height) - height - margin
        }),
{
}

/// Where the user left the pill counts before all else, the free part of the screen before
/// the whole of it.
pub proof fn law_choose_anchor(
    saved: Option<Spot>,
    visible: Option<Spot>,
    width: u32,
    height: u32,
    margin: i32,
    r: PillAnchor,
)
    requires
        call_ensures(choose_anchor, (saved, visible, width, height, margin), r),
    ensures
        saved matches Some(at) ==> r == (PillAnchor::Saved { left: at.x, bottom: at.y }),
        saved is None ==> (visible matches Some(at) ==> r == (PillAnchor::VisibleFrame {
            middle: at.x,
            bottom: at.y,
        })),
        saved is None && visible is None ==> r == (PillAnchor::Screen { width, height, margin }),
{
}

} // verus!
