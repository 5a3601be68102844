use vstd::prelude::*;

verus! {

/// Horizontal distance from the right screen edge to a widget's left side:
/// the widget's width of 190 logical units plus a margin of 10.
pub const RIGHT_OFFSET: i64 = 200;

/// Height of the floating widget, centred vertically on the screen.
pub const FLOATING_HEIGHT: i64 = 64;

/// Distance from the bottom screen edge to the voice popup's top side.
pub const BOTTOM_OFFSET: i64 = 100;

/// Size of the primary display as the host reports it.
#[derive(Clone, Copy, Debug, PartialEq, Eq, Structural)]
pub struct DisplaySize {
    pub width: u32,
    pub height: u32,
}

/// A top-left corner in logical units. Centring can land on half a unit, so
/// both coordinates are kept doubled and stay exact integers.
#[derive(Clone, Copy, Debug, PartialEq, Eq, Structural)]
pub struct LogicalPoint {
    pub twice_x: i64,
    pub twice_y: i64,
}

impl LogicalPoint {
    /// The point whose coordinates are `x` and `y` halves of a logical unit.
    pub open spec fn halves(x: int, y: int) -> LogicalPoint {
        LogicalPoint { twice_x: x as i64, twice_y: y as i64 }
    }
}

/// Right edge, vertically centred: `(W - 200, (H - 64) / 2)`.
pub open spec fn spec_floating_position(d: DisplaySize) -> LogicalPoint {
    LogicalPoint::halves(2 * (d.width - RIGHT_OFFSET), d.height - FLOATING_HEIGHT)
}

/// Right edge, near the bottom: `(W - 200, H - 100)`.
pub open spec fn spec_voice_popup_position(d: DisplaySize) -> LogicalPoint {
    LogicalPoint::halves(2 * (d.width - RIGHT_OFFSET), 2 * (d.height - BOTTOM_OFFSET))
}

/// Where the floating widget's top-left corner goes on a display of size `d`.
pub fn floating_position(d: DisplaySize) -> (p: LogicalPoint)
    ensures
        p == spec_floating_position(d),
        p.twice_x == 2 * (d.width - 200),
        p.twice_y == d.height - 64,
{
    let w = d.width as i64;
    let h = d.height as i64;
    LogicalPoint { twice_x: 2 * (w - RIGHT_OFFSET), twice_y: h - FLOATING_HEIGHT }
}

/// Where the voice popup's top-left corner goes on a display of size `d`.
pub fn voice_popup_position(d: DisplaySize) -> (p: LogicalPoint)
    ensures
        p == spec_voice_popup_position(d),
        p.twice_x == 2 * (d.width - 200),
        p.twice_y == 2 * (d.height - 100),
{
    let w = d.width as i64;
    let h = d.height as i64;
    LogicalPoint { twice_x: 2 * (w - RIGHT_OFFSET), twice_y: 2 * (h - BOTTOM_OFFSET) }
}

} // verus!
