//! The controls that the mouse panel shows, and where they are on the picture.
//!
//! All lengths are in thousandths of a pixel.

use crate::binding::ButtonId;
use vstd::prelude::*;

verus! {

/// A control on the picture of a mouse.
#[derive(Debug, Clone, Copy, PartialEq, Eq, Structural)]
pub enum MouseControlId {
    Button(ButtonId),
    /// The thumb wheel, which is bound in two directions at once.
    ThumbwheelRotation,
}

/// A rectangle of the picture that stands for a control.
#[derive(Debug, Clone, Copy, PartialEq, Eq, Structural)]
pub struct Hotspot {
    pub id: MouseControlId,
    pub x: i32,
    pub y: i32,
    pub w: i32,
    pub h: i32,
}

impl Hotspot {
    /// Twice the distance of the centre from the left.
    pub open spec fn twice_center_x(self) -> int {
        2 * self.x + self.w
    }

    /// Twice the distance of the centre from the top.
    pub open spec fn twice_center_y(self) -> int {
        2 * self.y + self.h
    }

    /// Twice the centre's distances from the left and from the top.
    pub fn twice_center(&self) -> (center: (i64, i64))
        ensures
            center.0 == self.twice_center_x(),
            center.1 == self.twice_center_y(),
    {
        (2 * (self.x as i64) + self.w as i64, 2 * (self.y as i64) + self.h as i64)
    }
}

/// The size of the plain silhouette.
pub const MOUSE_MODEL_SIZE: (u32, u32) = (260_000, 420_000);

/// The controls of the plain silhouette, without the thumb wheel.
pub open spec fn plain_hotspots() -> Seq<Hotspot> {
    seq![
        Hotspot {
            id: MouseControlId::Button(ButtonId::MiddleClick),
            x: 110_000,
            y: 60_000,
            w: 40_000,
            h: 80_000,
        },
        Hotspot {
            id: MouseControlId::Button(ButtonId::DpiToggle),
            x: 110_000,
            y: 160_000,
            w: 40_000,
            h: 40_000,
        },
        Hotspot {
            id: MouseControlId::Button(ButtonId::Forward),
            x: 10_000,
            y: 150_000,
            w: 40_000,
            h: 50_000,
        },
        Hotspot {
            id: MouseControlId::Button(ButtonId::Back),
            x: 10_000,
            y: 210_000,
            w: 40_000,
            h: 50_000,
        },
        Hotspot {
            id: MouseControlId::Button(ButtonId::GestureButton),
            x: 0,
            y: 280_000,
            w: 40_000,
            h: 70_000,
        },
    ]
}

/// The thumb wheel of the plain silhouette.
pub open spec fn thumbwheel_hotspot() -> Hotspot {
    Hotspot {
        id: MouseControlId::ThumbwheelRotation,
        x: 55_000,
        y: 175_000,
        w: 30_000,
        h: 60_000,
    }
}

/// The controls of the plain silhouette.
pub fn default_hotspots(thumbwheel: bool) -> (hotspots: Vec<Hotspot>)
    ensures
        hotspots@ == if thumbwheel {
            plain_hotspots().push(thumbwheel_hotspot())
        } else {
            plain_hotspots()
        },
{
    let mut hotspots: Vec<Hotspot> = vec![
        Hotspot {
            id: MouseControlId::Button(ButtonId::MiddleClick),
            x: 110_000,
            y: 60_000,
            w: 40_000,
            h: 80_000,
        },
        Hotspot {
            id: MouseControlId::Button(ButtonId::DpiToggle),
            x: 110_000,
            y: 160_000,
            w: 40_000,
            h: 40_000,
        },
        Hotspot {
            id: MouseControlId::Button(ButtonId::Forward),
            x: 10_000,
            y: 150_000,
            w: 40_000,
            h: 50_000,
        },
        Hotspot {
            id: MouseControlId::Button(ButtonId::Back),
            x: 10_000,
            y: 210_000,
            w: 40_000,
            h: 50_000,
        },
        Hotspot {
            id: MouseControlId::Button(ButtonId::GestureButton),
            x: 0,
            y: 280_000,
            w: 40_000,
            h: 70_000,
        },
    ];
    assert(hotspots@ =~= plain_hotspots());
    if thumbwheel {
        hotspots.push(
            Hotspot {
                id: MouseControlId::ThumbwheelRotation,
                x: 55_000,
                y: 175_000,
                w: 30_000,
                h: 60_000,
            },
        );
    }
    hotspots
}

} // verus!
