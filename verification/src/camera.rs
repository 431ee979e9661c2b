//! The camera that trails the player's tank, and the zoom that the player sets.

use crate::input::{keys_in, read_keys, MouseScrollUnit, MouseWheel};
use crate::math::{product, saturate, saturating, Vec3};
use crate::physics::{Facing, Position};
use bevy::input::keyboard::KeyCode;
use bevy::input::Input;
use vstd::prelude::*;

verus! {

/// The zoom at which the wheel turns the view over, in thousandths.
pub const ZOOM_EDGE: i64 = 30_000;

/// What one line of the wheel takes off the zoom, in lines.
pub const ZOOM_PER_LINE: i64 = 10;

/// The zoom that the key sets from the near side: the far view, from behind.
pub const ZOOM_FAR: i64 = 50_000;

/// The zoom that the key sets from the far side: the near view.
pub const ZOOM_NEAR: i64 = -40_000;

/// The zoom that the camera starts with.
pub const ZOOM_START: i64 = 40_000;

/// How far to the side of the origin the camera stands as the game begins.
pub const CAMERA_START_X: i64 = -10_500;

/// How high the camera stands as the game begins.
pub const CAMERA_START_Y: i64 = 10_500;

/// How far along `z` the camera stands as the game begins.
pub const CAMERA_START_Z: i64 = 40_000;

/// How high above the tank the camera rides.
pub const CAMERA_HEIGHT: i64 = 15_500;

/// How high above the tank the camera looks.
pub const TARGET_HEIGHT: i64 = 5_000;

/// How far ahead of the tank the camera looks for each unit of zoom behind it.
pub const TARGET_PER_ZOOM: i64 = 10;

/// The least distance ahead of the tank that the camera looks at.
pub const TARGET_AHEAD: i64 = 80_000;

/// How far behind the tank the camera rides, in thousandths. A negative zoom
/// puts the camera in front of the tank.
#[derive(Clone, Copy, PartialEq, Eq, Structural, Debug)]
pub struct Zoom(pub i64);

/// A point of the screen, in thousandths.
#[derive(Clone, Copy, PartialEq, Eq, Structural, Debug)]
pub struct Vec2 {
    pub x: i64,
    pub y: i64,
}

/// Where the mouse was last seen.
#[derive(Clone, Copy, PartialEq, Eq, Structural, Debug)]
pub struct MousePosition(pub Vec2);

/// Where the camera is and what it looks at.
#[derive(Clone, Copy, PartialEq, Eq, Structural, Debug)]
pub struct CameraPose {
    pub translation: Vec3,
    pub looking_at: Vec3,
}

/// The camera with all it carries.
#[derive(Clone, Copy, PartialEq, Eq, Structural, Debug)]
pub struct Camera {
    pub pose: CameraPose,
    pub zoom: Zoom,
    pub mouse_position: MousePosition,
}

impl Zoom {
    /// The zoom after one turn of the wheel. Only turns counted in lines are
    /// heard. At the edge, a turn further outward puts the zoom at the
    /// opposite edge; anywhere else each line takes `ZOOM_PER_LINE` off.
    pub open spec fn scrolled(self, event: MouseWheel) -> Zoom {
        if event.unit != MouseScrollUnit::Line {
            self
        } else if self.0 == ZOOM_EDGE && event.y > 0 {
            Zoom((-ZOOM_EDGE) as i64)
        } else if self.0 == -ZOOM_EDGE && event.y < 0 {
            Zoom(ZOOM_EDGE)
        } else {
            Zoom(saturate(self.0 - ZOOM_PER_LINE * event.y))
        }
    }

    /// The zoom after the turns of the wheel in `events`, in their order.
    pub open spec fn scrolled_through(self, events: Seq<MouseWheel>) -> Zoom
        decreases events.len(),
    {
        if events.len() == 0 {
            self
        } else {
            self.scrolled_through(events.drop_last()).scrolled(events.last())
        }
    }

    /// What the turns of a short list come to, without going through the
    /// list: none leaves the zoom, and a single one is taken as `scrolled`
    /// says. This holds of every zoom and every list
    /// (`lemma_scroll_is_plain`); contracts state it of the lists that they
    /// take.
    pub open spec fn scroll_is_plain(self, events: Seq<MouseWheel>) -> bool {
        &&& events.len() == 0 ==> self.scrolled_through(events) == self
        &&& events.len() == 1 ==> self.scrolled_through(events) == self.scrolled(events[0])
    }

    /// The zoom after the key that switches views. At or beyond the edges it
    /// jumps to the view of the other side; between them it stays.
    pub open spec fn switched(self) -> Zoom {
        if self.0 <= -ZOOM_EDGE {
            Zoom(ZOOM_FAR)
        } else if self.0 >= ZOOM_EDGE {
            Zoom(ZOOM_NEAR)
        } else {
            self
        }
    }

    /// Switches between the near and the far view.
    pub fn switch(self) -> (r: Zoom)
        ensures
            r == self.switched(),
    {
        if self.0 <= -ZOOM_EDGE {
            Zoom(ZOOM_FAR)
        } else if self.0 >= ZOOM_EDGE {
            Zoom(ZOOM_NEAR)
        } else {
            self
        }
    }

    /// Takes one turn of the wheel.
    pub fn scroll(self, event: &MouseWheel) -> (r: Zoom)
        ensures
            r == self.scrolled(*event),
    {
        match event.unit {
            MouseScrollUnit::Pixel => self,
            MouseScrollUnit::Line => {
                if self.0 == ZOOM_EDGE && event.y > 0 {
                    Zoom(-ZOOM_EDGE)
                } else if self.0 == -ZOOM_EDGE && event.y < 0 {
                    Zoom(ZOOM_EDGE)
                } else {
                    Zoom(saturating(self.0 as i128 - product(ZOOM_PER_LINE, event.y)))
                }
            },
        }
    }
}

/// Where the camera belongs for a tank at `position` whose heading has the
/// sine and cosine `facing`: behind the tank by the zoom and above it, looking
/// at a point above the tank and ahead of it.
pub open spec fn framing(position: Position, facing: Facing, zoom: Zoom) -> CameraPose {
    let ahead = saturate(-TARGET_PER_ZOOM * zoom.0);
    CameraPose {
        translation: position.0.plus(
            facing.rotated(Vec3 { x: 0, y: CAMERA_HEIGHT, z: saturate(-zoom.0) }),
        ),
        looking_at: position.0.plus(
            facing.rotated(
                Vec3 {
                    x: 0,
                    y: TARGET_HEIGHT,
                    z: if ahead > TARGET_AHEAD {
                        ahead
                    } else {
                        TARGET_AHEAD
                    },
                },
            ),
        ),
    }
}

/// The camera as the game begins: off to the side of the origin and above it,
/// looking at the origin.
pub fn spawn_camera() -> (r: Camera)
    ensures
        r == (Camera {
            pose: CameraPose {
                translation: Vec3 { x: CAMERA_START_X, y: CAMERA_START_Y, z: CAMERA_START_Z },
                looking_at: Vec3::zero(),
            },
            zoom: Zoom(ZOOM_START),
            mouse_position: MousePosition(Vec2 { x: 0, y: 0 }),
        }),
{
    Camera {
        pose: CameraPose {
            translation: Vec3 { x: CAMERA_START_X, y: CAMERA_START_Y, z: CAMERA_START_Z },
            looking_at: Vec3::origin(),
        },
        zoom: Zoom(ZOOM_START),
        mouse_position: MousePosition(Vec2 { x: 0, y: 0 }),
    }
}

/// Moves the camera to where it belongs behind the player's tank.
pub fn update_camera(position: &Position, facing: Facing, zoom: &Zoom, pose: &mut CameraPose)
    ensures
        *final(pose) == framing(*position, facing, *zoom),
        facing.turn_is_plain(),
{
    let behind = saturating(-(zoom.0 as i128));
    let ahead = saturating(-product(TARGET_PER_ZOOM, zoom.0));
    let ahead = if ahead > TARGET_AHEAD {
        ahead
    } else {
        TARGET_AHEAD
    };
    pose.translation = position.0.add_vec(
        facing.rotate(Vec3 { x: 0, y: CAMERA_HEIGHT, z: behind }),
    );
    pose.looking_at = position.0.add_vec(facing.rotate(Vec3 { x: 0, y: TARGET_HEIGHT, z: ahead }));
}

/// Lets the mouse wheel set the zoom.
pub fn update_camera_zoom(zoom: &mut Zoom, scroll_evr: &Vec<MouseWheel>)
    ensures
        *final(zoom) == old(zoom).scrolled_through(scroll_evr@),
        old(zoom).scroll_is_plain(scroll_evr@),
{
    proof {
        lemma_scroll_is_plain(*old(zoom), scroll_evr@);
    }
    let mut i: usize = 0;
    while i < scroll_evr.len()
        invariant
            i <= scroll_evr.len(),
            *zoom == old(zoom).scrolled_through(scroll_evr@.take(i as int)),
        decreases scroll_evr.len() - i,
    {
        assert(scroll_evr@.take(i + 1).drop_last() =~= scroll_evr@.take(i as int));
        *zoom = zoom.scroll(&scroll_evr[i]);
        i += 1;
    }
    assert(scroll_evr@.take(i as int) =~= scroll_evr@);
}

/// Reads the keyboard and lets the key switch between the near and the far
/// view, once for each time that it goes down.
pub fn zoom_key(zoom: &mut Zoom, keyboard_input: &Input<KeyCode>)
    ensures
        *final(zoom) == if keys_in(keyboard_input).view {
            old(zoom).switched()
        } else {
            *old(zoom)
        },
{
    if read_keys(keyboard_input).view {
        *zoom = zoom.switch();
    }
}

/// No turn of the wheel leaves the zoom as it is, and a single turn is taken as
/// the rule for one turn says.
pub proof fn lemma_scroll_is_plain(zoom: Zoom, events: Seq<MouseWheel>)
    ensures
        zoom.scroll_is_plain(events),
{
    if events.len() == 1 {
        assert(events.drop_last().len() == 0);
        assert(zoom.scrolled_through(events.drop_last()) == zoom);
    }
}

/// At the outer edge a turn of the wheel outward lands on the inner edge, and
/// the other way round: the wheel turns the view over instead of stopping.
pub proof fn lemma_zoom_wraps(event: MouseWheel)
    requires
        event.unit == MouseScrollUnit::Line,
    ensures
        event.y > 0 ==> Zoom(ZOOM_EDGE).scrolled(event) == Zoom((-ZOOM_EDGE) as i64),
        event.y < 0 ==> Zoom((-ZOOM_EDGE) as i64).scrolled(event) == Zoom(ZOOM_EDGE),
{
}

} // verus!
