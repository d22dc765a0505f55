//! The fixed scene the worker draws once: a camera and four static shapes.
//!
//! Scene objects are immutable declarative records — shape kind, fill color,
//! position — created once at startup and never mutated. All coordinates and
//! extents of the fixed scene are whole numbers of pixels, so they are kept
//! as integers here.

use vstd::prelude::*;

verus! {

/// The geometry of one scene object.
#[derive(Clone, Copy, PartialEq, Eq, Structural, Debug)]
pub enum ShapeKind {
    /// A circle of the given radius.
    Circle { radius: u32 },
    /// An axis-aligned rectangle drawn as a sprite.
    Rect { width: u32, height: u32 },
    /// An axis-aligned quad mesh.
    Quad { width: u32, height: u32 },
    /// A regular polygon with the given circumradius and number of sides.
    RegularPolygon { radius: u32, sides: u32 },
}

/// The fill color of one scene object, by name.
#[derive(Clone, Copy, PartialEq, Eq, Structural, Debug)]
pub enum FillColor {
    Purple,
    BlueViolet,
    LimeGreen,
    Turquoise,
}

/// One immutable scene record: what is drawn, in which color, and where.
#[derive(Clone, Copy, PartialEq, Eq, Structural, Debug)]
pub struct SceneObject {
    pub shape: ShapeKind,
    pub color: FillColor,
    /// Horizontal position of the object's center, in pixels from the origin.
    pub x: i32,
    /// Vertical position of the object's center, in pixels from the origin.
    pub y: i32,
}

/// The scene registered at startup: one 2D camera and the static objects.
pub struct Scene {
    /// Whether a 2D camera was spawned.
    pub camera: bool,
    pub objects: Vec<SceneObject>,
}

/// The four static shapes, in the order they are spawned.
pub open spec fn fixed_scene_objects() -> Seq<SceneObject> {
    seq![
        SceneObject {
            shape: ShapeKind::Circle { radius: 50 },
            color: FillColor::Purple,
            x: -150i32,
            y: 0,
        },
        SceneObject {
            shape: ShapeKind::Rect { width: 50, height: 100 },
            color: FillColor::BlueViolet,
            x: -50i32,
            y: 0,
        },
        SceneObject {
            shape: ShapeKind::Quad { width: 50, height: 100 },
            color: FillColor::LimeGreen,
            x: 50,
            y: 0,
        },
        SceneObject {
            shape: ShapeKind::RegularPolygon { radius: 50, sides: 6 },
            color: FillColor::Turquoise,
            x: 150,
            y: 0,
        },
    ]
}

impl Scene {
    /// True of the scene the startup system is meant to leave behind.
    pub open spec fn is_fixed_scene(self) -> bool {
        self.camera && self.objects@ == fixed_scene_objects()
    }
}

/// Builds the startup scene: spawns the camera and the four static shapes.
pub fn setup_scene() -> (s: Scene)
    ensures
        s.is_fixed_scene(),
{
    let mut objects: Vec<SceneObject> = Vec::new();
    objects.push(SceneObject {
        shape: ShapeKind::Circle { radius: 50 },
        color: FillColor::Purple,
        x: -150,
        y: 0,
    });
    objects.push(SceneObject {
        shape: ShapeKind::Rect { width: 50, height: 100 },
        color: FillColor::BlueViolet,
        x: -50,
        y: 0,
    });
    objects.push(SceneObject {
        shape: ShapeKind::Quad { width: 50, height: 100 },
        color: FillColor::LimeGreen,
        x: 50,
        y: 0,
    });
    objects.push(SceneObject {
        shape: ShapeKind::RegularPolygon { radius: 50, sides: 6 },
        color: FillColor::Turquoise,
        x: 150,
        y: 0,
    });
    let scene = Scene { camera: true, objects };
    proof {
        assert(scene.objects@ =~= fixed_scene_objects());
    }
    scene
}

} // verus!
