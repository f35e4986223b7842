use vstd::prelude::*;
use crate::material::Material;

verus! {

/// A coordinate axis.
#[derive(Clone, Copy, Debug, PartialEq, Eq, Structural)]
pub enum Axis {
    X,
    Y,
    Z,
}

/// A face of an axis-aligned cube, named by its outward normal.
#[derive(Clone, Copy, Debug, PartialEq, Eq, Structural)]
pub enum CubeFace {
    PosX,
    NegX,
    PosY,
    NegY,
    PosZ,
    NegZ,
}

/// How one texture coordinate is measured on a face: along `axis`, from the
/// cube's maximum on that axis when `from_max` (so `(max - p) / size`), else
/// from its minimum (`(p - min) / size`).
#[derive(Clone, Copy, Debug, PartialEq, Eq, Structural)]
pub struct UvAxis {
    pub axis: Axis,
    pub from_max: bool,
}

/// The texture coordinates of a face.
#[derive(Clone, Copy, Debug, PartialEq, Eq, Structural)]
pub struct UvLayout {
    pub u: UvAxis,
    pub v: UvAxis,
}

/// The UV mapping of each face, so that every face shows its texture upright
/// when seen from outside: the lateral faces run `v` down from the top edge,
/// the top face runs `u` along X and `v` along Z, the bottom face mirrors it
/// in Z.
pub open spec fn face_uv(face: CubeFace) -> UvLayout {
    match face {
        CubeFace::PosX => UvLayout {
            u: UvAxis { axis: Axis::Z, from_max: true },
            v: UvAxis { axis: Axis::Y, from_max: true },
        },
        CubeFace::NegX => UvLayout {
            u: UvAxis { axis: Axis::Z, from_max: false },
            v: UvAxis { axis: Axis::Y, from_max: true },
        },
        CubeFace::PosY => UvLayout {
            u: UvAxis { axis: Axis::X, from_max: false },
            v: UvAxis { axis: Axis::Z, from_max: false },
        },
        CubeFace::NegY => UvLayout {
            u: UvAxis { axis: Axis::X, from_max: false },
            v: UvAxis { axis: Axis::Z, from_max: true },
        },
        CubeFace::PosZ => UvLayout {
            u: UvAxis { axis: Axis::X, from_max: false },
            v: UvAxis { axis: Axis::Y, from_max: true },
        },
        CubeFace::NegZ => UvLayout {
            u: UvAxis { axis: Axis::X, from_max: true },
            v: UvAxis { axis: Axis::Y, from_max: true },
        },
    }
}

impl CubeFace {
    /// The axis the face is perpendicular to.
    pub open spec fn normal_axis(self) -> Axis {
        match self {
            CubeFace::PosX | CubeFace::NegX => Axis::X,
            CubeFace::PosY | CubeFace::NegY => Axis::Y,
            CubeFace::PosZ | CubeFace::NegZ => Axis::Z,
        }
    }

    /// The top (+Y) and bottom (-Y) faces.
    pub open spec fn spec_is_top_or_bottom(self) -> bool {
        self.normal_axis() == Axis::Y
    }

    pub fn is_top_or_bottom(&self) -> (b: bool)
        ensures
            b == self.spec_is_top_or_bottom(),
            b == (*self == CubeFace::PosY || *self == CubeFace::NegY),
    {
        match self {
            CubeFace::PosY | CubeFace::NegY => true,
            _ => false,
        }
    }

    pub fn uv_layout(&self) -> (layout: UvLayout)
        ensures
            layout == face_uv(*self),
    {
        match self {
            CubeFace::PosX => UvLayout {
                u: UvAxis { axis: Axis::Z, from_max: true },
                v: UvAxis { axis: Axis::Y, from_max: true },
            },
            CubeFace::NegX => UvLayout {
                u: UvAxis { axis: Axis::Z, from_max: false },
                v: UvAxis { axis: Axis::Y, from_max: true },
            },
            CubeFace::PosY => UvLayout {
                u: UvAxis { axis: Axis::X, from_max: false },
                v: UvAxis { axis: Axis::Z, from_max: false },
            },
            CubeFace::NegY => UvLayout {
                u: UvAxis { axis: Axis::X, from_max: false },
                v: UvAxis { axis: Axis::Z, from_max: true },
            },
            CubeFace::PosZ => UvLayout {
                u: UvAxis { axis: Axis::X, from_max: false },
                v: UvAxis { axis: Axis::Y, from_max: true },
            },
            CubeFace::NegZ => UvLayout {
                u: UvAxis { axis: Axis::X, from_max: true },
                v: UvAxis { axis: Axis::Y, from_max: true },
            },
        }
    }
}

/// The material a cube shows on `face`: the top/bottom material on the +Y
/// and -Y faces, the sides material on the four lateral faces.
pub fn face_material<'a>(face: CubeFace, top_bottom: &'a Material, sides: &'a Material) -> (m:
    &'a Material)
    ensures
        face.spec_is_top_or_bottom() ==> *m == *top_bottom,
        !face.spec_is_top_or_bottom() ==> *m == *sides,
        face == CubeFace::PosY || face == CubeFace::NegY ==> *m == *top_bottom,
        face == CubeFace::PosX || face == CubeFace::NegX || face == CubeFace::PosZ || face
            == CubeFace::NegZ ==> *m == *sides,
{
    if face.is_top_or_bottom() {
        top_bottom
    } else {
        sides
    }
}

/// The two texture coordinates of every face run along the two axes that lie
/// in the face: neither is the face's normal axis, and they differ.
pub proof fn lemma_uv_spans_face(face: CubeFace)
    ensures
        face_uv(face).u.axis != face.normal_axis(),
        face_uv(face).v.axis != face.normal_axis(),
        face_uv(face).u.axis != face_uv(face).v.axis,
{
}

/// A direction in space, as integer coordinates.
pub type Direction = (int, int, int);

/// The unit direction along `axis`.
pub open spec fn unit(axis: Axis) -> Direction {
    match axis {
        Axis::X => (1, 0, 0),
        Axis::Y => (0, 1, 0),
        Axis::Z => (0, 0, 1),
    }
}

pub open spec fn negate(d: Direction) -> Direction {
    (-d.0, -d.1, -d.2)
}

pub open spec fn cross(a: Direction, b: Direction) -> Direction {
    (a.1 * b.2 - a.2 * b.1, a.2 * b.0 - a.0 * b.2, a.0 * b.1 - a.1 * b.0)
}

/// The face's outward normal.
pub open spec fn outward_normal(face: CubeFace) -> Direction {
    match face {
        CubeFace::PosX => (1, 0, 0),
        CubeFace::NegX => (-1, 0, 0),
        CubeFace::PosY => (0, 1, 0),
        CubeFace::NegY => (0, -1, 0),
        CubeFace::PosZ => (0, 0, 1),
        CubeFace::NegZ => (0, 0, -1),
    }
}

/// The direction in which a texture coordinate grows on the cube: along its
/// axis when measured from the minimum, against it when from the maximum.
pub open spec fn growth(along: UvAxis) -> Direction {
    if along.from_max {
        negate(unit(along.axis))
    } else {
        unit(along.axis)
    }
}

/// Every face shows its texture unmirrored and upright from outside:
/// - on each face, `v` grows in the direction `u` × outward normal, so the
///   texture reads left to right for a viewer in front of the face;
/// - on the four lateral faces, `v` grows downwards (-Y): `v` is 0 on the
///   top edge, so `v = (max.y - p.y) / size_y`;
/// - on the top and bottom faces, `u` grows along +X.
/// Together these fix the layout of every face.
#[verifier::nonlinear]
pub proof fn lemma_uv_upright_from_outside(face: CubeFace)
    ensures
        growth(face_uv(face).v) == cross(growth(face_uv(face).u), outward_normal(face)),
        !face.spec_is_top_or_bottom() ==> growth(face_uv(face).v) == (0int, -1int, 0int),
        !face.spec_is_top_or_bottom() ==> face_uv(face).v == (UvAxis { axis: Axis::Y, from_max: true }),
        face.spec_is_top_or_bottom() ==> growth(face_uv(face).u) == (1int, 0int, 0int),
{
    match face {
        CubeFace::PosX => {},
        CubeFace::NegX => {},
        CubeFace::PosY => {},
        CubeFace::NegY => {},
        CubeFace::PosZ => {},
        CubeFace::NegZ => {},
    }
}

/// The layout the faces read with is the only one that shows every face
/// unmirrored and upright from outside, as `lemma_uv_upright_from_outside` says.
#[verifier::nonlinear]
pub proof fn lemma_uv_layout_is_unique(face: CubeFace, layout: UvLayout)
    requires
        growth(layout.v) == cross(growth(layout.u), outward_normal(face)),
        !face.spec_is_top_or_bottom() ==> growth(layout.v) == (0int, -1int, 0int),
        face.spec_is_top_or_bottom() ==> growth(layout.u) == (1int, 0int, 0int),
    ensures
        layout == face_uv(face),
{
    lemma_uv_upright_from_outside(face);
    match (layout.u.axis, layout.v.axis) {
        (Axis::X, Axis::X) => {},
        (Axis::X, Axis::Y) => {},
        (Axis::X, Axis::Z) => {},
        (Axis::Y, Axis::X) => {},
        (Axis::Y, Axis::Y) => {},
        (Axis::Y, Axis::Z) => {},
        (Axis::Z, Axis::X) => {},
        (Axis::Z, Axis::Y) => {},
        (Axis::Z, Axis::Z) => {},
    }
}

} // verus!
