use raytracercube::{face_material, Axis, Color, CubeFace, Material, UvAxis};

const FACES: [CubeFace; 6] = [
    CubeFace::PosX,
    CubeFace::NegX,
    CubeFace::PosY,
    CubeFace::NegY,
    CubeFace::PosZ,
    CubeFace::NegZ,
];

fn normal_axis(face: CubeFace) -> Axis {
    match face {
        CubeFace::PosX | CubeFace::NegX => Axis::X,
        CubeFace::PosY | CubeFace::NegY => Axis::Y,
        CubeFace::PosZ | CubeFace::NegZ => Axis::Z,
    }
}

#[test]
fn top_and_bottom_faces_use_the_up_down_material() {
    let top_bottom = Material::new(Color::new(1, 1, 1));
    let sides = Material::new(Color::new(2, 2, 2));
    for face in FACES {
        let m = face_material(face, &top_bottom, &sides);
        if face == CubeFace::PosY || face == CubeFace::NegY {
            assert_eq!(m.diffuse, Color::new(1, 1, 1));
            assert!(face.is_top_or_bottom());
        } else {
            assert_eq!(m.diffuse, Color::new(2, 2, 2));
            assert!(!face.is_top_or_bottom());
        }
    }
}

#[test]
fn uv_runs_across_each_face() {
    for face in FACES {
        let layout = face.uv_layout();
        assert_ne!(layout.u.axis, normal_axis(face));
        assert_ne!(layout.v.axis, normal_axis(face));
        assert_ne!(layout.u.axis, layout.v.axis);
    }
}

#[test]
fn uv_layouts_of_the_faces() {
    let front = CubeFace::PosZ.uv_layout();
    assert_eq!(front.u, UvAxis { axis: Axis::X, from_max: false });
    assert_eq!(front.v, UvAxis { axis: Axis::Y, from_max: true });
    let right = CubeFace::PosX.uv_layout();
    assert_eq!(right.u, UvAxis { axis: Axis::Z, from_max: true });
    let bottom = CubeFace::NegY.uv_layout();
    assert_eq!(bottom.v, UvAxis { axis: Axis::Z, from_max: true });
    let back = CubeFace::NegZ.uv_layout();
    assert_eq!(back.u, UvAxis { axis: Axis::X, from_max: true });
}
