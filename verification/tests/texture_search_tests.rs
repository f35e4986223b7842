use raytracercube::{search_step, start_search, Asset, CubeSkin, SearchAction};

/// Runs the search against a file system in which `present` files exist and
/// `loadable` files load, returning the actions asked for and the result.
fn run(present: &[Asset], loadable: &[Asset]) -> (Vec<SearchAction>, CubeSkin) {
    let (mut state, mut action) = start_search();
    let mut actions = Vec::new();
    loop {
        actions.push(action);
        let ok = match action {
            SearchAction::CheckExists(a) => present.contains(&a),
            SearchAction::Load(a) => loadable.contains(&a),
            SearchAction::Finish(skin) => return (actions, skin),
        };
        let next = search_step(state, ok);
        state = next.0;
        action = next.1;
        assert!(actions.len() <= 13);
    }
}

#[test]
fn both_composite_images_dress_the_cube() {
    let all = [Asset::UpDown, Asset::Sides];
    let (actions, skin) = run(&all, &all);
    assert_eq!(skin, CubeSkin::Composite);
    assert_eq!(
        actions,
        vec![
            SearchAction::CheckExists(Asset::UpDown),
            SearchAction::CheckExists(Asset::Sides),
            SearchAction::Load(Asset::UpDown),
            SearchAction::Load(Asset::Sides),
            SearchAction::Finish(CubeSkin::Composite),
        ]
    );
}

#[test]
fn sides_alone_covers_all_faces() {
    let (actions, skin) = run(&[Asset::Sides], &[Asset::Sides]);
    assert_eq!(skin, CubeSkin::Single(Asset::Sides));
    assert_eq!(actions[0], SearchAction::CheckExists(Asset::UpDown));
    assert_eq!(actions[1], SearchAction::CheckExists(Asset::Cube));
}

#[test]
fn a_failed_composite_falls_back_to_a_single_image() {
    let present = [Asset::UpDown, Asset::Sides, Asset::Cube];
    let loadable = [Asset::UpDown, Asset::Cube];
    let (actions, skin) = run(&present, &loadable);
    assert_eq!(skin, CubeSkin::Single(Asset::Cube));
    assert!(actions.contains(&SearchAction::Load(Asset::Sides)));
}

#[test]
fn texture_png_and_textura_png_are_tried_in_order() {
    let (_, skin) = run(&[Asset::Texture, Asset::Textura], &[Asset::Textura]);
    assert_eq!(skin, CubeSkin::Single(Asset::Textura));
    let (_, skin) = run(&[Asset::Texture, Asset::Textura], &[Asset::Texture, Asset::Textura]);
    assert_eq!(skin, CubeSkin::Single(Asset::Texture));
}

#[test]
fn no_images_gives_the_procedural_grid() {
    let (actions, skin) = run(&[], &[]);
    assert_eq!(skin, CubeSkin::Procedural);
    assert_eq!(actions.len(), 6);
}

#[test]
fn files_that_do_not_exist_are_never_loaded() {
    let (actions, _) = run(&[Asset::Cube], &[Asset::UpDown, Asset::Sides, Asset::Texture]);
    for a in actions {
        if let SearchAction::Load(asset) = a {
            assert_eq!(asset, Asset::Cube);
        }
    }
}

#[test]
fn asset_paths() {
    assert_eq!(Asset::UpDown.path(), "assets/up-down.png");
    assert_eq!(Asset::Sides.path(), "assets/sides.png");
    assert_eq!(Asset::Cube.path(), "assets/cube.png");
    assert_eq!(Asset::Texture.path(), "assets/texture.png");
    assert_eq!(Asset::Textura.path(), "assets/textura.png");
}
