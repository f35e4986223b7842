use vstd::prelude::*;

verus! {

/// The image files the cube's textures may come from.
#[derive(Clone, Copy, Debug, PartialEq, Eq, Structural)]
pub enum Asset {
    /// `assets/up-down.png`, for the top and bottom faces.
    UpDown,
    /// `assets/sides.png`, for the four lateral faces.
    Sides,
    /// `assets/cube.png`, one image for all faces.
    Cube,
    /// `assets/texture.png`, one image for all faces.
    Texture,
    /// `assets/textura.png`, one image for all faces.
    Textura,
}

pub open spec fn asset_path(asset: Asset) -> Seq<char> {
    match asset {
        Asset::UpDown => "assets/up-down.png"@,
        Asset::Sides => "assets/sides.png"@,
        Asset::Cube => "assets/cube.png"@,
        Asset::Texture => "assets/texture.png"@,
        Asset::Textura => "assets/textura.png"@,
    }
}

impl Asset {
    /// The file's path, relative to the working directory.
    pub fn path(&self) -> (p: &'static str)
        ensures
            p@ == asset_path(*self),
    {
        match self {
            Asset::UpDown => "assets/up-down.png",
            Asset::Sides => "assets/sides.png",
            Asset::Cube => "assets/cube.png",
            Asset::Texture => "assets/texture.png",
            Asset::Textura => "assets/textura.png",
        }
    }
}

/// Number of single images tried, in order, for all six faces.
pub const SINGLE_CANDIDATES: usize = 4;

/// The `i`-th single image to try for all six faces.
pub open spec fn single_candidate(i: int) -> Asset {
    if i == 0 {
        Asset::Cube
    } else if i == 1 {
        Asset::Sides
    } else if i == 2 {
        Asset::Texture
    } else {
        Asset::Textura
    }
}

/// How the cube is dressed once the search ends.
#[derive(Clone, Copy, Debug, PartialEq, Eq, Structural)]
pub enum CubeSkin {
    /// `UpDown` on the top and bottom faces, `Sides` on the lateral ones.
    Composite,
    /// One loaded image on all six faces.
    Single(Asset),
    /// The procedural grid on all six faces.
    Procedural,
}

/// What the search asks of its caller next.
#[derive(Clone, Copy, Debug, PartialEq, Eq, Structural)]
pub enum SearchAction {
    /// Report whether the asset's file exists.
    CheckExists(Asset),
    /// Load and decode the asset's file, keep the texture, report success.
    Load(Asset),
    /// The search is over.
    Finish(CubeSkin),
}

/// Where the search stands.
#[derive(Clone, Copy, Debug, PartialEq, Eq, Structural)]
pub enum SearchState {
    CheckUpDown,
    CheckSides,
    LoadTopBottom,
    LoadSides { top_bottom_loaded: bool },
    CheckSingle { index: usize },
    LoadSingle { index: usize },
    Done,
}

impl SearchState {
    pub open spec fn wf(self) -> bool {
        match self {
            SearchState::CheckSingle { index } => index < SINGLE_CANDIDATES,
            SearchState::LoadSingle { index } => index < SINGLE_CANDIDATES,
            _ => true,
        }
    }
}

/// The file whose load a state awaits the answer to, if any.
pub open spec fn pending_load(state: SearchState) -> Option<Asset> {
    match state {
        SearchState::LoadTopBottom => Some(Asset::UpDown),
        SearchState::LoadSides { .. } => Some(Asset::Sides),
        SearchState::LoadSingle { index } => Some(single_candidate(index as int)),
        _ => None,
    }
}

/// The file an action asks to load, if any.
pub open spec fn load_of(action: SearchAction) -> Option<Asset> {
    match action {
        SearchAction::Load(a) => Some(a),
        _ => None,
    }
}

/// The move to single image `i`, or to the procedural grid after the last one.
pub open spec fn spec_try_single(i: int) -> (SearchState, SearchAction) {
    if i < SINGLE_CANDIDATES {
        (SearchState::CheckSingle { index: i as usize }, SearchAction::CheckExists(single_candidate(i)))
    } else {
        (SearchState::Done, SearchAction::Finish(CubeSkin::Procedural))
    }
}

/// One step of the search, given the answer `ok` to the last action.
pub open spec fn spec_step(state: SearchState, ok: bool) -> (SearchState, SearchAction) {
    match state {
        SearchState::CheckUpDown => if ok {
            (SearchState::CheckSides, SearchAction::CheckExists(Asset::Sides))
        } else {
            spec_try_single(0)
        },
        SearchState::CheckSides => if ok {
            (SearchState::LoadTopBottom, SearchAction::Load(Asset::UpDown))
        } else {
            spec_try_single(0)
        },
        SearchState::LoadTopBottom => (
            SearchState::LoadSides { top_bottom_loaded: ok },
            SearchAction::Load(Asset::Sides),
        ),
        SearchState::LoadSides { top_bottom_loaded } => if top_bottom_loaded && ok {
            (SearchState::Done, SearchAction::Finish(CubeSkin::Composite))
        } else {
            spec_try_single(0)
        },
        SearchState::CheckSingle { index } => if ok {
            (SearchState::LoadSingle { index }, SearchAction::Load(single_candidate(index as int)))
        } else {
            spec_try_single(index + 1)
        },
        SearchState::LoadSingle { index } => if ok {
            (SearchState::Done, SearchAction::Finish(CubeSkin::Single(single_candidate(index as int))))
        } else {
            spec_try_single(index + 1)
        },
        SearchState::Done => (SearchState::Done, SearchAction::Finish(CubeSkin::Procedural)),
    }
}

fn single_candidate_at(i: usize) -> (a: Asset)
    ensures
        a == single_candidate(i as int),
{
    if i == 0 {
        Asset::Cube
    } else if i == 1 {
        Asset::Sides
    } else if i == 2 {
        Asset::Texture
    } else {
        Asset::Textura
    }
}

fn try_single(i: usize) -> (r: (SearchState, SearchAction))
    requires
        i <= SINGLE_CANDIDATES,
    ensures
        r == spec_try_single(i as int),
        r.0.wf(),
{
    if i < SINGLE_CANDIDATES {
        (SearchState::CheckSingle { index: i }, SearchAction::CheckExists(single_candidate_at(i)))
    } else {
        (SearchState::Done, SearchAction::Finish(CubeSkin::Procedural))
    }
}

/// The first state and action of the search: look for `assets/up-down.png`.
pub fn start_search() -> (r: (SearchState, SearchAction))
    ensures
        r == (SearchState::CheckUpDown, SearchAction::CheckExists(Asset::UpDown)),
        r.0.wf(),
        (r.1 is Finish) <==> r.0 == SearchState::Done,
        pending_load(r.0) == load_of(r.1),
{
    (SearchState::CheckUpDown, SearchAction::CheckExists(Asset::UpDown))
}

/// The next state and action of the search, `ok` being the answer to the
/// action that led to `state` (whether the file exists, or loaded).
pub fn search_step(state: SearchState, ok: bool) -> (r: (SearchState, SearchAction))
    requires
        state.wf(),
    ensures
        r == spec_step(state, ok),
        r.0.wf(),
        (r.1 is Finish) <==> r.0 == SearchState::Done,
        pending_load(r.0) == load_of(r.1),
{
    match state {
        SearchState::CheckUpDown => if ok {
            (SearchState::CheckSides, SearchAction::CheckExists(Asset::Sides))
        } else {
            try_single(0)
        },
        SearchState::CheckSides => if ok {
            (SearchState::LoadTopBottom, SearchAction::Load(Asset::UpDown))
        } else {
            try_single(0)
        },
        SearchState::LoadTopBottom => (
            SearchState::LoadSides { top_bottom_loaded: ok },
            SearchAction::Load(Asset::Sides),
        ),
        SearchState::LoadSides { top_bottom_loaded } => if top_bottom_loaded && ok {
            (SearchState::Done, SearchAction::Finish(CubeSkin::Composite))
        } else {
            try_single(0)
        },
        SearchState::CheckSingle { index } => if ok {
            (SearchState::LoadSingle { index }, SearchAction::Load(single_candidate_at(index)))
        } else {
            try_single(index + 1)
        },
        SearchState::LoadSingle { index } => if ok {
            (SearchState::Done, SearchAction::Finish(CubeSkin::Single(single_candidate_at(index))))
        } else {
            try_single(index + 1)
        },
        SearchState::Done => (SearchState::Done, SearchAction::Finish(CubeSkin::Procedural)),
    }
}

/// The answer the file system gives to an action, when `present` tells which
/// files exist and `loads` which of them load and decode.
pub open spec fn answer(
    present: spec_fn(Asset) -> bool,
    loads: spec_fn(Asset) -> bool,
    action: SearchAction,
) -> bool {
    match action {
        SearchAction::CheckExists(a) => present(a),
        SearchAction::Load(a) => loads(a),
        SearchAction::Finish(_) => false,
    }
}

/// Where the search ends, run from `state` and `action` with at most `fuel`
/// answers; `None` if it has not ended by then.
pub open spec fn run_search(
    present: spec_fn(Asset) -> bool,
    loads: spec_fn(Asset) -> bool,
    state: SearchState,
    action: SearchAction,
    fuel: nat,
) -> Option<CubeSkin>
    decreases fuel,
{
    match action {
        SearchAction::Finish(skin) => Some(skin),
        _ => if fuel == 0 {
            None
        } else {
            let next = spec_step(state, answer(present, loads, action));
            run_search(present, loads, next.0, next.1, (fuel - 1) as nat)
        },
    }
}

/// The first single image from the `i`-th on that exists and loads, or the
/// procedural grid when there is none.
pub open spec fn first_single(
    present: spec_fn(Asset) -> bool,
    loads: spec_fn(Asset) -> bool,
    i: int,
) -> CubeSkin
    decreases SINGLE_CANDIDATES - i,
{
    if i >= SINGLE_CANDIDATES {
        CubeSkin::Procedural
    } else if present(single_candidate(i)) && loads(single_candidate(i)) {
        CubeSkin::Single(single_candidate(i))
    } else {
        first_single(present, loads, i + 1)
    }
}

/// The dressing the cube's textures are chosen by: both composite images
/// when both exist and load, else the first single image that present and
/// loads, else the procedural grid.
pub open spec fn chosen_skin(present: spec_fn(Asset) -> bool, loads: spec_fn(Asset) -> bool) -> CubeSkin {
    if present(Asset::UpDown) && present(Asset::Sides) && loads(Asset::UpDown) && loads(Asset::Sides) {
        CubeSkin::Composite
    } else {
        first_single(present, loads, 0)
    }
}

proof fn lemma_singles_from(
    present: spec_fn(Asset) -> bool,
    loads: spec_fn(Asset) -> bool,
    i: int,
    fuel: nat,
)
    requires
        0 <= i <= SINGLE_CANDIDATES,
        fuel >= 2 * (SINGLE_CANDIDATES - i),
    ensures
        run_search(present, loads, spec_try_single(i).0, spec_try_single(i).1, fuel)
            == Some(first_single(present, loads, i)),
    decreases SINGLE_CANDIDATES - i,
{
    if i < SINGLE_CANDIDATES {
        let a = single_candidate(i);
        let s0 = spec_try_single(i);
        assert(s0.0 == SearchState::CheckSingle { index: i as usize });
        assert(s0.1 == SearchAction::CheckExists(a));
        let s1 = spec_step(s0.0, present(a));
        assert(run_search(present, loads, s0.0, s0.1, fuel)
            == run_search(present, loads, s1.0, s1.1, (fuel - 1) as nat));
        if present(a) {
            assert(s1.1 == SearchAction::Load(a));
            let s2 = spec_step(s1.0, loads(a));
            assert(run_search(present, loads, s1.0, s1.1, (fuel - 1) as nat)
                == run_search(present, loads, s2.0, s2.1, (fuel - 2) as nat));
            if !loads(a) {
                lemma_singles_from(present, loads, i + 1, (fuel - 2) as nat);
            }
        } else {
            lemma_singles_from(present, loads, i + 1, (fuel - 1) as nat);
        }
    }
}

/// Whatever files exist and load, the search ends within a dozen answers,
/// and it ends on the dressing that `chosen_skin` describes.
pub proof fn lemma_search_follows_priority(
    present: spec_fn(Asset) -> bool,
    loads: spec_fn(Asset) -> bool,
)
    ensures
        run_search(present, loads, SearchState::CheckUpDown, SearchAction::CheckExists(Asset::UpDown), 12)
            == Some(chosen_skin(present, loads)),
{
    lemma_singles_from(present, loads, 0, 8);
    lemma_singles_from(present, loads, 0, 10);
    lemma_singles_from(present, loads, 0, 11);
    reveal_with_fuel(run_search, 5);
}

/// The search's outcome, spelled out: both composite images when up-down.png
/// and sides.png both exist and load; otherwise cube.png, sides.png,
/// texture.png and textura.png are tried in that order, and the first that
/// exists and loads dresses all six faces; when none does, the procedural grid.
pub proof fn lemma_search_order(present: spec_fn(Asset) -> bool, loads: spec_fn(Asset) -> bool)
    ensures
        run_search(present, loads, SearchState::CheckUpDown, SearchAction::CheckExists(Asset::UpDown), 12)
            == Some(
            if present(Asset::UpDown) && present(Asset::Sides) && loads(Asset::UpDown) && loads(
                Asset::Sides,
            ) {
                CubeSkin::Composite
            } else if present(Asset::Cube) && loads(Asset::Cube) {
                CubeSkin::Single(Asset::Cube)
            } else if present(Asset::Sides) && loads(Asset::Sides) {
                CubeSkin::Single(Asset::Sides)
            } else if present(Asset::Texture) && loads(Asset::Texture) {
                CubeSkin::Single(Asset::Texture)
            } else if present(Asset::Textura) && loads(Asset::Textura) {
                CubeSkin::Single(Asset::Textura)
            } else {
                CubeSkin::Procedural
            },
        ),
{
    lemma_search_follows_priority(present, loads);
    reveal_with_fuel(first_single, 5);
}

/// Whether the search, run from `state` and `action` with at most `fuel`
/// answers, asks to load only files that exist.
pub open spec fn loads_only_present(
    present: spec_fn(Asset) -> bool,
    loads: spec_fn(Asset) -> bool,
    state: SearchState,
    action: SearchAction,
    fuel: nat,
) -> bool
    decreases fuel,
{
    &&& (action matches SearchAction::Load(a) ==> present(a))
    &&& (fuel > 0 && !(action is Finish) ==> {
        let next = spec_step(state, answer(present, loads, action));
        loads_only_present(present, loads, next.0, next.1, (fuel - 1) as nat)
    })
}

/// The action that goes with each state, and what the answers so far have
/// shown to exist.
spec fn on_track(present: spec_fn(Asset) -> bool, state: SearchState, action: SearchAction) -> bool {
    match state {
        SearchState::CheckUpDown => action == SearchAction::CheckExists(Asset::UpDown),
        SearchState::CheckSides => action == SearchAction::CheckExists(Asset::Sides) && present(Asset::UpDown),
        SearchState::LoadTopBottom => action == SearchAction::Load(Asset::UpDown) && present(Asset::UpDown)
            && present(Asset::Sides),
        SearchState::LoadSides { .. } => action == SearchAction::Load(Asset::Sides) && present(Asset::Sides),
        SearchState::CheckSingle { index } => action == SearchAction::CheckExists(single_candidate(index as int)),
        SearchState::LoadSingle { index } => action == SearchAction::Load(single_candidate(index as int))
            && present(single_candidate(index as int)),
        SearchState::Done => action is Finish,
    }
}

proof fn lemma_loads_only_present_from(
    present: spec_fn(Asset) -> bool,
    loads: spec_fn(Asset) -> bool,
    state: SearchState,
    action: SearchAction,
    fuel: nat,
)
    requires
        on_track(present, state, action),
    ensures
        loads_only_present(present, loads, state, action, fuel),
    decreases fuel,
{
    if fuel > 0 && !(action is Finish) {
        let next = spec_step(state, answer(present, loads, action));
        lemma_loads_only_present_from(present, loads, next.0, next.1, (fuel - 1) as nat);
    }
}

/// Whatever files exist and load, the search asks to load only files that
/// exist: each load follows a successful existence check of that file.
pub proof fn lemma_search_loads_only_present(
    present: spec_fn(Asset) -> bool,
    loads: spec_fn(Asset) -> bool,
    fuel: nat,
)
    ensures
        loads_only_present(present, loads, SearchState::CheckUpDown, SearchAction::CheckExists(Asset::UpDown), fuel),
{
    lemma_loads_only_present_from(present, loads, SearchState::CheckUpDown, SearchAction::CheckExists(Asset::UpDown), fuel);
}

/// The search ends on the composite dressing exactly when the answer to its
/// load of `sides.png` succeeds, in the state reached only by a successful
/// load of `up-down.png`; it ends on a single image exactly when the answer
/// to that image's load succeeds.
pub proof fn lemma_finish_follows_loads(state: SearchState, ok: bool, asset: Asset)
    requires
        state.wf(),
    ensures
        (spec_step(state, ok).1 == SearchAction::Finish(CubeSkin::Composite)) <==> (state
            == SearchState::LoadSides { top_bottom_loaded: true } && ok),
        pending_load(SearchState::LoadSides { top_bottom_loaded: true }) == Some(Asset::Sides),
        (spec_step(state, ok).0 == SearchState::LoadSides { top_bottom_loaded: true }) <==> (state
            == SearchState::LoadTopBottom && ok),
        pending_load(SearchState::LoadTopBottom) == Some(Asset::UpDown),
        (spec_step(state, ok).1 == SearchAction::Finish(CubeSkin::Single(asset))) <==> (ok
            && state is LoadSingle && pending_load(state) == Some(asset)),
{
}

} // verus!
