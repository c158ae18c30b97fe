use vstd::prelude::*;

use crate::camera::{camera_offsets_spec, lemma_offsets_invariant, Camera, CameraNormalizeMode, NormalOrthoCamera, Ortho};
use crate::rational::{lemma_rat_eq_trans, rat_add, rat_eq, rat_int, rat_lt, Ratio};

verus! {

/// Read-only provider of the window's dimensions, in pixels. Both are
/// positive: a window always has area.
#[derive(Clone, Copy, Debug, PartialEq, Eq, Structural)]
pub struct ScreenDimensions {
    pub width: u32,
    pub height: u32,
}

impl ScreenDimensions {
    /// A window always has positive width and height.
    pub open spec fn wf(self) -> bool {
        &&& self.width >= 1
        &&& self.height >= 1
    }

    /// The window's aspect ratio: width over height, as an exact fraction.
    pub open spec fn aspect(self) -> Ratio {
        Ratio { num: self.width as i64, den: self.height as i64 }
    }

    pub fn new(width: u32, height: u32) -> (r: ScreenDimensions)
        requires
            width >= 1,
            height >= 1,
        ensures
            r == (ScreenDimensions { width, height }),
            r.wf(),
    {
        ScreenDimensions { width, height }
    }

    /// The aspect ratio as an exact fraction; positive and well within the
    /// bounds of the offset formulas, since the dimensions are 32-bit.
    pub fn aspect_ratio(&self) -> (r: Ratio)
        requires
            self.wf(),
        ensures
            r == self.aspect(),
            r.bounded(),
    {
        Ratio { num: self.width as i64, den: self.height as i64 }
    }
}

/// The near clip plane written into every recomputed projection: 0.1.
pub open spec fn near_plane() -> Ratio {
    Ratio { num: 1, den: 10 }
}

/// The far clip plane written into every recomputed projection: 1000.
pub open spec fn far_plane() -> Ratio {
    Ratio { num: 1000, den: 1 }
}

/// Entity `i` takes part in the recomputation: it carries both a camera and
/// a normalization component.
pub open spec fn joined(
    cameras: Seq<Option<Camera>>,
    ortho_cameras: Seq<Option<NormalOrthoCamera>>,
    i: int,
) -> bool {
    &&& 0 <= i < cameras.len()
    &&& i < ortho_cameras.len()
    &&& cameras[i] is Some
    &&& ortho_cameras[i] is Some
}

/// The camera written for a normalization mode at a given aspect ratio: an
/// orthographic projection built from the four offsets and the fixed clip
/// planes.
pub open spec fn normalized_camera(mode: CameraNormalizeMode, aspect: Ratio) -> Camera {
    let offsets = camera_offsets_spec(mode, aspect);
    Camera {
        proj: Ortho {
            left: offsets.0,
            right: offsets.1,
            bottom: offsets.2,
            top: offsets.3,
            near: near_plane(),
            far: far_plane(),
        },
    }
}

/// System that automatically changes the camera bounds according to the
/// settings in the `NormalOrthoCamera` attached to the camera entity.
///
/// The one piece of state is the last-observed aspect ratio; while it is
/// unchanged, a tick writes nothing.
#[derive(Clone, Copy, Debug, PartialEq, Eq, Structural)]
pub struct NormalOrthoCameraSystem {
    /// The aspect ratio seen by the latest recomputation, initially 0/1 so
    /// that the first tick always recomputes.
    pub aspect_ratio_cache: Ratio,
}

/// What one tick does, as a function of the system state, the window
/// dimensions and the two component collections: if the window's aspect
/// ratio has the cached value, nothing changes; otherwise the cache takes
/// the new ratio and every entity carrying both components gets a freshly
/// computed projection, while every other entry is left as it was.
pub open spec fn run_spec(
    sys: NormalOrthoCameraSystem,
    dimensions: ScreenDimensions,
    cameras: Seq<Option<Camera>>,
    ortho_cameras: Seq<Option<NormalOrthoCamera>>,
) -> (NormalOrthoCameraSystem, Seq<Option<Camera>>) {
    let aspect = dimensions.aspect();
    if rat_eq(aspect@, sys.aspect_ratio_cache@) {
        (sys, cameras)
    } else {
        (
            NormalOrthoCameraSystem { aspect_ratio_cache: aspect },
            Seq::new(
                cameras.len(),
                |i: int|
                    if joined(cameras, ortho_cameras, i) {
                        Some(normalized_camera(ortho_cameras[i].unwrap().mode, aspect))
                    } else {
                        cameras[i]
                    },
            ),
        )
    }
}

impl NormalOrthoCameraSystem {
    /// One scheduling tick: recompute the projection of every entity that
    /// carries both a camera and a normalization component, but only when
    /// the window's aspect ratio differs from the cached one.
    pub fn run(
        &mut self,
        dimensions: &ScreenDimensions,
        cameras: &mut Vec<Option<Camera>>,
        ortho_cameras: &Vec<Option<NormalOrthoCamera>>,
    )
        requires
            dimensions.wf(),
        ensures
            *final(self) == run_spec(*old(self), *dimensions, old(cameras)@, ortho_cameras@).0,
            final(cameras)@ == run_spec(*old(self), *dimensions, old(cameras)@, ortho_cameras@).1,
            rat_eq(final(self).aspect_ratio_cache@, dimensions.aspect()@),
    {
        let aspect = dimensions.aspect_ratio();
        if !aspect.value_eq(&self.aspect_ratio_cache) {
            self.aspect_ratio_cache = aspect;

            let n = if cameras.len() < ortho_cameras.len() {
                cameras.len()
            } else {
                ortho_cameras.len()
            };
            let mut i: usize = 0;
            while i < n
                invariant
                    i <= n,
                    n <= cameras.len(),
                    n <= ortho_cameras.len(),
                    cameras.len() >= ortho_cameras.len() ==> n == ortho_cameras.len(),
                    cameras.len() <= ortho_cameras.len() ==> n == cameras.len(),
                    cameras@.len() == old(cameras)@.len(),
                    aspect.bounded(),
                    forall|j: int|
                        0 <= j < i ==> #[trigger] cameras@[j] == (if joined(
                            old(cameras)@,
                            ortho_cameras@,
                            j,
                        ) {
                            Some(normalized_camera(ortho_cameras@[j].unwrap().mode, aspect))
                        } else {
                            old(cameras)@[j]
                        }),
                    forall|j: int|
                        i <= j < cameras@.len() ==> #[trigger] cameras@[j] == old(cameras)@[j],
                decreases n - i,
            {
                let has_camera = cameras[i].is_some();
                if has_camera {
                    if let Some(ortho_camera) = ortho_cameras[i] {
                        let offsets = ortho_camera.camera_offsets(aspect);
                        cameras.set(
                            i,
                            Some(
                                Camera {
                                    proj: Ortho {
                                        left: offsets.0,
                                        right: offsets.1,
                                        bottom: offsets.2,
                                        top: offsets.3,
                                        near: Ratio { num: 1, den: 10 },
                                        far: Ratio { num: 1000, den: 1 },
                                    },
                                },
                            ),
                        );
                    }
                }
                i = i + 1;
            }
            proof {
                assert(cameras@ =~= run_spec(
                    *old(self),
                    *dimensions,
                    old(cameras)@,
                    ortho_cameras@,
                ).1);
            }
        }
    }
}

/// What any number of consecutive ticks does: each tick feeds the next.
/// The normalization components are read-only, so one collection serves
/// every tick.
pub open spec fn run_many_spec(
    sys: NormalOrthoCameraSystem,
    dims_list: Seq<ScreenDimensions>,
    cameras: Seq<Option<Camera>>,
    ortho_cameras: Seq<Option<NormalOrthoCamera>>,
) -> (NormalOrthoCameraSystem, Seq<Option<Camera>>)
    decreases dims_list.len(),
{
    if dims_list.len() == 0 {
        (sys, cameras)
    } else {
        let first = run_spec(sys, dims_list[0], cameras, ortho_cameras);
        run_many_spec(first.0, dims_list.skip(1), first.1, ortho_cameras)
    }
}

/// After any tick, the cached aspect ratio has the window's value, so a
/// second tick with the same window dimensions changes neither the system
/// nor any camera: the recompute tick is idempotent.
pub proof fn lemma_run_idempotent(
    sys: NormalOrthoCameraSystem,
    dimensions: ScreenDimensions,
    cameras: Seq<Option<Camera>>,
    ortho_cameras: Seq<Option<NormalOrthoCamera>>,
)
    requires
        dimensions.wf(),
    ensures
        ({
            let first = run_spec(sys, dimensions, cameras, ortho_cameras);
            let second = run_spec(first.0, dimensions, first.1, ortho_cameras);
            second == first
        }),
{
    let aspect = dimensions.aspect();
    let first = run_spec(sys, dimensions, cameras, ortho_cameras);
    assert(rat_eq(aspect@, first.0.aspect_ratio_cache@));
}

/// A tick writes nothing for an entity that has a camera but no
/// normalization component: its entry is left exactly as it was.
pub proof fn lemma_run_opt_out(
    sys: NormalOrthoCameraSystem,
    dimensions: ScreenDimensions,
    cameras: Seq<Option<Camera>>,
    ortho_cameras: Seq<Option<NormalOrthoCamera>>,
    i: int,
)
    requires
        0 <= i < cameras.len(),
        i < ortho_cameras.len() ==> !(ortho_cameras[i] is Some),
    ensures
        run_spec(sys, dimensions, cameras, ortho_cameras).1.len() == cameras.len(),
        run_spec(sys, dimensions, cameras, ortho_cameras).1[i] == cameras[i],
{
}

/// Across any number of ticks, an entity that has a camera but no
/// normalization component is never mutated.
pub proof fn lemma_run_many_opt_out(
    sys: NormalOrthoCameraSystem,
    dims_list: Seq<ScreenDimensions>,
    cameras: Seq<Option<Camera>>,
    ortho_cameras: Seq<Option<NormalOrthoCamera>>,
    i: int,
)
    requires
        0 <= i < cameras.len(),
        i < ortho_cameras.len() ==> !(ortho_cameras[i] is Some),
    ensures
        run_many_spec(sys, dims_list, cameras, ortho_cameras).1.len() == cameras.len(),
        run_many_spec(sys, dims_list, cameras, ortho_cameras).1[i] == cameras[i],
    decreases dims_list.len(),
{
    if dims_list.len() > 0 {
        let first = run_spec(sys, dims_list[0], cameras, ortho_cameras);
        lemma_run_opt_out(sys, dims_list[0], cameras, ortho_cameras, i);
        lemma_run_many_opt_out(first.0, dims_list.skip(1), first.1, ortho_cameras, i);
    }
}

/// Every projection a tick writes satisfies the bounds invariant:
/// `left < right` and `bottom < top`, each axis symmetric around one half,
/// at least one axis exactly [0, 1], and the fixed clip planes in place.
pub proof fn lemma_run_writes_invariant_bounds(
    sys: NormalOrthoCameraSystem,
    dimensions: ScreenDimensions,
    cameras: Seq<Option<Camera>>,
    ortho_cameras: Seq<Option<NormalOrthoCamera>>,
    i: int,
)
    requires
        dimensions.wf(),
        joined(cameras, ortho_cameras, i),
        !rat_eq(dimensions.aspect()@, sys.aspect_ratio_cache@),
    ensures
        ({
            let proj = run_spec(sys, dimensions, cameras, ortho_cameras).1[i].unwrap().proj;
            &&& rat_lt(proj.left@, proj.right@)
            &&& rat_lt(proj.bottom@, proj.top@)
            &&& rat_eq(
                rat_add(proj.left@, proj.right@),
                rat_int(1),
            )
            &&& rat_eq(
                rat_add(proj.bottom@, proj.top@),
                rat_int(1),
            )
            &&& proj.near == near_plane()
            &&& proj.far == far_plane()
        }),
{
    lemma_offsets_invariant(ortho_cameras[i].unwrap().mode, dimensions.aspect());
}

/// Once a tick has cached an aspect ratio, a later tick whose window has
/// the same aspect ratio — even through different dimensions — performs
/// zero writes, no matter how the component collections were altered in
/// between: the cache keys on the aspect ratio alone, not on component
/// content. (This is an intentional limitation: components changed while
/// the aspect ratio stays put are not re-normalized.)
pub proof fn lemma_cached_aspect_skips(
    sys: NormalOrthoCameraSystem,
    dims_first: ScreenDimensions,
    dims_second: ScreenDimensions,
    cameras_first: Seq<Option<Camera>>,
    ortho_cameras_first: Seq<Option<NormalOrthoCamera>>,
    cameras_second: Seq<Option<Camera>>,
    ortho_cameras_second: Seq<Option<NormalOrthoCamera>>,
)
    requires
        dims_first.wf(),
        dims_second.wf(),
        rat_eq(dims_first.aspect()@, dims_second.aspect()@),
    ensures
        ({
            let first = run_spec(sys, dims_first, cameras_first, ortho_cameras_first);
            let second = run_spec(first.0, dims_second, cameras_second, ortho_cameras_second);
            second.0 == first.0 && second.1 == cameras_second
        }),
{
    let a_first = dims_first.aspect();
    let a_second = dims_second.aspect();
    let first = run_spec(sys, dims_first, cameras_first, ortho_cameras_first);
    assert(rat_eq(a_first@, first.0.aspect_ratio_cache@));
    assert(rat_eq(a_second@, a_first@));
    lemma_rat_eq_trans(a_second@, a_first@, first.0.aspect_ratio_cache@);
}

impl Default for NormalOrthoCameraSystem {
    /// A fresh system has seen no aspect ratio yet: the cache holds 0, which
    /// no window's (positive) aspect ratio equals, so the first tick always
    /// recomputes.
    fn default() -> (r: Self)
        ensures
            r == (NormalOrthoCameraSystem { aspect_ratio_cache: Ratio { num: 0, den: 1 } }),
    {
        NormalOrthoCameraSystem { aspect_ratio_cache: Ratio { num: 0, den: 1 } }
    }
}

} // verus!
