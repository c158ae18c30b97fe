use ortho_camera::camera::{Axis2, Camera, CameraNormalizeMode, NormalOrthoCamera, Ortho};
use ortho_camera::rational::Ratio;
use ortho_camera::system::{NormalOrthoCameraSystem, ScreenDimensions};

fn unit_camera() -> Camera {
    Camera {
        proj: Ortho {
            left: Ratio { num: 0, den: 1 },
            right: Ratio { num: 1, den: 1 },
            bottom: Ratio { num: 0, den: 1 },
            top: Ratio { num: 1, den: 1 },
            near: Ratio { num: 1, den: 10 },
            far: Ratio { num: 1000, den: 1 },
        },
    }
}

fn lossy_x_component() -> NormalOrthoCamera {
    NormalOrthoCamera { mode: CameraNormalizeMode::Lossy { stretch_direction: Axis2::X } }
}

#[test]
fn tick_recomputes_on_new_ratio() {
    let mut sys = NormalOrthoCameraSystem::default();
    let dims = ScreenDimensions::new(800, 600);
    let mut cameras = vec![Some(unit_camera()), Some(unit_camera())];
    let orthos = vec![Some(lossy_x_component()), None];

    sys.run(&dims, &mut cameras, &orthos);

    // aspect 800/600: offset = (800 - 600) / (2 * 600)
    let proj = cameras[0].unwrap().proj;
    assert_eq!(proj.left, Ratio { num: -200, den: 1200 });
    assert_eq!(proj.right, Ratio { num: 1400, den: 1200 });
    assert_eq!(proj.bottom, Ratio { num: 0, den: 1 });
    assert_eq!(proj.top, Ratio { num: 1, den: 1 });
    assert_eq!(proj.near, Ratio { num: 1, den: 10 });
    assert_eq!(proj.far, Ratio { num: 1000, den: 1 });
    // the entity without a normalization component is untouched
    assert_eq!(cameras[1], Some(unit_camera()));
    // the cache now holds the observed ratio
    assert_eq!(sys.aspect_ratio_cache, Ratio { num: 800, den: 600 });
}

#[test]
fn first_tick_recomputes_even_at_ratio_one() {
    // The cache starts at 0, which no real window matches, so the first
    // tick writes even when the window is square.
    let mut sys = NormalOrthoCameraSystem::default();
    let dims = ScreenDimensions::new(500, 500);
    let stale = Camera {
        proj: Ortho { far: Ratio { num: 1, den: 1 }, ..unit_camera().proj },
    };
    let mut cameras = vec![Some(stale)];
    let orthos = vec![Some(NormalOrthoCamera::default())];

    sys.run(&dims, &mut cameras, &orthos);

    let proj = cameras[0].unwrap().proj;
    assert_eq!(proj.left, Ratio { num: 0, den: 1 });
    assert_eq!(proj.right, Ratio { num: 1, den: 1 });
    assert_eq!(proj.bottom, Ratio { num: 0, den: 1 });
    assert_eq!(proj.top, Ratio { num: 1, den: 1 });
    assert_eq!(proj.far, Ratio { num: 1000, den: 1 });
}

#[test]
fn tick_twice_is_idempotent() {
    let mut sys = NormalOrthoCameraSystem::default();
    let dims = ScreenDimensions::new(1024, 768);
    let mut cameras = vec![Some(unit_camera()), Some(unit_camera()), None];
    let orthos = vec![
        Some(lossy_x_component()),
        Some(NormalOrthoCamera { mode: CameraNormalizeMode::Shrink }),
        Some(lossy_x_component()),
    ];

    sys.run(&dims, &mut cameras, &orthos);
    let sys_after_first = sys;
    let cameras_after_first = cameras.clone();

    sys.run(&dims, &mut cameras, &orthos);
    assert_eq!(sys, sys_after_first);
    assert_eq!(cameras, cameras_after_first);
}

#[test]
fn opt_out_entity_is_never_mutated() {
    let mut sys = NormalOrthoCameraSystem::default();
    let mut cameras = vec![Some(unit_camera())];
    let orthos: Vec<Option<NormalOrthoCamera>> = vec![None];

    sys.run(&ScreenDimensions::new(800, 600), &mut cameras, &orthos);
    sys.run(&ScreenDimensions::new(1920, 1080), &mut cameras, &orthos);
    sys.run(&ScreenDimensions::new(300, 700), &mut cameras, &orthos);

    assert_eq!(cameras[0], Some(unit_camera()));
}

#[test]
fn cache_keys_on_aspect_ratio_only() {
    let mut sys = NormalOrthoCameraSystem::default();
    let mut cameras = vec![Some(unit_camera())];
    let orthos = vec![Some(lossy_x_component())];

    sys.run(&ScreenDimensions::new(800, 600), &mut cameras, &orthos);

    // alter the camera behind the system's back
    let sentinel = Camera {
        proj: Ortho { near: Ratio { num: 7, den: 1 }, ..unit_camera().proj },
    };
    cameras[0] = Some(sentinel);

    // same dimensions: zero writes, the sentinel survives
    sys.run(&ScreenDimensions::new(800, 600), &mut cameras, &orthos);
    assert_eq!(cameras[0], Some(sentinel));

    // different dimensions with the same ratio: still zero writes
    sys.run(&ScreenDimensions::new(400, 300), &mut cameras, &orthos);
    assert_eq!(cameras[0], Some(sentinel));

    // a genuinely different ratio recomputes
    sys.run(&ScreenDimensions::new(800, 500), &mut cameras, &orthos);
    assert_ne!(cameras[0], Some(sentinel));
    assert_eq!(cameras[0].unwrap().proj.left, Ratio { num: -300, den: 1000 });
}

#[test]
fn shrink_stretches_wide_windows_on_x_and_tall_on_y() {
    let mut sys = NormalOrthoCameraSystem::default();
    let mut cameras = vec![Some(unit_camera())];
    let orthos = vec![Some(NormalOrthoCamera::default())];

    // wide window: vertical axis stays [0, 1]
    sys.run(&ScreenDimensions::new(200, 100), &mut cameras, &orthos);
    let proj = cameras[0].unwrap().proj;
    assert_eq!(proj.left, Ratio { num: -100, den: 200 });
    assert_eq!(proj.right, Ratio { num: 300, den: 200 });
    assert_eq!(proj.bottom, Ratio { num: 0, den: 1 });
    assert_eq!(proj.top, Ratio { num: 1, den: 1 });

    // tall window: horizontal axis stays [0, 1]
    sys.run(&ScreenDimensions::new(100, 200), &mut cameras, &orthos);
    let proj = cameras[0].unwrap().proj;
    assert_eq!(proj.left, Ratio { num: 0, den: 1 });
    assert_eq!(proj.right, Ratio { num: 1, den: 1 });
    assert_eq!(proj.bottom, Ratio { num: -100, den: 200 });
    assert_eq!(proj.top, Ratio { num: 300, den: 200 });
}

#[test]
fn collections_of_different_lengths_join_on_shared_indices() {
    let mut sys = NormalOrthoCameraSystem::default();
    // more cameras than normalization components, and a gap on each side
    let mut cameras = vec![Some(unit_camera()), None, Some(unit_camera())];
    let orthos = vec![None, Some(lossy_x_component())];

    sys.run(&ScreenDimensions::new(800, 600), &mut cameras, &orthos);

    // index 0: camera without component; index 1: component without
    // camera; index 2: camera beyond the component collection
    assert_eq!(cameras[0], Some(unit_camera()));
    assert_eq!(cameras[1], None);
    assert_eq!(cameras[2], Some(unit_camera()));
}

#[test]
fn fresh_system_cache_is_zero() {
    assert_eq!(
        NormalOrthoCameraSystem::default().aspect_ratio_cache,
        Ratio { num: 0, den: 1 }
    );
}

#[test]
fn screen_dimensions_yield_exact_aspect_ratio() {
    let dims = ScreenDimensions::new(1920, 1080);
    assert_eq!(dims.aspect_ratio(), Ratio { num: 1920, den: 1080 });
}
