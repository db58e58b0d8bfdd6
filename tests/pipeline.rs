use std::cell::Cell;

use aw_vr::eye::{advance_counter, eye_for_counter, Eye};
use aw_vr::frame::{BaseTransform, Pipeline, RECENTER_BUTTON};
use aw_vr::layer::{layer, FovPort, Recti, TANGENT_STEPS_PER_ONE};
use aw_vr::pose::{PoseSnapshot, Posef, Quat, Vector3, QUAT_STEPS_PER_ONE};
use aw_vr::swap_chain::{SwapChainManager, ViewportSize};
use aw_vr::transfer::{FrameError, GlStep};
use aw_vr::{scale_posef, zero_posef};

fn size(width: i32, height: i32) -> ViewportSize {
    ViewportSize { width, height }
}

fn pose(x: i64, y: i64, z: i64) -> Posef {
    Posef { position: Vector3 { x, y, z }, orientation: Quat { x: 0, y: 0, z: 0, w: QUAT_STEPS_PER_ONE } }
}

/// Runs one full eye pass with a clean transfer; returns whether a layer was
/// submitted.
fn run_pass(p: &mut Pipeline<ViewportSize>, commit: bool) -> bool {
    let begin = p.begin_frame(false, 0);
    if begin.sample_poses {
        p.store_poses(PoseSnapshot::from_runtime(pose(10, 20, 30), pose(-10, 20, 30)));
    }
    let target = p.viewport().unwrap_or(size(800, 600));
    p.ensure_chains(target, |s| s);
    if commit {
        let region = p.copy_region(7).unwrap();
        assert_eq!((region.width, region.height), (target.width as u32, target.height as u32));
        assert!(p.check_error(0, GlStep::CopyTexture).is_ok());
        p.commit();
    }
    p.end_frame().is_some()
}

#[test]
fn counter_low_bit_selects_eye() {
    assert_eq!(eye_for_counter(0), Eye::Left);
    assert_eq!(eye_for_counter(1), Eye::Right);
    assert_eq!(eye_for_counter(6), Eye::Left);
    assert_eq!(eye_for_counter(usize::MAX), Eye::Right);
    assert_eq!(advance_counter(usize::MAX), 0);
    assert_eq!(advance_counter(41), 42);
}

#[test]
fn end_frames_alternate_left_and_right() {
    let mut p: Pipeline<ViewportSize> = Pipeline::new();
    for n in 0..6 {
        let expected = if n % 2 == 0 { Eye::Left } else { Eye::Right };
        assert_eq!(p.eye(), expected);
        run_pass(&mut p, true);
    }
    assert_eq!(p.eye(), Eye::Left);
}

#[test]
fn poses_sampled_once_per_pair() {
    let mut p: Pipeline<ViewportSize> = Pipeline::new();
    let mut samples = 0;
    for _ in 0..4 {
        let first = p.begin_frame(false, 0);
        if first.sample_poses {
            samples += 1;
        }
        run_pass(&mut p, true);
        let second = p.begin_frame(false, 0);
        if second.sample_poses {
            samples += 1;
        }
        assert_eq!(first.eye, Eye::Left);
        assert_eq!(second.eye, Eye::Right);
        assert!(first.sample_poses);
        assert!(!second.sample_poses);
        run_pass(&mut p, true);
    }
    assert_eq!(samples, 4);
}

#[test]
fn right_eye_reuses_left_snapshot() {
    let mut p: Pipeline<ViewportSize> = Pipeline::new();
    assert!(p.store_poses(PoseSnapshot::from_runtime(pose(1_000, 2_000, 3_000), pose(-1_000, 2_000, 3_000))));
    let left = p.camera_motion();
    assert_eq!(left.eye, Eye::Left);
    assert_eq!(left.base, BaseTransform::SaveFromFrame);
    assert_eq!(left.offset, Vector3 { x: 0, y: -153_000, z: 0 });
    assert_eq!(left.position, Vector3 { x: -100, y: 200, z: -300 });
    run_pass_without_sampling(&mut p);
    assert!(!p.store_poses(PoseSnapshot::from_runtime(pose(9, 9, 9), pose(9, 9, 9))));
    let right = p.camera_motion();
    assert_eq!(right.eye, Eye::Right);
    assert_eq!(right.base, BaseTransform::RestoreToFrame);
    assert_eq!(right.position, Vector3 { x: 100, y: 200, z: -300 });
}

fn run_pass_without_sampling(p: &mut Pipeline<ViewportSize>) {
    p.ensure_chains(size(640, 480), |s| s);
    p.copy_region(3).unwrap();
    p.commit();
    p.end_frame();
}

#[test]
fn recenter_requested_by_runtime_or_button() {
    let p: Pipeline<ViewportSize> = Pipeline::new();
    assert!(!p.begin_frame(false, 0).recenter);
    assert!(p.begin_frame(true, 0).recenter);
    assert!(p.begin_frame(false, RECENTER_BUTTON).recenter);
    assert!(p.begin_frame(false, RECENTER_BUTTON | 1).recenter);
    assert!(!p.begin_frame(false, 0x0000_0001).recenter);
}

#[test]
fn ensure_allocated_is_idempotent_resize_is_not() {
    let made = Cell::new(0u32);
    let create = |s: ViewportSize| {
        made.set(made.get() + 1);
        (s, made.get())
    };
    let mut m: SwapChainManager<(ViewportSize, u32)> = SwapChainManager::new();
    assert!(m.chain(Eye::Left).is_none());
    assert!(m.needs_allocation(size(800, 600)));
    m.ensure_allocated(size(800, 600), &create);
    assert_eq!(made.get(), 2);
    assert!(!m.needs_allocation(size(800, 600)));
    m.ensure_allocated(size(800, 600), &create);
    assert_eq!(made.get(), 2);
    assert_eq!(m.chain(Eye::Left), Some(&(size(800, 600), 1)));
    assert_eq!(m.chain(Eye::Right), Some(&(size(800, 600), 2)));
    m.resize(size(800, 600), &create);
    assert_eq!(made.get(), 4);
    assert_eq!(m.chain(Eye::Left), Some(&(size(800, 600), 3)));
    m.ensure_allocated(size(1024, 768), &create);
    assert_eq!(made.get(), 6);
    assert_eq!(m.size(), Some(size(1024, 768)));
}

#[test]
fn one_submission_per_completed_pair() {
    let mut p: Pipeline<ViewportSize> = Pipeline::new();
    let mut submitted = 0;
    for _ in 0..3 {
        assert!(!run_pass(&mut p, true));
        assert!(run_pass(&mut p, true));
        submitted += 1;
    }
    assert_eq!(submitted, 3);
}

#[test]
fn no_submission_after_one_eye() {
    let mut p: Pipeline<ViewportSize> = Pipeline::new();
    assert!(!run_pass(&mut p, true));
    assert!(!run_pass(&mut p, false));
    assert!(!run_pass(&mut p, false));
    assert!(!run_pass(&mut p, true));
    assert!(!run_pass(&mut p, true));
    assert!(run_pass(&mut p, true));
}

#[test]
fn submitted_layer_describes_the_pair() {
    let mut p: Pipeline<ViewportSize> = Pipeline::new();
    run_pass(&mut p, true);
    let begin = p.begin_frame(false, 0);
    assert!(!begin.sample_poses);
    p.ensure_chains(size(800, 600), |s| s);
    p.copy_region(9).unwrap();
    p.commit();
    let l = p.end_frame().unwrap();
    assert_eq!(l.viewport, Recti { x: 0, y: 0, width: 800, height: 600 });
    let one = TANGENT_STEPS_PER_ONE;
    assert_eq!(l.fov, FovPort { up_tan: one, down_tan: one, left_tan: one, right_tan: one });
    assert_eq!(l.render_poses.left.position, Vector3 { x: -1, y: 2, z: -3 });
    assert_eq!(l.render_poses.right.position, Vector3 { x: 1, y: 2, z: -3 });
    assert!(l.origin_at_bottom_left);
}

#[test]
fn resize_mid_run_recreates_chains_at_new_size() {
    let made = Cell::new(0u32);
    let create = |s: ViewportSize| {
        made.set(made.get() + 1);
        s
    };
    let mut p: Pipeline<ViewportSize> = Pipeline::new();
    p.ensure_chains(size(800, 600), &create);
    p.copy_region(5).unwrap();
    p.commit();
    p.end_frame();
    assert_eq!(made.get(), 2);
    p.resize(size(1024, 768), &create);
    assert_eq!(made.get(), 4);
    assert_eq!(p.chain(Eye::Left), Some(&size(1024, 768)));
    assert_eq!(p.chain(Eye::Right), Some(&size(1024, 768)));
    let target = p.viewport().unwrap();
    assert_eq!(target, size(1024, 768));
    p.ensure_chains(target, &create);
    assert_eq!(made.get(), 4);
    let region = p.copy_region(5).unwrap();
    assert_eq!((region.width, region.height), (1024, 768));
    p.commit();
    // The left eye committed into the old chains: no frame for this pair.
    assert!(p.end_frame().is_none());
}

#[test]
fn graphics_error_stops_submission() {
    let mut p: Pipeline<ViewportSize> = Pipeline::new();
    assert!(!run_pass(&mut p, true));
    p.ensure_chains(size(800, 600), |s| s);
    p.copy_region(4).unwrap();
    assert!(p.check_error(0, GlStep::EnableTexture).is_ok());
    assert_eq!(
        p.check_error(0x0502, GlStep::CopyTexture),
        Err(FrameError::Graphics { step: GlStep::CopyTexture, code: 0x0502 })
    );
    p.commit();
    assert!(p.end_frame().is_none());
    assert!(!run_pass(&mut p, true));
    assert!(!run_pass(&mut p, true));
}

#[test]
fn copy_region_errors() {
    let mut p: Pipeline<ViewportSize> = Pipeline::new();
    assert_eq!(p.copy_region(1), Err(FrameError::NoSwapChains));
    p.ensure_chains(size(-1, 600), |s| s);
    assert_eq!(p.copy_region(1), Err(FrameError::InvalidViewport(size(-1, 600))));
    p.resize(size(320, 200), |s| s);
    assert_eq!(p.copy_region(0), Err(FrameError::NullTexture));
    let r = p.copy_region(11).unwrap();
    assert_eq!((r.texture, r.width, r.height), (11, 320, 200));
}

#[test]
fn scale_maps_runtime_pose_to_host_world() {
    let mut p = Posef {
        position: Vector3 { x: 1_000_000, y: 2_000_000, z: -3_000_005 },
        orientation: Quat { x: 1, y: 2, z: 3, w: 4 },
    };
    scale_posef(&mut p);
    assert_eq!(p.position, Vector3 { x: -100_000, y: 200_000, z: 300_000 });
    assert_eq!(p.orientation, Quat { x: 1, y: 2, z: 3, w: 4 });
    let mut q = pose(i64::MIN, -19, 19);
    scale_posef(&mut q);
    assert_eq!(q.position, Vector3 { x: 922_337_203_685_477_580, y: -1, z: -1 });
}

#[test]
fn zero_pose_is_identity() {
    let z = zero_posef();
    assert_eq!(z.position, Vector3 { x: 0, y: 0, z: 0 });
    assert_eq!(z.orientation, Quat { x: 0, y: 0, z: 0, w: QUAT_STEPS_PER_ONE });
    assert_eq!(PoseSnapshot::identity(), PoseSnapshot { left: z, right: z });
}

#[test]
fn layer_uses_viewport_from_origin() {
    let poses = PoseSnapshot { left: pose(1, 2, 3), right: pose(4, 5, 6) };
    let l = layer(size(1024, 768), &poses);
    assert_eq!(l.viewport, Recti { x: 0, y: 0, width: 1024, height: 768 });
    assert_eq!(l.render_poses, poses);
    assert_eq!(l.fov.up_tan, 1_000_000);
}
