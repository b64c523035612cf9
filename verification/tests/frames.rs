use path_tracer::Camera;
use path_tracer::Pipeline;
use path_tracer::SampleCounter;
use path_tracer::Vec3Bits;

fn basis() -> (Vec3Bits, Vec3Bits) {
    (
        Vec3Bits::new(0.0f32.to_bits(), (-1.0f32).to_bits(), 0.0f32.to_bits()),
        Vec3Bits::new(0.0f32.to_bits(), 0.0f32.to_bits(), 1.0f32.to_bits()),
    )
}

#[test]
fn counter_reaches_n_after_n_increments() {
    let mut c = SampleCounter::new();
    for _ in 0..37 {
        c.increment();
    }
    assert_eq!(c.current(), 37);
}

#[test]
fn counter_reset_yields_zero_and_pushes_zero() {
    let mut c = SampleCounter::new();
    for _ in 0..5 {
        c.increment();
    }
    let pushed = c.reset();
    assert_eq!(pushed, 0);
    assert_eq!(c.current(), 0);
}

#[test]
fn counter_reports_every_hundredth_sample() {
    let mut c = SampleCounter::new();
    for i in 1..=200u32 {
        let (count, report) = c.increment();
        assert_eq!(count, i);
        assert_eq!(report, i % 100 == 0);
    }
}

#[test]
fn static_pose_accumulates_and_never_reseeds() {
    let mut p = Pipeline::new(8, 8);
    let (right, up) = basis();
    let mut reseeds = 0u32;
    let mut last_count = 0u32;
    for _ in 0..150 {
        let plan = p.frame(right, up);
        if plan.reseed {
            reseeds += 1;
        }
        last_count = plan.sample_count;
    }
    assert_eq!(last_count, 150);
    assert_eq!(reseeds, 0);
}

#[test]
fn pose_change_resets_and_reseeds_exactly_once() {
    let mut p = Pipeline::new(8, 8);
    let (right, up) = basis();
    let mut reseeds = 0u32;
    let mut count_at_change = u32::MAX;
    let mut last_count = 0u32;
    for frame in 1..=150u32 {
        if frame == 76 {
            p.camera().position = Vec3Bits::new(0.1f32.to_bits(), 0, 0);
        }
        let plan = p.frame(right, up);
        if plan.reseed {
            reseeds += 1;
            count_at_change = plan.sample_count;
            assert_eq!(frame, 76);
        }
        last_count = plan.sample_count;
    }
    assert_eq!(reseeds, 1);
    assert_eq!(count_at_change, 0);
    assert_eq!(last_count, 74);
}

#[test]
fn frame_roles_alternate_and_never_collide() {
    let mut p = Pipeline::new(8, 8);
    let (right, up) = basis();
    for frame in 0..16 {
        let plan = p.frame(right, up);
        assert_ne!(plan.dispatch.write_target, plan.dispatch.read_source);
        assert_eq!(plan.dispatch.display_source, plan.dispatch.write_target);
        assert_eq!(plan.dispatch.write_target, frame % 2);
        assert_eq!(plan.dispatch.read_source, 1 - frame % 2);
    }
}

#[test]
fn frame_dispatch_covers_every_pixel_once() {
    let mut p = Pipeline::new(640, 480);
    let (right, up) = basis();
    let plan = p.frame(right, up);
    assert_eq!(plan.dispatch.workgroups_x, 640);
    assert_eq!(plan.dispatch.workgroups_y, 480);
    assert_eq!(plan.dispatch.workgroups_z, 1);
}

#[test]
fn frame_uniform_snapshots_the_live_pose() {
    let mut p = Pipeline::new(8, 8);
    let (right, up) = basis();
    *p.camera() = Camera::new(Vec3Bits::new(1, 2, 3), Vec3Bits::new(4, 5, 6), 7, 8);
    let plan = p.frame(right, up);
    assert!(plan.reseed);
    assert_eq!(
        plan.uniform.to_words(),
        vec![1, 2, 3, 7, 4, 5, 6, 8, right.x, right.y, right.z, 0, up.x, up.y, up.z, 0]
    );
}

#[test]
fn report_is_due_every_hundredth_static_frame() {
    let mut p = Pipeline::new(8, 8);
    let (right, up) = basis();
    for frame in 1..=250u32 {
        let plan = p.frame(right, up);
        assert_eq!(plan.report, frame % 100 == 0);
    }
}

#[test]
fn seed_words_cover_every_pixel() {
    let p = Pipeline::new(16, 9);
    let seeds = p.put_random_texture();
    assert_eq!(seeds.len(), 16 * 9);
}

#[test]
fn reset_and_increment_drive_the_mirror_value() {
    let mut p = Pipeline::new(8, 8);
    let (n1, _) = p.increment_sample_count();
    let (n2, _) = p.increment_sample_count();
    assert_eq!((n1, n2), (1, 2));
    let pushed = p.reset_sample_count();
    assert_eq!(pushed, 0);
    let (n3, _) = p.increment_sample_count();
    assert_eq!(n3, 1);
}

#[test]
fn switch_buffer_flips_the_render_plan() {
    let mut p = Pipeline::new(8, 8);
    let before = p.render();
    p.switch_buffer();
    let after = p.render();
    assert_eq!(before.write_target, after.read_source);
    assert_eq!(before.read_source, after.write_target);
}

#[test]
fn camera_mutation_is_seen_once_and_settles() {
    let mut p = Pipeline::new(8, 8);
    let (right, up) = basis();
    let plan = p.frame(right, up);
    assert!(!plan.reseed); // untouched pose: no change on the very first frame
    p.camera().position = Vec3Bits::new(9, 9, 9);
    let plan = p.frame(right, up);
    assert!(plan.reseed); // the mutation differs from the prior frame's pose
    assert_eq!(plan.sample_count, 0);
    let plan = p.frame(right, up);
    assert!(!plan.reseed); // unchanged again: accumulation resumes
    assert_eq!(plan.sample_count, 1);
}

#[test]
fn update_camera_uses_the_live_pose() {
    let mut p = Pipeline::new(8, 8);
    let (right, up) = basis();
    p.camera().focus_dist = 0x4100_0000;
    let uniform = p.update_camera(right, up);
    assert_eq!(uniform.to_words()[3], 0x4100_0000);
}
