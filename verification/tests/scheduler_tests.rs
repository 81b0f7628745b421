use framesync::scheduler::{
    AcquireResult, FrameAction, Phase, PresentAction, PresentResult, Scheduler,
};

/// Drives one fully successful frame that acquires `image`, checking the
/// cross-wait hand-back against `expected_prior`.
fn drive_frame(s: &mut Scheduler, image: usize, expected_prior: Option<usize>) {
    let slot = s.current_slot();
    let action = s.on_acquire(AcquireResult::Success { image_index: image });
    assert_eq!(
        action,
        FrameAction::Proceed {
            prior_user: expected_prior
        }
    );
    assert_eq!(s.image_fence_slot(image), Some(slot));
    let p = s.on_present(PresentResult::Success);
    assert_eq!(p, PresentAction::Continue);
}

#[test]
fn slots_advance_modulo_slot_count() {
    let mut s = Scheduler::new(2, 3);
    let mut slots = Vec::new();
    for frame in 0..10 {
        slots.push(s.current_slot());
        let image = frame % 3;
        let _ = s.on_acquire(AcquireResult::Success { image_index: image });
        let p = s.on_present(PresentResult::Success);
        assert_eq!(p, PresentAction::Continue);
    }
    assert_eq!(slots, vec![0, 1, 0, 1, 0, 1, 0, 1, 0, 1]);
}

#[test]
fn ten_successful_frames_keep_the_fence_table_current() {
    let n = 2;
    let m = 3;
    let mut s = Scheduler::new(n, m);
    // Mirror of the images-in-flight table: latest slot to use each image.
    let mut latest: Vec<Option<usize>> = vec![None; m];
    let mut uses = vec![0usize; m];
    for frame in 0..10 {
        let slot = s.current_slot();
        assert_eq!(slot, frame % n);
        let image = frame % m;
        let action = s.on_acquire(AcquireResult::Success { image_index: image });
        assert_eq!(
            action,
            FrameAction::Proceed {
                prior_user: latest[image]
            }
        );
        latest[image] = Some(slot);
        uses[image] += 1;
        let p = s.on_present(PresentResult::Success);
        assert_eq!(p, PresentAction::Continue);
        // The invariant: every image maps to its most recent user, or to
        // no fence when it was never acquired.
        for img in 0..m {
            assert_eq!(s.image_fence_slot(img), latest[img]);
        }
    }
    for img in 0..m {
        assert!(uses[img] >= 2);
    }
}

#[test]
fn out_of_date_acquire_recreates_once_and_resumes_the_same_slot() {
    let mut s = Scheduler::new(2, 3);
    for frame in 0..5 {
        let image = frame % 3;
        let _ = s.on_acquire(AcquireResult::Success { image_index: image });
        let p = s.on_present(PresentResult::Success);
        assert_eq!(p, PresentAction::Continue);
    }
    let slot_before = s.current_slot();
    assert_eq!(slot_before, 1);
    let action = s.on_acquire(AcquireResult::OutOfDate);
    assert_eq!(action, FrameAction::Recreate);
    assert_eq!(s.phase(), Phase::NeedsRecreate);
    let mut recreations = 0;
    if s.phase() == Phase::NeedsRecreate {
        s.complete_recreate(3);
        recreations += 1;
    }
    assert_eq!(recreations, 1);
    // The table is fully reset: every entry reads "no fence".
    for img in 0..3 {
        assert_eq!(s.image_fence_slot(img), None);
    }
    // The same slot that triggered recreation retries: none skipped,
    // none double-counted.
    assert_eq!(s.current_slot(), slot_before);
    assert_eq!(s.phase(), Phase::Idle);
    drive_frame(&mut s, 0, None);
    assert_eq!(s.current_slot(), (slot_before + 1) % 2);
}

#[test]
fn out_of_date_present_recreates_after_advancing() {
    let mut s = Scheduler::new(2, 3);
    let _ = s.on_acquire(AcquireResult::Success { image_index: 0 });
    let p = s.on_present(PresentResult::OutOfDate);
    assert_eq!(p, PresentAction::Recreate);
    // The present itself happened, so the slot advanced before recreation.
    assert_eq!(s.current_slot(), 1);
    s.complete_recreate(3);
    assert_eq!(s.current_slot(), 1);
    for img in 0..3 {
        assert_eq!(s.image_fence_slot(img), None);
    }
}

#[test]
fn suboptimal_present_recreates() {
    let mut s = Scheduler::new(2, 3);
    let _ = s.on_acquire(AcquireResult::Success { image_index: 0 });
    let p = s.on_present(PresentResult::Suboptimal);
    assert_eq!(p, PresentAction::Recreate);
}

#[test]
fn resize_request_forces_recreation_on_clean_present() {
    let mut s = Scheduler::new(2, 3);
    s.request_resize();
    assert!(s.is_resize_requested());
    let _ = s.on_acquire(AcquireResult::Success { image_index: 0 });
    let p = s.on_present(PresentResult::Success);
    assert_eq!(p, PresentAction::Recreate);
    s.complete_recreate(3);
    // Recreation consumed the request.
    assert!(!s.is_resize_requested());
    let _ = s.on_acquire(AcquireResult::Success { image_index: 0 });
    let p2 = s.on_present(PresentResult::Success);
    assert_eq!(p2, PresentAction::Continue);
}

#[test]
fn recreation_can_change_the_image_count() {
    let mut s = Scheduler::new(2, 3);
    assert_eq!(s.image_count(), 3);
    let _ = s.on_acquire(AcquireResult::OutOfDate);
    s.complete_recreate(4);
    assert_eq!(s.image_count(), 4);
    for img in 0..4 {
        assert_eq!(s.image_fence_slot(img), None);
    }
}

#[test]
fn repeated_recreation_with_unchanged_count_is_idempotent() {
    let mut s = Scheduler::new(2, 3);
    let _ = s.on_acquire(AcquireResult::OutOfDate);
    s.complete_recreate(3);
    let count_first = s.image_count();
    let slot_first = s.current_slot();
    let table_first: Vec<_> = (0..3).map(|i| s.image_fence_slot(i)).collect();
    let _ = s.on_acquire(AcquireResult::OutOfDate);
    s.complete_recreate(3);
    assert_eq!(s.image_count(), count_first);
    assert_eq!(s.current_slot(), slot_first);
    let table_second: Vec<_> = (0..3).map(|i| s.image_fence_slot(i)).collect();
    assert_eq!(table_second, table_first);
}

#[test]
fn device_error_on_acquire_halts() {
    let mut s = Scheduler::new(2, 3);
    let action = s.on_acquire(AcquireResult::DeviceError);
    assert_eq!(action, FrameAction::Halt);
    assert_eq!(s.phase(), Phase::Halted);
}

#[test]
fn device_error_on_present_halts_without_advancing() {
    let mut s = Scheduler::new(2, 3);
    let _ = s.on_acquire(AcquireResult::Success { image_index: 1 });
    let p = s.on_present(PresentResult::DeviceError);
    assert_eq!(p, PresentAction::Halt);
    assert_eq!(s.phase(), Phase::Halted);
    assert_eq!(s.current_slot(), 0);
}

#[test]
fn cross_wait_names_the_prior_user_when_slots_lap_images() {
    // Three slots, two images: slots lap the images quickly.
    let mut s = Scheduler::new(3, 2);
    drive_frame(&mut s, 0, None);
    drive_frame(&mut s, 1, None);
    drive_frame(&mut s, 0, Some(0));
    drive_frame(&mut s, 1, Some(1));
    drive_frame(&mut s, 0, Some(2));
    assert_eq!(s.current_slot(), 2);
}
