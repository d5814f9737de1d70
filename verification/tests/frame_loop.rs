use rendering_core::rendering_queue::RenderingQueue;
use rendering_core::teardown::ContextResources;

fn resources(frames: u8, images: u32) -> ContextResources {
    ContextResources {
        frames_in_flight: frames,
        images_count: images,
        framebuffers_count: images,
        pipelines_count: 1,
        has_debug_messenger: false,
    }
}

fn in_flight_count(q: &RenderingQueue) -> usize {
    q.fences_in_flight.iter().filter(|b| **b).count()
}

fn no_two_in_flight_share_an_image(q: &RenderingQueue) -> bool {
    let n = q.fences_in_flight.len();
    for f in 0..n {
        for g in 0..n {
            if f != g && q.fences_in_flight[f] && q.fences_in_flight[g] {
                if q.frame_images[f] == q.frame_images[g] {
                    return false;
                }
            }
        }
    }
    true
}

#[test]
fn fresh_queue_starts_signaled_at_slot_zero() {
    let q = RenderingQueue::new(resources(2, 3));
    assert_eq!(q.current_frame_index, 0);
    assert_eq!(q.swapchain_image_fences, vec![None, None, None]);
    assert_eq!(q.fences_in_flight, vec![false, false]);
    assert_eq!(q.frame_images, vec![None, None]);
}

#[test]
fn render_advances_slot_modulo_frames_in_flight() {
    let mut q = RenderingQueue::new(resources(2, 3));
    let s0 = q.render(0);
    assert_eq!(s0.frame_index, 0);
    assert_eq!(s0.image_index, 0);
    assert_eq!(q.current_frame_index, 1);
    let s1 = q.render(1);
    assert_eq!(s1.frame_index, 1);
    assert_eq!(q.current_frame_index, 0);
    let s2 = q.render(2);
    assert_eq!(s2.frame_index, 0);
    assert_eq!(q.current_frame_index, 1);
}

#[test]
fn render_records_the_slot_fence_against_the_image() {
    let mut q = RenderingQueue::new(resources(2, 2));
    q.render(1);
    assert_eq!(q.swapchain_image_fences, vec![None, Some(0)]);
    assert_eq!(q.frame_images, vec![Some(1), None]);
    assert_eq!(q.fences_in_flight, vec![true, false]);
}

#[test]
fn reacquired_image_names_the_older_slots_fence() {
    // three slots cycling over two images: the third frame reuses image 0,
    // whose last writer was slot 0, so the extra wait names fence 0
    let mut q = RenderingQueue::new(resources(3, 2));
    let s0 = q.render(0);
    assert_eq!(s0.wait_image_fence, None);
    let s1 = q.render(1);
    assert_eq!(s1.wait_image_fence, None);
    let s2 = q.render(0);
    assert_eq!(s2.frame_index, 2);
    assert_eq!(s2.wait_image_fence, Some(0));
    assert_eq!(q.fences_in_flight, vec![false, true, true]);
}

#[test]
fn same_slot_reusing_its_own_image_needs_no_extra_wait() {
    // one slot, one image: every frame reuses the slot's own fence
    let mut q = RenderingQueue::new(resources(1, 1));
    let s0 = q.render(0);
    assert_eq!(s0.wait_image_fence, None);
    let s1 = q.render(0);
    assert_eq!(s1.frame_index, 0);
    assert_eq!(s1.wait_image_fence, None);
}

#[test]
fn fence_discipline_holds_over_long_sequences() {
    // more slots than images, images revisited out of round-robin order
    let mut q = RenderingQueue::new(resources(3, 2));
    let acquisitions = [0u32, 1, 0, 0, 1, 1, 0, 1, 0, 0, 0, 1, 1, 0];
    for &img in acquisitions.iter() {
        q.render(img);
        assert!(in_flight_count(&q) <= 3);
        assert!(no_two_in_flight_share_an_image(&q));
    }
}

#[test]
fn wait_idle_completes_every_slot() {
    let mut q = RenderingQueue::new(resources(3, 2));
    q.render(0);
    q.render(1);
    assert_eq!(in_flight_count(&q), 2);
    q.device_wait_idle();
    assert_eq!(q.fences_in_flight, vec![false, false, false]);
    assert_eq!(q.current_frame_index, 2);
}
