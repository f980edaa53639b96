use ash::vk::Handle;
use render_vulkan::swapchain::{PerImageData, SwapchainImages, SwapchainSemaphores};

fn image(i: u64) -> PerImageData {
    PerImageData {
        image: ash::vk::Image::from_raw(100 + i),
        view: ash::vk::ImageView::from_raw(200 + i),
        semaphores: SwapchainSemaphores {
            acquire: ash::vk::Semaphore::from_raw(300 + i),
            present: ash::vk::Semaphore::from_raw(400 + i),
        },
    }
}

#[test]
fn presents_cycle_through_the_images() {
    let mut ring = SwapchainImages::new();
    for i in 0..3 {
        ring.push_image(image(i));
    }
    assert_eq!(ring.image_count(), 3);
    let mut seen = Vec::new();
    for _ in 0..7 {
        seen.push(ring.current_index());
        ring.advance();
    }
    assert_eq!(seen, vec![0, 1, 2, 0, 1, 2, 0]);
    assert_eq!(ring.current_index(), 1);
}

#[test]
fn acquired_checks_the_index() {
    let mut ring = SwapchainImages::new();
    ring.push_image(image(0));
    ring.push_image(image(1));
    ring.advance();
    assert_eq!(ring.current_data().view, ash::vk::ImageView::from_raw(201));
    let (view, sems) = ring.acquired(1).unwrap();
    assert_eq!(view, ash::vk::ImageView::from_raw(201));
    assert_eq!(sems.acquire, ash::vk::Semaphore::from_raw(301));
    assert_eq!(sems.present, ash::vk::Semaphore::from_raw(401));
    assert!(ring.acquired(0).is_none());
}

#[test]
fn drain_returns_the_images_and_keeps_the_index() {
    let mut ring = SwapchainImages::new();
    ring.push_image(image(0));
    ring.push_image(image(1));
    ring.advance();
    let taken = ring.drain();
    assert_eq!(taken.len(), 2);
    assert_eq!(taken[1].image, ash::vk::Image::from_raw(101));
    assert_eq!(ring.image_count(), 0);
    assert_eq!(ring.current_index(), 1);
}
