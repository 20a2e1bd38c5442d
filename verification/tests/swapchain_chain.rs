use frameloop::surface::{Extent, SurfaceCaps};
use frameloop::swapchain::{PresentMode, SwapchainManager, SwapchainStatus};

const FORMAT_A: u32 = 10;
const FORMAT_B: u32 = 20;
const ALPHA_OPAQUE: u32 = 1;

fn caps_two_formats(current_extent: Option<Extent>) -> SurfaceCaps {
    SurfaceCaps {
        min_image_count: 2,
        formats: vec![FORMAT_A, FORMAT_B],
        alpha_modes: vec![ALPHA_OPAQUE],
        present_modes: vec![0, 2],
        current_extent,
    }
}

#[test]
fn creation_deterministically_selects_first_format_and_alpha() {
    let caps = caps_two_formats(None);
    let mut manager = SwapchainManager::new();
    manager.create(&caps, Extent { width: 1024, height: 768 });
    let state = manager.current.unwrap();
    assert_eq!(state.format, FORMAT_A);
    assert_eq!(state.alpha_mode, ALPHA_OPAQUE);
    assert_eq!(state.image_count, 2);
    assert_eq!(state.present_mode, PresentMode::Fifo);
    assert_eq!(state.generation, 1);
    assert_eq!(manager.status, SwapchainStatus::Valid);
}

#[test]
fn creation_uses_reported_current_extent() {
    let reported = Extent { width: 640, height: 480 };
    let caps = caps_two_formats(Some(reported));
    let mut manager = SwapchainManager::new();
    manager.create(&caps, Extent { width: 1024, height: 768 });
    assert_eq!(manager.current.unwrap().extent, reported);
}

#[test]
fn creation_falls_back_to_preferred_extent() {
    let caps = caps_two_formats(None);
    let mut manager = SwapchainManager::new();
    manager.create(&caps, Extent { width: 1024, height: 768 });
    assert_eq!(manager.current.unwrap().extent, Extent { width: 1024, height: 768 });
}

#[test]
fn recreation_bumps_generation_and_keeps_selection() {
    let caps = caps_two_formats(None);
    let mut manager = SwapchainManager::new();
    manager.create(&caps, Extent { width: 1024, height: 768 });
    manager.invalidate();
    assert_eq!(manager.status, SwapchainStatus::Invalidated);
    manager.begin_recreate();
    assert_eq!(manager.status, SwapchainStatus::Recreating);
    manager.complete_recreate(Extent { width: 500, height: 400 });
    let state = manager.current.unwrap();
    assert_eq!(manager.status, SwapchainStatus::Valid);
    assert_eq!(state.generation, 2);
    assert_eq!(state.extent, Extent { width: 500, height: 400 });
    assert_eq!(state.format, FORMAT_A);
    assert_eq!(state.alpha_mode, ALPHA_OPAQUE);
    assert_eq!(state.image_count, 2);
}

#[test]
fn unsupported_dimensions_is_transient_and_keeps_the_chain() {
    let caps = caps_two_formats(None);
    let mut manager = SwapchainManager::new();
    manager.create(&caps, Extent { width: 1024, height: 768 });
    let before = manager.current.unwrap();
    manager.invalidate();
    manager.begin_recreate();
    manager.recreate_unsupported();
    assert_eq!(manager.status, SwapchainStatus::Recreating);
    assert_eq!(manager.current.unwrap(), before);
    manager.complete_recreate(Extent { width: 800, height: 600 });
    assert_eq!(manager.status, SwapchainStatus::Valid);
    assert_eq!(manager.current.unwrap().generation, 2);
}

#[test]
fn every_recreation_produces_a_fresh_generation() {
    let caps = caps_two_formats(None);
    let mut manager = SwapchainManager::new();
    manager.create(&caps, Extent { width: 300, height: 200 });
    let mut seen = vec![manager.current.unwrap().generation];
    for step in 0..4u32 {
        manager.invalidate();
        manager.begin_recreate();
        manager.complete_recreate(Extent { width: 300 + step, height: 200 });
        let generation = manager.current.unwrap().generation;
        assert!(!seen.contains(&generation));
        seen.push(generation);
    }
}
