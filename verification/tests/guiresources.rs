//! Backend and power-preference selection, and their translation into
//! the graphics layer's own types.

use gui_rs::guiresources::{GUIBackend, GUIPowerPreference, GUIResources};

#[test]
fn backend_for_each_platform() {
    assert_eq!(GUIBackend::for_os("linux"), GUIBackend::Vulkan);
    assert_eq!(GUIBackend::for_os("android"), GUIBackend::Vulkan);
    assert_eq!(GUIBackend::for_os("macos"), GUIBackend::Metal);
    assert_eq!(GUIBackend::for_os("ios"), GUIBackend::Metal);
    assert_eq!(GUIBackend::for_os("windows"), GUIBackend::Dx12);
    assert_eq!(GUIBackend::for_os("freebsd"), GUIBackend::Vulkan);
}

#[test]
fn defaults_are_frugal_and_portable() {
    assert_eq!(GUIBackend::default(), GUIBackend::Vulkan);
    assert!(matches!(GUIPowerPreference::default(), GUIPowerPreference::LowPower));
    let r = GUIResources::default();
    assert_eq!(r.backend, GUIBackend::Vulkan);
    assert!(matches!(r.power_preference, GUIPowerPreference::LowPower));
}

#[test]
fn resources_translate_into_the_graphics_layer() {
    let low = GUIResources {
        power_preference: GUIPowerPreference::LowPower,
        backend: GUIBackend::Metal,
    };
    assert_eq!(low.power_preference(), wgpu::PowerPreference::LowPower);
    assert_eq!(low.backend(), wgpu::Backends::METAL);
    let high = GUIResources {
        power_preference: GUIPowerPreference::HighPerformance,
        backend: GUIBackend::Dx12,
    };
    assert_eq!(high.power_preference(), wgpu::PowerPreference::HighPerformance);
    assert_eq!(high.backend(), wgpu::Backends::DX12);
    let vulkan = GUIResources::default();
    assert_eq!(vulkan.backend(), wgpu::Backends::VULKAN);
}
