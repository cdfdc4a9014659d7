//! The resources used while processing the gui: which graphics
//! backend to drive and which physical adapter to prefer.
//!
//! The choices themselves are plain enums of this library; only the
//! final translation into the graphics layer's own types stands
//! behind trusted wrappers.

use vstd::prelude::*;

verus! {

/// Represents the backends that the gui will use.
#[derive(Clone, Copy, Debug, PartialEq, Eq, Structural)]
pub enum GUIBackend {
    /// Supported on Windows, Linux/Android, and macOS/iOS via Vulkan
    /// Portability (with the Vulkan feature enabled).
    Vulkan,
    /// Supported on macOS/iOS.
    Metal,
    /// Supported on Windows 10.
    Dx12,
    /// Supported on Windows 7+ but has a less rich feature set.
    Dx11,
    /// Currently unsupported.
    Gl,
    /// Supported when targeting the web through webassembly.
    BrowserWebGpu,
}

impl GUIBackend {
    /// The backend to try first on the named operating system, by the
    /// platform names the standard library uses; everything unknown
    /// falls back to Vulkan.
    pub open spec fn spec_for_os(os: Seq<char>) -> GUIBackend {
        if os == "linux"@ || os == "android"@ {
            GUIBackend::Vulkan
        } else if os == "macos"@ || os == "ios"@ {
            GUIBackend::Metal
        } else if os == "windows"@ {
            GUIBackend::Dx12
        } else {
            GUIBackend::Vulkan
        }
    }

    /// Picks the backend for the named operating system.  The caller
    /// passes the platform it actually runs on; the fallback for
    /// anything unrecognized is Vulkan.
    pub fn for_os(os: &str) -> (r: GUIBackend)
        ensures
            r == GUIBackend::spec_for_os(os@),
    {
        let owned = os.to_owned();
        if owned == "linux".to_owned() || owned == "android".to_owned() {
            GUIBackend::Vulkan
        } else if owned == "macos".to_owned() || owned == "ios".to_owned() {
            GUIBackend::Metal
        } else if owned == "windows".to_owned() {
            GUIBackend::Dx12
        } else {
            GUIBackend::Vulkan
        }
    }
}

impl Default for GUIBackend {
    /// Returns the platform-independent fallback backend; the backend
    /// matching the running platform comes from `for_os`, fed with the
    /// platform name by the code that owns the environment.
    fn default() -> (r: Self)
        ensures
            r == GUIBackend::Vulkan,
    {
        GUIBackend::Vulkan
    }
}

/// Power preference when choosing a physical adapter.
#[derive(Clone, Copy, Debug, PartialEq, Eq, Structural)]
pub enum GUIPowerPreference {
    /// Adapter that uses the least possible power.  This is often an
    /// integrated GPU.
    LowPower,
    /// Adapter that has the highest performance.  This is often a
    /// discrete GPU.
    HighPerformance,
}

impl Default for GUIPowerPreference {
    /// Returns the frugal choice.
    fn default() -> (r: Self)
        ensures
            r == GUIPowerPreference::LowPower,
    {
        GUIPowerPreference::LowPower
    }
}

/// Represents the resources that are to be used while processing the
/// gui.
pub struct GUIResources {
    /// Power preference when choosing a physical adapter.
    pub power_preference: GUIPowerPreference,
    /// Represents the backends that the gui will use.
    pub backend: GUIBackend,
}

impl Default for GUIResources {
    /// Returns the default resource choices.
    fn default() -> (r: Self)
        ensures
            r.power_preference == GUIPowerPreference::LowPower,
            r.backend == GUIBackend::Vulkan,
    {
        GUIResources {
            power_preference: GUIPowerPreference::default(),
            backend: GUIBackend::default(),
        }
    }
}

/// Declares wgpu's adapter power-preference enum so it may appear in
/// signatures; its values are opaque to the verifier.
#[verifier::external_type_specification]
#[verifier::external_body]
pub struct ExPowerPreference(wgpu::PowerPreference);

/// Declares wgpu's backend bit set so it may appear in signatures;
/// its values are opaque to the verifier.
#[verifier::external_type_specification]
#[verifier::external_body]
pub struct ExBackends(wgpu::Backends);

impl GUIResources {
    /// Returns the wgpu PowerPreference that corresponds to the
    /// previously selected GUIPowerPreference.
    ///
    /// Relies on the `wgpu::PowerPreference` constants; the value is
    /// opaque here, so nothing is stated of it.
    #[verifier::external_body]
    pub fn power_preference(&self) -> wgpu::PowerPreference {
        match self.power_preference {
            GUIPowerPreference::LowPower => wgpu::PowerPreference::LowPower,
            GUIPowerPreference::HighPerformance => wgpu::PowerPreference::HighPerformance,
        }
    }

    /// Returns the wgpu Backend that corresponds to the previously
    /// selected GUIBackend.
    ///
    /// Relies on the `wgpu::Backends` bit-set constants; the value is
    /// opaque here, so nothing is stated of it.
    #[verifier::external_body]
    pub fn backend(&self) -> wgpu::Backends {
        match self.backend {
            GUIBackend::Vulkan => wgpu::Backends::VULKAN,
            GUIBackend::Metal => wgpu::Backends::METAL,
            GUIBackend::Dx12 => wgpu::Backends::DX12,
            GUIBackend::Dx11 => wgpu::Backends::DX11,
            GUIBackend::Gl => wgpu::Backends::GL,
            GUIBackend::BrowserWebGpu => wgpu::Backends::BROWSER_WEBGPU,
        }
    }
}

} // verus!
