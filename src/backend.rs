use vstd::prelude::*;

verus! {

/// Graphics API that the GPU device runs on.
#[derive(Clone, Copy, Debug, PartialEq, Eq)]
pub enum Backend {
    Vulkan,
    Metal,
    D3D12,
    D3D11,
    OpenGL,
    WebGPU,
    Invalid,
}

/// Display name of a backend.
pub open spec fn backend_name(b: Backend) -> Seq<char> {
    match b {
        Backend::Vulkan => "Vulkan"@,
        Backend::Metal => "Metal"@,
        Backend::D3D12 => "D3D12"@,
        Backend::D3D11 => "D3D11"@,
        Backend::OpenGL => "OpenGL ES"@,
        Backend::WebGPU => "WebGPU"@,
        Backend::Invalid => "Invalid"@,
    }
}

impl Backend {
    pub fn name(self) -> (r: &'static str)
        ensures
            r@ == backend_name(self),
    {
        match self {
            Backend::Vulkan => "Vulkan",
            Backend::Metal => "Metal",
            Backend::D3D12 => "D3D12",
            Backend::D3D11 => "D3D11",
            Backend::OpenGL => "OpenGL ES",
            Backend::WebGPU => "WebGPU",
            Backend::Invalid => "Invalid",
        }
    }
}

} // verus!
