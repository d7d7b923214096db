//! The custom shader material.
use vstd::prelude::*;

verus! {

/// Where the fragment shader of [`CustomMaterial`] is found among the assets.
/// The shader reads the time since startup from the engine's globals.
pub const SHADER_ASSET_PATH: &'static str = "shaders/animate_shader.wgsl";

/// Which shader a material asks the renderer to compile.
#[derive(Clone, Copy, Debug, PartialEq, Eq)]
pub enum ShaderRef {
    /// The renderer's own shader for this stage.
    Default,
    /// The shader asset at this logical path.
    Path(&'static str),
}

/// The material that draws with the animated shader. It holds no data: the
/// only changing input, the time, comes from the engine's global uniforms.
#[derive(Clone, Copy, Debug, PartialEq, Eq, Structural)]
pub struct CustomMaterial {}

/// The shader reference every [`CustomMaterial`] gives for its fragment stage.
pub open spec fn fragment_shader_ref() -> ShaderRef {
    ShaderRef::Path(SHADER_ASSET_PATH)
}

impl CustomMaterial {
    /// The fragment shader of this material: always the asset at
    /// [`SHADER_ASSET_PATH`].
    pub fn fragment_shader() -> (r: ShaderRef)
        ensures
            r == fragment_shader_ref(),
            r matches ShaderRef::Path(p) && p@ == SHADER_ASSET_PATH@,
    {
        ShaderRef::Path(SHADER_ASSET_PATH)
    }
}

} // verus!
