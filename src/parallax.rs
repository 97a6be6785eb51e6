use vstd::prelude::*;

verus! {

/// Scroll speeds of a parallax layer, in millionths of a texture width per
/// second on each axis.
#[derive(Clone, Copy, Debug, PartialEq, Eq, Structural)]
pub struct ParallaxParameters {
    pub x_speed: i64,
    pub y_speed: i64,
}

impl ParallaxParameters {
    pub fn new(x_speed: i64, y_speed: i64) -> (r: ParallaxParameters)
        ensures
            r.x_speed == x_speed,
            r.y_speed == y_speed,
    {
        ParallaxParameters { x_speed, y_speed }
    }
}

impl Default for ParallaxParameters {
    /// A layer that does not scroll.
    fn default() -> (r: ParallaxParameters)
        ensures
            r.x_speed == 0,
            r.y_speed == 0,
    {
        ParallaxParameters { x_speed: 0, y_speed: 0 }
    }
}

/// Number of 32-bit scalars in the uniform parameter block.
pub const PARAMETER_SCALARS: u64 = 2;

/// Alignment of a uniform block under the std140 rules, in bytes.
pub const STD140_STRUCT_ALIGN: u64 = 16;

/// `n` rounded up to a multiple of `a`.
pub open spec fn align_up(n: int, a: int) -> int {
    ((n + a - 1) / a) * a
}

/// Size in bytes of a std140 uniform block of `n` packed 32-bit scalars: four
/// bytes each, the whole padded to the block alignment.
pub open spec fn std140_block_size(n: int) -> int {
    align_up(4 * n, STD140_STRUCT_ALIGN as int)
}

/// The size of the uniform block that holds the two scroll speeds.
pub fn parameter_block_size() -> (r: u64)
    ensures
        r == std140_block_size(PARAMETER_SCALARS as int),
        r == 16,
        r % STD140_STRUCT_ALIGN == 0,
{
    let raw: u64 = 4 * PARAMETER_SCALARS;
    ((raw + STD140_STRUCT_ALIGN - 1) / STD140_STRUCT_ALIGN) * STD140_STRUCT_ALIGN
}

/// The material of one parallax layer: its scroll speeds and the asset path
/// of its texture (empty for none).
#[derive(Clone, Debug, PartialEq, Eq)]
pub struct ParallaxBackgroundMaterial {
    pub parameters: ParallaxParameters,
    pub texture: String,
}

/// The shader stages that see a binding.
#[derive(Clone, Copy, Debug, PartialEq, Eq, Structural)]
pub enum ShaderStages {
    Vertex,
    Fragment,
    VertexFragment,
}

/// What a binding of the layout holds.
#[derive(Clone, Copy, Debug, PartialEq, Eq, Structural)]
pub enum BindingType {
    /// A 2D float texture.
    Texture { filterable: bool, multisampled: bool },
    /// A sampler.
    Sampler { filtering: bool },
    /// A uniform buffer of at least `min_size` bytes.
    UniformBuffer { dynamic_offset: bool, min_size: u64 },
}

/// One binding of the bind group layout.
#[derive(Clone, Copy, Debug, PartialEq, Eq, Structural)]
pub struct BindGroupLayoutEntry {
    pub binding: u32,
    pub visibility: ShaderStages,
    pub ty: BindingType,
}

/// What a bind group entry binds.
#[derive(Clone, Copy, Debug, PartialEq, Eq, Structural)]
pub enum BindingResource {
    /// The view of the material's texture.
    TextureView,
    /// The material's sampler.
    Sampler,
    /// The whole uniform buffer of `size` bytes.
    UniformBuffer { size: u64 },
}

/// One entry of a bind group.
#[derive(Clone, Copy, Debug, PartialEq, Eq, Structural)]
pub struct BindGroupEntry {
    pub binding: u32,
    pub resource: BindingResource,
}

/// How a sampler addresses texture coordinates outside `[0, 1]`.
#[derive(Clone, Copy, Debug, PartialEq, Eq, Structural)]
pub enum AddressMode {
    ClampToEdge,
    Repeat,
    MirrorRepeat,
}

/// The addressing of the material's sampler on its three axes.
#[derive(Clone, Copy, Debug, PartialEq, Eq, Structural)]
pub struct SamplerSettings {
    pub address_mode_u: AddressMode,
    pub address_mode_v: AddressMode,
    pub address_mode_w: AddressMode,
}

/// The GPU resources of a prepared material: a repeating sampler, a uniform
/// buffer holding `parameters`, and the bind group that binds texture view,
/// sampler and buffer.
#[derive(Clone, Debug, PartialEq, Eq)]
pub struct PreparedMaterial {
    pub sampler: SamplerSettings,
    pub parameters: ParallaxParameters,
    pub entries: Vec<BindGroupEntry>,
}

/// Why a material could not be prepared: its texture is not on the GPU yet,
/// and the material is handed back to be tried again on the next pass.
#[derive(Clone, Debug, PartialEq, Eq)]
pub enum PrepareAssetError {
    RetryNextUpdate(ParallaxBackgroundMaterial),
}

/// The path of the shader module used by both stages.
pub open spec fn shader_path() -> Seq<char> {
    "shaders/parallax.wgsl"@
}

/// Whether `e` is the fixed layout: texture at 0, sampler at 1 (both for the
/// fragment stage), uniform buffer of the parameter block at 2 (both stages).
pub open spec fn is_parallax_layout(e: Seq<BindGroupLayoutEntry>) -> bool {
    &&& e.len() == 3
    &&& e[0] == BindGroupLayoutEntry {
        binding: 0,
        visibility: ShaderStages::Fragment,
        ty: BindingType::Texture { filterable: true, multisampled: false },
    }
    &&& e[1] == BindGroupLayoutEntry {
        binding: 1,
        visibility: ShaderStages::Fragment,
        ty: BindingType::Sampler { filtering: true },
    }
    &&& e[2] == BindGroupLayoutEntry {
        binding: 2,
        visibility: ShaderStages::VertexFragment,
        ty: BindingType::UniformBuffer {
            dynamic_offset: false,
            min_size: std140_block_size(PARAMETER_SCALARS as int) as u64,
        },
    }
}

/// Whether `e` binds texture view, sampler and the whole uniform buffer at
/// bindings 0, 1 and 2.
pub open spec fn is_parallax_bind_group(e: Seq<BindGroupEntry>) -> bool {
    &&& e.len() == 3
    &&& e[0] == BindGroupEntry { binding: 0, resource: BindingResource::TextureView }
    &&& e[1] == BindGroupEntry { binding: 1, resource: BindingResource::Sampler }
    &&& e[2] == BindGroupEntry {
        binding: 2,
        resource: BindingResource::UniformBuffer {
            size: std140_block_size(PARAMETER_SCALARS as int) as u64,
        },
    }
}

pub open spec fn repeating() -> SamplerSettings {
    SamplerSettings {
        address_mode_u: AddressMode::Repeat,
        address_mode_v: AddressMode::Repeat,
        address_mode_w: AddressMode::Repeat,
    }
}

impl ParallaxBackgroundMaterial {
    pub fn new(texture: String, x_speed: i64, y_speed: i64) -> (r: ParallaxBackgroundMaterial)
        ensures
            r.texture@ == texture@,
            r.parameters.x_speed == x_speed,
            r.parameters.y_speed == y_speed,
    {
        ParallaxBackgroundMaterial { parameters: ParallaxParameters { x_speed, y_speed }, texture }
    }

    /// The copy of the material that the renderer prepares.
    pub fn extract_asset(&self) -> (r: ParallaxBackgroundMaterial)
        ensures
            r.parameters == self.parameters,
            r.texture@ == self.texture@,
    {
        ParallaxBackgroundMaterial { parameters: self.parameters, texture: self.texture.clone() }
    }

    /// Prepares the GPU resources of the material. `texture_resident` says
    /// whether the GPU image cache holds its texture: when it does not, the
    /// material comes back to be retried and no bind group is made.
    pub fn prepare_asset(self, texture_resident: bool) -> (r: Result<PreparedMaterial, PrepareAssetError>)
        ensures
            !texture_resident <==> r is Err,
            r matches Err(PrepareAssetError::RetryNextUpdate(m)) ==> m == self,
            r matches Ok(p) ==> {
                &&& p.sampler == repeating()
                &&& p.parameters == self.parameters
                &&& is_parallax_bind_group(p.entries@)
            },
    {
        if !texture_resident {
            return Err(PrepareAssetError::RetryNextUpdate(self));
        }
        let size = parameter_block_size();
        let entries = vec![
            BindGroupEntry { binding: 0, resource: BindingResource::TextureView },
            BindGroupEntry { binding: 1, resource: BindingResource::Sampler },
            BindGroupEntry { binding: 2, resource: BindingResource::UniformBuffer { size } },
        ];
        Ok(
            PreparedMaterial {
                sampler: SamplerSettings {
                    address_mode_u: AddressMode::Repeat,
                    address_mode_v: AddressMode::Repeat,
                    address_mode_w: AddressMode::Repeat,
                },
                parameters: self.parameters,
                entries,
            },
        )
    }

    /// The bind group layout shared by every parallax material.
    pub fn bind_group_layout() -> (r: Vec<BindGroupLayoutEntry>)
        ensures
            is_parallax_layout(r@),
    {
        let size = parameter_block_size();
        vec![
            BindGroupLayoutEntry {
                binding: 0,
                visibility: ShaderStages::Fragment,
                ty: BindingType::Texture { filterable: true, multisampled: false },
            },
            BindGroupLayoutEntry {
                binding: 1,
                visibility: ShaderStages::Fragment,
                ty: BindingType::Sampler { filtering: true },
            },
            BindGroupLayoutEntry {
                binding: 2,
                visibility: ShaderStages::VertexFragment,
                ty: BindingType::UniformBuffer { dynamic_offset: false, min_size: size },
            },
        ]
    }

    /// The shader module of the vertex stage.
    pub fn vertex_shader() -> (r: String)
        ensures
            r@ == shader_path(),
    {
        proof {
            reveal_strlit("shaders/parallax.wgsl");
        }
        "shaders/parallax.wgsl".to_owned()
    }

    /// The shader module of the fragment stage, the same as the vertex stage's.
    pub fn fragment_shader() -> (r: String)
        ensures
            r@ == shader_path(),
    {
        Self::vertex_shader()
    }
}

impl Default for ParallaxBackgroundMaterial {
    /// A still material with no texture.
    fn default() -> (r: ParallaxBackgroundMaterial)
        ensures
            r.parameters.x_speed == 0,
            r.parameters.y_speed == 0,
            r.texture@.len() == 0,
    {
        ParallaxBackgroundMaterial { parameters: ParallaxParameters::default(), texture: String::new() }
    }
}

/// Registers the parallax material with a renderer: it stands for the
/// material's layout and shaders.
#[derive(Clone, Copy, Debug, Default, PartialEq, Eq, Structural)]
pub struct ParallaxBackgroundPlugin;

impl ParallaxBackgroundPlugin {
    /// The layout of the material that the plugin registers.
    pub fn layout(&self) -> (r: Vec<BindGroupLayoutEntry>)
        ensures
            is_parallax_layout(r@),
    {
        ParallaxBackgroundMaterial::bind_group_layout()
    }
}

} // verus!
