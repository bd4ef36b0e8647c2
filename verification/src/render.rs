use vstd::prelude::*;
use crate::bits::{Vec3, ONE_BITS};
use crate::matrix::Mat4;

verus! {

/// Bit pattern of the first light-position component (the value -1.0).
pub const LIGHT_POS_X_BITS: u32 = 0xBF80_0000;

/// Bit pattern of the second light-position component (the value 0.4).
pub const LIGHT_POS_Y_BITS: u32 = 0x3ECC_CCCD;

/// Bit pattern of the third light-position component (the value 2.0).
pub const LIGHT_POS_Z_BITS: u32 = 0x4000_0000;

/// Bit pattern of the green object-color component (the value 0.5).
pub const OBJECT_COLOR_G_BITS: u32 = 0x3F00_0000;

/// Bit pattern of the blue object-color component (the value 0.31).
pub const OBJECT_COLOR_B_BITS: u32 = 0x3E9E_B852;

/// The fixed light position uploaded each frame when the shader asks
/// for it.
pub open spec fn spec_light_position() -> Vec3 {
    Vec3 { x: LIGHT_POS_X_BITS, y: LIGHT_POS_Y_BITS, z: LIGHT_POS_Z_BITS }
}

/// The fixed white light color.
pub open spec fn spec_light_color() -> Vec3 {
    Vec3 { x: ONE_BITS, y: ONE_BITS, z: ONE_BITS }
}

/// The fixed object color.
pub open spec fn spec_object_color() -> Vec3 {
    Vec3 { x: ONE_BITS, y: OBJECT_COLOR_G_BITS, z: OBJECT_COLOR_B_BITS }
}

/// The fixed light position, as a value.
pub fn light_position() -> (r: Vec3)
    ensures
        r == spec_light_position(),
{
    Vec3 { x: LIGHT_POS_X_BITS, y: LIGHT_POS_Y_BITS, z: LIGHT_POS_Z_BITS }
}

/// The fixed white light color, as a value.
pub fn light_color() -> (r: Vec3)
    ensures
        r == spec_light_color(),
{
    Vec3 { x: ONE_BITS, y: ONE_BITS, z: ONE_BITS }
}

/// The fixed object color, as a value.
pub fn object_color() -> (r: Vec3)
    ensures
        r == spec_object_color(),
{
    Vec3 { x: ONE_BITS, y: OBJECT_COLOR_G_BITS, z: OBJECT_COLOR_B_BITS }
}

/// The locations the active shader reports for the names the draw
/// protocol uses. `None` records the soft "name not found" outcome: the
/// corresponding bind or upload is skipped, the frame is never aborted.
#[derive(Clone, Copy, PartialEq, Eq, Debug)]
pub struct ShaderLocations {
    pub position: Option<u32>,
    pub normal: Option<u32>,
    pub tex_coord: Option<u32>,
    pub view: Option<u32>,
    pub projection: Option<u32>,
    pub time: Option<u32>,
    pub light_pos: Option<u32>,
    pub light_color: Option<u32>,
    pub object_color: Option<u32>,
    pub model: Option<u32>,
    pub normal_matrix: Option<u32>,
}

impl ShaderLocations {
    /// The outcome in which no name was found: every bind and upload is
    /// skipped, yet a frame still completes its draw calls.
    pub fn none_found() -> (r: ShaderLocations)
        ensures
            r == (ShaderLocations {
                position: None::<u32>,
                normal: None::<u32>,
                tex_coord: None::<u32>,
                view: None::<u32>,
                projection: None::<u32>,
                time: None::<u32>,
                light_pos: None::<u32>,
                light_color: None::<u32>,
                object_color: None::<u32>,
                model: None::<u32>,
                normal_matrix: None::<u32>,
            }),
    {
        ShaderLocations {
            position: None,
            normal: None,
            tex_coord: None,
            view: None,
            projection: None,
            time: None,
            light_pos: None,
            light_color: None,
            object_color: None,
            model: None,
            normal_matrix: None,
        }
    }
}

/// One step of the render-frame protocol. The library computes the full
/// per-frame command sequence; an unverified driver plays the commands
/// against the GPU in order. Matrix-valued payloads carry single-precision
/// bit patterns; the driver that executes `UploadModelMatrix` and
/// `UploadNormalMatrix` composes `translate * rotate * scale_diag` (and,
/// for the normal matrix, transposes the inverse of its upper-left
/// 3-by-3 block) in floating point before uploading.
#[derive(Clone, PartialEq, Eq, Debug)]
pub enum RenderCommand {
    /// Activate the scene's shader program.
    UseProgram { program: u32 },
    /// Bind the scene's shared vertex-array object.
    BindVertexArray { vertex_array: u32 },
    /// Describe one vertex attribute of the currently bound buffer:
    /// `components` values of four bytes each, read every `stride` bytes
    /// starting at `offset`.
    DescribeAttribute { location: u32, components: u32, stride: u32, offset: u32 },
    /// Bind one mesh's vertex buffer.
    BindBuffer { buffer: u32 },
    /// Upload packed vertex bytes into a buffer, with the static
    /// upload-once usage hint.
    UploadBuffer { buffer: u32, bytes: Vec<u8> },
    /// Upload a 4-by-4 uniform.
    UploadMat4 { location: u32, matrix: Mat4 },
    /// Upload a three-component uniform.
    UploadVec3 { location: u32, value: Vec3 },
    /// Upload a scalar uniform.
    UploadScalar { location: u32, value: u32 },
    /// Upload a mesh's model matrix, carried as the decomposed parts
    /// whose product `translate * rotate * scale_diag` it is.
    UploadModelMatrix { location: u32, translate: Mat4, rotate: Mat4, scale_diag: Mat4 },
    /// Upload a mesh's normal matrix: the transposed inverse of the
    /// upper-left 3-by-3 block of the same product.
    UploadNormalMatrix { location: u32, translate: Mat4, rotate: Mat4, scale_diag: Mat4 },
    /// Issue a triangle-list draw over `count` vertices starting at
    /// vertex `first` of the bound buffer.
    DrawTriangles { first: usize, count: usize },
}

/// How many draw calls a command sequence issues.
pub open spec fn count_draws(cmds: Seq<RenderCommand>) -> int
    decreases cmds.len(),
{
    if cmds.len() == 0 {
        0
    } else {
        count_draws(cmds.drop_last()) + if cmds.last() is DrawTriangles {
            1int
        } else {
            0int
        }
    }
}

/// Draw calls add up over concatenation.
pub proof fn lemma_count_draws_concat(a: Seq<RenderCommand>, b: Seq<RenderCommand>)
    ensures
        count_draws(a + b) == count_draws(a) + count_draws(b),
    decreases b.len(),
{
    if b.len() == 0 {
        assert(a + b =~= a);
    } else {
        lemma_count_draws_concat(a, b.drop_last());
        assert((a + b).drop_last() =~= a + b.drop_last());
    }
}

} // verus!
