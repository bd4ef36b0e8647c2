use vstd::prelude::*;

verus! {

/// The two kinds of shader a program is linked from.
#[derive(Clone, Copy, PartialEq, Eq, Structural, Debug)]
pub enum ShaderType {
    Vertex,
    Fragment,
}

/// Why a shader program could not be produced. All three are fatal at
/// startup; there is no fallback shader.
#[derive(Clone, PartialEq, Eq, Debug)]
pub enum ShaderError {
    /// The shader source file could not be read.
    SrcFileNotFound,
    /// The driver rejected the shader source; carries the driver's log.
    CompileError(String),
    /// The driver could not link the program; carries the driver's log.
    LinkError(String),
}

/// The GPU API's token for a vertex shader object.
pub const VERTEX_SHADER_KIND: u32 = 0x8B31;

/// The GPU API's token for a fragment shader object.
pub const FRAGMENT_SHADER_KIND: u32 = 0x8B30;

/// The GPU API token under which a shader of kind `t` is created.
pub fn gl_shader_kind(t: &ShaderType) -> (r: u32)
    ensures
        *t is Vertex ==> r == VERTEX_SHADER_KIND,
        *t is Fragment ==> r == FRAGMENT_SHADER_KIND,
{
    match t {
        ShaderType::Vertex => VERTEX_SHADER_KIND,
        ShaderType::Fragment => FRAGMENT_SHADER_KIND,
    }
}

/// Turns the driver's compile status into the library's outcome: success
/// exactly when the driver reported success, and otherwise a compile
/// error carrying the driver's log text.
pub fn compile_outcome(status_ok: bool, log: String) -> (r: Result<(), ShaderError>)
    ensures
        status_ok ==> r is Ok,
        !status_ok ==> r == Err::<(), ShaderError>(ShaderError::CompileError(log)),
{
    if status_ok {
        Ok(())
    } else {
        Err(ShaderError::CompileError(log))
    }
}

/// Turns the driver's link status into the library's outcome: success
/// exactly when the driver reported success, and otherwise a link error
/// carrying the driver's log text.
pub fn link_outcome(status_ok: bool, log: String) -> (r: Result<(), ShaderError>)
    ensures
        status_ok ==> r is Ok,
        !status_ok ==> r == Err::<(), ShaderError>(ShaderError::LinkError(log)),
{
    if status_ok {
        Ok(())
    } else {
        Err(ShaderError::LinkError(log))
    }
}

/// Interprets a raw attribute or uniform location as the GPU driver
/// reports it: negative means the name is absent from the active shader,
/// a soft condition that callers answer by skipping the corresponding
/// bind or upload, never by aborting the frame.
pub fn location_outcome(raw: i32) -> (r: Option<u32>)
    ensures
        raw >= 0 ==> r == Some(raw as u32),
        raw < 0 ==> r is None,
{
    if raw >= 0 {
        Some(raw as u32)
    } else {
        None
    }
}

} // verus!
