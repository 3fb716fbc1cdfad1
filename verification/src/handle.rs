//! Pipeline stages, driver parameters and typed driver handles.

use vstd::prelude::*;

verus! {

/// A phase of the rendering pipeline that a shader is compiled for.
#[derive(Clone, Copy, Debug, PartialEq, Eq, Structural)]
pub enum Stage {
    Vertex,
    Fragment,
}

/// The handle that the driver assigned to a shader object.
#[derive(Clone, Copy, Debug, PartialEq, Eq, Structural)]
pub struct ShaderId(pub u32);

/// The handle that the driver assigned to a program object.
#[derive(Clone, Copy, Debug, PartialEq, Eq, Structural)]
pub struct ProgramId(pub u32);

/// A value that the driver can be asked for about a shader or a program.
#[derive(Clone, Copy, Debug, PartialEq, Eq, Structural)]
pub enum Parameter {
    /// Whether the last compilation of a shader succeeded.
    CompileStatus,
    /// Whether the last link of a program succeeded.
    LinkStatus,
    /// The length of the object's info log.
    InfoLogLength,
}

/// `gl::VERTEX_SHADER`, the driver's number for the vertex stage: 0x8B31 in
/// the Khronos registry (`gl.xml`) that the bindings are generated from.
#[verifier::external_body]
fn vertex_shader_kind() -> (kind: u32)
    ensures
        kind == 0x8B31,
{
    gl::VERTEX_SHADER
}

/// `gl::FRAGMENT_SHADER`, the driver's number for the fragment stage: 0x8B30
/// in the Khronos registry (`gl.xml`) that the bindings are generated from.
#[verifier::external_body]
fn fragment_shader_kind() -> (kind: u32)
    ensures
        kind == 0x8B30,
{
    gl::FRAGMENT_SHADER
}

/// `gl::COMPILE_STATUS`, the driver's number for a shader's compile status:
/// 0x8B81 in the Khronos registry (`gl.xml`) that the bindings are generated
/// from.
#[verifier::external_body]
fn compile_status_name() -> (name: u32)
    ensures
        name == 0x8B81,
{
    gl::COMPILE_STATUS
}

/// `gl::LINK_STATUS`, the driver's number for a program's link status: 0x8B82
/// in the Khronos registry (`gl.xml`) that the bindings are generated from.
#[verifier::external_body]
fn link_status_name() -> (name: u32)
    ensures
        name == 0x8B82,
{
    gl::LINK_STATUS
}

/// `gl::INFO_LOG_LENGTH`, the driver's number for the length of an info log:
/// 0x8B84 in the Khronos registry (`gl.xml`) that the bindings are generated
/// from.
#[verifier::external_body]
fn info_log_length_name() -> (name: u32)
    ensures
        name == 0x8B84,
{
    gl::INFO_LOG_LENGTH
}

impl Stage {
    /// The number by which the driver knows this stage.
    pub open spec fn spec_kind(self) -> u32 {
        match self {
            Stage::Vertex => 0x8B31,
            Stage::Fragment => 0x8B30,
        }
    }

    /// The number to hand to the driver when a shader of this stage is
    /// created.
    pub fn kind(&self) -> (kind: u32)
        ensures
            kind == self.spec_kind(),
    {
        match self {
            Stage::Vertex => vertex_shader_kind(),
            Stage::Fragment => fragment_shader_kind(),
        }
    }
}

impl Parameter {
    /// The number by which the driver knows this parameter.
    pub open spec fn spec_name(self) -> u32 {
        match self {
            Parameter::CompileStatus => 0x8B81,
            Parameter::LinkStatus => 0x8B82,
            Parameter::InfoLogLength => 0x8B84,
        }
    }

    /// What the parameter reads as where the driver writes no value: a status
    /// as set, a length as zero.
    pub open spec fn spec_unanswered(&self) -> i32 {
        match *self {
            Parameter::CompileStatus => 1,
            Parameter::LinkStatus => 1,
            Parameter::InfoLogLength => 0,
        }
    }

    /// The value to hold ready before the driver is asked for this parameter,
    /// which stands where the driver writes none: a status as set, a length
    /// as zero.
    #[verifier::when_used_as_spec(spec_unanswered)]
    pub fn unanswered(&self) -> (value: i32)
        ensures
            value == self.spec_unanswered(),
    {
        match self {
            Parameter::CompileStatus => 1,
            Parameter::LinkStatus => 1,
            Parameter::InfoLogLength => 0,
        }
    }

    /// The number to hand to the driver when this parameter is asked for.
    pub fn name(&self) -> (name: u32)
        ensures
            name == self.spec_name(),
    {
        match self {
            Parameter::CompileStatus => compile_status_name(),
            Parameter::LinkStatus => link_status_name(),
            Parameter::InfoLogLength => info_log_length_name(),
        }
    }
}

} // verus!
