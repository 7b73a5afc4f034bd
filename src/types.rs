use vstd::prelude::*;
use crate::error::GenError;

verus! {

/// GL enum of the `int` type.
pub const GL_INT: u32 = 0x1404;

/// GL enum of the `float` type.
pub const GL_FLOAT: u32 = 0x1406;

/// GL enum of the `vec2` type.
pub const GL_FLOAT_VEC2: u32 = 0x8B50;

/// GL enum of the `vec3` type.
pub const GL_FLOAT_VEC3: u32 = 0x8B51;

/// GL enum of the `vec4` type.
pub const GL_FLOAT_VEC4: u32 = 0x8B52;

/// GL enum of the `mat4` type.
pub const GL_FLOAT_MAT4: u32 = 0x8B5C;

/// GL enum of the `sampler2D` type.
pub const GL_SAMPLER_2D: u32 = 0x8B5E;

/// One uniform or vertex attribute, as introspected from a compiled program.
#[derive(Debug, Clone)]
pub struct VarInfo {
    pub name: String,
    pub datatype: u32,
    pub size: i32,
}

/// The GL types that bindings can be generated for.
pub open spec fn is_supported_type(t: u32) -> bool {
    t == GL_FLOAT || t == GL_FLOAT_VEC2 || t == GL_FLOAT_VEC3 || t == GL_FLOAT_VEC4
        || t == GL_FLOAT_MAT4 || t == GL_SAMPLER_2D || t == GL_INT
}

/// The Rust type that holds a value of GL type `t`.
pub open spec fn host_type(t: u32) -> Seq<char> {
    if t == GL_FLOAT {
        "f32"@
    } else if t == GL_FLOAT_VEC2 {
        "[f32;2]"@
    } else if t == GL_FLOAT_VEC3 {
        "[f32;3]"@
    } else if t == GL_FLOAT_VEC4 {
        "[f32;4]"@
    } else if t == GL_FLOAT_MAT4 {
        "[f32;16]"@
    } else if t == GL_SAMPLER_2D {
        "u32"@
    } else if t == GL_INT {
        "i32"@
    } else {
        Seq::empty()
    }
}

/// The `GlShaderUniform` variant that carries a uniform of GL type `t`.
pub open spec fn uniform_tag(t: u32) -> Seq<char> {
    if t == GL_FLOAT {
        "GlShaderUniform::Float"@
    } else if t == GL_FLOAT_VEC2 {
        "GlShaderUniform::Vec2"@
    } else if t == GL_FLOAT_VEC3 {
        "GlShaderUniform::Vec3"@
    } else if t == GL_FLOAT_VEC4 {
        "GlShaderUniform::Vec4"@
    } else if t == GL_FLOAT_MAT4 {
        "GlShaderUniform::Mat4x4"@
    } else if t == GL_SAMPLER_2D {
        "GlShaderUniform::TextureHandle"@
    } else if t == GL_INT {
        "GlShaderUniform::Int"@
    } else {
        Seq::empty()
    }
}

/// Rust type of a GL type; fails on an unsupported type.
pub fn glsl_type_to_rust(type_enum: u32) -> (r: Result<&'static str, GenError>)
    ensures
        match r {
            Ok(s) => is_supported_type(type_enum) && s@ == host_type(type_enum),
            Err(e) => !is_supported_type(type_enum) && e == GenError::UnsupportedType(type_enum),
        },
{
    if type_enum == GL_FLOAT {
        Ok("f32")
    } else if type_enum == GL_FLOAT_VEC2 {
        Ok("[f32;2]")
    } else if type_enum == GL_FLOAT_VEC3 {
        Ok("[f32;3]")
    } else if type_enum == GL_FLOAT_VEC4 {
        Ok("[f32;4]")
    } else if type_enum == GL_FLOAT_MAT4 {
        Ok("[f32;16]")
    } else if type_enum == GL_SAMPLER_2D {
        Ok("u32")
    } else if type_enum == GL_INT {
        Ok("i32")
    } else {
        Err(GenError::UnsupportedType(type_enum))
    }
}

/// Uniform-kind tag of a GL type; fails on an unsupported type.
pub fn glsl_type_to_glust_uniform_enum(type_enum: u32) -> (r: Result<&'static str, GenError>)
    ensures
        match r {
            Ok(s) => is_supported_type(type_enum) && s@ == uniform_tag(type_enum),
            Err(e) => !is_supported_type(type_enum) && e == GenError::UnsupportedType(type_enum),
        },
{
    if type_enum == GL_FLOAT {
        Ok("GlShaderUniform::Float")
    } else if type_enum == GL_FLOAT_VEC2 {
        Ok("GlShaderUniform::Vec2")
    } else if type_enum == GL_FLOAT_VEC3 {
        Ok("GlShaderUniform::Vec3")
    } else if type_enum == GL_FLOAT_VEC4 {
        Ok("GlShaderUniform::Vec4")
    } else if type_enum == GL_FLOAT_MAT4 {
        Ok("GlShaderUniform::Mat4x4")
    } else if type_enum == GL_SAMPLER_2D {
        Ok("GlShaderUniform::TextureHandle")
    } else if type_enum == GL_INT {
        Ok("GlShaderUniform::Int")
    } else {
        Err(GenError::UnsupportedType(type_enum))
    }
}

} // verus!
