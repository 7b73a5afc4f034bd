use vstd::prelude::*;
use crate::error::GenError;
use crate::escape::{quote_literal, quoted};
use crate::types::{
    VarInfo, is_supported_type, host_type, uniform_tag, glsl_type_to_rust,
    glsl_type_to_glust_uniform_enum,
};

verus! {

/// A field declaration: its name and its Rust type.
pub type FieldDecl = (Seq<char>, Seq<char>);

/// What is wrong with one uniform or attribute, if anything; its size is
/// looked at only when `check_size` holds.
pub open spec fn var_error(name: String, datatype: u32, size: i32, check_size: bool) -> Option<
    GenError,
> {
    if !is_supported_type(datatype) {
        Some(GenError::UnsupportedType(datatype))
    } else if check_size && size != 1 {
        Some(GenError::UnsupportedSize { size, name })
    } else {
        None
    }
}

pub open spec fn var_error_of(v: VarInfo, check_size: bool) -> Option<GenError> {
    var_error(v.name, v.datatype, v.size, check_size)
}

/// The error of the first faulty entry of `s`, in order.
pub open spec fn first_error(s: Seq<VarInfo>, check_size: bool) -> Option<GenError>
    decreases s.len(),
{
    if s.len() == 0 {
        None
    } else if var_error_of(s[0], check_size) is Some {
        var_error_of(s[0], check_size)
    } else {
        first_error(s.drop_first(), check_size)
    }
}

pub proof fn lemma_first_error_none(s: Seq<VarInfo>, check_size: bool)
    ensures
        first_error(s, check_size) is None <==> forall|j: int|
            0 <= j < s.len() ==> var_error_of(#[trigger] s[j], check_size) is None,
    decreases s.len(),
{
    if s.len() > 0 {
        lemma_first_error_none(s.drop_first(), check_size);
        if first_error(s, check_size) is None {
            assert forall|j: int| 0 <= j < s.len() implies var_error_of(
                #[trigger] s[j],
                check_size,
            ) is None by {
                if j > 0 {
                    assert(s[j] == s.drop_first()[j - 1]);
                }
            }
        }
        if forall|j: int| 0 <= j < s.len() ==> var_error_of(#[trigger] s[j], check_size) is None {
            assert(var_error_of(s[0], check_size) is None);
            assert forall|j: int| 0 <= j < s.drop_first().len() implies var_error_of(
                #[trigger] s.drop_first()[j],
                check_size,
            ) is None by {
                assert(s.drop_first()[j] == s[j + 1]);
            }
        }
    }
}

pub proof fn lemma_first_error_at(s: Seq<VarInfo>, i: int, check_size: bool)
    requires
        0 <= i < s.len(),
        forall|j: int| 0 <= j < i ==> var_error_of(#[trigger] s[j], check_size) is None,
        var_error_of(s[i], check_size) is Some,
    ensures
        first_error(s, check_size) == var_error_of(s[i], check_size),
    decreases i,
{
    if i > 0 {
        assert(var_error_of(s[0], check_size) is None);
        assert forall|j: int| 0 <= j < i - 1 implies var_error_of(
            #[trigger] s.drop_first()[j],
            check_size,
        ) is None by {
            assert(s.drop_first()[j] == s[j + 1]);
        }
        assert(s.drop_first()[i - 1] == s[i]);
        lemma_first_error_at(s.drop_first(), i - 1, check_size);
    }
}

/// `pub name : type`
pub open spec fn field_text(d: FieldDecl) -> Seq<char> {
    "pub "@ + d.0 + " : "@ + d.1
}

/// The body of a struct with the fields `ds`, in order.
pub open spec fn fields_text(ds: Seq<FieldDecl>) -> Seq<char>
    decreases ds.len(),
{
    if ds.len() == 0 {
        Seq::empty()
    } else {
        fields_text(ds.drop_last()) + field_text(ds.last()) + ",\n"@
    }
}

/// The fields of the `Uniforms` struct: one per uniform, in order.
pub open spec fn uniform_decls(us: Seq<VarInfo>) -> Seq<FieldDecl> {
    us.map_values(|u: VarInfo| (u.name@, host_type(u.datatype)))
}

/// The type of a field owning the buffer of an attribute of GL type `t`.
pub open spec fn owned_buffer_type(t: u32) -> Seq<char> {
    "GlBuffer<"@ + host_type(t) + ">"@
}

/// The type of a field holding the buffer of an attribute of GL type `t`:
/// owned, or borrowed for the lifetime `'a`.
pub open spec fn buffer_type(t: u32, as_ref: bool) -> Seq<char> {
    if as_ref {
        "&'a "@ + owned_buffer_type(t)
    } else {
        owned_buffer_type(t)
    }
}

/// The fields of `Attribs` (or, with `as_ref`, of `AttribsTmp`): one per
/// attribute, in order.
pub open spec fn attrib_decls(ats: Seq<VarInfo>, as_ref: bool) -> Seq<FieldDecl> {
    ats.map_values(|a: VarInfo| (a.name@, buffer_type(a.datatype, as_ref)))
}

/// The names of the attributes, in order.
pub open spec fn attrib_names(ats: Seq<VarInfo>) -> Seq<Seq<char>> {
    ats.map_values(|a: VarInfo| a.name@)
}

/// The buffer handles handed to the vertex-array constructor, in order.
pub open spec fn va_text(names: Seq<Seq<char>>, as_ref: bool) -> Seq<char>
    decreases names.len(),
{
    if names.len() == 0 {
        Seq::empty()
    } else {
        va_text(names.drop_last(), as_ref) + (if as_ref {
            "&attribs."@
        } else {
            "attribs."@
        }) + names.last() + ".0, "@
    }
}

/// The entries of `uniform_array()`: the name of each uniform and the tag
/// of its kind, in order.
pub open spec fn uniform_entries(us: Seq<VarInfo>) -> Seq<(Seq<char>, Seq<char>)> {
    us.map_values(|u: VarInfo| (u.name@, uniform_tag(u.datatype)))
}

/// `("name", Tag(id.name))`
pub open spec fn entry_text(e: (Seq<char>, Seq<char>), id: Seq<char>) -> Seq<char> {
    "("@ + quoted(e.0) + ", "@ + e.1 + "("@ + id + "."@ + e.0 + ")), "@
}

/// The elements of the vector returned by `uniform_array()`.
pub open spec fn entries_text(es: Seq<(Seq<char>, Seq<char>)>, id: Seq<char>) -> Seq<char>
    decreases es.len(),
{
    if es.len() == 0 {
        Seq::empty()
    } else {
        entries_text(es.drop_last(), id) + entry_text(es.last(), id)
    }
}

/// One field of the `Uniforms` struct.
pub fn rust_field(name: &String, datatype: u32, size: i32) -> (r: Result<String, GenError>)
    ensures
        match r {
            Ok(s) => var_error(*name, datatype, size, true) is None && s@ == field_text(
                (name@, host_type(datatype)),
            ),
            Err(e) => var_error(*name, datatype, size, true) == Some(e),
        },
{
    let rtype = match glsl_type_to_rust(datatype) {
        Ok(t) => t,
        Err(e) => {
            return Err(e);
        },
    };
    if size != 1 {
        return Err(GenError::UnsupportedSize { size, name: name.clone() });
    }
    let mut code = String::from_str("pub ");
    code.append(name.as_str());
    code.append(" : ");
    code.append(rtype);
    assert(code@ =~= field_text((name@, host_type(datatype))));
    Ok(code)
}

/// One field of `Attribs`, or with `as_ref` of `AttribsTmp`.
pub fn rust_buffer_field(name: &String, datatype: u32, size: i32, as_ref: bool) -> (r: Result<
    String,
    GenError,
>)
    ensures
        match r {
            Ok(s) => var_error(*name, datatype, size, true) is None && s@ == field_text(
                (name@, buffer_type(datatype, as_ref)),
            ),
            Err(e) => var_error(*name, datatype, size, true) == Some(e),
        },
{
    let rtype = match glsl_type_to_rust(datatype) {
        Ok(t) => t,
        Err(e) => {
            return Err(e);
        },
    };
    if size != 1 {
        return Err(GenError::UnsupportedSize { size, name: name.clone() });
    }
    let mut code = String::from_str("pub ");
    code.append(name.as_str());
    code.append(" : ");
    if as_ref {
        code.append("&'a ");
    }
    code.append("GlBuffer<");
    code.append(rtype);
    code.append(">");
    assert(code@ =~= field_text((name@, buffer_type(datatype, as_ref))));
    Ok(code)
}

/// The body of the `Uniforms` struct.
pub fn uniforms_code(uniforms: &[VarInfo]) -> (r: Result<String, GenError>)
    ensures
        match r {
            Ok(s) => first_error(uniforms@, true) is None && s@ == fields_text(
                uniform_decls(uniforms@),
            ),
            Err(e) => first_error(uniforms@, true) == Some(e),
        },
{
    let mut code = String::new();
    let mut i: usize = 0;
    while i < uniforms.len()
        invariant
            i <= uniforms@.len(),
            forall|j: int| 0 <= j < i ==> var_error_of(#[trigger] uniforms@[j], true) is None,
            code@ == fields_text(uniform_decls(uniforms@.take(i as int))),
        decreases uniforms@.len() - i,
    {
        let u = &uniforms[i];
        match rust_field(&u.name, u.datatype, u.size) {
            Ok(f) => {
                code.append(f.as_str());
                code.append(",\n");
            },
            Err(e) => {
                proof {
                    lemma_first_error_at(uniforms@, i as int, true);
                }
                return Err(e);
            },
        }
        proof {
            let ds = uniform_decls(uniforms@.take(i + 1));
            assert(ds.drop_last() =~= uniform_decls(uniforms@.take(i as int)));
        }
        i += 1;
    }
    proof {
        assert(uniforms@.take(i as int) =~= uniforms@);
        lemma_first_error_none(uniforms@, true);
    }
    Ok(code)
}

/// The fields of `Attribs`, or with `as_ref` of `AttribsTmp`.
fn buffer_fields_code(attribs: &[VarInfo], as_ref: bool) -> (r: Result<String, GenError>)
    ensures
        match r {
            Ok(s) => first_error(attribs@, true) is None && s@ == fields_text(
                attrib_decls(attribs@, as_ref),
            ),
            Err(e) => first_error(attribs@, true) == Some(e),
        },
{
    let mut code = String::new();
    let mut i: usize = 0;
    while i < attribs.len()
        invariant
            i <= attribs@.len(),
            forall|j: int| 0 <= j < i ==> var_error_of(#[trigger] attribs@[j], true) is None,
            code@ == fields_text(attrib_decls(attribs@.take(i as int), as_ref)),
        decreases attribs@.len() - i,
    {
        let a = &attribs[i];
        match rust_buffer_field(&a.name, a.datatype, a.size, as_ref) {
            Ok(f) => {
                code.append(f.as_str());
                code.append(",\n");
            },
            Err(e) => {
                proof {
                    lemma_first_error_at(attribs@, i as int, true);
                }
                return Err(e);
            },
        }
        proof {
            let ds = attrib_decls(attribs@.take(i + 1), as_ref);
            assert(ds.drop_last() =~= attrib_decls(attribs@.take(i as int), as_ref));
        }
        i += 1;
    }
    proof {
        assert(attribs@.take(i as int) =~= attribs@);
        lemma_first_error_none(attribs@, true);
    }
    Ok(code)
}

/// The body of the `Attribs` struct: an owned buffer per attribute.
pub fn attribs_code(attribs: &[VarInfo]) -> (r: Result<String, GenError>)
    ensures
        match r {
            Ok(s) => first_error(attribs@, true) is None && s@ == fields_text(
                attrib_decls(attribs@, false),
            ),
            Err(e) => first_error(attribs@, true) == Some(e),
        },
{
    buffer_fields_code(attribs, false)
}

/// The body of the `AttribsTmp` struct: a borrowed buffer per attribute.
pub fn attribs_tmp_code(attribs: &[VarInfo]) -> (r: Result<String, GenError>)
    ensures
        match r {
            Ok(s) => first_error(attribs@, true) is None && s@ == fields_text(
                attrib_decls(attribs@, true),
            ),
            Err(e) => first_error(attribs@, true) == Some(e),
        },
{
    buffer_fields_code(attribs, true)
}

/// The buffer handles of an `Attribs` (or `AttribsTmp`) value, in attribute order.
pub fn va_fields_code(attribs: &[VarInfo], as_ref: bool) -> (r: String)
    ensures
        r@ == va_text(attrib_names(attribs@), as_ref),
{
    let mut code = String::new();
    let mut i: usize = 0;
    while i < attribs.len()
        invariant
            i <= attribs@.len(),
            code@ == va_text(attrib_names(attribs@.take(i as int)), as_ref),
        decreases attribs@.len() - i,
    {
        let a = &attribs[i];
        if as_ref {
            code.append("&attribs.");
        } else {
            code.append("attribs.");
        }
        code.append(a.name.as_str());
        code.append(".0, ");
        proof {
            let ns = attrib_names(attribs@.take(i + 1));
            assert(ns.drop_last() =~= attrib_names(attribs@.take(i as int)));
        }
        i += 1;
    }
    proof {
        assert(attribs@.take(i as int) =~= attribs@);
    }
    code
}

/// The elements of `uniform_array()`, reading the values from `uniform_struct_id`.
pub fn uniform_values_code(uniforms: &[VarInfo], uniform_struct_id: &str) -> (r: Result<
    String,
    GenError,
>)
    ensures
        match r {
            Ok(s) => first_error(uniforms@, false) is None && s@ == entries_text(
                uniform_entries(uniforms@),
                uniform_struct_id@,
            ),
            Err(e) => first_error(uniforms@, false) == Some(e),
        },
{
    let mut code = String::new();
    let mut i: usize = 0;
    while i < uniforms.len()
        invariant
            i <= uniforms@.len(),
            forall|j: int| 0 <= j < i ==> var_error_of(#[trigger] uniforms@[j], false) is None,
            code@ == entries_text(uniform_entries(uniforms@.take(i as int)), uniform_struct_id@),
        decreases uniforms@.len() - i,
    {
        let u = &uniforms[i];
        let tag = match glsl_type_to_glust_uniform_enum(u.datatype) {
            Ok(t) => t,
            Err(e) => {
                proof {
                    lemma_first_error_at(uniforms@, i as int, false);
                }
                return Err(e);
            },
        };
        let name_str = quote_literal(u.name.as_str());
        code.append("(");
        code.append(name_str.as_str());
        code.append(", ");
        code.append(tag);
        code.append("(");
        code.append(uniform_struct_id);
        code.append(".");
        code.append(u.name.as_str());
        code.append(")), ");
        proof {
            let es = uniform_entries(uniforms@.take(i + 1));
            assert(es.drop_last() =~= uniform_entries(uniforms@.take(i as int)));
            assert(code@ =~= entries_text(es, uniform_struct_id@));
        }
        i += 1;
    }
    proof {
        assert(uniforms@.take(i as int) =~= uniforms@);
        lemma_first_error_none(uniforms@, false);
    }
    Ok(code)
}

/// Imports and the result type of a generated module.
pub const PRELUDE: &'static str = "use glust::GlBuffer;\n\
use glust::GlShader;\n\
use glust::HasGlVertexArrayHandle;\n\
use glust::GlVertexArray;\n\
use glust::GlVertexArrayTmp;\n\
use glust::GlShaderUniform;\n\
use glust::GlError;\n\
use renderer_glust::ShaderUniforms;\n\
type Result<T> = ::std::result::Result<T, GlError>;\n";

pub const VS_PATH_DECL: &'static str = "pub static VS_PATH : &'static str = ";

pub const FS_PATH_DECL: &'static str = "pub static FS_PATH : &'static str = ";

pub const VS_CODE_DECL: &'static str = "static VS_CODE : &'static str = ";

pub const FS_CODE_DECL: &'static str = "static FS_CODE : &'static str = ";

pub const END_ITEM: &'static str = ";\n";

pub const UNIFORMS_OPEN: &'static str = "pub struct Uniforms {\n";

pub const ATTRIBS_OPEN: &'static str = "pub struct Attribs {\n";

pub const ATTRIBS_TMP_OPEN: &'static str = "pub struct AttribsTmp<'a> {\n";

pub const CLOSE: &'static str = "}\n";

/// The wrapper types, up to the buffer list of `VertexArray::new`.
pub const VA_OPEN: &'static str = "pub struct Shader(pub GlShader);\n\
pub struct VertexArray(pub GlVertexArray);\n\
pub struct VertexArrayTmp<'a>(pub GlVertexArrayTmp<'a>);\n\
impl VertexArray {\n\
pub fn new(attribs : Attribs) -> Result<VertexArray> {\n\
Ok(VertexArray(GlVertexArray::new(vec![ ";

/// From the end of `VertexArray::new` to the buffer list of `VertexArrayTmp::new`.
pub const VA_TMP_OPEN: &'static str = "])?))\n\
}\n\
}\n\
impl<'a> VertexArrayTmp<'a> {\n\
pub fn new(attribs : AttribsTmp<'a>) -> Result<VertexArrayTmp<'a>> {\n\
Ok(VertexArrayTmp(GlVertexArrayTmp::new(vec![ ";

/// From the end of `VertexArrayTmp::new` to the entries of `uniform_array()`.
pub const IMPLS_OPEN: &'static str = "])?))\n\
}\n\
}\n\
impl ::renderer_glust::ShaderVertexArray for VertexArray {\n\
fn gl_vertex_array<'a>(&'a self) -> &'a GlVertexArray {\n\
&self.0\n\
}\n\
}\n\
impl ::renderer_glust::OfShader<Shader> for VertexArray {}\n\
impl<'a> ::renderer_glust::OfShader<Shader> for VertexArrayTmp<'a> {}\n\
impl HasGlVertexArrayHandle for VertexArray {\n\
fn gl_vao_handle(&self) -> u32 {\n\
self.0.gl_vao_handle()\n\
}\n\
}\n\
impl<'a> HasGlVertexArrayHandle for VertexArrayTmp<'a> {\n\
fn gl_vao_handle(&self) -> u32 {\n\
self.0.gl_vao_handle()\n\
}\n\
}\n\
impl ::renderer_glust::Shader for Shader {\n\
type VertexArray = VertexArray;\n\
type Uniforms = Uniforms;\n\
fn gl_shader<'a>(&'a self) -> &'a GlShader {\n\
&self.0\n\
}\n\
}\n\
impl ShaderUniforms for Uniforms {\n\
fn uniform_array(&self) -> Vec<(&str, GlShaderUniform)> {\n\
vec![ ";

/// From the end of `uniform_array()` to the end of the module.
pub const TAIL: &'static str = "]\n\
}\n\
}\n\
impl Shader {\n\
pub fn compile() -> Result<Self> {\n\
Ok(Shader(GlShader::compile(VS_CODE, FS_CODE)?))\n\
}\n\
}\n";

/// The constants of a module: the two paths and the two embedded sources.
pub open spec fn header_text(vp: Seq<char>, fp: Seq<char>, vs: Seq<char>, fs: Seq<char>) -> Seq<
    char,
> {
    PRELUDE@ + VS_PATH_DECL@ + quoted(vp) + END_ITEM@ + FS_PATH_DECL@ + quoted(fp) + END_ITEM@
        + VS_CODE_DECL@ + quoted(vs) + END_ITEM@ + FS_CODE_DECL@ + quoted(fs) + END_ITEM@
}

/// The `Uniforms`, `Attribs` and `AttribsTmp` structs of a module.
pub open spec fn structs_text(us: Seq<VarInfo>, ats: Seq<VarInfo>) -> Seq<char> {
    UNIFORMS_OPEN@ + fields_text(uniform_decls(us)) + CLOSE@ + ATTRIBS_OPEN@ + fields_text(
        attrib_decls(ats, false),
    ) + CLOSE@ + ATTRIBS_TMP_OPEN@ + fields_text(attrib_decls(ats, true)) + CLOSE@
}

/// The wrapper types and trait impls of a module.
pub open spec fn impls_text(us: Seq<VarInfo>, ats: Seq<VarInfo>) -> Seq<char> {
    VA_OPEN@ + va_text(attrib_names(ats), false) + VA_TMP_OPEN@ + va_text(attrib_names(ats), true)
        + IMPLS_OPEN@ + entries_text(uniform_entries(us), "self"@) + TAIL@
}

/// The binding module of a shader pair.
pub open spec fn module_text(
    vp: Seq<char>,
    fp: Seq<char>,
    vs: Seq<char>,
    fs: Seq<char>,
    us: Seq<VarInfo>,
    ats: Seq<VarInfo>,
) -> Seq<char> {
    header_text(vp, fp, vs, fs) + structs_text(us, ats) + impls_text(us, ats)
}

/// What generation gives: the first faulty uniform's error, else the first
/// faulty attribute's error, else the module.
pub open spec fn generated(
    r: Result<String, GenError>,
    vp: Seq<char>,
    fp: Seq<char>,
    vs: Seq<char>,
    fs: Seq<char>,
    us: Seq<VarInfo>,
    ats: Seq<VarInfo>,
) -> bool {
    match first_error(us, true) {
        Some(e) => r == Err::<String, GenError>(e),
        None => match first_error(ats, true) {
            Some(e) => r == Err::<String, GenError>(e),
            None => r is Ok && r->Ok_0@ == module_text(vp, fp, vs, fs, us, ats),
        },
    }
}

/// Generates the binding module of a shader pair from the paths and texts of
/// its two sources and the program's uniforms and (sorted) attributes.
pub fn generate_rust_module(
    vert_path: &str,
    frag_path: &str,
    vs_code: &str,
    fs_code: &str,
    uniforms: &[VarInfo],
    attribs_sorted: &[VarInfo],
) -> (r: Result<String, GenError>)
    ensures
        generated(r, vert_path@, frag_path@, vs_code@, fs_code@, uniforms@, attribs_sorted@),
{
    let uniform_fields = match uniforms_code(uniforms) {
        Ok(c) => c,
        Err(e) => {
            return Err(e);
        },
    };
    let attrib_fields = match attribs_code(attribs_sorted) {
        Ok(c) => c,
        Err(e) => {
            return Err(e);
        },
    };
    let attrib_tmp_fields = match attribs_tmp_code(attribs_sorted) {
        Ok(c) => c,
        Err(e) => {
            return Err(e);
        },
    };
    let vertex_array_fields = va_fields_code(attribs_sorted, false);
    let vertex_array_fields_ref = va_fields_code(attribs_sorted, true);
    proof {
        lemma_first_error_none(uniforms@, true);
        lemma_first_error_none(uniforms@, false);
        assert forall|j: int| 0 <= j < uniforms@.len() implies var_error_of(
            #[trigger] uniforms@[j],
            false,
        ) is None by {
            assert(var_error_of(uniforms@[j], true) is None);
        }
    }
    let uniform_values_self = match uniform_values_code(uniforms, "self") {
        Ok(c) => c,
        Err(e) => {
            return Err(e);
        },
    };

    let mut header = String::from_str(PRELUDE);
    header.append(VS_PATH_DECL);
    header.append(quote_literal(vert_path).as_str());
    header.append(END_ITEM);
    header.append(FS_PATH_DECL);
    header.append(quote_literal(frag_path).as_str());
    header.append(END_ITEM);
    header.append(VS_CODE_DECL);
    header.append(quote_literal(vs_code).as_str());
    header.append(END_ITEM);
    header.append(FS_CODE_DECL);
    header.append(quote_literal(fs_code).as_str());
    header.append(END_ITEM);
    assert(header@ =~= header_text(vert_path@, frag_path@, vs_code@, fs_code@));

    let mut structs = String::from_str(UNIFORMS_OPEN);
    structs.append(uniform_fields.as_str());
    structs.append(CLOSE);
    structs.append(ATTRIBS_OPEN);
    structs.append(attrib_fields.as_str());
    structs.append(CLOSE);
    structs.append(ATTRIBS_TMP_OPEN);
    structs.append(attrib_tmp_fields.as_str());
    structs.append(CLOSE);
    assert(structs@ =~= structs_text(uniforms@, attribs_sorted@));

    let mut impls = String::from_str(VA_OPEN);
    impls.append(vertex_array_fields.as_str());
    impls.append(VA_TMP_OPEN);
    impls.append(vertex_array_fields_ref.as_str());
    impls.append(IMPLS_OPEN);
    impls.append(uniform_values_self.as_str());
    impls.append(TAIL);
    assert(impls@ =~= impls_text(uniforms@, attribs_sorted@));

    let mut module = header;
    module.append(structs.as_str());
    module.append(impls.as_str());
    assert(module@ =~= module_text(
        vert_path@,
        frag_path@,
        vs_code@,
        fs_code@,
        uniforms@,
        attribs_sorted@,
    ));
    Ok(module)
}

} // verus!
