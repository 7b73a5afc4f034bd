use glust_codegen::codegen::{
    attribs_code, attribs_tmp_code, generate_rust_module, rust_buffer_field, rust_field,
    uniform_values_code, uniforms_code, va_fields_code,
};
use glust_codegen::error::GenError;
use glust_codegen::types::{
    glsl_type_to_glust_uniform_enum, glsl_type_to_rust, VarInfo, GL_FLOAT, GL_FLOAT_MAT4,
    GL_FLOAT_VEC2, GL_FLOAT_VEC3, GL_FLOAT_VEC4, GL_INT, GL_SAMPLER_2D,
};

const GL_BOOL: u32 = 0x8B56;

fn var(name: &str, datatype: u32, size: i32) -> VarInfo {
    VarInfo { name: name.to_string(), datatype, size }
}

fn generate(uniforms: &[VarInfo], attribs: &[VarInfo]) -> Result<String, GenError> {
    generate_rust_module(
        "/shaders/basic.vert",
        "/shaders/basic.frag",
        "attribute vec3 aPos;\nvoid main() {}\n",
        "void main() {}\n",
        uniforms,
        attribs,
    )
}

fn section<'a>(text: &'a str, open: &str, close: &str) -> &'a str {
    let start = text.find(open).expect("section start") + open.len();
    let len = text[start..].find(close).expect("section end");
    &text[start..start + len]
}

fn uniform_array_entries(text: &str) -> &str {
    section(text, "fn uniform_array(&self) -> Vec<(&str, GlShaderUniform)> {\nvec![ ", "]\n")
}

#[test]
fn minimal_module() {
    let text = generate(&[], &[var("aPos", GL_FLOAT_VEC3, 1)]).unwrap();
    assert_eq!(section(&text, "pub struct Attribs {\n", "}\n"), "pub aPos : GlBuffer<[f32;3]>,\n");
    assert_eq!(section(&text, "pub struct Uniforms {\n", "}\n"), "");
    assert_eq!(uniform_array_entries(&text), "");
}

#[test]
fn sampler_uniform() {
    let text = generate(&[var("uDiffuse", GL_SAMPLER_2D, 1)], &[]).unwrap();
    assert_eq!(section(&text, "pub struct Uniforms {\n", "}\n"), "pub uDiffuse : u32,\n");
    assert_eq!(
        uniform_array_entries(&text),
        "(\"uDiffuse\", GlShaderUniform::TextureHandle(self.uDiffuse)), "
    );
}

#[test]
fn full_pipeline() {
    let attribs = [
        var("aPos", GL_FLOAT_VEC3, 1),
        var("aNormal", GL_FLOAT_VEC3, 1),
        var("aUV", GL_FLOAT_VEC2, 1),
    ];
    let text = generate(&[var("uMVP", GL_FLOAT_MAT4, 1)], &attribs).unwrap();
    assert_eq!(
        section(&text, "pub struct Attribs {\n", "}\n"),
        "pub aPos : GlBuffer<[f32;3]>,\npub aNormal : GlBuffer<[f32;3]>,\npub aUV : GlBuffer<[f32;2]>,\n"
    );
    assert_eq!(
        section(&text, "pub struct AttribsTmp<'a> {\n", "}\n"),
        "pub aPos : &'a GlBuffer<[f32;3]>,\npub aNormal : &'a GlBuffer<[f32;3]>,\npub aUV : &'a GlBuffer<[f32;2]>,\n"
    );
    assert_eq!(
        section(&text, "Ok(VertexArray(GlVertexArray::new(vec![ ", "])"),
        "attribs.aPos.0, attribs.aNormal.0, attribs.aUV.0, "
    );
    assert_eq!(
        section(&text, "Ok(VertexArrayTmp(GlVertexArrayTmp::new(vec![ ", "])"),
        "&attribs.aPos.0, &attribs.aNormal.0, &attribs.aUV.0, "
    );
    assert_eq!(section(&text, "pub struct Uniforms {\n", "}\n"), "pub uMVP : [f32;16],\n");
    assert_eq!(uniform_array_entries(&text), "(\"uMVP\", GlShaderUniform::Mat4x4(self.uMVP)), ");
}

#[test]
fn unsupported_type() {
    let r = generate(&[var("uFlag", GL_BOOL, 1)], &[]);
    assert_eq!(r, Err(GenError::UnsupportedType(GL_BOOL)));
}

#[test]
fn unsupported_type_attribute() {
    let r = generate(&[], &[var("aPos", GL_FLOAT_VEC3, 1), var("aFlag", GL_BOOL, 1)]);
    assert_eq!(r, Err(GenError::UnsupportedType(GL_BOOL)));
}

#[test]
fn array_attribute() {
    let r = generate(&[], &[var("aPositions", GL_FLOAT_VEC3, 4)]);
    assert_eq!(
        r,
        Err(GenError::UnsupportedSize { size: 4, name: "aPositions".to_string() })
    );
}

#[test]
fn array_uniform() {
    let r = generate(&[var("uLights", GL_FLOAT_VEC4, 8)], &[]);
    assert_eq!(r, Err(GenError::UnsupportedSize { size: 8, name: "uLights".to_string() }));
}

#[test]
fn uniform_errors_come_first() {
    let r = generate(&[var("uLights", GL_FLOAT_VEC4, 2)], &[var("aFlag", GL_BOOL, 1)]);
    assert_eq!(r, Err(GenError::UnsupportedSize { size: 2, name: "uLights".to_string() }));
}

#[test]
fn type_is_checked_before_size() {
    let r = generate(&[var("uFlags", GL_BOOL, 3)], &[]);
    assert_eq!(r, Err(GenError::UnsupportedType(GL_BOOL)));
}

fn read_literal(lit: &str) -> String {
    assert!(lit.starts_with('"') && lit.ends_with('"'));
    let body = &lit[1..lit.len() - 1];
    let mut out = String::new();
    let mut chars = body.chars();
    while let Some(c) = chars.next() {
        if c == '\\' {
            match chars.next().unwrap() {
                'n' => out.push('\n'),
                'r' => out.push('\r'),
                't' => out.push('\t'),
                other => out.push(other),
            }
        } else {
            assert!(c != '"');
            out.push(c);
        }
    }
    out
}

#[test]
fn embedded_sources_read_back_exactly() {
    let vs = "// \"quoted\" \\ path C:\\dir\r\nattribute vec3 aPos;\n\tvoid main() { }\n";
    let fs = "precision mediump float;\nuniform sampler2D uDiffuse; // é ü\n";
    let text = generate_rust_module("/a/b.vert", "/a/b.frag", vs, fs, &[], &[]).unwrap();
    let vs_lit = section(&text, "static VS_CODE : &'static str = ", ";\n");
    let fs_lit = section(&text, "static FS_CODE : &'static str = ", ";\n");
    assert_eq!(read_literal(vs_lit), vs);
    assert_eq!(read_literal(fs_lit), fs);
    assert_eq!(read_literal(section(&text, "pub static VS_PATH : &'static str = ", ";\n")), "/a/b.vert");
    assert_eq!(read_literal(section(&text, "pub static FS_PATH : &'static str = ", ";\n")), "/a/b.frag");
}

#[test]
fn uniform_array_has_one_entry_per_uniform() {
    let uniforms = [
        var("uTime", GL_FLOAT, 1),
        var("uColor", GL_FLOAT_VEC4, 1),
        var("uCount", GL_INT, 1),
    ];
    let text = generate(&uniforms, &[]).unwrap();
    let entries = uniform_array_entries(&text);
    assert_eq!(entries.matches("GlShaderUniform::").count(), 3);
    assert_eq!(
        entries,
        "(\"uTime\", GlShaderUniform::Float(self.uTime)), (\"uColor\", GlShaderUniform::Vec4(self.uColor)), (\"uCount\", GlShaderUniform::Int(self.uCount)), "
    );
    assert_eq!(
        section(&text, "pub struct Uniforms {\n", "}\n"),
        "pub uTime : f32,\npub uColor : [f32;4],\npub uCount : i32,\n"
    );
}

#[test]
fn attribs_tmp_mirrors_attribs() {
    let attribs = [var("aColor", GL_FLOAT_VEC4, 1), var("aId", GL_INT, 1)];
    let text = generate(&[], &attribs).unwrap();
    let owned = section(&text, "pub struct Attribs {\n", "}\n");
    let tmp = section(&text, "pub struct AttribsTmp<'a> {\n", "}\n");
    assert_eq!(owned.lines().count(), tmp.lines().count());
    for (o, t) in owned.lines().zip(tmp.lines()) {
        let (oname, otype) = o.split_once(" : ").unwrap();
        let (tname, ttype) = t.split_once(" : ").unwrap();
        assert_eq!(oname, tname);
        assert_eq!(ttype, format!("&'a {}", otype));
    }
}

#[test]
fn generation_is_deterministic() {
    let uniforms = [var("uMVP", GL_FLOAT_MAT4, 1), var("uTex", GL_SAMPLER_2D, 1)];
    let attribs = [var("aPos", GL_FLOAT_VEC3, 1), var("aUV", GL_FLOAT_VEC2, 1)];
    assert_eq!(generate(&uniforms, &attribs), generate(&uniforms, &attribs));
}

#[test]
fn module_ends_with_compile_entry() {
    let text = generate(&[], &[]).unwrap();
    assert!(text.starts_with("use glust::GlBuffer;\n"));
    assert!(text.ends_with(
        "impl Shader {\npub fn compile() -> Result<Self> {\nOk(Shader(GlShader::compile(VS_CODE, FS_CODE)?))\n}\n}\n"
    ));
}

#[test]
fn type_tables() {
    let cases = [
        (GL_FLOAT, "f32", "GlShaderUniform::Float"),
        (GL_FLOAT_VEC2, "[f32;2]", "GlShaderUniform::Vec2"),
        (GL_FLOAT_VEC3, "[f32;3]", "GlShaderUniform::Vec3"),
        (GL_FLOAT_VEC4, "[f32;4]", "GlShaderUniform::Vec4"),
        (GL_FLOAT_MAT4, "[f32;16]", "GlShaderUniform::Mat4x4"),
        (GL_SAMPLER_2D, "u32", "GlShaderUniform::TextureHandle"),
        (GL_INT, "i32", "GlShaderUniform::Int"),
    ];
    for (t, host, tag) in cases {
        assert_eq!(glsl_type_to_rust(t), Ok(host));
        assert_eq!(glsl_type_to_glust_uniform_enum(t), Ok(tag));
    }
    assert_eq!(glsl_type_to_rust(GL_BOOL), Err(GenError::UnsupportedType(GL_BOOL)));
    assert_eq!(
        glsl_type_to_glust_uniform_enum(GL_BOOL),
        Err(GenError::UnsupportedType(GL_BOOL))
    );
}

#[test]
fn gl_enum_values_match_gl() {
    assert_eq!(GL_FLOAT, gl::FLOAT);
    assert_eq!(GL_FLOAT_VEC2, gl::FLOAT_VEC2);
    assert_eq!(GL_FLOAT_VEC3, gl::FLOAT_VEC3);
    assert_eq!(GL_FLOAT_VEC4, gl::FLOAT_VEC4);
    assert_eq!(GL_FLOAT_MAT4, gl::FLOAT_MAT4);
    assert_eq!(GL_SAMPLER_2D, gl::SAMPLER_2D);
    assert_eq!(GL_INT, gl::INT);
    assert_eq!(GL_BOOL, gl::BOOL);
}

#[test]
fn field_pieces() {
    let name = "uTime".to_string();
    assert_eq!(rust_field(&name, GL_FLOAT, 1), Ok("pub uTime : f32".to_string()));
    assert_eq!(
        rust_buffer_field(&name, GL_FLOAT, 1, false),
        Ok("pub uTime : GlBuffer<f32>".to_string())
    );
    assert_eq!(
        rust_buffer_field(&name, GL_FLOAT, 1, true),
        Ok("pub uTime : &'a GlBuffer<f32>".to_string())
    );
    assert_eq!(
        rust_field(&name, GL_FLOAT, 2),
        Err(GenError::UnsupportedSize { size: 2, name: name.clone() })
    );
    let attribs = [var("aPos", GL_FLOAT_VEC3, 1), var("aUV", GL_FLOAT_VEC2, 1)];
    assert_eq!(
        attribs_code(&attribs),
        Ok("pub aPos : GlBuffer<[f32;3]>,\npub aUV : GlBuffer<[f32;2]>,\n".to_string())
    );
    assert_eq!(
        attribs_tmp_code(&attribs),
        Ok("pub aPos : &'a GlBuffer<[f32;3]>,\npub aUV : &'a GlBuffer<[f32;2]>,\n".to_string())
    );
    assert_eq!(va_fields_code(&attribs, false), "attribs.aPos.0, attribs.aUV.0, ");
    assert_eq!(va_fields_code(&attribs, true), "&attribs.aPos.0, &attribs.aUV.0, ");
    let uniforms = [var("uTime", GL_FLOAT, 1)];
    assert_eq!(uniforms_code(&uniforms), Ok("pub uTime : f32,\n".to_string()));
    assert_eq!(
        uniform_values_code(&uniforms, "u"),
        Ok("(\"uTime\", GlShaderUniform::Float(u.uTime)), ".to_string())
    );
    // sizes are not looked at when listing uniform values
    assert!(uniform_values_code(&[var("uArr", GL_FLOAT, 3)], "self").is_ok());
    assert_eq!(
        uniform_values_code(&[var("uFlag", GL_BOOL, 1)], "self"),
        Err(GenError::UnsupportedType(GL_BOOL))
    );
}
