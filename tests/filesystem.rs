use glust_codegen::error::{GenError, OptErr};
use glust_codegen::filesystem::{
    check_pair, file_slot, output_path, pair_shader_files, DirFile, ShaderSlot,
};

fn file(dir: &str, stem: &str, ext: Option<&str>) -> DirFile {
    let path = match ext {
        Some(e) => format!("{}/{}.{}", dir, stem, e),
        None => format!("{}/{}", dir, stem),
    };
    DirFile { path, stem: stem.to_string(), extension: ext.map(|e| e.to_string()) }
}

#[test]
fn unpaired_file() {
    let pairs = pair_shader_files(&vec![file("shaders", "orphan", Some("vert"))]);
    assert_eq!(pairs.len(), 1);
    assert_eq!(pairs[0].stem, "orphan");
    assert_eq!(pairs[0].path_vert.as_deref(), Some("shaders/orphan.vert"));
    assert_eq!(pairs[0].path_frag, None);
    assert_eq!(
        check_pair(&pairs[0]),
        Err(GenError::MissingFragment("shaders/orphan.vert".to_string()))
    );
}

#[test]
fn missing_vertex_shader() {
    let pairs = pair_shader_files(&vec![file("s", "lone", Some("frag"))]);
    assert_eq!(
        check_pair(&pairs[0]),
        Err(GenError::MissingVertex("s/lone.frag".to_string()))
    );
}

#[test]
fn pairs_by_stem() {
    let files = vec![
        file("lit", "basic", Some("frag")),
        file("lit", "README", Some("md")),
        file("lit", "sky", Some("vert")),
        file("lit", "basic", Some("vert")),
        file("lit", "Makefile", None),
        file("lit", "sky", Some("frag")),
    ];
    let pairs = pair_shader_files(&files);
    assert_eq!(pairs.len(), 2);
    let basic = pairs.iter().find(|p| p.stem == "basic").unwrap();
    let sky = pairs.iter().find(|p| p.stem == "sky").unwrap();
    assert_eq!(
        check_pair(basic),
        Ok(("lit/basic.vert".to_string(), "lit/basic.frag".to_string()))
    );
    assert_eq!(check_pair(sky), Ok(("lit/sky.vert".to_string(), "lit/sky.frag".to_string())));
}

#[test]
fn other_files_are_ignored() {
    let files = vec![file("d", "notes", Some("txt")), file("d", "vert", None)];
    assert!(pair_shader_files(&files).is_empty());
    assert!(pair_shader_files(&vec![]).is_empty());
}

#[test]
fn slots_by_extension() {
    assert_eq!(file_slot(&file("d", "a", Some("vert"))), Some(ShaderSlot::Vertex));
    assert_eq!(file_slot(&file("d", "a", Some("frag"))), Some(ShaderSlot::Fragment));
    assert_eq!(file_slot(&file("d", "a", Some("glsl"))), None);
    assert_eq!(file_slot(&file("d", "a", None)), None);
}

#[test]
fn output_next_to_vertex_shader() {
    assert_eq!(output_path("shaders/lit", "basic"), "shaders/lit/basic.rs");
}

#[test]
fn missing_value() {
    assert_eq!(Some(3).ok(), Ok(3));
    assert_eq!(None::<u8>.ok(), Err(GenError::MissingValue));
}
