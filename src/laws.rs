use vstd::prelude::*;
use crate::codegen::{
    first_error, var_error_of, lemma_first_error_none,
    module_text, generated, header_text, structs_text, impls_text, fields_text, uniform_decls,
    attrib_decls, attrib_names, owned_buffer_type, va_text, uniform_entries, entries_text, PRELUDE,
    VS_PATH_DECL, FS_PATH_DECL, VS_CODE_DECL, FS_CODE_DECL, END_ITEM, UNIFORMS_OPEN, ATTRIBS_OPEN,
    ATTRIBS_TMP_OPEN, CLOSE, VA_OPEN, VA_TMP_OPEN, IMPLS_OPEN, TAIL,
};
use crate::error::GenError;
use crate::escape::{escape, unescape, quoted, lemma_unescape_escape};
use crate::types::{VarInfo, host_type, uniform_tag};

verus! {

/// Every uniform has exactly one field of `Uniforms`, in the order the
/// uniforms were given, named as the uniform and typed after its GL type.
pub proof fn lemma_uniform_fields(
    vp: Seq<char>,
    fp: Seq<char>,
    vs: Seq<char>,
    fs: Seq<char>,
    us: Seq<VarInfo>,
    ats: Seq<VarInfo>,
)
    ensures
        exists|pre: Seq<char>, post: Seq<char>|
            module_text(vp, fp, vs, fs, us, ats) == pre + UNIFORMS_OPEN@ + fields_text(
                uniform_decls(us),
            ) + CLOSE@ + post,
        uniform_decls(us).len() == us.len(),
        forall|i: int|
            0 <= i < us.len() ==> #[trigger] uniform_decls(us)[i] == (
            us[i].name@,
            host_type(us[i].datatype),
        ),
{
    let pre = header_text(vp, fp, vs, fs);
    let post = ATTRIBS_OPEN@ + fields_text(attrib_decls(ats, false)) + CLOSE@ + ATTRIBS_TMP_OPEN@
        + fields_text(attrib_decls(ats, true)) + CLOSE@ + impls_text(us, ats);
    assert(module_text(vp, fp, vs, fs, us, ats) =~= pre + UNIFORMS_OPEN@ + fields_text(
        uniform_decls(us),
    ) + CLOSE@ + post);
}

/// The fields of `Attribs`, and the buffers handed to the vertex-array
/// constructor, follow the order of the sorted attributes.
#[verifier::rlimit(60)]
pub proof fn lemma_attrib_order(
    vp: Seq<char>,
    fp: Seq<char>,
    vs: Seq<char>,
    fs: Seq<char>,
    us: Seq<VarInfo>,
    ats: Seq<VarInfo>,
)
    ensures
        exists|pre: Seq<char>, post: Seq<char>|
            module_text(vp, fp, vs, fs, us, ats) == pre + ATTRIBS_OPEN@ + fields_text(
                attrib_decls(ats, false),
            ) + CLOSE@ + post,
        exists|pre: Seq<char>, post: Seq<char>|
            module_text(vp, fp, vs, fs, us, ats) == pre + VA_OPEN@ + va_text(
                attrib_names(ats),
                false,
            ) + VA_TMP_OPEN@ + post,
        attrib_decls(ats, false).len() == ats.len(),
        attrib_names(ats).len() == ats.len(),
        forall|i: int|
            0 <= i < ats.len() ==> #[trigger] attrib_decls(ats, false)[i] == (
            ats[i].name@,
            owned_buffer_type(ats[i].datatype),
        ) && attrib_names(ats)[i] == ats[i].name@,
{
    let h = header_text(vp, fp, vs, fs);
    let pre = h + UNIFORMS_OPEN@ + fields_text(uniform_decls(us)) + CLOSE@;
    let post = ATTRIBS_TMP_OPEN@ + fields_text(attrib_decls(ats, true)) + CLOSE@ + impls_text(
        us,
        ats,
    );
    assert(module_text(vp, fp, vs, fs, us, ats) =~= pre + ATTRIBS_OPEN@ + fields_text(
        attrib_decls(ats, false),
    ) + CLOSE@ + post);
    let pre2 = h + structs_text(us, ats);
    let post2 = va_text(attrib_names(ats), true) + IMPLS_OPEN@ + entries_text(
        uniform_entries(us),
        "self"@,
    ) + TAIL@;
    assert(module_text(vp, fp, vs, fs, us, ats) =~= pre2 + VA_OPEN@ + va_text(
        attrib_names(ats),
        false,
    ) + VA_TMP_OPEN@ + post2);
}

/// The embedded sources are string literals that read back as exactly the
/// texts of the two shader files.
pub proof fn lemma_embedded_sources(
    vp: Seq<char>,
    fp: Seq<char>,
    vs: Seq<char>,
    fs: Seq<char>,
    us: Seq<VarInfo>,
    ats: Seq<VarInfo>,
)
    ensures
        exists|pre: Seq<char>, post: Seq<char>|
            module_text(vp, fp, vs, fs, us, ats) == pre + VS_CODE_DECL@ + quoted(vs) + END_ITEM@
                + FS_CODE_DECL@ + quoted(fs) + END_ITEM@ + post,
        quoted(vs) == seq!['"'] + escape(vs) + seq!['"'],
        quoted(fs) == seq!['"'] + escape(fs) + seq!['"'],
        unescape(escape(vs)) == vs,
        unescape(escape(fs)) == fs,
{
    let pre = PRELUDE@ + VS_PATH_DECL@ + quoted(vp) + END_ITEM@ + FS_PATH_DECL@ + quoted(fp)
        + END_ITEM@;
    let post = structs_text(us, ats) + impls_text(us, ats);
    assert(module_text(vp, fp, vs, fs, us, ats) =~= pre + VS_CODE_DECL@ + quoted(vs) + END_ITEM@
        + FS_CODE_DECL@ + quoted(fs) + END_ITEM@ + post);
    lemma_unescape_escape(vs);
    lemma_unescape_escape(fs);
}

/// `AttribsTmp` has the fields of `Attribs`, same count, names and order,
/// each a borrow for the one lifetime `'a` of the owned buffer type.
pub proof fn lemma_attribs_tmp_shape(
    vp: Seq<char>,
    fp: Seq<char>,
    vs: Seq<char>,
    fs: Seq<char>,
    us: Seq<VarInfo>,
    ats: Seq<VarInfo>,
)
    ensures
        exists|pre: Seq<char>, post: Seq<char>|
            module_text(vp, fp, vs, fs, us, ats) == pre + ATTRIBS_TMP_OPEN@ + fields_text(
                attrib_decls(ats, true),
            ) + CLOSE@ + post,
        attrib_decls(ats, true).len() == attrib_decls(ats, false).len(),
        forall|i: int|
            0 <= i < ats.len() ==> (#[trigger] attrib_decls(ats, true)[i]).0 == attrib_decls(
                ats,
                false,
            )[i].0 && attrib_decls(ats, true)[i].1 == "&'a "@ + attrib_decls(ats, false)[i].1,
{
    let pre = header_text(vp, fp, vs, fs) + UNIFORMS_OPEN@ + fields_text(uniform_decls(us))
        + CLOSE@ + ATTRIBS_OPEN@ + fields_text(attrib_decls(ats, false)) + CLOSE@;
    let post = impls_text(us, ats);
    assert(module_text(vp, fp, vs, fs, us, ats) =~= pre + ATTRIBS_TMP_OPEN@ + fields_text(
        attrib_decls(ats, true),
    ) + CLOSE@ + post);
}

/// `uniform_array()` yields one entry per uniform, named as the fields of
/// `Uniforms` in their order, each tagged after the uniform's GL type.
pub proof fn lemma_uniform_array(
    vp: Seq<char>,
    fp: Seq<char>,
    vs: Seq<char>,
    fs: Seq<char>,
    us: Seq<VarInfo>,
    ats: Seq<VarInfo>,
)
    ensures
        exists|pre: Seq<char>|
            module_text(vp, fp, vs, fs, us, ats) == pre + IMPLS_OPEN@ + entries_text(
                uniform_entries(us),
                "self"@,
            ) + TAIL@,
        uniform_entries(us).len() == us.len(),
        forall|i: int|
            0 <= i < us.len() ==> (#[trigger] uniform_entries(us)[i]).0 == uniform_decls(us)[i].0
                && uniform_entries(us)[i].1 == uniform_tag(us[i].datatype),
{
    let pre = header_text(vp, fp, vs, fs) + structs_text(us, ats) + VA_OPEN@ + va_text(
        attrib_names(ats),
        false,
    ) + VA_TMP_OPEN@ + va_text(attrib_names(ats), true);
    assert(module_text(vp, fp, vs, fs, us, ats) =~= pre + IMPLS_OPEN@ + entries_text(
        uniform_entries(us),
        "self"@,
    ) + TAIL@);
}

/// Generating twice from the same input gives the same text, or the same error.
pub proof fn lemma_generation_deterministic(
    r1: Result<String, GenError>,
    r2: Result<String, GenError>,
    vp: Seq<char>,
    fp: Seq<char>,
    vs: Seq<char>,
    fs: Seq<char>,
    us: Seq<VarInfo>,
    ats: Seq<VarInfo>,
)
    requires
        generated(r1, vp, fp, vs, fs, us, ats),
        generated(r2, vp, fp, vs, fs, us, ats),
    ensures
        match (r1, r2) {
            (Ok(a), Ok(b)) => a@ == b@,
            (Err(a), Err(b)) => a == b,
            _ => false,
        },
{
}

proof fn lemma_first_error_kind(s: Seq<VarInfo>)
    ensures
        first_error(s, true) matches Some(e) ==> (e is UnsupportedType || e is UnsupportedSize),
    decreases s.len(),
{
    if s.len() > 0 {
        lemma_first_error_kind(s.drop_first());
    }
}

/// Generation fails exactly when some uniform or attribute has an
/// unsupported type or a size other than 1, and then with one of those two
/// kinds of error.
pub proof fn lemma_unsupported_fails(
    r: Result<String, GenError>,
    vp: Seq<char>,
    fp: Seq<char>,
    vs: Seq<char>,
    fs: Seq<char>,
    us: Seq<VarInfo>,
    ats: Seq<VarInfo>,
)
    requires
        generated(r, vp, fp, vs, fs, us, ats),
    ensures
        r is Err <==> (exists|i: int| 0 <= i < us.len() && var_error_of(#[trigger] us[i], true) is Some)
            || (exists|i: int| 0 <= i < ats.len() && var_error_of(#[trigger] ats[i], true) is Some),
        r matches Err(e) ==> (e is UnsupportedType || e is UnsupportedSize),
{
    lemma_first_error_none(us, true);
    lemma_first_error_none(ats, true);
    lemma_first_error_kind(us);
    lemma_first_error_kind(ats);
}

} // verus!
