use vstd::prelude::*;
use crate::error::GenError;

verus! {

/// A regular file of one directory level: its path, its file stem and its
/// extension, if it has one.
#[derive(Debug, Clone)]
pub struct DirFile {
    pub path: String,
    pub stem: String,
    pub extension: Option<String>,
}

/// The shader files of one directory level that share a stem. A side that
/// was not found is `None`.
#[derive(Debug, Clone)]
pub struct ShaderResource {
    pub stem: String,
    pub path_vert: Option<String>,
    pub path_frag: Option<String>,
}

/// The two shader stages.
#[derive(Debug, PartialEq, Eq, Structural, Clone, Copy)]
pub enum ShaderSlot {
    Vertex,
    Fragment,
}

/// The stage a file's extension assigns it to: `.vert` or `.frag`.
pub open spec fn shader_slot(f: DirFile) -> Option<ShaderSlot> {
    match f.extension {
        Some(e) => if e@ == "vert"@ {
            Some(ShaderSlot::Vertex)
        } else if e@ == "frag"@ {
            Some(ShaderSlot::Fragment)
        } else {
            None
        },
        None => None,
    }
}

pub open spec fn opt_view(o: Option<String>) -> Option<Seq<char>> {
    match o {
        Some(s) => Some(s@),
        None => None,
    }
}

/// The path of the last file of `files` with stem `stem` in stage `slot`.
pub open spec fn last_in_slot(files: Seq<DirFile>, stem: Seq<char>, slot: ShaderSlot) -> Option<
    Seq<char>,
>
    decreases files.len(),
{
    if files.len() == 0 {
        None
    } else if files.last().stem@ == stem && shader_slot(files.last()) == Some(slot) {
        Some(files.last().path@)
    } else {
        last_in_slot(files.drop_last(), stem, slot)
    }
}

/// `res` groups the shader files of `files` by stem: one entry per stem
/// that a shader file has, and in each slot the path of that stem's file of
/// that stage (the last one, should there be several).
pub open spec fn grouped(files: Seq<DirFile>, res: Seq<ShaderResource>) -> bool {
    &&& forall|j: int, k: int|
        #![trigger res[j], res[k]]
        0 <= j < k < res.len() ==> res[j].stem@ != res[k].stem@
    &&& forall|j: int|
        #![trigger res[j]]
        0 <= j < res.len() ==> exists|f: int|
            0 <= f < files.len() && shader_slot(#[trigger] files[f]) is Some && files[f].stem@
                == res[j].stem@
    &&& forall|f: int|
        0 <= f < files.len() && shader_slot(#[trigger] files[f]) is Some ==> exists|j: int|
            0 <= j < res.len() && (#[trigger] res[j]).stem@ == files[f].stem@
    &&& forall|j: int|
        #![trigger res[j]]
        0 <= j < res.len() ==> opt_view(res[j].path_vert) == last_in_slot(
            files,
            res[j].stem@,
            ShaderSlot::Vertex,
        ) && opt_view(res[j].path_frag) == last_in_slot(files, res[j].stem@, ShaderSlot::Fragment)
}

/// The stage of a file, by its extension.
pub fn file_slot(f: &DirFile) -> (r: Option<ShaderSlot>)
    ensures
        r == shader_slot(*f),
{
    match &f.extension {
        Some(e) => {
            let vert = String::from_str("vert");
            let frag = String::from_str("frag");
            if *e == vert {
                Some(ShaderSlot::Vertex)
            } else if *e == frag {
                Some(ShaderSlot::Fragment)
            } else {
                None
            }
        },
        None => None,
    }
}

fn clone_path(o: &Option<String>) -> (r: Option<String>)
    ensures
        r == *o,
{
    match o {
        Some(p) => Some(p.clone()),
        None => None,
    }
}

pub proof fn lemma_last_in_slot_absent(files: Seq<DirFile>, stem: Seq<char>, slot: ShaderSlot)
    requires
        forall|f: int|
            0 <= f < files.len() ==> !(#[trigger] files[f].stem@ == stem && shader_slot(files[f])
                is Some),
    ensures
        last_in_slot(files, stem, slot) is None,
    decreases files.len(),
{
    if files.len() > 0 {
        let rest = files.drop_last();
        assert forall|f: int| 0 <= f < rest.len() implies !(#[trigger] rest[f].stem@ == stem
            && shader_slot(rest[f]) is Some) by {
            assert(rest[f] == files[f]);
        }
        assert(files.last() == files[files.len() - 1]);
        lemma_last_in_slot_absent(rest, stem, slot);
    }
}

/// One more file that is no shader keeps a grouping.
proof fn lemma_grouped_skip(prev: Seq<DirFile>, f: DirFile, res: Seq<ShaderResource>)
    requires
        grouped(prev, res),
        shader_slot(f) is None,
    ensures
        grouped(prev.push(f), res),
{
    let next = prev.push(f);
    assert(next.drop_last() =~= prev);
    assert forall|j: int| #![trigger res[j]] 0 <= j < res.len() implies exists|w: int|
        0 <= w < next.len() && shader_slot(#[trigger] next[w]) is Some && next[w].stem@
            == res[j].stem@ by {
        let w = choose|w: int|
            0 <= w < prev.len() && shader_slot(#[trigger] prev[w]) is Some && prev[w].stem@
                == res[j].stem@;
        assert(next[w] == prev[w]);
    }
    assert forall|w: int| 0 <= w < next.len() && shader_slot(#[trigger] next[w]) is Some implies exists|
        j: int,
    | 0 <= j < res.len() && (#[trigger] res[j]).stem@ == next[w].stem@ by {
        assert(w < prev.len());
        assert(next[w] == prev[w]);
    }
}

/// The path a shader file leaves in `slot`, or what stood there before.
pub open spec fn slot_after(f: DirFile, slot: ShaderSlot, before: Option<Seq<char>>) -> Option<
    Seq<char>,
> {
    if shader_slot(f) == Some(slot) {
        Some(f.path@)
    } else {
        before
    }
}

/// One more shader file whose stem has an entry updates that entry.
proof fn lemma_grouped_update(
    prev: Seq<DirFile>,
    f: DirFile,
    old: Seq<ShaderResource>,
    j: int,
    new: Seq<ShaderResource>,
)
    requires
        grouped(prev, old),
        shader_slot(f) is Some,
        0 <= j < old.len(),
        old[j].stem@ == f.stem@,
        new.len() == old.len(),
        forall|k: int| 0 <= k < old.len() && k != j ==> new[k] == old[k],
        new[j].stem@ == f.stem@,
        opt_view(new[j].path_vert) == slot_after(f, ShaderSlot::Vertex, opt_view(old[j].path_vert)),
        opt_view(new[j].path_frag) == slot_after(
            f,
            ShaderSlot::Fragment,
            opt_view(old[j].path_frag),
        ),
    ensures
        grouped(prev.push(f), new),
{
    let next = prev.push(f);
    assert(next.drop_last() =~= prev);
    assert(next.last() == f);
    assert forall|a: int, b: int| #![trigger new[a], new[b]] 0 <= a < b < new.len() implies new[a].stem@
        != new[b].stem@ by {
        assert(new[a].stem@ == old[a].stem@);
        assert(new[b].stem@ == old[b].stem@);
    }
    assert forall|k: int| #![trigger new[k]] 0 <= k < new.len() implies exists|w: int|
        0 <= w < next.len() && shader_slot(#[trigger] next[w]) is Some && next[w].stem@
            == new[k].stem@ by {
        assert(new[k].stem@ == old[k].stem@);
        let w = choose|w: int|
            0 <= w < prev.len() && shader_slot(#[trigger] prev[w]) is Some && prev[w].stem@
                == old[k].stem@;
        assert(next[w] == prev[w]);
    }
    assert forall|w: int| 0 <= w < next.len() && shader_slot(#[trigger] next[w]) is Some implies exists|
        k: int,
    | 0 <= k < new.len() && (#[trigger] new[k]).stem@ == next[w].stem@ by {
        if w < prev.len() {
            assert(next[w] == prev[w]);
            let k = choose|k: int| 0 <= k < old.len() && (#[trigger] old[k]).stem@ == prev[w].stem@;
            assert(new[k].stem@ == old[k].stem@);
        } else {
            assert(new[j].stem@ == next[w].stem@);
        }
    }
    assert forall|k: int| #![trigger new[k]] 0 <= k < new.len() implies opt_view(new[k].path_vert)
        == last_in_slot(next, new[k].stem@, ShaderSlot::Vertex) && opt_view(new[k].path_frag)
        == last_in_slot(next, new[k].stem@, ShaderSlot::Fragment) by {
        if k != j {
            assert(new[k] == old[k]);
            assert(old[k].stem@ != old[j].stem@);
        }
    }
}

/// One more shader file whose stem has no entry yet adds one.
proof fn lemma_grouped_push(
    prev: Seq<DirFile>,
    f: DirFile,
    old: Seq<ShaderResource>,
    new: Seq<ShaderResource>,
)
    requires
        grouped(prev, old),
        shader_slot(f) is Some,
        forall|k: int| 0 <= k < old.len() ==> old[k].stem@ != f.stem@,
        new.len() == old.len() + 1,
        forall|k: int| 0 <= k < old.len() ==> new[k] == old[k],
        new[old.len() as int].stem@ == f.stem@,
        opt_view(new[old.len() as int].path_vert) == slot_after(f, ShaderSlot::Vertex, None),
        opt_view(new[old.len() as int].path_frag) == slot_after(f, ShaderSlot::Fragment, None),
    ensures
        grouped(prev.push(f), new),
{
    let next = prev.push(f);
    let n = old.len() as int;
    assert(next.drop_last() =~= prev);
    assert(next.last() == f);
    assert forall|w: int| 0 <= w < prev.len() implies !(#[trigger] prev[w].stem@ == f.stem@
        && shader_slot(prev[w]) is Some) by {
        if prev[w].stem@ == f.stem@ && shader_slot(prev[w]) is Some {
            let k = choose|k: int| 0 <= k < old.len() && (#[trigger] old[k]).stem@ == prev[w].stem@;
        }
    }
    lemma_last_in_slot_absent(prev, f.stem@, ShaderSlot::Vertex);
    lemma_last_in_slot_absent(prev, f.stem@, ShaderSlot::Fragment);
    assert forall|a: int, b: int| #![trigger new[a], new[b]] 0 <= a < b < new.len() implies new[a].stem@
        != new[b].stem@ by {
        assert(new[a] == old[a]);
        if b < n {
            assert(new[b] == old[b]);
        }
    }
    assert forall|k: int| #![trigger new[k]] 0 <= k < new.len() implies exists|w: int|
        0 <= w < next.len() && shader_slot(#[trigger] next[w]) is Some && next[w].stem@
            == new[k].stem@ by {
        if k < n {
            assert(new[k] == old[k]);
            let w = choose|w: int|
                0 <= w < prev.len() && shader_slot(#[trigger] prev[w]) is Some && prev[w].stem@
                    == old[k].stem@;
            assert(next[w] == prev[w]);
        } else {
            assert(next[prev.len() as int] == f);
        }
    }
    assert forall|w: int| 0 <= w < next.len() && shader_slot(#[trigger] next[w]) is Some implies exists|
        k: int,
    | 0 <= k < new.len() && (#[trigger] new[k]).stem@ == next[w].stem@ by {
        if w < prev.len() {
            assert(next[w] == prev[w]);
            let k = choose|k: int| 0 <= k < old.len() && (#[trigger] old[k]).stem@ == prev[w].stem@;
            assert(new[k] == old[k]);
        } else {
            assert(new[n].stem@ == next[w].stem@);
        }
    }
    assert forall|k: int| #![trigger new[k]] 0 <= k < new.len() implies opt_view(new[k].path_vert)
        == last_in_slot(next, new[k].stem@, ShaderSlot::Vertex) && opt_view(new[k].path_frag)
        == last_in_slot(next, new[k].stem@, ShaderSlot::Fragment) by {
        if k < n {
            assert(new[k] == old[k]);
        }
    }
}

/// Groups the files of one directory level into shader pairs by stem.
pub fn pair_shader_files(files: &Vec<DirFile>) -> (r: Vec<ShaderResource>)
    ensures
        grouped(files@, r@),
{
    let mut ret: Vec<ShaderResource> = Vec::new();
    let mut i: usize = 0;
    while i < files.len()
        invariant
            i <= files@.len(),
            grouped(files@.take(i as int), ret@),
        decreases files@.len() - i,
    {
        let f = &files[i];
        let ghost prev = files@.take(i as int);
        let ghost next = files@.take(i + 1);
        proof {
            assert(next =~= prev.push(*f));
            assert(next.drop_last() =~= prev);
        }
        match file_slot(f) {
            None => {
                proof {
                    lemma_grouped_skip(prev, *f, ret@);
                }
            },
            Some(slot) => {
                let mut j: usize = 0;
                let mut found = false;
                while j < ret.len() && !found
                    invariant
                        j <= ret@.len(),
                        found ==> j < ret@.len() && ret@[j as int].stem@ == f.stem@,
                        !found ==> forall|k: int| 0 <= k < j ==> ret@[k].stem@ != f.stem@,
                    decreases ret@.len() - j + (if found {
                        0int
                    } else {
                        1int
                    }),
                {
                    if ret[j].stem == f.stem {
                        found = true;
                    } else {
                        j += 1;
                    }
                }
                let ghost old_ret = ret@;
                if found {
                    let old_vert = clone_path(&ret[j].path_vert);
                    let old_frag = clone_path(&ret[j].path_frag);
                    let e = ShaderResource {
                        stem: f.stem.clone(),
                        path_vert: if slot == ShaderSlot::Vertex {
                            Some(f.path.clone())
                        } else {
                            old_vert
                        },
                        path_frag: if slot == ShaderSlot::Fragment {
                            Some(f.path.clone())
                        } else {
                            old_frag
                        },
                    };
                    ret.set(j, e);
                    proof {
                        lemma_grouped_update(prev, *f, old_ret, j as int, ret@);
                    }
                } else {
                    let e = ShaderResource {
                        stem: f.stem.clone(),
                        path_vert: if slot == ShaderSlot::Vertex {
                            Some(f.path.clone())
                        } else {
                            None
                        },
                        path_frag: if slot == ShaderSlot::Fragment {
                            Some(f.path.clone())
                        } else {
                            None
                        },
                    };
                    ret.push(e);
                    proof {
                        lemma_grouped_push(prev, *f, old_ret, ret@);
                    }
                }
            },
        }
        i += 1;
    }
    proof {
        assert(files@.take(i as int) =~= files@);
    }
    ret
}

/// The outcome of checking that a group holds both shaders.
pub open spec fn pair_result(res: ShaderResource) -> Result<(String, String), GenError> {
    match (res.path_vert, res.path_frag) {
        (Some(v), Some(f)) => Ok((v, f)),
        (Some(v), None) => Err(GenError::MissingFragment(v)),
        (None, Some(f)) => Err(GenError::MissingVertex(f)),
        (None, None) => Err(GenError::EmptyPair),
    }
}

/// The vertex and fragment paths of a group; fails, naming the file that
/// was found, when one side is missing.
pub fn check_pair(res: &ShaderResource) -> (r: Result<(String, String), GenError>)
    ensures
        r == pair_result(*res),
{
    match (&res.path_vert, &res.path_frag) {
        (Some(v), Some(f)) => Ok((v.clone(), f.clone())),
        (Some(v), None) => Err(GenError::MissingFragment(v.clone())),
        (None, Some(f)) => Err(GenError::MissingVertex(f.clone())),
        (None, None) => Err(GenError::EmptyPair),
    }
}

/// The file the binding of a pair is written to: `<dir>/<stem>.rs`.
pub fn output_path(dir: &str, stem: &str) -> (r: String)
    ensures
        r@ == dir@ + "/"@ + stem@ + ".rs"@,
{
    let mut out = String::from_str(dir);
    out.append("/");
    out.append(stem);
    out.append(".rs");
    out
}

} // verus!
