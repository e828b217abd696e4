use vstd::prelude::*;

verus! {

/// Index of the nearest directory, among a file's directory and its
/// ancestors listed nearest first, for which `marked` holds.
pub open spec fn nearest_marked(marked: Seq<bool>) -> Option<int> {
    if exists|i: int| 0 <= i < marked.len() && marked[i] {
        Some(choose|i: int| 0 <= i < marked.len() && marked[i] && forall|j: int| 0 <= j < i ==> !marked[j])
    } else {
        None
    }
}

fn first_marked(marked: &Vec<bool>) -> (r: Option<usize>)
    ensures
        match r {
            Some(i) => i < marked@.len() && marked@[i as int] && forall|j: int| 0 <= j < i ==> !marked@[j],
            None => forall|j: int| 0 <= j < marked@.len() ==> !marked@[j],
        },
{
    let mut i: usize = 0;
    while i < marked.len()
        invariant
            i <= marked@.len(),
            forall|j: int| 0 <= j < i ==> !marked@[j],
        decreases marked@.len() - i,
    {
        if marked[i] {
            return Some(i);
        }
        i += 1;
    }
    None
}

proof fn lemma_nearest_unique(marked: Seq<bool>, i: int)
    requires
        0 <= i < marked.len(),
        marked[i],
        forall|j: int| 0 <= j < i ==> !marked[j],
    ensures
        nearest_marked(marked) == Some(i),
{
    let k = choose|k: int| 0 <= k < marked.len() && marked[k] && forall|j: int| 0 <= j < k ==> !marked[j];
    assert(k == i) by {
        if k < i {
            assert(!marked[k]);
        }
        if i < k {
            assert(!marked[i]);
        }
    }
}

fn nearest(marked: &Vec<bool>) -> (r: Option<usize>)
    ensures
        match r {
            Some(i) => nearest_marked(marked@) == Some(i as int),
            None => nearest_marked(marked@) is None,
        },
{
    let r = first_marked(marked);
    proof {
        if let Some(i) = r {
            lemma_nearest_unique(marked@, i as int);
        }
    }
    r
}

/// The repository root: given, for the file's directory and each ancestor
/// (nearest first), whether it holds a `.git` entry, the index of the nearest
/// that does.
pub fn find_git_root(has_git_dir: &Vec<bool>) -> (r: Option<usize>)
    ensures
        match r {
            Some(i) => nearest_marked(has_git_dir@) == Some(i as int),
            None => nearest_marked(has_git_dir@) is None,
        },
{
    nearest(has_git_dir)
}

/// Whether a directory's project files (`pyproject.toml`, `setup.py`,
/// `setup.cfg`) make it a project root.
pub open spec fn is_project_dir(files: (bool, bool, bool)) -> bool {
    files.0 || files.1 || files.2
}

/// The Python project root: given, for the file's directory and each ancestor
/// (nearest first), which of `pyproject.toml`, `setup.py` and `setup.cfg` it
/// holds, the index of the nearest that holds any.
pub fn find_project_root(project_files: &Vec<(bool, bool, bool)>) -> (r: Option<usize>)
    ensures
        match r {
            Some(i) => nearest_marked(project_files@.map_values(|f: (bool, bool, bool)| is_project_dir(f)))
                == Some(i as int),
            None => nearest_marked(project_files@.map_values(|f: (bool, bool, bool)| is_project_dir(f))) is None,
        },
{
    let ghost m = project_files@.map_values(|f: (bool, bool, bool)| is_project_dir(f));
    let mut marked: Vec<bool> = Vec::new();
    let mut i: usize = 0;
    while i < project_files.len()
        invariant
            i <= project_files@.len(),
            m == project_files@.map_values(|f: (bool, bool, bool)| is_project_dir(f)),
            marked@ == m.take(i as int),
        decreases project_files@.len() - i,
    {
        let f = project_files[i];
        marked.push(f.0 || f.1 || f.2);
        assert(marked@ =~= m.take(i + 1));
        i += 1;
    }
    assert(marked@ =~= m);
    nearest(&marked)
}

} // verus!
