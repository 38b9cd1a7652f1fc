//! Where the worker's runtime and entry point are, across the bundled,
//! development and missing-runtime layouts.
use vstd::prelude::*;
use crate::error::ConversionError;

verus! {

/// A filesystem path: its anchor (the prefix and root of an absolute path,
/// empty for a relative one) and its named components, outermost first.
#[derive(Debug, Clone)]
pub struct FsPath {
    pub anchor: String,
    pub parts: Vec<String>,
}

/// The mathematical value of an [`FsPath`].
pub struct PathModel {
    pub anchor: Seq<char>,
    pub parts: Seq<Seq<char>>,
}

impl View for FsPath {
    type V = PathModel;

    open spec fn view(&self) -> PathModel {
        PathModel { anchor: self.anchor@, parts: self.parts.deep_view() }
    }
}

/// The path with one more component.
pub open spec fn path_join(p: PathModel, name: Seq<char>) -> PathModel {
    PathModel { anchor: p.anchor, parts: p.parts.push(name) }
}

/// The path without its last component; none for a path with no component,
/// such as a root alone.
pub open spec fn path_parent(p: PathModel) -> Option<PathModel> {
    if p.parts.len() == 0 {
        None
    } else {
        Some(PathModel { anchor: p.anchor, parts: p.parts.drop_last() })
    }
}

/// The view of an optional path.
pub open spec fn opt_path(o: Option<FsPath>) -> Option<PathModel> {
    match o {
        Some(p) => Some(p@),
        None => None,
    }
}

/// A copy of a list of texts.
fn copy_texts(v: &Vec<String>) -> (r: Vec<String>)
    ensures
        r.deep_view() == v.deep_view(),
{
    let mut r: Vec<String> = Vec::new();
    let mut i: usize = 0;
    while i < v.len()
        invariant
            i <= v.len(),
            r@.len() == i,
            forall|j: int| 0 <= j < i ==> r@[j]@ == v@[j]@,
        decreases v.len() - i,
    {
        r.push(v[i].clone());
        i = i + 1;
    }
    assert(r.deep_view() =~= v.deep_view());
    r
}

impl FsPath {
    /// A path made of an anchor and these components.
    pub fn from_parts(anchor: String, parts: Vec<String>) -> (r: FsPath)
        ensures
            r@ == (PathModel { anchor: anchor@, parts: parts.deep_view() }),
    {
        FsPath { anchor, parts }
    }

    /// A copy of the path.
    pub fn duplicate(&self) -> (r: FsPath)
        ensures
            r@ == self@,
    {
        FsPath { anchor: self.anchor.clone(), parts: copy_texts(&self.parts) }
    }

    /// The path with one more component.
    pub fn join(&self, name: &str) -> (r: FsPath)
        ensures
            r@ == path_join(self@, name@),
    {
        let mut parts = copy_texts(&self.parts);
        parts.push(String::from_str(name));
        let r = FsPath { anchor: self.anchor.clone(), parts };
        assert(r@.parts =~= self@.parts.push(name@));
        r
    }

    /// The path without its last component.
    pub fn parent(&self) -> (r: Option<FsPath>)
        ensures
            opt_path(r) == path_parent(self@),
    {
        if self.parts.len() == 0 {
            return None;
        }
        let mut parts = copy_texts(&self.parts);
        parts.pop();
        let r = FsPath { anchor: self.anchor.clone(), parts };
        assert(r@.parts =~= self@.parts.drop_last());
        Some(r)
    }

    /// Whether two paths are the same.
    pub fn same_as(&self, other: &FsPath) -> (r: bool)
        ensures
            r == (self@ == other@),
    {
        if self.anchor != other.anchor {
            return false;
        }
        if self.parts.len() != other.parts.len() {
            assert(self@.parts.len() != other@.parts.len());
            return false;
        }
        let mut i: usize = 0;
        while i < self.parts.len()
            invariant
                i <= self.parts.len() == other.parts.len(),
                forall|j: int| 0 <= j < i ==> self@.parts[j] == other@.parts[j],
            decreases self.parts.len() - i,
        {
            if self.parts[i] != other.parts[i] {
                assert(self@.parts[i as int] != other@.parts[i as int]);
                return false;
            }
            i = i + 1;
        }
        assert(self@.parts =~= other@.parts);
        true
    }
}

pub open spec fn name_python() -> Seq<char> {
    seq!['p', 'y', 't', 'h', 'o', 'n']
}

pub open spec fn name_python_exe() -> Seq<char> {
    seq!['p', 'y', 't', 'h', 'o', 'n', '.', 'e', 'x', 'e']
}

pub open spec fn name_python3() -> Seq<char> {
    seq!['p', 'y', 't', 'h', 'o', 'n', '3']
}

pub open spec fn name_bin() -> Seq<char> {
    seq!['b', 'i', 'n']
}

/// The places where a bundled interpreter may stand under a bin root, in the
/// order they are tried: the Windows name first, then the bare names, then
/// the nested `bin/` layouts.
pub open spec fn python_candidates(root: PathModel) -> Seq<PathModel> {
    let dir = path_join(root, name_python());
    seq![
        path_join(dir, name_python_exe()),
        path_join(dir, name_python()),
        path_join(dir, name_python3()),
        path_join(path_join(dir, name_bin()), name_python3()),
        path_join(path_join(dir, name_bin()), name_python()),
    ]
}

/// Lists the places where a bundled interpreter may stand under a bin root.
pub fn embedded_python_candidates(bin_root: &FsPath) -> (r: Vec<FsPath>)
    ensures
        r.len() == 5,
        forall|i: int| 0 <= i < 5 ==> (#[trigger] r[i])@ == python_candidates(bin_root@)[i],
{
    proof {
        reveal_strlit("python");
        reveal_strlit("python.exe");
        reveal_strlit("python3");
        reveal_strlit("bin");
    }
    assert("python"@ =~= name_python());
    assert("python.exe"@ =~= name_python_exe());
    assert("python3"@ =~= name_python3());
    assert("bin"@ =~= name_bin());
    let dir = bin_root.join("python");
    let nested = dir.join("bin");
    let mut r: Vec<FsPath> = Vec::new();
    r.push(dir.join("python.exe"));
    r.push(dir.join("python"));
    r.push(dir.join("python3"));
    r.push(nested.join("python3"));
    r.push(nested.join("python"));
    r
}

/// The runtime root of an interpreter: the grandparent when the interpreter
/// sits in a directory named `bin`, the parent otherwise; none for a path
/// without a parent.
pub open spec fn python_home(bin: PathModel) -> Option<PathModel> {
    match path_parent(bin) {
        None => None,
        Some(parent) => if parent.parts.len() > 0 && parent.parts.last() == name_bin() {
            path_parent(parent)
        } else {
            Some(parent)
        },
    }
}

/// Derives the runtime root from where the interpreter stands.
pub fn derive_python_home(python_bin: &FsPath) -> (r: Option<FsPath>)
    ensures
        opt_path(r) == python_home(python_bin@),
{
    let parent = match python_bin.parent() {
        Some(p) => p,
        None => return None,
    };
    let n = parent.parts.len();
    proof {
        reveal_strlit("bin");
    }
    assert("bin"@ =~= name_bin());
    let bin = String::from_str("bin");
    if n > 0 && parent.parts[n - 1] == bin {
        parent.parent()
    } else {
        Some(parent)
    }
}

/// The first candidate that exists, by index; `exists[i]` tells whether the
/// `i`-th candidate is on disk, and an index with no answer counts as absent.
pub fn first_existing(exists: &Vec<bool>) -> (r: Option<usize>)
    ensures
        match r {
            Some(i) => i < exists.len() && exists[i as int] && forall|j: int|
                0 <= j < i ==> !exists[j],
            None => forall|j: int| 0 <= j < exists.len() ==> !exists[j],
        },
{
    let mut i: usize = 0;
    while i < exists.len()
        invariant
            i <= exists.len(),
            forall|j: int| 0 <= j < i ==> !exists[j],
        decreases exists.len() - i,
    {
        if exists[i] {
            return Some(i);
        }
        i = i + 1;
    }
    None
}

/// The runtime and entry point chosen for one invocation.
pub struct PythonResolution {
    /// The interpreter to launch.
    pub command: FsPath,
    /// The worker's entry point, handed to the interpreter.
    pub backend_path: FsPath,
    /// The bin root, prepended to the search path of the process.
    pub bin_dir: Option<FsPath>,
    /// The isolated runtime root, when the interpreter is bundled.
    pub python_home: Option<FsPath>,
    /// Whether the bundled interpreter was found.
    pub uses_embedded: bool,
}

/// The name under which a development build finds a system interpreter.
pub open spec fn system_python() -> PathModel {
    PathModel { anchor: Seq::empty(), parts: seq![name_python3()] }
}

/// The index of the first candidate, from `i` on, that was found on disk;
/// only the five candidates count, and a candidate with no answer is absent.
pub open spec fn first_present_from(exists: Seq<bool>, i: int) -> Option<int>
    decreases 5 - i,
{
    if i < 0 || i >= 5 || i >= exists.len() {
        None
    } else if exists[i] {
        Some(i)
    } else {
        first_present_from(exists, i + 1)
    }
}

/// The bundled interpreter that is used: the first candidate under the bin
/// root that was found on disk; none without a bin root.
pub open spec fn embedded_choice(bin_root: Option<PathModel>, exists: Seq<bool>) -> Option<PathModel> {
    match bin_root {
        Some(root) => match first_present_from(exists, 0) {
            Some(i) => Some(python_candidates(root)[i]),
            None => None,
        },
        None => None,
    }
}

/// The index that the search finds lies among the five candidates.
proof fn lemma_first_present_range(exists: Seq<bool>, i: int)
    ensures
        first_present_from(exists, i) matches Some(k) ==> 0 <= i <= k < 5,
    decreases 5 - i,
{
    if !(i < 0 || i >= 5 || i >= exists.len()) && !exists[i] {
        lemma_first_present_range(exists, i + 1);
    }
}

/// Every candidate has a parent, so a chosen interpreter has a runtime root.
proof fn lemma_choice_has_home(bin_root: Option<PathModel>, exists: Seq<bool>)
    ensures
        embedded_choice(bin_root, exists) matches Some(c) ==> python_home(c).is_some(),
{
    if let Some(root) = bin_root {
        lemma_first_present_range(exists, 0);
        if let Some(k) = first_present_from(exists, 0) {
            let cs = python_candidates(root);
            assert(cs[0].parts.len() > 0 && cs[1].parts.len() > 0 && cs[2].parts.len() > 0);
            assert(cs[3].parts.len() > 0 && cs[4].parts.len() > 0);
            assert(cs[k].parts.len() > 0);
        }
    }
}

/// Picks the bundled interpreter under a bin root from the answers, in
/// candidate order, to whether each candidate exists.
pub fn find_embedded_python(bin_root: &Option<FsPath>, candidate_exists: &Vec<bool>) -> (r: Option<
    FsPath,
>)
    ensures
        opt_path(r) == embedded_choice(opt_path(*bin_root), candidate_exists@),
{
    let root = match bin_root {
        Some(root) => root,
        None => return None,
    };
    let mut candidates = embedded_python_candidates(root);
    let mut i: usize = 0;
    while i < 5 && i < candidate_exists.len()
        invariant
            i <= 5,
            opt_path(*bin_root) == Some(root@),
            candidates.len() == 5,
            forall|k: int| 0 <= k < 5 ==> (#[trigger] candidates[k])@ == python_candidates(root@)[k],
            first_present_from(candidate_exists@, 0) == first_present_from(candidate_exists@, i as int),
        decreases 5 - i,
    {
        if candidate_exists[i] {
            assert(first_present_from(candidate_exists@, i as int) == Some(i as int));
            let c = candidates.swap_remove(i);
            return Some(c);
        }
        i = i + 1;
    }
    None
}

/// Chooses the runtime from what was found on disk: the entry point must
/// exist; the first bundled interpreter found under the bin root wins, with
/// its runtime root; without one a development build falls back to the
/// system interpreter and any other build fails. `candidate_exists` answers,
/// in order, whether each of the bin root's candidates exists.
pub fn resolve_python(
    backend_path: FsPath,
    backend_exists: bool,
    bin_root: Option<FsPath>,
    candidate_exists: &Vec<bool>,
    dev_build: bool,
) -> (r: Result<PythonResolution, ConversionError>)
    ensures
        !backend_exists <==> r matches Err(ConversionError::EntryPointMissing),
        backend_exists && embedded_choice(opt_path(bin_root), candidate_exists@).is_none()
            && !dev_build <==> r matches Err(ConversionError::RuntimeMissing),
        match r {
            Ok(res) => {
                &&& res.backend_path@ == backend_path@
                &&& opt_path(res.bin_dir) == opt_path(bin_root)
                &&& res.uses_embedded == res.python_home.is_some()
                &&& match embedded_choice(opt_path(bin_root), candidate_exists@) {
                    Some(c) => {
                        &&& res.uses_embedded
                        &&& res.command@ == c
                        &&& opt_path(res.python_home) == python_home(c)
                    },
                    None => !res.uses_embedded && res.command@ == system_python(),
                }
            },
            Err(e) => e is EntryPointMissing || e is RuntimeMissing,
        },
{
    if !backend_exists {
        return Err(ConversionError::EntryPointMissing);
    }
    match find_embedded_python(&bin_root, candidate_exists) {
        Some(p) => {
            let home = derive_python_home(&p);
            proof {
                lemma_choice_has_home(opt_path(bin_root), candidate_exists@);
            }
            Ok(PythonResolution {
                command: p,
                backend_path,
                bin_dir: bin_root,
                python_home: home,
                uses_embedded: true,
            })
        },
        None => {
            if !dev_build {
                return Err(ConversionError::RuntimeMissing);
            }
            proof {
                reveal_strlit("python3");
            }
            let mut parts: Vec<String> = Vec::new();
            parts.push(String::from_str("python3"));
            let command = FsPath { anchor: String::new(), parts };
            assert(command@.parts[0] == name_python3());
            assert(command@.parts =~= system_python().parts);
            assert(command@.anchor =~= system_python().anchor);
            Ok(PythonResolution {
                command,
                backend_path,
                bin_dir: bin_root,
                python_home: None,
                uses_embedded: false,
            })
        },
    }
}

} // verus!
