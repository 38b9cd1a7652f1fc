//! The environment that the worker process is started with.
use vstd::prelude::*;
use crate::runtime::{opt_path, FsPath, PathModel, PythonResolution};

verus! {

/// The value of an environment variable: plain text, one path, or a search
/// path made of several.
pub enum EnvValue {
    Text(String),
    Dir(FsPath),
    Dirs(Vec<FsPath>),
}

/// The mathematical value of an [`EnvValue`].
pub enum EnvModel {
    Text(Seq<char>),
    Dir(PathModel),
    Dirs(Seq<PathModel>),
}

/// The views of a list of paths.
pub open spec fn paths_of(v: Seq<FsPath>) -> Seq<PathModel> {
    v.map_values(|p: FsPath| p@)
}

/// The views of an optional list of paths.
pub open spec fn opt_paths(o: Option<Vec<FsPath>>) -> Option<Seq<PathModel>> {
    match o {
        Some(v) => Some(paths_of(v@)),
        None => None,
    }
}

impl View for EnvValue {
    type V = EnvModel;

    open spec fn view(&self) -> EnvModel {
        match self {
            EnvValue::Text(t) => EnvModel::Text(t@),
            EnvValue::Dir(p) => EnvModel::Dir(p@),
            EnvValue::Dirs(ps) => EnvModel::Dirs(paths_of(ps@)),
        }
    }
}

/// One variable set on the worker's environment, on top of the inherited one.
pub struct EnvVar {
    pub name: String,
    pub value: EnvValue,
}

/// The views of a list of variables.
pub open spec fn env_of(v: Seq<EnvVar>) -> Seq<(Seq<char>, EnvModel)> {
    v.map_values(|e: EnvVar| (e.name@, e.value@))
}

/// The search path once the bin root is in it: none when it already holds
/// the bin root (leave it alone), the bin root alone when there is no search
/// path, the bin root in front otherwise.
pub open spec fn search_path_model(
    bin_dir: PathModel,
    current: Option<Seq<PathModel>>,
) -> Option<Seq<PathModel>> {
    match current {
        None => Some(seq![bin_dir]),
        Some(c) => if c.contains(bin_dir) {
            None
        } else {
            Some(seq![bin_dir] + c)
        },
    }
}

/// Puts the bin root in front of the search path unless it is there.
pub fn search_path_with(bin_dir: &FsPath, current: Option<Vec<FsPath>>) -> (r: Option<Vec<FsPath>>)
    ensures
        opt_paths(r) == search_path_model(bin_dir@, opt_paths(current)),
{
    match &current {
        None => {
            let mut v: Vec<FsPath> = Vec::new();
            v.push(bin_dir.duplicate());
            assert(paths_of(v@) =~= seq![bin_dir@]);
            Some(v)
        },
        Some(c) => {
            let mut i: usize = 0;
            while i < c.len()
                invariant
                    i <= c.len(),
                    opt_paths(current) == Some(paths_of(c@)),
                    forall|j: int| 0 <= j < i ==> c@[j]@ != bin_dir@,
                decreases c.len() - i,
            {
                if c[i].same_as(bin_dir) {
                    assert(paths_of(c@)[i as int] == bin_dir@);
                    assert(paths_of(c@).contains(bin_dir@));
                    return None;
                }
                i = i + 1;
            }
            assert(!paths_of(c@).contains(bin_dir@));
            let mut v: Vec<FsPath> = Vec::new();
            v.push(bin_dir.duplicate());
            let mut k: usize = 0;
            while k < c.len()
                invariant
                    k <= c.len(),
                    opt_paths(current) == Some(paths_of(c@)),
                    !paths_of(c@).contains(bin_dir@),
                    v@.len() == k + 1,
                    v@[0]@ == bin_dir@,
                    forall|j: int| 0 <= j < k ==> v@[j + 1]@ == c@[j]@,
                decreases c.len() - k,
            {
                v.push(c[k].duplicate());
                k = k + 1;
            }
            assert(paths_of(v@) =~= seq![bin_dir@] + paths_of(c@));
            Some(v)
        },
    }
}

pub open spec fn var_bin_dir() -> Seq<char> {
    "SOUNDCONVERTER_BIN_DIR"@
}

pub open spec fn var_path() -> Seq<char> {
    "PATH"@
}

pub open spec fn var_home() -> Seq<char> {
    "PYTHONHOME"@
}

pub open spec fn var_unbuffered() -> Seq<char> {
    "PYTHONUNBUFFERED"@
}

pub open spec fn var_no_bytecode() -> Seq<char> {
    "PYTHONDONTWRITEBYTECODE"@
}

/// The variables set on the worker, in order: the bin root and the search
/// path when there is a bin root, the runtime root when there is one, and
/// always the flags that turn off output buffering and bytecode caches.
pub open spec fn worker_env_model(
    bin_dir: Option<PathModel>,
    home: Option<PathModel>,
    current: Option<Seq<PathModel>>,
) -> Seq<(Seq<char>, EnvModel)> {
    let bin_part = match bin_dir {
        Some(b) => {
            let named = seq![(var_bin_dir(), EnvModel::Dir(b))];
            match search_path_model(b, current) {
                Some(p) => named.push((var_path(), EnvModel::Dirs(p))),
                None => named,
            }
        },
        None => Seq::empty(),
    };
    let home_part = match home {
        Some(h) => seq![(var_home(), EnvModel::Dir(h))],
        None => Seq::empty(),
    };
    bin_part + home_part + seq![
        (var_unbuffered(), EnvModel::Text("1"@)),
        (var_no_bytecode(), EnvModel::Text("1"@)),
    ]
}

/// Lists the variables to set on the worker for a resolution, given the
/// search path of this process (none when it has none).
pub fn worker_env(res: &PythonResolution, current: Option<Vec<FsPath>>) -> (r: Vec<EnvVar>)
    ensures
        env_of(r@) == worker_env_model(
            opt_path(res.bin_dir),
            opt_path(res.python_home),
            opt_paths(current),
        ),
{
    let ghost cur = opt_paths(current);
    let mut r: Vec<EnvVar> = Vec::new();
    match &res.bin_dir {
        Some(b) => {
            r.push(EnvVar { name: String::from_str("SOUNDCONVERTER_BIN_DIR"), value: EnvValue::Dir(b.duplicate()) });
            let merged = search_path_with(b, current);
            match merged {
                Some(p) => {
                    r.push(EnvVar { name: String::from_str("PATH"), value: EnvValue::Dirs(p) });
                },
                None => {},
            }
        },
        None => {},
    }
    let ghost after_bin = r@;
    match &res.python_home {
        Some(h) => {
            r.push(EnvVar { name: String::from_str("PYTHONHOME"), value: EnvValue::Dir(h.duplicate()) });
        },
        None => {},
    }
    let ghost after_home = r@;
    r.push(EnvVar { name: String::from_str("PYTHONUNBUFFERED"), value: EnvValue::Text(String::from_str("1")) });
    r.push(EnvVar { name: String::from_str("PYTHONDONTWRITEBYTECODE"), value: EnvValue::Text(String::from_str("1")) });
    assert(env_of(r@) =~= worker_env_model(opt_path(res.bin_dir), opt_path(res.python_home), cur));
    r
}

} // verus!
