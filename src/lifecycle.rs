//! Everything that is decided before the worker is spawned: which runtime
//! runs which entry point, with what environment and what request.
use vstd::prelude::*;
use crate::error::ConversionError;
use crate::launch::{env_of, opt_paths, worker_env, worker_env_model, EnvVar};
use crate::payload::ConvertPayload;
use crate::request::{encode_request, request_text};
use crate::runtime::{embedded_choice, opt_path, python_home, resolve_python, system_python, FsPath};

verus! {

/// A process ready to be spawned: the program, its one argument (the entry
/// point), the variables to add to its environment and the request to write
/// on its stdin.
pub struct LaunchPlan {
    pub program: FsPath,
    pub entry_point: FsPath,
    pub env: Vec<EnvVar>,
    pub request: String,
    pub uses_embedded: bool,
}

/// Decides how to launch the worker for an operation on a payload, from what
/// was found on disk (whether the entry point exists, the first bin root
/// that exists, whether each interpreter candidate under it exists), the
/// build mode and this process's search path. Nothing is spawned unless this
/// succeeds.
pub fn prepare_launch(
    operation: &str,
    payload: &ConvertPayload,
    backend_path: FsPath,
    backend_exists: bool,
    bin_root: Option<FsPath>,
    candidate_exists: &Vec<bool>,
    dev_build: bool,
    current_path: Option<Vec<FsPath>>,
) -> (r: Result<LaunchPlan, ConversionError>)
    ensures
        !backend_exists <==> r matches Err(ConversionError::EntryPointMissing),
        backend_exists && embedded_choice(opt_path(bin_root), candidate_exists@).is_none()
            && !dev_build <==> r matches Err(ConversionError::RuntimeMissing),
        match r {
            Ok(plan) => {
                &&& plan.entry_point@ == backend_path@
                &&& plan.request@ == request_text(
                    operation@,
                    payload.files.deep_view(),
                    payload.format@,
                    payload.output@,
                )
                &&& match embedded_choice(opt_path(bin_root), candidate_exists@) {
                    Some(c) => {
                        &&& plan.uses_embedded
                        &&& plan.program@ == c
                        &&& python_home(c).is_some()
                        &&& env_of(plan.env@) == worker_env_model(
                            opt_path(bin_root),
                            python_home(c),
                            opt_paths(current_path),
                        )
                    },
                    None => {
                        &&& !plan.uses_embedded
                        &&& plan.program@ == system_python()
                        &&& env_of(plan.env@) == worker_env_model(
                            opt_path(bin_root),
                            None,
                            opt_paths(current_path),
                        )
                    },
                }
            },
            Err(e) => e is EntryPointMissing || e is RuntimeMissing,
        },
{
    let res = match resolve_python(backend_path, backend_exists, bin_root, candidate_exists, dev_build) {
        Ok(res) => res,
        Err(e) => return Err(e),
    };
    let request = encode_request(operation, payload);
    let env = worker_env(&res, current_path);
    Ok(LaunchPlan {
        program: res.command,
        entry_point: res.backend_path,
        env,
        request,
        uses_embedded: res.uses_embedded,
    })
}

} // verus!
