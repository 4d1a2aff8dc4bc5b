use crate::args::{concat_args, concat_tokens, resize_args, resize_tokens, token_views, trim_args, trim_tokens};
use crate::error::{CommandError, CommandResult};
use crate::manifest::{concat_manifest, manifest_of, path_bytes};
use crate::supervisor::{Phase, Supervisor};
use vstd::prelude::*;

verus! {

/// The manifest a concatenation needs on disk while its process runs.
pub struct ConcatManifest {
    pub path: String,
    pub contents: Vec<u8>,
}

/// Everything the host needs to carry out one operation: the process
/// arguments, the manifest to write before spawning (and remove once the run
/// has ended, however it ended), and the supervisor of the run.
pub struct Operation {
    pub args: Vec<String>,
    pub manifest: Option<ConcatManifest>,
    pub supervisor: Supervisor,
}

pub open spec fn fresh_run(s: Supervisor, output: Seq<char>, expected_total_us: i64) -> bool {
    &&& s.spec_output() == output
    &&& s.spec_expected_total_us() == expected_total_us
    &&& s.spec_phase() == Phase::Spawning
}

/// Cuts `duration` seconds from `start` out of `input` into `output`.
///
/// `start` and `duration` are the decimal forms of the two times in seconds;
/// progress is measured against `expected_total_us`.
pub fn trim(input: &str, output: &str, start: &str, duration: &str, expected_total_us: i64) -> (r:
    Operation)
    ensures
        token_views(r.args@) == trim_tokens(input@, output@, start@, duration@),
        r.manifest is None,
        fresh_run(r.supervisor, output@, expected_total_us),
{
    let args = trim_args(input, output, start, duration);
    Operation {
        args,
        manifest: None,
        supervisor: Supervisor::new(output.to_owned(), expected_total_us),
    }
}

/// Scales `input` to `width` x `height` into `output`, copying the audio.
pub fn resize(input: &str, output: &str, width: u32, height: u32, expected_total_us: i64) -> (r:
    Operation)
    ensures
        token_views(r.args@) == resize_tokens(input@, output@, width, height),
        r.manifest is None,
        fresh_run(r.supervisor, output@, expected_total_us),
{
    let args = resize_args(input, output, width, height);
    Operation {
        args,
        manifest: None,
        supervisor: Supervisor::new(output.to_owned(), expected_total_us),
    }
}

/// Joins `inputs`, in order, into `output` through a manifest at
/// `manifest_path`.
///
/// An empty list is refused with a validation error, before any manifest or
/// process exists.
pub fn merge(inputs: &Vec<String>, manifest_path: &str, output: &str, expected_total_us: i64) -> (r:
    CommandResult<Operation>)
    ensures
        inputs@.len() == 0 <==> r is Err,
        r matches Err(e) ==> e is Validation,
        r matches Ok(op) ==> {
            &&& token_views(op.args@) == concat_tokens(manifest_path@, output@)
            &&& op.manifest matches Some(m) && m.path@ == manifest_path@ && m.contents@
                == manifest_of(path_bytes(inputs@))
            &&& fresh_run(op.supervisor, output@, expected_total_us)
        },
{
    if inputs.len() == 0 {
        return Err(CommandError::Validation("No input files provided".to_owned()));
    }
    let contents = match concat_manifest(inputs) {
        Ok(c) => c,
        Err(e) => return Err(e),
    };
    let args = concat_args(manifest_path, output);
    Ok(
        Operation {
            args,
            manifest: Some(ConcatManifest { path: manifest_path.to_owned(), contents }),
            supervisor: Supervisor::new(output.to_owned(), expected_total_us),
        },
    )
}

} // verus!
