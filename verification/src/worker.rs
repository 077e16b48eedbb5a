//! The worker-process client: derives the worker's command-line
//! arguments deterministically from the configuration and translates a
//! captured process outcome into the lifecycle result type.  The actual
//! spawning is process I/O and lives outside the library; it hands back
//! a `SpawnCapture` or the spawn failure's diagnostic text.

use vstd::prelude::*;
use vstd::string::StringExecFns;
use crate::config::Config;
use crate::digits::{decimal_string, spec_decimal};
use crate::lifecycle::{LifecycleError, LifecycleResult, WorkerVerb};

verus! {

/// The character sequences of a list of argument strings.
pub open spec fn views_of(args: Seq<String>) -> Seq<Seq<char>> {
    args.map_values(|a: String| a@)
}

/// The arguments of the worker's start verb, derived from the
/// configuration: the interval is always passed; each boolean flag that
/// is `false` is passed as an explicit negating flag, while `true` flags
/// are implicit by omission — the worker's expected argument contract.
/// `idle_check` and `low_priority` are deliberately not translated.
pub open spec fn spec_start_args(c: Config) -> Seq<Seq<char>> {
    let base = seq!["start"@, "--silent"@, "--interval"@, spec_decimal(c.interval as nat)];
    let with_adaptive = if !c.adaptive {
        base.push("--no-adaptive"@)
    } else {
        base
    };
    if !c.burst {
        with_adaptive.push("--no-burst"@)
    } else {
        with_adaptive
    }
}

/// The full argument list for each worker verb: the verb itself, then,
/// for a start, the flags derived from the configuration.
pub open spec fn spec_worker_args(v: WorkerVerb, c: Config) -> Seq<Seq<char>> {
    match v {
        WorkerVerb::Start => spec_start_args(c),
        WorkerVerb::Stop => seq!["stop"@],
        WorkerVerb::Status => seq!["status"@],
    }
}

/// Derive the start arguments from a configuration.
pub fn derive_start_args(c: &Config) -> (args: Vec<String>)
    ensures
        views_of(args@) == spec_start_args(*c),
{
    let mut args: Vec<String> = Vec::new();
    args.push(String::from_str("start"));
    args.push(String::from_str("--silent"));
    args.push(String::from_str("--interval"));
    args.push(decimal_string(c.interval));
    if !c.adaptive {
        args.push(String::from_str("--no-adaptive"));
    }
    if !c.burst {
        args.push(String::from_str("--no-burst"));
    }
    proof {
        assert(views_of(args@) =~= spec_start_args(*c));
    }
    args
}

/// The argument list handed to the worker for a verb.
pub fn worker_args(v: WorkerVerb, c: &Config) -> (args: Vec<String>)
    ensures
        views_of(args@) == spec_worker_args(v, *c),
{
    match v {
        WorkerVerb::Start => derive_start_args(c),
        WorkerVerb::Stop => {
            let mut args: Vec<String> = Vec::new();
            args.push(String::from_str("stop"));
            proof {
                assert(views_of(args@) =~= spec_worker_args(WorkerVerb::Stop, *c));
            }
            args
        },
        WorkerVerb::Status => {
            let mut args: Vec<String> = Vec::new();
            args.push(String::from_str("status"));
            proof {
                assert(views_of(args@) =~= spec_worker_args(WorkerVerb::Status, *c));
            }
            args
        },
    }
}

/// What a completed worker invocation produced: whether the exit status
/// was zero, and the captured output and error streams.
pub struct SpawnCapture {
    pub success: bool,
    pub stdout: String,
    pub stderr: String,
}

/// The fixed success message for each lifecycle verb.
pub open spec fn success_message(v: WorkerVerb) -> Seq<char> {
    if v is Start {
        "Green Dot started successfully"@
    } else {
        "Green Dot stopped successfully"@
    }
}

/// The marker used in place of an empty captured error stream, so that a
/// failure never carries an empty diagnostic.
pub open spec fn unknown_failure_marker() -> Seq<char> {
    "unknown failure"@
}

/// Translate a start or stop invocation's outcome.
///
/// A zero exit status maps to `Success` with the verb's fixed message;
/// a non-zero one to `Failure` carrying the captured error text verbatim,
/// or the unknown-failure marker when that text is empty.  A spawn
/// failure means no lifecycle outcome occurred and is kept distinct as
/// `ProcessSpawnError`.
pub fn lifecycle_outcome(v: WorkerVerb, spawn: Result<SpawnCapture, String>) -> (r: Result<
    LifecycleResult,
    LifecycleError,
>)
    requires
        v !is Status,
    ensures
        spawn matches Ok(cap) ==> {
            &&& cap.success ==> (r matches Ok(lr) && lr matches LifecycleResult::Success(m)
                && m@ == success_message(v))
            &&& !cap.success && cap.stderr@.len() > 0 ==> (r matches Ok(lr)
                && lr matches LifecycleResult::Failure(w) && w@ == cap.stderr@)
            &&& !cap.success && cap.stderr@.len() == 0 ==> (r matches Ok(lr)
                && lr matches LifecycleResult::Failure(w) && w@ == unknown_failure_marker())
        },
        spawn matches Err(d) ==> (r matches Err(e)
            && e matches LifecycleError::ProcessSpawnError(dd) && dd@ == d@),
{
    match spawn {
        Ok(cap) => {
            if cap.success {
                let m = if let WorkerVerb::Start = v {
                    String::from_str("Green Dot started successfully")
                } else {
                    String::from_str("Green Dot stopped successfully")
                };
                Ok(LifecycleResult::Success(m))
            } else {
                if cap.stderr.as_str().is_empty() {
                    Ok(LifecycleResult::Failure(String::from_str("unknown failure")))
                } else {
                    Ok(LifecycleResult::Failure(cap.stderr))
                }
            }
        },
        Err(d) => Err(LifecycleError::ProcessSpawnError(d)),
    }
}

/// Translate a status invocation's outcome: the captured standard-output
/// text is returned verbatim, unparsed, whatever the exit status; only a
/// spawn failure is an error.
pub fn status_outcome(spawn: Result<SpawnCapture, String>) -> (r: Result<String, LifecycleError>)
    ensures
        spawn matches Ok(cap) ==> (r matches Ok(s) && s@ == cap.stdout@),
        spawn matches Err(d) ==> (r matches Err(e)
            && e matches LifecycleError::ProcessSpawnError(dd) && dd@ == d@),
{
    match spawn {
        Ok(cap) => Ok(cap.stdout),
        Err(d) => Err(LifecycleError::ProcessSpawnError(d)),
    }
}

} // verus!
