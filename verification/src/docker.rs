//! Construction of the container build engine's invocations and the
//! mapping of their termination to typed results.
//!
//! The build command is an ordered token list: a fixed base (build
//! verb, output tag, description file, build context) and, under
//! [`CacheMode::RemoteShared`], a fixed cache/output/report block
//! appended after it. The publish command names the image alone. The
//! caller spawns the engine and hands the termination back as a
//! [`ProcessOutcome`]; nothing here touches the filesystem or a
//! process.

use crate::config::config_wf;
use crate::config::validate;
use crate::config::validate_spec;
use crate::config::BuildError;
use crate::config::ContainerBuildConfig;
use crate::template::render;
use crate::template::rendered_spec;
use vstd::prelude::*;
use vstd::string::*;

verus! {

/// Which cache arguments the build invocation carries: `Local` leaves
/// the engine to its own local cache and appends nothing;
/// `RemoteShared` appends the fixed block that reads and writes a
/// shared cache namespace on the engine's remote cache backend.
#[derive(Debug, Clone, Copy, PartialEq, Eq, Structural)]
pub enum CacheMode {
    Local,
    RemoteShared,
}

/// What became of one spawned engine process: it could not be
/// launched at all, or it ran and exited with the carried status code.
#[derive(Debug, Clone, Copy, PartialEq, Eq, Structural)]
pub enum ProcessOutcome {
    SpawnFailure,
    Exited(i32),
}

/// Everything a build invocation needs from the caller: the rendered
/// description text to persist and the argument tokens to hand to the
/// engine.
pub struct BuildPlan {
    pub description: String,
    pub args: Vec<String>,
}

/// The shared base of every build invocation: build verb, output tag,
/// description file, and the working directory as build context.
pub open spec fn base_args_spec(target: Seq<char>, file: Seq<char>) -> Seq<Seq<char>> {
    seq!["buildx"@, "build"@, "-t"@, target, "-f"@, file, "."@]
}

/// The fixed extra block for the shared remote cache, in order: cache
/// source, cache destination in full-rebuild mode, the local-image
/// output directive, and the two report file paths. The cache
/// namespace is keyed by `key`; every invocation sharing a key shares
/// the namespace.
pub open spec fn cache_args_spec(key: Seq<char>) -> Seq<Seq<char>> {
    seq![
        "--cache-from"@,
        "type=gha,id="@ + key,
        "--cache-to"@,
        "type=gha,mode=max,id="@ + key,
        "--output=type=docker"@,
        "--iidfile=target/build-iidfile.txt"@,
        "--metadata-file=target/build-metadata.json"@,
    ]
}

/// The full build argument list: the base, and under `RemoteShared`
/// the cache block appended after it.
pub open spec fn build_args_spec(
    c: &ContainerBuildConfig,
    mode: CacheMode,
    file: Seq<char>,
    key: Seq<char>,
) -> Seq<Seq<char>> {
    match mode {
        CacheMode::Local => base_args_spec(c.target_image@, file),
        CacheMode::RemoteShared => base_args_spec(c.target_image@, file) + cache_args_spec(key),
    }
}

/// The publish argument list: the publish verb and the image
/// reference as its single subject.
pub open spec fn push_args_spec(target: Seq<char>) -> Seq<Seq<char>> {
    seq!["push"@, target]
}

/// The result owed for a process outcome: a spawn failure is a
/// `ProcessSpawnError`, exit status zero is success, and any other
/// exit status is a `ProcessExitError` carrying that status.
pub open spec fn outcome_spec(o: ProcessOutcome) -> Result<(), BuildError> {
    match o {
        ProcessOutcome::SpawnFailure => Err(BuildError::ProcessSpawnError),
        ProcessOutcome::Exited(code) => if code == 0 {
            Ok(())
        } else {
            Err(BuildError::ProcessExitError(code))
        },
    }
}

/// Constructs the build argument list for a cache namespace key,
/// token for token as [`build_args_spec`] states it.
pub fn build_args_with_key(
    c: &ContainerBuildConfig,
    mode: CacheMode,
    dockerfile_path: &str,
    cache_key: &str,
) -> (r: Vec<String>)
    ensures
        r.deep_view() == build_args_spec(c, mode, dockerfile_path@, cache_key@),
{
    let mut v: Vec<String> = Vec::new();
    v.push(String::from_str("buildx"));
    v.push(String::from_str("build"));
    v.push(String::from_str("-t"));
    v.push(c.target_image.clone());
    v.push(String::from_str("-f"));
    v.push(String::from_str(dockerfile_path));
    v.push(String::from_str("."));
    match mode {
        CacheMode::Local => {},
        CacheMode::RemoteShared => {
            v.push(String::from_str("--cache-from"));
            let mut source = String::from_str("type=gha,id=");
            source.append(cache_key);
            v.push(source);
            v.push(String::from_str("--cache-to"));
            let mut destination = String::from_str("type=gha,mode=max,id=");
            destination.append(cache_key);
            v.push(destination);
            v.push(String::from_str("--output=type=docker"));
            v.push(String::from_str("--iidfile=target/build-iidfile.txt"));
            v.push(String::from_str("--metadata-file=target/build-metadata.json"));
        },
    }
    assert(v.deep_view() =~= build_args_spec(c, mode, dockerfile_path@, cache_key@));
    v
}

/// Constructs the build argument list under the default cache
/// namespace key.
pub fn build_args(
    c: &ContainerBuildConfig,
    mode: CacheMode,
    dockerfile_path: &str,
) -> (r: Vec<String>)
    ensures
        r.deep_view() == build_args_spec(c, mode, dockerfile_path@, "deadbeef"@),
{
    build_args_with_key(c, mode, dockerfile_path, "deadbeef")
}

/// Constructs the publish argument list, token for token as
/// [`push_args_spec`] states it.
pub fn push_args(target_image: &str) -> (r: Vec<String>)
    ensures
        r.deep_view() == push_args_spec(target_image@),
{
    let mut v: Vec<String> = Vec::new();
    v.push(String::from_str("push"));
    v.push(String::from_str(target_image));
    assert(v.deep_view() =~= push_args_spec(target_image@));
    v
}

/// Maps one engine termination to the result owed for it, the same
/// way on the build and the publish path.
pub fn conclude_process(o: ProcessOutcome) -> (r: Result<(), BuildError>)
    ensures
        r == outcome_spec(o),
{
    match o {
        ProcessOutcome::SpawnFailure => Err(BuildError::ProcessSpawnError),
        ProcessOutcome::Exited(code) => if code == 0 {
            Ok(())
        } else {
            Err(BuildError::ProcessExitError(code))
        },
    }
}

/// Prepares one build invocation: validates the configuration, renders
/// the description, and constructs the argument list. Succeeds exactly
/// on well-formed configurations, with every byte of the description
/// and every argument token pinned; fails with the validation error on
/// every other configuration.
pub fn plan_build(
    c: &ContainerBuildConfig,
    mode: CacheMode,
    dockerfile_path: &str,
    cache_key: &str,
) -> (r: Result<BuildPlan, BuildError>)
    ensures
        config_wf(c) ==> (r matches Ok(p) && p.description@ == rendered_spec(c)
            && p.args.deep_view() == build_args_spec(c, mode, dockerfile_path@, cache_key@)),
        !config_wf(c) ==> (r matches Err(e) && Err::<(), BuildError>(e) == validate_spec(c)),
{
    match validate(c) {
        Ok(()) => {
            let description = render(c);
            let args = build_args_with_key(c, mode, dockerfile_path, cache_key);
            Ok(BuildPlan { description, args })
        },
        Err(e) => Err(e),
    }
}

/// The program that both invocations are handed to.
pub fn engine_program() -> (r: String)
    ensures
        r@ == "docker"@,
{
    String::from_str("docker")
}

/// The default cache namespace key: a fixed, shared coordination key,
/// deliberately not per-project.
pub fn default_cache_key() -> (r: String)
    ensures
        r@ == "deadbeef"@,
{
    String::from_str("deadbeef")
}

/// The working directory that the description file and the report
/// files live under; the caller creates it before a build.
pub fn work_dir_path() -> (r: String)
    ensures
        r@ == "target"@,
{
    String::from_str("target")
}

/// The fixed path the rendered description is written to before a
/// build, inside the working directory; overwritten on every attempt.
pub fn description_file_path() -> (r: String)
    ensures
        r@ == "target/tmp-dockerfile"@,
{
    String::from_str("target/tmp-dockerfile")
}

/// The cache-mode law: `Local` appends nothing to the base argument
/// list, `RemoteShared` appends exactly the fixed cache block after
/// it, and the two lists agree token for token on the shared base.
pub proof fn lemma_cache_mode_args(c: &ContainerBuildConfig, file: Seq<char>, key: Seq<char>)
    ensures
        build_args_spec(c, CacheMode::Local, file, key) == base_args_spec(c.target_image@, file),
        build_args_spec(c, CacheMode::RemoteShared, file, key) == base_args_spec(
            c.target_image@,
            file,
        ) + cache_args_spec(key),
        build_args_spec(c, CacheMode::Local, file, key).len() == 7,
        build_args_spec(c, CacheMode::RemoteShared, file, key).len() == 14,
        forall|i: int|
            0 <= i < 7 ==> build_args_spec(c, CacheMode::RemoteShared, file, key)[i]
                == build_args_spec(c, CacheMode::Local, file, key)[i],
{
}

} // verus!
