//! Storage provisioning plans for a job's root filesystem.
//!
//! The runner provisions one dataset per job under the environment's
//! configured parent, mounted manually (`mountpoint=legacy`).  These
//! functions compute the exact command argument vectors; the
//! surrounding application executes them.

use vstd::prelude::*;

use crate::config::NspawnRunnerEnvironmentZfsRootConfig;
use crate::ids::{uuid_chars, Uuid};

verus! {

/// The dataset name for a job: `parent/<job id text>`.
pub open spec fn dataset_chars(parent: Seq<char>, job: Uuid) -> Seq<char> {
    parent + "/"@ + uuid_chars(job.bits)
}

/// The mountpoint for a job's root: `mount_base/<job id text>`.
pub open spec fn mountpoint_chars(mount_base: Seq<char>, job: Uuid) -> Seq<char> {
    mount_base + "/"@ + uuid_chars(job.bits)
}

/// The arguments of the storage CLI call that creates (or clones) a
/// job's dataset: `clone`/`create -o mountpoint=legacy
/// [-o quota=<q>] [<snapshot>] <dataset>`.
pub open spec fn create_args_chars(
    cfg: NspawnRunnerEnvironmentZfsRootConfig,
    job: Uuid,
) -> Seq<Seq<char>> {
    (if cfg.clone_from is Some {
        seq!["clone"@]
    } else {
        seq!["create"@]
    }) + seq!["-o"@, "mountpoint=legacy"@] + (match cfg.quota {
        Option::Some(q) => seq!["-o"@, "quota="@ + q@],
        Option::None => Seq::<Seq<char>>::empty(),
    }) + (match cfg.clone_from {
        Option::Some(src) => seq![src@],
        Option::None => Seq::<Seq<char>>::empty(),
    }) + seq![dataset_chars(cfg.parent@, job)]
}

/// The arguments of the mount call that attaches the fresh dataset:
/// `-t zfs <dataset> <mountpoint>`.
pub open spec fn mount_args_chars(
    cfg: NspawnRunnerEnvironmentZfsRootConfig,
    job: Uuid,
) -> Seq<Seq<char>> {
    seq!["-t"@, "zfs"@, dataset_chars(cfg.parent@, job), mountpoint_chars(cfg.mount_base@, job)]
}

/// The views of a vector of strings.
pub open spec fn strs(v: Seq<String>) -> Seq<Seq<char>> {
    v.map_values(|s: String| s@)
}

/// The dataset name for a job.
pub fn dataset_for(cfg: &NspawnRunnerEnvironmentZfsRootConfig, job: &Uuid) -> (r: String)
    ensures
        r@ == dataset_chars(cfg.parent@, *job),
{
    let mut r = cfg.parent.clone();
    proof {
        reveal_strlit("/");
    }
    r.append("/");
    let text = job.canonical_text();
    r.append(text.as_str());
    r
}

/// The mountpoint for a job's root.
pub fn mountpoint_for(cfg: &NspawnRunnerEnvironmentZfsRootConfig, job: &Uuid) -> (r: String)
    ensures
        r@ == mountpoint_chars(cfg.mount_base@, *job),
{
    let mut r = cfg.mount_base.clone();
    proof {
        reveal_strlit("/");
    }
    r.append("/");
    let text = job.canonical_text();
    r.append(text.as_str());
    r
}

/// The argument vector for creating (or cloning) a job's dataset.
pub fn create_args_for(cfg: &NspawnRunnerEnvironmentZfsRootConfig, job: &Uuid) -> (r: Vec<
    String,
>)
    ensures
        strs(r@) =~= create_args_chars(*cfg, *job),
{
    proof {
        reveal_strlit("clone");
        reveal_strlit("create");
        reveal_strlit("-o");
        reveal_strlit("mountpoint=legacy");
        reveal_strlit("quota=");
    }
    let mut r: Vec<String> = Vec::new();
    if cfg.clone_from.is_some() {
        r.push(String::from_str("clone"));
    } else {
        r.push(String::from_str("create"));
    }
    r.push(String::from_str("-o"));
    r.push(String::from_str("mountpoint=legacy"));
    if let Option::Some(q) = &cfg.quota {
        r.push(String::from_str("-o"));
        let mut quota_arg = String::from_str("quota=");
        quota_arg.append(q.as_str());
        r.push(quota_arg);
    }
    if let Option::Some(src) = &cfg.clone_from {
        r.push(src.clone());
    }
    r.push(dataset_for(cfg, job));
    r
}

/// The argument vector for mounting the fresh dataset.
pub fn mount_args_for(cfg: &NspawnRunnerEnvironmentZfsRootConfig, job: &Uuid) -> (r: Vec<
    String,
>)
    ensures
        strs(r@) =~= mount_args_chars(*cfg, *job),
{
    proof {
        reveal_strlit("-t");
        reveal_strlit("zfs");
    }
    let mut r: Vec<String> = Vec::new();
    r.push(String::from_str("-t"));
    r.push(String::from_str("zfs"));
    r.push(dataset_for(cfg, job));
    r.push(mountpoint_for(cfg, job));
    r
}

/// The arguments of the storage CLI call that destroys a job's
/// dataset: `destroy -v <dataset>`.
pub open spec fn destroy_args_chars(dataset: Seq<char>) -> Seq<Seq<char>> {
    seq!["destroy"@, "-v"@, dataset]
}

/// The argument vector for destroying a dataset.
pub fn destroy_args_for(dataset: &str) -> (r: Vec<String>)
    ensures
        strs(r@) =~= destroy_args_chars(dataset@),
{
    proof {
        reveal_strlit("destroy");
        reveal_strlit("-v");
    }
    let mut r: Vec<String> = Vec::new();
    r.push(String::from_str("destroy"));
    r.push(String::from_str("-v"));
    r.push(dataset.to_owned());
    r
}

} // verus!
