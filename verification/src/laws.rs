//! Properties of the resolver that span several steps: the network-free
//! fast path, the behaviour on a stale cache, what a cleanup leaves
//! behind, and idempotence of resolution.

use vstd::prelude::*;
use crate::names::{Os, Arch};
use crate::resolver::{Resolver, Phase, Event, Action, step_post, stale_selection};

verus! {

/// The resolver's invariant: while it waits to hear whether the cached
/// binary still exists, the path it asks about is the cached one.
pub open spec fn wf(r: Resolver) -> bool {
    match r.phase {
        Phase::CacheCheck { path, .. } => r.cached_binary_path == Some(path),
        _ => true,
    }
}

/// Every step preserves the invariant.
pub proof fn step_preserves_wf(pre: Resolver, event: Event, post: Resolver, a: Action)
    requires
        wf(pre),
        pre.accepts(event),
        step_post(pre, event, post, a),
    ensures
        wf(post),
{
}

/// If a cached path exists and still names a regular file, resolution
/// checks that one file and returns the path unchanged: no status is
/// reported, no release is fetched, nothing is downloaded.
pub proof fn cached_fast_path(
    r0: Resolver,
    r1: Resolver,
    r2: Resolver,
    a1: Action,
    a2: Action,
    arch: Arch,
    os: Os,
    path: String,
)
    requires
        r0.phase == Phase::Idle,
        r0.cached_binary_path == Some(path),
        step_post(r0, Event::Start { arch, os }, r1, a1),
        step_post(r1, Event::FileStat { is_file: true }, r2, a2),
    ensures
        a1 == (Action::StatFile { path }),
        a2 == (Action::Finish { path }),
        r2.cached_binary_path == Some(path),
        r2.phase == Phase::Idle,
{
}

/// If the cached path's file is absent, resolution proceeds exactly as it
/// would with no cache at all: the next action and the continuation phase
/// are the same as a fresh resolver's at its start.
pub proof fn stale_cache_proceeds(
    r0: Resolver,
    r1: Resolver,
    r2: Resolver,
    f0: Resolver,
    f1: Resolver,
    a1: Action,
    a2: Action,
    b1: Action,
    arch: Arch,
    os: Os,
    path: String,
)
    requires
        r0.phase == Phase::Idle,
        r0.cached_binary_path == Some(path),
        step_post(r0, Event::Start { arch, os }, r1, a1),
        step_post(r1, Event::FileStat { is_file: false }, r2, a2),
        f0.phase == Phase::Idle,
        f0.cached_binary_path == Option::<String>::None,
        step_post(f0, Event::Start { arch, os }, f1, b1),
    ensures
        a2 == b1,
        r2.phase == f1.phase,
        r2.phase == (Phase::ReportingCheck { arch, os }),
{
}

/// A resolution that finishes successfully caches exactly the path it
/// returns and leaves the resolver idle.
pub proof fn finish_caches_path(pre: Resolver, event: Event, post: Resolver, path: String)
    requires
        wf(pre),
        pre.accepts(event),
        step_post(pre, event, post, Action::Finish { path }),
    ensures
        post.cached_binary_path == Some(path),
        post.phase == Phase::Idle,
{
}

/// Resolution is idempotent: after one resolution has returned a path, a
/// second one that finds that binary still present returns the same path,
/// and the only action it issues beforehand is the one file check — no
/// status report, no release lookup, no download.
pub proof fn resolution_idempotent(
    pre: Resolver,
    ev: Event,
    r0: Resolver,
    r1: Resolver,
    r2: Resolver,
    a1: Action,
    a2: Action,
    arch: Arch,
    os: Os,
    path: String,
)
    requires
        wf(pre),
        pre.accepts(ev),
        step_post(pre, ev, r0, Action::Finish { path }),
        step_post(r0, Event::Start { arch, os }, r1, a1),
        step_post(r1, Event::FileStat { is_file: true }, r2, a2),
    ensures
        a1 == (Action::StatFile { path }),
        a2 == (Action::Finish { path }),
        r2.cached_binary_path == Some(path),
        r2.phase == Phase::Idle,
{
    finish_caches_path(pre, ev, r0, path);
    cached_fast_path(r0, r1, r2, a1, a2, arch, os, path);
}

/// After the entries a cleanup selects are removed, exactly the
/// version-qualified directory remains: an entry survives if and only if
/// it carries the kept directory's name.
pub proof fn cleanup_leaves_only_version_dir(
    names: Seq<Option<String>>,
    keep: Seq<char>,
    indices: Seq<usize>,
    i: int,
)
    requires
        stale_selection(names, keep, indices),
        0 <= i < names.len(),
    ensures
        !indices.contains(i as usize) <==> (names[i] matches Some(n) && n@ == keep),
{
}

} // verus!
