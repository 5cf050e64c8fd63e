//! The ordered fallback chain that picks the language-server binary.
//!
//! Resolution consults, in order: an explicitly configured path, the
//! workspace search path, the cached path of an earlier download, and
//! finally remote provisioning. Each step here is a decision on plain
//! values; the host gathers the values (settings, lookup results, whether a
//! file exists) and carries out the returned step.

use vstd::prelude::*;

verus! {

/// Per-workspace binary settings: an optional explicit path and optional
/// launch arguments.
pub struct LspBinarySettings {
    pub path: Option<String>,
    pub arguments: Option<Vec<String>>,
}

/// The launch descriptor handed back to the host.
pub struct LumeBinary {
    pub path: String,
    pub args: Vec<String>,
}

/// The explicitly configured binary path, if the settings hold one.
pub open spec fn spec_explicit_path(settings: Option<LspBinarySettings>) -> Option<Seq<char>> {
    match settings {
        Some(s) => match s.path {
            Some(p) => Some(p@),
            None => None,
        },
        None => None,
    }
}

/// The launch arguments the settings configure: the configured list, or
/// empty when the settings or the list are absent. Read once, whatever
/// source later supplies the path.
pub open spec fn spec_effective_args(settings: Option<LspBinarySettings>) -> Seq<Seq<char>> {
    match settings {
        Some(s) => match s.arguments {
            Some(args) => args.deep_view(),
            None => Seq::empty(),
        },
        None => Seq::empty(),
    }
}

/// What resolution does next, decided before any file-system or network
/// round trip.
pub enum LocalStep {
    /// A binary is fully determined: launch it.
    Use(LumeBinary),
    /// The cache holds a candidate path; the host must report whether it
    /// still names a regular file.
    CheckCache { path: String, args: Vec<String> },
    /// No local source applies; provision from the remote release source.
    Provision { args: Vec<String> },
}

/// The outcome of checking a cached candidate path on disk.
pub enum CacheStep {
    /// The cached file is still present: launch it.
    Use(LumeBinary),
    /// The cached file is gone; provision from the remote release source.
    Provision { args: Vec<String> },
}

/// Resolver state: owns the process-wide path cached by the last
/// successful provisioning. Empty at start, written once per provisioning,
/// read only as the fallback before going remote.
pub struct Resolver {
    pub cached_binary_path: Option<String>,
}

/// A copy of a string vector, element for element.
fn clone_args(args: &Vec<String>) -> (copy: Vec<String>)
    ensures
        copy.deep_view() == args.deep_view(),
{
    broadcast use vstd::std_specs::vec::vec_clone_deep_view_proof;

    args.clone()
}

/// The configured launch arguments as an owned vector.
pub fn effective_args(settings: &Option<LspBinarySettings>) -> (args: Vec<String>)
    ensures
        args.deep_view() == spec_effective_args(*settings),
{
    match settings {
        Some(s) => match &s.arguments {
            Some(configured) => clone_args(configured),
            None => Vec::new(),
        },
        None => Vec::new(),
    }
}

impl Resolver {
    /// A fresh resolver with an empty cache.
    pub fn new() -> (r: Resolver)
        ensures
            r.cached_binary_path is None,
    {
        Resolver { cached_binary_path: None }
    }

    /// The first three steps of the chain. An explicit configured path wins
    /// outright; otherwise a search-path hit wins; otherwise a cached path
    /// becomes a candidate the host must still check on disk; otherwise
    /// resolution must provision. Every outcome carries the configured
    /// arguments.
    pub fn local_step(
        &self,
        settings: &Option<LspBinarySettings>,
        which_result: Option<String>,
    ) -> (step: LocalStep)
        ensures
            step matches LocalStep::Use(b) ==> b.args.deep_view() == spec_effective_args(
                *settings,
            ),
            step matches LocalStep::CheckCache { args, .. } ==> args.deep_view()
                == spec_effective_args(*settings),
            step matches LocalStep::Provision { args } ==> args.deep_view()
                == spec_effective_args(*settings),
            spec_explicit_path(*settings) matches Some(p) ==> (step matches LocalStep::Use(b)
                && b.path@ == p),
            spec_explicit_path(*settings) is None ==> (which_result matches Some(q) ==> (step
                matches LocalStep::Use(b) && b.path == q)),
            spec_explicit_path(*settings) is None && which_result is None ==> (
            self.cached_binary_path matches Some(c) ==> (step matches LocalStep::CheckCache {
                path,
                ..
            } && path@ == c@)),
            spec_explicit_path(*settings) is None && which_result is None
                && self.cached_binary_path is None ==> step is Provision,
    {
        let args = effective_args(settings);
        if let Some(s) = settings {
            if let Some(p) = &s.path {
                return LocalStep::Use(LumeBinary { path: p.clone(), args });
            }
        }
        if let Some(q) = which_result {
            return LocalStep::Use(LumeBinary { path: q, args });
        }
        match &self.cached_binary_path {
            Some(c) => LocalStep::CheckCache { path: c.clone(), args },
            None => LocalStep::Provision { args },
        }
    }

    /// Records the freshly provisioned binary path in the cache and returns
    /// the descriptor for it.
    pub fn finish_provision(&mut self, binary_path: String, args: Vec<String>) -> (binary:
        LumeBinary)
        ensures
            final(self).cached_binary_path matches Some(p) && p@ == binary_path@,
            binary.path == binary_path,
            binary.args == args,
    {
        self.cached_binary_path = Some(binary_path.clone());
        LumeBinary { path: binary_path, args }
    }
}

/// The cache decision: a cached candidate is used only while it still names
/// a regular file; a stale path is never returned, and resolution falls
/// through to provisioning.
pub fn cache_step(path: String, args: Vec<String>, is_regular_file: bool) -> (step: CacheStep)
    ensures
        is_regular_file ==> (step matches CacheStep::Use(b) && b.path == path && b.args == args),
        !is_regular_file ==> (step matches CacheStep::Provision { args: a } && a == args),
{
    if is_regular_file {
        CacheStep::Use(LumeBinary { path, args })
    } else {
        CacheStep::Provision { args }
    }
}

} // verus!
