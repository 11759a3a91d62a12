//! The binding table and the process-wide library slot. The table stands
//! for a fully resolved set of native entry points: construction resolves
//! every mandatory symbol or fails naming the first one missing, and
//! records which optional, version-gated entry points are available. The
//! slot holds at most one published table; re-initialization replaces it.
//! Load failures are classified so the embedder can branch on the kind:
//! expected files absent, or present but failing to load — the latter
//! often means a missing host runtime dependency.

use vstd::prelude::*;
use vstd::string::StringExecFns;

use crate::text::str_eq;
use crate::types::MaaError;

verus! {

/// The name of the optional pipeline-override entry point, absent from
/// older native libraries.
pub const OVERRIDE_PIPELINE_SYMBOL: &'static str = "MaaTaskerOverridePipeline";

/// The model of a resolved binding table: the native library's version
/// string, read once at load time, and the availability of the optional
/// pipeline-override entry point.
#[derive(Debug, Clone)]
pub struct BindingTable {
    pub version: String,
    pub has_override_pipeline: bool,
}

/// The outcome of resolving one named entry point.
#[derive(Debug, Clone)]
pub struct SymbolResolution {
    pub name: String,
    /// Whether the whole load fails when this symbol is missing.
    pub required: bool,
    pub resolved: bool,
}

/// Why the native libraries could not be loaded. The distinction matters
/// to the embedder: files that exist but fail to load usually mean a
/// missing host runtime dependency, worth a targeted prompt.
#[derive(Debug, Clone)]
pub enum MaaLibraryError {
    /// The expected library files are not there.
    FileNotFound(String),
    /// The files are there but loading failed.
    LoadFailed { path: String, error: String, dlls_exist: bool },
    /// Anything else.
    Other(String),
}

impl MaaLibraryError {
    /// A short description fit for direct display.
    pub fn message(&self) -> (r: String)
        ensures
            (self matches MaaLibraryError::FileNotFound(p) ==> r@ == "DLL file not found: "@
                + p@),
            (self matches MaaLibraryError::LoadFailed { path, .. } ==> r@
                == "Failed to load DLL: "@ + path@),
            (self matches MaaLibraryError::Other(m) ==> r@ == m@),
    {
        match self {
            MaaLibraryError::FileNotFound(path) => {
                let mut m = String::from_str("DLL file not found: ");
                m.append(path.as_str());
                m
            },
            MaaLibraryError::LoadFailed { path, .. } => {
                let mut m = String::from_str("Failed to load DLL: ");
                m.append(path.as_str());
                m
            },
            MaaLibraryError::Other(msg) => msg.clone(),
        }
    }
}

/// Index of the first mandatory symbol that did not resolve, or -1 when
/// every mandatory symbol resolved.
pub open spec fn first_missing(s: Seq<SymbolResolution>) -> int
    decreases s.len(),
{
    if s.len() == 0 {
        -1
    } else if s[0].required && !s[0].resolved {
        0
    } else {
        let r = first_missing(s.skip(1));
        if r == -1 {
            -1
        } else {
            r + 1
        }
    }
}

/// Whether some optional symbol of the given name resolved.
pub open spec fn optional_available(s: Seq<SymbolResolution>, name: Seq<char>) -> bool {
    exists|k: int|
        0 <= k < s.len() && (#[trigger] s[k]).name@ == name && !s[k].required && s[k].resolved
}

/// What `first_missing` promises: in range, naming a missing mandatory
/// symbol that nothing before it precedes, and -1 exactly when every
/// mandatory symbol resolved.
pub proof fn lemma_first_missing(s: Seq<SymbolResolution>)
    ensures
        -1 <= first_missing(s) < s.len(),
        first_missing(s) == -1 ==> forall|k: int|
            0 <= k < s.len() ==> ((#[trigger] s[k]).required ==> s[k].resolved),
        first_missing(s) >= 0 ==> s[first_missing(s)].required && !s[first_missing(s)].resolved,
        first_missing(s) >= 0 ==> forall|k: int|
            0 <= k < first_missing(s) ==> ((#[trigger] s[k]).required ==> s[k].resolved),
    decreases s.len(),
{
    if s.len() == 0 {
    } else if s[0].required && !s[0].resolved {
    } else {
        lemma_first_missing(s.skip(1));
        let r = first_missing(s.skip(1));
        if r == -1 {
            assert forall|k: int| 0 <= k < s.len() implies ((#[trigger] s[k]).required
                ==> s[k].resolved) by {
                if k > 0 {
                    assert(s.skip(1)[k - 1] == s[k]);
                }
            }
        } else {
            assert(s.skip(1)[r] == s[r + 1]);
            assert forall|k: int| 0 <= k < first_missing(s) implies ((#[trigger] s[k]).required
                ==> s[k].resolved) by {
                if k > 0 {
                    assert(s.skip(1)[k - 1] == s[k]);
                }
            }
        }
    }
}

/// Builds the binding table from the per-symbol resolution outcomes: every
/// mandatory symbol must have resolved, else the first missing one is named
/// in the error; missing optional symbols only leave their capability
/// unavailable.
pub fn build_binding_table(version: String, resolutions: &Vec<SymbolResolution>) -> (r: Result<
    BindingTable,
    MaaLibraryError,
>)
    ensures
        first_missing(resolutions@) == -1 <==> r is Ok,
        r matches Ok(t) ==> t.version == version && t.has_override_pipeline == optional_available(
            resolutions@,
            OVERRIDE_PIPELINE_SYMBOL@,
        ),
        first_missing(resolutions@) >= 0 ==> (r matches Err(MaaLibraryError::Other(m)) && m@
            == "Failed to load "@ + resolutions@[first_missing(resolutions@)].name@),
{
    proof {
        lemma_first_missing(resolutions@);
    }
    let n = resolutions.len();
    let mut has_override = false;
    let mut i: usize = 0;
    while i < n
        invariant
            i <= n,
            n == resolutions@.len(),
            forall|k: int|
                0 <= k < i ==> ((#[trigger] resolutions@[k]).required ==> resolutions@[k].resolved),
            has_override ==> optional_available(resolutions@, OVERRIDE_PIPELINE_SYMBOL@),
            !has_override ==> forall|k: int|
                0 <= k < i ==> !((#[trigger] resolutions@[k]).name@ == OVERRIDE_PIPELINE_SYMBOL@
                    && !resolutions@[k].required && resolutions@[k].resolved),
        decreases n - i,
    {
        let sym = &resolutions[i];
        if sym.required && !sym.resolved {
            let mut m = String::from_str("Failed to load ");
            m.append(sym.name.as_str());
            proof {
                lemma_first_missing(resolutions@);
                let fm = first_missing(resolutions@);
                if fm == -1 {
                    assert(resolutions@[i as int].required ==> resolutions@[i as int].resolved);
                }
                assert(fm == i as int);
            }
            return Err(MaaLibraryError::Other(m));
        }
        if !sym.required && sym.resolved && str_eq(sym.name.as_str(), OVERRIDE_PIPELINE_SYMBOL) {
            has_override = true;
            proof {
                assert(optional_available(resolutions@, OVERRIDE_PIPELINE_SYMBOL@));
            }
        }
        i = i + 1;
    }
    proof {
        if first_missing(resolutions@) >= 0 {
            assert(resolutions@[first_missing(resolutions@)].required
                ==> resolutions@[first_missing(resolutions@)].resolved);
        }
        if !has_override && optional_available(resolutions@, OVERRIDE_PIPELINE_SYMBOL@) {
            let k = choose|k: int|
                0 <= k < resolutions@.len() && (#[trigger] resolutions@[k]).name@
                    == OVERRIDE_PIPELINE_SYMBOL@ && !resolutions@[k].required
                    && resolutions@[k].resolved;
            assert(!(resolutions@[k].name@ == OVERRIDE_PIPELINE_SYMBOL@
                && !resolutions@[k].required && resolutions@[k].resolved));
        }
    }
    Ok(BindingTable { version, has_override_pipeline: has_override })
}

/// Classifies a failure to load the native libraries: when the expected
/// files are present the failure is tagged as a load failure — a likely
/// missing host runtime dependency — otherwise as files not found.
pub fn classify_load_failure(path: String, error: String, dlls_exist: bool) -> (r: MaaLibraryError)
    ensures
        dlls_exist ==> r == (MaaLibraryError::LoadFailed { path, error, dlls_exist: true }),
        !dlls_exist ==> r == MaaLibraryError::FileNotFound(path),
{
    if dlls_exist {
        MaaLibraryError::LoadFailed { path, error, dlls_exist: true }
    } else {
        MaaLibraryError::FileNotFound(path)
    }
}

/// Whether the key native library files are present where expected; only
/// relevant on the platform whose loader needs a separate runtime.
pub fn check_dlls_exist(on_windows: bool, framework_present: bool, toolkit_present: bool) -> (r:
    bool)
    ensures
        r == (on_windows && framework_present && toolkit_present),
{
    on_windows && framework_present && toolkit_present
}

/// The process-wide library slot: at most one published binding table, the
/// version string cached by the standalone check, and the flag recording a
/// load failure that points at a missing host runtime.
#[derive(Debug)]
pub struct LibraryState {
    pub table: Option<BindingTable>,
    pub cached_version: Option<String>,
    pub vcredist_missing: bool,
}

impl Default for LibraryState {
    /// The uninitialized slot: nothing published, nothing cached.
    fn default() -> (r: Self)
        ensures
            r.table is None,
            r.cached_version is None,
            !r.vcredist_missing,
    {
        LibraryState { table: None, cached_version: None, vcredist_missing: false }
    }
}

impl LibraryState {
    /// Publishes a freshly built table, replacing any previous one.
    pub fn install_table(&mut self, table: BindingTable)
        ensures
            final(self).table == Some(table),
            final(self).cached_version == old(self).cached_version,
            final(self).vcredist_missing == old(self).vcredist_missing,
    {
        self.table = Some(table);
    }

    /// The version string of the published table, if one is published.
    pub fn get_maa_version(&self) -> (r: Option<String>)
        ensures
            r is Some <==> self.table is Some,
            r matches Some(v) ==> v == self.table->0.version,
    {
        match &self.table {
            Some(t) => Some(t.version.clone()),
            None => None,
        }
    }

    /// The version string of the published table, or the error the command
    /// surface reports when none is published.
    pub fn get_version(&self) -> (r: Result<String, MaaError>)
        ensures
            r is Ok <==> self.table is Some,
            r matches Ok(v) ==> v == self.table->0.version,
            r matches Err(e) ==> e == MaaError::NotInitialized,
    {
        match &self.table {
            Some(t) => Ok(t.version.clone()),
            None => Err(MaaError::NotInitialized),
        }
    }

    /// Whether the published table carries the pipeline-override entry
    /// point; unknown while nothing is published.
    pub fn override_pipeline_available(&self) -> (r: Option<bool>)
        ensures
            r == (match self.table {
                Some(t) => Some(t.has_override_pipeline),
                None => None::<bool>,
            }),
    {
        match &self.table {
            Some(t) => Some(t.has_override_pipeline),
            None => None,
        }
    }

    /// The standalone version check's caching rule: a cached answer is
    /// returned as it is; else the published table answers and is cached;
    /// else the probe — a load of the single version entry point — answers,
    /// and a successful probe is cached for the process lifetime.
    pub fn resolve_standalone_version(&mut self, probe: Option<String>) -> (r: Option<String>)
        ensures
            final(self).table == old(self).table,
            final(self).vcredist_missing == old(self).vcredist_missing,
            old(self).cached_version is Some ==> r == old(self).cached_version && final(self).cached_version == old(self).cached_version,
            old(self).cached_version is None && old(self).table is Some ==> r == Some(
                old(self).table->0.version,
            ) && final(self).cached_version == r,
            old(self).cached_version is None && old(self).table is None ==> r == probe && final(self).cached_version == probe,
    {
        match &self.cached_version {
            Some(v) => Some(v.clone()),
            None => {
                match &self.table {
                    Some(t) => {
                        let v = t.version.clone();
                        self.cached_version = Some(v.clone());
                        Some(v)
                    },
                    None => {
                        match probe {
                            Some(v) => {
                                self.cached_version = Some(v.clone());
                                Some(v)
                            },
                            None => None,
                        }
                    },
                }
            },
        }
    }

    /// Records whether a load failure pointed at a missing host runtime.
    pub fn set_vcredist_missing(&mut self, missing: bool)
        ensures
            final(self).vcredist_missing == missing,
            final(self).table == old(self).table,
            final(self).cached_version == old(self).cached_version,
    {
        self.vcredist_missing = missing;
    }

    /// Reads and consumes the missing-host-runtime flag: after the call the
    /// flag is clear.
    pub fn check_and_clear_vcredist_missing(&mut self) -> (r: bool)
        ensures
            r == old(self).vcredist_missing,
            !final(self).vcredist_missing,
            final(self).table == old(self).table,
            final(self).cached_version == old(self).cached_version,
    {
        let was = self.vcredist_missing;
        self.vcredist_missing = false;
        was
    }
}

} // verus!
