//! The loader facade: scheme dispatch, permission selection, fetch-outcome
//! normalization and metadata merging for the graph builder.
use std::sync::Arc;
use vstd::prelude::*;
use crate::headers::{lookup, merge_headers, merged_headers, opt_headers_view, HeaderMap};
use crate::npm::{parse_npm_reference, NpmPackageReference, NpmReferenceError};
use crate::overrides::OverrideTable;
use crate::specifier::{is_npm_specifier, ModuleSpecifier};

verus! {

/// How a fetch failed.
#[derive(PartialEq, Eq, Structural, Clone, Copy, Debug)]
pub enum FetchErrorKind {
    /// Nothing exists at the identifier, whether the file system or the
    /// fetcher's own error class says so.
    NotFound,
    /// The permission set in use does not allow the access.
    PermissionDenied,
    /// A network or transport fault.
    Network,
    /// An I/O fault other than a missing file.
    Io,
    /// Any other fault (malformed content, an unsupported scheme).
    Other,
}

/// A failure reported by the content fetcher.
pub struct FetchError {
    pub kind: FetchErrorKind,
    pub message: String,
}

/// What the content fetcher hands back for a module.
pub struct FetchedFile {
    /// The identifier that the fetcher reports (after redirects).
    pub specifier: ModuleSpecifier,
    pub maybe_headers: Option<HeaderMap>,
    pub source: String,
}

/// A successful load.
pub enum LoadResponse {
    /// The identifier is a registry package reference, resolved elsewhere.
    External { specifier: ModuleSpecifier },
    /// Module text with its merged metadata.
    Module { specifier: ModuleSpecifier, maybe_headers: Option<HeaderMap>, content: String },
}

/// A failed load.
pub enum LoadError {
    /// A registry package reference that does not parse.
    MalformedReference(NpmReferenceError),
    /// A fetch failure, passed on as the fetcher reported it.
    Fetch(FetchError),
}

/// The result of a load: `Ok(None)` when no module exists at the identifier.
pub type LoadResult = Result<Option<LoadResponse>, LoadError>;

/// Filesystem locations already available for a module.
pub struct CacheInfo {
    pub local: Option<String>,
    pub emit: Option<String>,
    pub map: Option<String>,
}

/// A path that a collaborator reported, and whether a file exists there.
pub struct PathProbe {
    pub path: String,
    pub is_file: bool,
}

/// The first step of a load: either its result, or the permission set that
/// the fetch of the identifier must run under.
pub enum LoadStep<'a, P> {
    Ready(LoadResult),
    Fetch(&'a P),
}

/// The four outcomes of a load.
#[derive(PartialEq, Eq, Structural, Clone, Copy, Debug)]
pub enum LoadKind {
    Module,
    External,
    Absent,
    Failure,
}

pub open spec fn load_kind(r: LoadResult) -> LoadKind {
    match r {
        Ok(Some(LoadResponse::Module { .. })) => LoadKind::Module,
        Ok(Some(LoadResponse::External { .. })) => LoadKind::External,
        Ok(None) => LoadKind::Absent,
        Err(_) => LoadKind::Failure,
    }
}

/// The result for a registry package identifier `s`: external when it parses,
/// else the parse error.
pub open spec fn npm_load_result(s: Seq<char>, r: LoadResult) -> bool {
    match parse_npm_reference(s) {
        Ok(_) => r matches Ok(Some(LoadResponse::External { specifier })) && specifier@ == s,
        Err(e) => r matches Err(LoadError::MalformedReference(e2)) && e2 == e,
    }
}

/// The result of a load of `requested` whose fetch ended in `outcome`, with
/// `overrides` the override table: a missing module is absent, other failures
/// pass unchanged, and fetched text comes with the merged metadata, under the
/// requested identifier when an override exists for it and under the
/// fetcher's identifier otherwise.
pub open spec fn fetched_load_result(
    overrides: Map<Seq<char>, Map<Seq<char>, Seq<char>>>,
    requested: Seq<char>,
    outcome: Result<FetchedFile, FetchError>,
    r: LoadResult,
) -> bool {
    match outcome {
        Err(e) => if e.kind == FetchErrorKind::NotFound {
            r is Ok && r->Ok_0 is None
        } else {
            r matches Err(LoadError::Fetch(e2)) && e2 == e
        },
        Ok(file) => match r {
            Ok(Some(LoadResponse::Module { specifier, maybe_headers, content })) => {
                &&& content == file.source
                &&& opt_headers_view(maybe_headers) == merged_headers(
                    opt_headers_view(file.maybe_headers),
                    lookup(overrides, requested),
                )
                &&& specifier@ == if overrides.contains_key(requested) {
                    requested
                } else {
                    file.specifier@
                }
            },
            _ => false,
        },
    }
}

/// The snapshot for an identifier that is no registry package: present
/// exactly when the local path is a file, with that path, no source map, and
/// the emit path when it is a file.
pub open spec fn cache_info_result(local: Option<PathProbe>, emit: Option<PathProbe>, r: Option<
    CacheInfo,
>) -> bool {
    match local {
        Some(l) if l.is_file => match r {
            Some(info) => {
                &&& info.local == Some(l.path)
                &&& info.map is None
                &&& info.emit == match emit {
                    Some(e) if e.is_file => Some(e.path),
                    _ => None,
                }
            },
            None => false,
        },
        _ => r is None,
    }
}

/// The module cache facade that the graph builder loads through. `E` is the
/// compiled-artifact cache, `F` the content fetcher, `P` a permission set.
pub struct FetchCacher<E, F, P> {
    emit_cache: E,
    dynamic_permissions: P,
    file_fetcher: Arc<F>,
    file_header_overrides: OverrideTable,
    root_permissions: P,
}

impl<E, F, P> FetchCacher<E, F, P> {
    pub closed spec fn spec_root_permissions(&self) -> P {
        self.root_permissions
    }

    pub closed spec fn spec_dynamic_permissions(&self) -> P {
        self.dynamic_permissions
    }

    pub closed spec fn spec_overrides(&self) -> Map<Seq<char>, Map<Seq<char>, Seq<char>>> {
        self.file_header_overrides@
    }

    pub closed spec fn spec_emit_cache(&self) -> E {
        self.emit_cache
    }

    pub closed spec fn spec_file_fetcher(&self) -> F {
        *self.file_fetcher
    }

    /// Builds the facade; the fetcher goes behind a shared handle.
    pub fn new(
        emit_cache: E,
        file_fetcher: F,
        file_header_overrides: OverrideTable,
        root_permissions: P,
        dynamic_permissions: P,
    ) -> (r: Self)
        ensures
            r.spec_emit_cache() == emit_cache,
            r.spec_file_fetcher() == file_fetcher,
            r.spec_overrides() == file_header_overrides@,
            r.spec_root_permissions() == root_permissions,
            r.spec_dynamic_permissions() == dynamic_permissions,
    {
        let file_fetcher = Arc::new(file_fetcher);
        FetchCacher {
            emit_cache,
            dynamic_permissions,
            file_fetcher,
            file_header_overrides,
            root_permissions,
        }
    }

    pub fn emit_cache(&self) -> (r: &E)
        ensures
            *r == self.spec_emit_cache(),
    {
        &self.emit_cache
    }

    pub fn file_fetcher(&self) -> (r: &Arc<F>)
        ensures
            **r == self.spec_file_fetcher(),
    {
        &self.file_fetcher
    }

    pub fn file_header_overrides(&self) -> (r: &OverrideTable)
        ensures
            r@ == self.spec_overrides(),
    {
        &self.file_header_overrides
    }

    /// The permission set for a load: the dynamic one for a dynamic import,
    /// the root one for a static import.
    pub fn permissions_for(&self, is_dynamic: bool) -> (r: &P)
        ensures
            *r == if is_dynamic {
                self.spec_dynamic_permissions()
            } else {
                self.spec_root_permissions()
            },
    {
        if is_dynamic {
            &self.dynamic_permissions
        } else {
            &self.root_permissions
        }
    }

    /// What is already on disk for `specifier`: nothing for a registry
    /// package, nothing unless the fetcher's local path (`local`) is a file,
    /// and else that path with the emit path (`emit`) kept only if it is a
    /// file. `local` and `emit` are the collaborators' answers for the
    /// identifier.
    pub fn get_cache_info(
        &self,
        specifier: &ModuleSpecifier,
        local: Option<PathProbe>,
        emit: Option<PathProbe>,
    ) -> (r: Option<CacheInfo>)
        ensures
            is_npm_specifier(specifier@) ==> r is None,
            !(local matches Some(l) && l.is_file) ==> r is None,
            !is_npm_specifier(specifier@) ==> cache_info_result(local, emit, r),
    {
        if specifier.is_npm() {
            return None;
        }
        match local {
            Some(l) => if l.is_file {
                let emit_path = match emit {
                    Some(e) => if e.is_file {
                        Some(e.path)
                    } else {
                        None
                    },
                    None => None,
                };
                Some(CacheInfo { local: Some(l.path), emit: emit_path, map: None })
            } else {
                None
            },
            None => None,
        }
    }

    /// Starts a load: a registry package identifier is answered at once
    /// (external, or the parse error) and nothing is fetched; any other
    /// identifier is to be fetched under the permission set that
    /// `is_dynamic` selects.
    pub fn begin_load(&self, specifier: &ModuleSpecifier, is_dynamic: bool) -> (r: LoadStep<'_, P>)
        ensures
            is_npm_specifier(specifier@) ==> (r matches LoadStep::Ready(res) && npm_load_result(
                specifier@,
                res,
            )),
            !is_npm_specifier(specifier@) ==> (r matches LoadStep::Fetch(p) && *p == if is_dynamic {
                self.spec_dynamic_permissions()
            } else {
                self.spec_root_permissions()
            }),
    {
        if specifier.is_npm() {
            let res = match NpmPackageReference::from_specifier(specifier) {
                Ok(_) => Ok(Some(LoadResponse::External { specifier: specifier.duplicate() })),
                Err(e) => Err(LoadError::MalformedReference(e)),
            };
            return LoadStep::Ready(res);
        }
        LoadStep::Fetch(self.permissions_for(is_dynamic))
    }

    /// Finishes a load of `specifier` whose fetch ended in `outcome`.
    pub fn finish_load(&self, specifier: &ModuleSpecifier, outcome: Result<FetchedFile, FetchError>) -> (r:
        LoadResult)
        ensures
            fetched_load_result(self.spec_overrides(), specifier@, outcome, r),
    {
        match outcome {
            Err(e) => if e.kind == FetchErrorKind::NotFound {
                Ok(None)
            } else {
                Err(LoadError::Fetch(e))
            },
            Ok(file) => {
                let overridden = self.file_header_overrides.get(specifier);
                let maybe_headers = merge_headers(file.maybe_headers.as_ref(), overridden);
                let out_specifier = if overridden.is_some() {
                    specifier.duplicate()
                } else {
                    file.specifier
                };
                Ok(Some(LoadResponse::Module {
                    specifier: out_specifier,
                    maybe_headers,
                    content: file.source,
                }))
            },
        }
    }
}

} // verus!

verus! {

/// Two loads of one identifier with the same fetch outcome end in the same
/// kind of result.
pub proof fn law_load_kind_stable(
    overrides: Map<Seq<char>, Map<Seq<char>, Seq<char>>>,
    requested: Seq<char>,
    outcome: Result<FetchedFile, FetchError>,
    first: LoadResult,
    second: LoadResult,
)
    requires
        fetched_load_result(overrides, requested, outcome, first),
        fetched_load_result(overrides, requested, outcome, second),
    ensures
        load_kind(first) == load_kind(second),
{
}

/// Two loads of one registry package identifier end in the same kind of
/// result.
pub proof fn law_npm_load_kind_stable(s: Seq<char>, first: LoadResult, second: LoadResult)
    requires
        npm_load_result(s, first),
        npm_load_result(s, second),
    ensures
        load_kind(first) == load_kind(second),
        load_kind(first) == LoadKind::External <==> parse_npm_reference(s) is Ok,
        load_kind(first) == LoadKind::Failure <==> parse_npm_reference(s) is Err,
{
}

/// The two permission sets are never conflated: a fetch that the dynamic set
/// denies and the root set allows makes the dynamic load fail with the denial
/// and the static load succeed, and each load runs under its own set.
pub proof fn law_permission_sets_apart<E, F, P>(
    cacher: FetchCacher<E, F, P>,
    specifier: Seq<char>,
    dynamic_outcome: Result<FetchedFile, FetchError>,
    static_outcome: Result<FetchedFile, FetchError>,
    dynamic_result: LoadResult,
    static_result: LoadResult,
)
    requires
        dynamic_outcome matches Err(e) && e.kind == FetchErrorKind::PermissionDenied,
        static_outcome is Ok,
        fetched_load_result(cacher.spec_overrides(), specifier, dynamic_outcome, dynamic_result),
        fetched_load_result(cacher.spec_overrides(), specifier, static_outcome, static_result),
    ensures
        dynamic_result matches Err(LoadError::Fetch(e)) && e.kind
            == FetchErrorKind::PermissionDenied,
        load_kind(static_result) == LoadKind::Module,
{
}

} // verus!
