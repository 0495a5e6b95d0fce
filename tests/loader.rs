use fetch_cacher::headers::{merge_headers, HeaderMap};
use fetch_cacher::loader::{
    CacheInfo, FetchCacher, FetchError, FetchErrorKind, FetchedFile, LoadError, LoadResponse,
    LoadResult, LoadStep, PathProbe,
};
use fetch_cacher::npm::{NpmPackageReference, NpmReferenceError};
use fetch_cacher::overrides::OverrideTable;
use fetch_cacher::specifier::ModuleSpecifier;

fn spec(text: &str) -> ModuleSpecifier {
    ModuleSpecifier::parse(text).expect("identifier with a scheme")
}

fn headers(pairs: &[(&str, &str)]) -> HeaderMap {
    let mut h = HeaderMap::new();
    for (k, v) in pairs {
        h.insert(k.to_string(), v.to_string());
    }
    h
}

fn cacher(overrides: OverrideTable) -> FetchCacher<(), (), &'static str> {
    FetchCacher::new((), (), overrides, "root", "dynamic")
}

fn fetched(specifier: &str, h: Option<HeaderMap>, source: &str) -> FetchedFile {
    FetchedFile { specifier: spec(specifier), maybe_headers: h, source: source.to_string() }
}

fn failure(kind: FetchErrorKind) -> FetchError {
    FetchError { kind, message: "fetch failed".to_string() }
}

fn probe(path: &str, is_file: bool) -> Option<PathProbe> {
    Some(PathProbe { path: path.to_string(), is_file })
}

fn ready(step: LoadStep<'_, &'static str>) -> LoadResult {
    match step {
        LoadStep::Ready(r) => r,
        LoadStep::Fetch(_) => panic!("a fetch was requested"),
    }
}

fn fetch_permissions<'a>(step: LoadStep<'a, &'static str>) -> &'a &'static str {
    match step {
        LoadStep::Fetch(p) => p,
        LoadStep::Ready(_) => panic!("no fetch was requested"),
    }
}

#[test]
fn override_replaces_fetched_content_type() {
    let id = spec("https://example.com/mod.ts");
    let mut table = OverrideTable::new();
    table.insert(spec("https://example.com/mod.ts"), headers(&[("content-type", "application/typescript")]));
    let c = cacher(table);
    let file = fetched("https://example.com/mod.ts", Some(headers(&[("content-type", "text/plain")])), "export {};");
    match c.finish_load(&id, Ok(file)) {
        Ok(Some(LoadResponse::Module { specifier, maybe_headers, content })) => {
            assert_eq!(specifier.as_str(), "https://example.com/mod.ts");
            assert_eq!(content, "export {};");
            let h = maybe_headers.expect("merged headers");
            assert_eq!(h.get("content-type").map(|s| s.as_str()), Some("application/typescript"));
        }
        _ => panic!("expected a module"),
    }
}

#[test]
fn npm_identifier_is_external_without_fetch() {
    let c = cacher(OverrideTable::new());
    let id = spec("npm:left-pad@1.0.0");
    match ready(c.begin_load(&id, false)) {
        Ok(Some(LoadResponse::External { specifier })) => {
            assert_eq!(specifier.as_str(), "npm:left-pad@1.0.0")
        }
        _ => panic!("expected an external module"),
    }
    assert!(matches!(ready(c.begin_load(&id, true)), Ok(Some(LoadResponse::External { .. }))));
}

#[test]
fn malformed_npm_identifier_fails_without_fetch() {
    let c = cacher(OverrideTable::new());
    for (text, err) in [
        ("npm:@scope", NpmReferenceError::InvalidPackage),
        ("npm:left-pad@", NpmReferenceError::EmptyVersion),
        ("npm:left-pad/sub@1.0.0", NpmReferenceError::VersionInSubPath),
        ("npm:@1.0.0", NpmReferenceError::InvalidPackage),
        ("npm:@scope/@1.0.0", NpmReferenceError::MissingName),
        ("npm:/@2", NpmReferenceError::InvalidPackage),
        ("npm:", NpmReferenceError::MissingName),
    ] {
        match ready(c.begin_load(&spec(text), false)) {
            Err(LoadError::MalformedReference(e)) => assert_eq!(e, err, "{}", text),
            _ => panic!("expected a parse failure for {}", text),
        }
    }
}

#[test]
fn missing_file_is_absent() {
    let c = cacher(OverrideTable::new());
    let id = spec("file:///missing.ts");
    assert!(matches!(c.finish_load(&id, Err(failure(FetchErrorKind::NotFound))), Ok(None)));
}

#[test]
fn dynamic_denial_does_not_affect_static_load() {
    let c = cacher(OverrideTable::new());
    let id = spec("https://example.com/dyn.ts");
    assert_eq!(*fetch_permissions(c.begin_load(&id, true)), "dynamic");
    assert_eq!(*fetch_permissions(c.begin_load(&id, false)), "root");
    match c.finish_load(&id, Err(failure(FetchErrorKind::PermissionDenied))) {
        Err(LoadError::Fetch(e)) => {
            assert_eq!(e.kind, FetchErrorKind::PermissionDenied);
            assert_eq!(e.message, "fetch failed");
        }
        _ => panic!("expected the denial"),
    }
    let file = fetched("https://example.com/dyn.ts", None, "1");
    assert!(matches!(c.finish_load(&id, Ok(file)), Ok(Some(LoadResponse::Module { .. }))));
}

#[test]
fn other_failures_pass_unchanged() {
    let c = cacher(OverrideTable::new());
    let id = spec("https://example.com/a.ts");
    for kind in [FetchErrorKind::Network, FetchErrorKind::Io, FetchErrorKind::Other] {
        match c.finish_load(&id, Err(failure(kind))) {
            Err(LoadError::Fetch(e)) => assert_eq!(e.kind, kind),
            _ => panic!("expected the failure to pass"),
        }
    }
}

#[test]
fn load_twice_gives_same_kind() {
    let c = cacher(OverrideTable::new());
    let id = spec("file:///missing.ts");
    for _ in 0..2 {
        assert!(matches!(c.finish_load(&id, Err(failure(FetchErrorKind::NotFound))), Ok(None)));
        assert!(matches!(
            ready(c.begin_load(&spec("npm:left-pad@1.0.0"), true)),
            Ok(Some(LoadResponse::External { .. }))
        ));
    }
}

#[test]
fn fetcher_identifier_kept_without_override() {
    let c = cacher(OverrideTable::new());
    let id = spec("https://example.com/old.ts");
    let file = fetched("https://example.com/new.ts", None, "x");
    match c.finish_load(&id, Ok(file)) {
        Ok(Some(LoadResponse::Module { specifier, maybe_headers, .. })) => {
            assert_eq!(specifier.as_str(), "https://example.com/new.ts");
            assert!(maybe_headers.is_none());
        }
        _ => panic!("expected a module"),
    }
}

#[test]
fn requested_identifier_used_with_override() {
    let mut table = OverrideTable::new();
    table.insert(spec("https://example.com/old.ts"), headers(&[("x-a", "1")]));
    let c = cacher(table);
    let id = spec("https://example.com/old.ts");
    let file = fetched("https://example.com/new.ts", None, "x");
    match c.finish_load(&id, Ok(file)) {
        Ok(Some(LoadResponse::Module { specifier, maybe_headers, .. })) => {
            assert_eq!(specifier.as_str(), "https://example.com/old.ts");
            let h = maybe_headers.expect("override headers");
            assert_eq!(h.get("x-a").map(|s| s.as_str()), Some("1"));
        }
        _ => panic!("expected a module"),
    }
}

#[test]
fn merge_absent_only_when_both_absent() {
    assert!(merge_headers(None, None).is_none());
    let empty = HeaderMap::new();
    let m = merge_headers(Some(&empty), None).expect("present but empty");
    assert!(m.get("content-type").is_none());
    let f = headers(&[("a", "1"), ("b", "2")]);
    let o = headers(&[("b", "3"), ("c", "4")]);
    let m = merge_headers(Some(&f), Some(&o)).expect("merged");
    assert_eq!(m.get("a").map(|s| s.as_str()), Some("1"));
    assert_eq!(m.get("b").map(|s| s.as_str()), Some("3"));
    assert_eq!(m.get("c").map(|s| s.as_str()), Some("4"));
    assert!(m.get("d").is_none());
    let only_o = merge_headers(None, Some(&o)).expect("override alone");
    assert_eq!(only_o.get("b").map(|s| s.as_str()), Some("3"));
}

#[test]
fn cache_info_needs_local_file() {
    let c = cacher(OverrideTable::new());
    let id = spec("file:///a.ts");
    assert!(c.get_cache_info(&id, None, probe("/emit/a.js", true)).is_none());
    assert!(c.get_cache_info(&id, probe("/src/a.ts", false), probe("/emit/a.js", true)).is_none());
}

#[test]
fn cache_info_without_emit() {
    let c = cacher(OverrideTable::new());
    let id = spec("file:///a.ts");
    let info: CacheInfo = c.get_cache_info(&id, probe("/src/a.ts", true), None).expect("snapshot");
    assert_eq!(info.local.as_deref(), Some("/src/a.ts"));
    assert!(info.emit.is_none());
    assert!(info.map.is_none());
    let info = c.get_cache_info(&id, probe("/src/a.ts", true), probe("/emit/a.js", false)).expect("snapshot");
    assert!(info.emit.is_none());
}

#[test]
fn cache_info_with_emit() {
    let c = cacher(OverrideTable::new());
    let id = spec("file:///a.ts");
    let info = c.get_cache_info(&id, probe("/src/a.ts", true), probe("/emit/a.js", true)).expect("snapshot");
    assert_eq!(info.local.as_deref(), Some("/src/a.ts"));
    assert_eq!(info.emit.as_deref(), Some("/emit/a.js"));
}

#[test]
fn cache_info_never_for_npm() {
    let c = cacher(OverrideTable::new());
    let id = spec("npm:left-pad@1.0.0");
    assert!(c.get_cache_info(&id, probe("/src/a.ts", true), probe("/emit/a.js", true)).is_none());
}

#[test]
fn npm_reference_parts() {
    let r = NpmPackageReference::from_str("npm:/@scope/pkg@^2.1/lib/index.js").expect("valid");
    assert_eq!(r.name, "@scope/pkg");
    assert_eq!(r.version.as_deref(), Some("^2.1"));
    assert_eq!(r.sub_path.as_deref(), Some("lib/index.js"));
    let r = NpmPackageReference::from_str("npm:chalk").expect("valid");
    assert_eq!(r.name, "chalk");
    assert!(r.version.is_none());
    assert!(r.sub_path.is_none());
    let r = NpmPackageReference::from_str("npm:chalk/").expect("valid");
    assert!(r.sub_path.is_none());
    assert_eq!(NpmPackageReference::from_str("https://x/y").err(), Some(NpmReferenceError::NotNpmSpecifier));
}

#[test]
fn specifier_parsing() {
    assert!(ModuleSpecifier::parse("file:///a.ts").is_some());
    assert!(ModuleSpecifier::parse("git+ssh://host/repo").is_some());
    assert!(ModuleSpecifier::parse("no-scheme").is_none());
    assert!(ModuleSpecifier::parse(":x").is_none());
    assert!(ModuleSpecifier::parse("1abc:x").is_none());
    assert!(ModuleSpecifier::parse("a b:x").is_none());
    assert_eq!(spec("HTTPS://Example.COM/a.ts").as_str(), "https://example.com/a.ts");
    assert_eq!(spec("https://example.com").as_str(), "https://example.com/");
    assert!(spec("NPM:left-pad").is_npm());
    assert!(spec("npm:x").is_npm());
    assert!(!spec("npmx:x").is_npm());
    assert!(!spec("https://npm/x").is_npm());
    assert!(spec("a:b").same_as(&spec("a:b")));
    assert!(!spec("a:b").same_as(&spec("a:c")));
}

#[test]
fn override_table_lookup() {
    let mut t = OverrideTable::new();
    t.insert(spec("https://a/x.ts"), headers(&[("k", "1")]));
    t.insert(spec("https://a/x.ts"), headers(&[("k", "2")]));
    let h = t.get(&spec("https://a/x.ts")).expect("entry");
    assert_eq!(h.get("k").map(|s| s.as_str()), Some("2"));
    assert!(t.get(&spec("https://a/y.ts")).is_none());
}

#[test]
fn header_insert_replaces() {
    let mut h = HeaderMap::new();
    h.insert("k".to_string(), "1".to_string());
    h.insert("k".to_string(), "2".to_string());
    assert_eq!(h.get("k").map(|s| s.as_str()), Some("2"));
    let d = h.duplicate();
    assert_eq!(d.get("k").map(|s| s.as_str()), Some("2"));
}
