use qldb_bootstrap::region::{
    normalize_endpoint, parse_region, region_from_lookup, resolve_region, RegionDescriptor,
    RegionError,
};

fn s(x: &str) -> String {
    x.to_string()
}

#[test]
fn resolve_without_region_or_endpoint_gives_default() {
    let r = resolve_region(None, None, s("eu-west-1")).unwrap();
    assert_eq!(r, RegionDescriptor::Named { name: s("eu-west-1") });
}

#[test]
fn resolve_named_region() {
    let r = resolve_region(Some(s("us-east-1")), None, s("eu-west-1")).unwrap();
    assert_eq!(r, RegionDescriptor::Named { name: s("us-east-1") });
}

#[test]
fn resolve_endpoint_only_uses_default_name() {
    let r = resolve_region(None, Some(s("https://example.com/")), s("eu-west-1")).unwrap();
    assert_eq!(
        r,
        RegionDescriptor::Custom { name: s("eu-west-1"), endpoint: s("https://example.com") }
    );
}

#[test]
fn resolve_region_and_endpoint_is_custom() {
    let r = resolve_region(Some(s("us-east-1")), Some(s("https://example.com//")), s("eu-west-1"))
        .unwrap();
    assert_eq!(
        r,
        RegionDescriptor::Custom { name: s("us-east-1"), endpoint: s("https://example.com") }
    );
}

#[test]
fn resolve_region_and_endpoint_keeps_name_verbatim() {
    let r = resolve_region(Some(s("my-region")), Some(s("http://localhost:8000")), s("eu-west-1"))
        .unwrap();
    assert_eq!(
        r,
        RegionDescriptor::Custom { name: s("my-region"), endpoint: s("http://localhost:8000") }
    );
}

#[test]
fn resolve_invalid_region_fails() {
    let r = resolve_region(Some(s("not-a-region")), None, s("eu-west-1"));
    assert_eq!(r, Err(RegionError::InvalidRegion { input: s("not-a-region") }));
}

#[test]
fn resolve_twice_gives_equal_descriptors() {
    let a = resolve_region(Some(s("us-east-1")), Some(s("https://example.com/")), s("eu-west-1"));
    let b = resolve_region(Some(s("us-east-1")), Some(s("https://example.com/")), s("eu-west-1"));
    assert_eq!(a, b);
    let c = resolve_region(Some(s("nowhere")), None, s("eu-west-1"));
    let d = resolve_region(Some(s("nowhere")), None, s("eu-west-1"));
    assert_eq!(c, d);
}

#[test]
fn parse_region_accepts_canonical_names() {
    assert_eq!(parse_region("us-east-1"), Ok(RegionDescriptor::Named { name: s("us-east-1") }));
    assert_eq!(parse_region("eu-west-2"), Ok(RegionDescriptor::Named { name: s("eu-west-2") }));
}

#[test]
fn parse_region_is_case_and_format_sensitive() {
    assert_eq!(
        parse_region("US-EAST-1"),
        Err(RegionError::InvalidRegion { input: s("US-EAST-1") })
    );
    assert_eq!(parse_region("uswest2"), Err(RegionError::InvalidRegion { input: s("uswest2") }));
}

#[test]
fn lookup_accepts_only_the_canonical_spelling() {
    assert_eq!(
        region_from_lookup("us-east-1", Some(s("us-east-1"))),
        Ok(RegionDescriptor::Named { name: s("us-east-1") })
    );
    assert_eq!(
        region_from_lookup("useast1", Some(s("us-east-1"))),
        Err(RegionError::InvalidRegion { input: s("useast1") })
    );
    assert_eq!(
        region_from_lookup("nowhere", None),
        Err(RegionError::InvalidRegion { input: s("nowhere") })
    );
}

#[test]
fn parse_region_rejects_unknown() {
    assert_eq!(parse_region(""), Err(RegionError::InvalidRegion { input: s("") }));
    assert_eq!(
        parse_region("mars-north-1"),
        Err(RegionError::InvalidRegion { input: s("mars-north-1") })
    );
}

#[test]
fn normalize_endpoint_strips_both_ends() {
    assert_eq!(normalize_endpoint("https://example.com/"), "https://example.com");
    assert_eq!(normalize_endpoint("/a/b//"), "a/b");
    assert_eq!(normalize_endpoint("///"), "");
    assert_eq!(normalize_endpoint(""), "");
    assert_eq!(normalize_endpoint("host"), "host");
}
