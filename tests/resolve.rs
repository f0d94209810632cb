use mini_docker::error::ContainerError;
use mini_docker::image_ref::parse_image_ref;
use mini_docker::manifest::{extract_layers, select_platform_digest, LayerRef, PlatformEntry};
use mini_docker::platform::platform_key;
use mini_docker::registry::{bearer, blob_url, manifest_url, token_url};

fn entry(arch: Option<&str>, digest: Option<&str>) -> PlatformEntry {
    PlatformEntry {
        architecture: arch.map(|a| a.to_string()),
        digest: digest.map(|d| d.to_string()),
    }
}

#[test]
fn image_without_tag_defaults_to_latest() {
    let r = parse_image_ref("alpine");
    assert_eq!(r.name, "alpine");
    assert_eq!(r.tag, "latest");
}

#[test]
fn image_with_tag_splits_at_colon() {
    let r = parse_image_ref("ubuntu:22.04");
    assert_eq!(r.name, "ubuntu");
    assert_eq!(r.tag, "22.04");
}

#[test]
fn image_splits_at_first_colon_only() {
    let r = parse_image_ref("a:b:c");
    assert_eq!(r.name, "a");
    assert_eq!(r.tag, "b:c");
}

#[test]
fn image_with_empty_tag_keeps_it_empty() {
    let r = parse_image_ref("busybox:");
    assert_eq!(r.name, "busybox");
    assert_eq!(r.tag, "");
}

#[test]
fn platform_keys_follow_the_table() {
    assert_eq!(platform_key("x86_64").as_deref(), Some("amd64"));
    assert_eq!(platform_key("aarch64").as_deref(), Some("arm64v8"));
    assert_eq!(platform_key("arm").as_deref(), Some("arm32v7"));
    assert_eq!(platform_key("i686").as_deref(), Some("386"));
    assert_eq!(platform_key("i386").as_deref(), Some("386"));
    assert_eq!(platform_key("ppc64").as_deref(), Some("ppc64le"));
    assert_eq!(platform_key("riscv64").as_deref(), Some("riscv64"));
    assert_eq!(platform_key("s390x").as_deref(), Some("s390x"));
    assert_eq!(platform_key("mips"), None);
    assert_eq!(platform_key("X86_64"), None);
}

#[test]
fn selection_returns_first_matching_entry() {
    let entries = Some(vec![
        entry(Some("arm64v8"), Some("sha256:arm")),
        entry(Some("amd64"), None),
        entry(Some("amd64"), Some("sha256:first")),
        entry(Some("amd64"), Some("sha256:second")),
    ]);
    assert_eq!(select_platform_digest(&entries, "x86_64"), Ok("sha256:first".to_string()));
    assert_eq!(select_platform_digest(&entries, "aarch64"), Ok("sha256:arm".to_string()));
}

#[test]
fn selection_without_match_is_digest_not_found() {
    let entries = Some(vec![entry(Some("arm64v8"), Some("sha256:arm")), entry(None, Some("sha256:x"))]);
    assert_eq!(select_platform_digest(&entries, "x86_64"), Err(ContainerError::DigestNotFound));
    assert_eq!(select_platform_digest(&None, "x86_64"), Err(ContainerError::DigestNotFound));
    assert_eq!(select_platform_digest(&Some(vec![]), "x86_64"), Err(ContainerError::DigestNotFound));
}

#[test]
fn selection_on_unknown_architecture_is_unsupported() {
    let entries = Some(vec![entry(Some("mips"), Some("sha256:m"))]);
    assert_eq!(select_platform_digest(&entries, "mips"), Err(ContainerError::UnsupportedArchitecture));
}

#[test]
fn layers_come_out_in_array_order() {
    let layers = Some(vec![
        LayerRef { digest: Some("sha256:l1".to_string()) },
        LayerRef { digest: Some("sha256:l2".to_string()) },
        LayerRef { digest: Some("sha256:l3".to_string()) },
    ]);
    assert_eq!(
        extract_layers(&layers),
        Ok(vec!["sha256:l1".to_string(), "sha256:l2".to_string(), "sha256:l3".to_string()])
    );
    assert_eq!(extract_layers(&Some(vec![])), Ok(vec![]));
}

#[test]
fn malformed_layers_are_a_shape_error() {
    assert_eq!(extract_layers(&None), Err(ContainerError::ManifestShape));
    let layers = Some(vec![LayerRef { digest: Some("sha256:l1".to_string()) }, LayerRef { digest: None }]);
    assert_eq!(extract_layers(&layers), Err(ContainerError::ManifestShape));
}

#[test]
fn registry_urls_are_exact() {
    assert_eq!(
        token_url("alpine"),
        "https://auth.docker.io/token?service=registry.docker.io&scope=repository:library/alpine:pull"
    );
    assert_eq!(
        manifest_url("alpine", "latest"),
        "https://registry.hub.docker.com/v2/library/alpine/manifests/latest"
    );
    assert_eq!(
        blob_url("alpine", "sha256:abc"),
        "https://registry.hub.docker.com/v2/library/alpine/blobs/sha256:abc"
    );
    assert_eq!(bearer("tok"), "Bearer tok");
}
