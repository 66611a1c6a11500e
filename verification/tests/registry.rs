use minibox::errors::RunError;
use minibox::registry::{
    auth_url, bearer_header, blob_status_check, blob_url, layer_requests, manifest_accept,
    manifest_from_body, manifest_status_check, manifest_url, token_decision,
    token_from_auth_body, RegistryPhase,
};

#[test]
fn auth_url_is_exact() {
    assert_eq!(
        auth_url("alpine"),
        "https://auth.docker.io/token?service=registry.docker.io&scope=repository:library/alpine:pull"
    );
}

#[test]
fn manifest_url_is_exact() {
    assert_eq!(
        manifest_url("alpine"),
        "https://registry.hub.docker.com/v2/library/alpine/manifests/latest"
    );
}

#[test]
fn blob_url_is_exact() {
    assert_eq!(
        blob_url("alpine", "sha256:d25f"),
        "https://registry.hub.docker.com/v2/library/alpine/blobs/sha256:d25f"
    );
}

#[test]
fn bearer_header_is_exact() {
    assert_eq!(bearer_header("tok123"), "Bearer tok123");
    assert_eq!(
        manifest_accept(),
        "application/vnd.docker.distribution.manifest.v2+json"
    );
}

#[test]
fn token_is_read_from_auth_reply() {
    let body = "{\"token\": \"abc.def\", \"expires_in\": 300}";
    assert_eq!(token_from_auth_body(body).unwrap(), "abc.def");
}

#[test]
fn auth_reply_without_token_fails_with_auth_error() {
    let body = "{\"expires_in\": 300}";
    match token_from_auth_body(body) {
        Err(RunError::Auth { .. }) => {},
        _ => panic!("expected an auth error"),
    }
}

#[test]
fn auth_reply_that_is_not_json_fails_with_auth_error() {
    match token_from_auth_body("not json at all") {
        Err(RunError::Auth { .. }) => {},
        _ => panic!("expected an auth error"),
    }
}

#[test]
fn manifest_layers_are_read_in_order() {
    let body = "{\"schemaVersion\": 2, \"layers\": [\
        {\"digest\": \"sha256:aaa\", \"mediaType\": \"application/vnd.docker.image.rootfs.diff.tar.gzip\", \"size\": 123},\
        {\"digest\": \"sha256:bbb\", \"size\": 7},\
        {\"digest\": \"sha256:ccc\"}]}";
    let manifest = manifest_from_body(body).unwrap();
    assert_eq!(manifest.layers.len(), 3);
    assert_eq!(manifest.layers[0].digest, "sha256:aaa");
    assert_eq!(
        manifest.layers[0].media_type,
        "application/vnd.docker.image.rootfs.diff.tar.gzip"
    );
    assert_eq!(manifest.layers[0].size, 123);
    assert_eq!(manifest.layers[1].digest, "sha256:bbb");
    assert_eq!(manifest.layers[1].media_type, "");
    assert_eq!(manifest.layers[1].size, 7);
    assert_eq!(manifest.layers[2].digest, "sha256:ccc");
    assert_eq!(manifest.layers[2].size, 0);
}

#[test]
fn manifest_without_layers_fails_with_manifest_error() {
    match manifest_from_body("{\"schemaVersion\": 2}") {
        Err(RunError::Manifest { .. }) => {},
        _ => panic!("expected a manifest error"),
    }
}

#[test]
fn manifest_layer_without_digest_fails_with_manifest_error() {
    let body = "{\"layers\": [{\"size\": 5}]}";
    match manifest_from_body(body) {
        Err(RunError::Manifest { .. }) => {},
        _ => panic!("expected a manifest error"),
    }
}

#[test]
fn manifest_that_is_not_json_fails_with_manifest_error() {
    match manifest_from_body("<html>503</html>") {
        Err(RunError::Manifest { .. }) => {},
        _ => panic!("expected a manifest error"),
    }
}

#[test]
fn success_statuses_let_the_run_continue() {
    assert!(manifest_status_check(200).is_ok());
    assert!(manifest_status_check(299).is_ok());
    match manifest_status_check(404) {
        Err(RunError::Manifest { .. }) => {},
        _ => panic!("a non-success manifest status is a manifest error"),
    }
    assert!(blob_status_check(200, "sha256:aaa").is_ok());
    match blob_status_check(500, "sha256:aaa") {
        Err(RunError::LayerFetch { digest, .. }) => assert_eq!(digest, "sha256:aaa"),
        _ => panic!("a non-success blob status is a fetch error naming the layer"),
    }
}

#[test]
fn token_decision_is_exact() {
    assert_eq!(token_decision(Some("tok")).unwrap(), "tok");
    match token_decision(None) {
        Err(RunError::Auth { .. }) => {},
        _ => panic!("a missing token is an auth error"),
    }
}

#[test]
fn blob_requests_follow_manifest_order() {
    let body = "{\"layers\": [{\"digest\": \"sha256:aaa\"}, {\"digest\": \"sha256:bbb\"}]}";
    let manifest = manifest_from_body(body).unwrap();
    let requests = layer_requests("alpine", &manifest);
    assert_eq!(requests.len(), 2);
    assert_eq!(requests[0].digest, "sha256:aaa");
    assert_eq!(
        requests[0].url,
        "https://registry.hub.docker.com/v2/library/alpine/blobs/sha256:aaa"
    );
    assert_eq!(requests[1].digest, "sha256:bbb");
    assert_eq!(
        requests[1].url,
        "https://registry.hub.docker.com/v2/library/alpine/blobs/sha256:bbb"
    );
}

#[test]
fn registry_failures_abort_with_exit_code_1() {
    // An auth or manifest failure makes the tool exit 1, before any
    // extraction: the phase gate below never reaches begin_extraction.
    let mut phase = RegistryPhase::start();
    let auth_failure: Result<String, RunError> =
        Err(RunError::Auth { detail: String::from("no such image") });
    match phase.token_fetched(auth_failure) {
        Err(e) => assert_eq!(e.exit_code(), 1),
        Ok(_) => panic!("failure must pass through"),
    }
}

#[test]
fn registry_phase_passes_successes_through() {
    let mut phase = RegistryPhase::start();
    let token = phase
        .token_fetched(Ok(String::from("tok")))
        .unwrap();
    assert_eq!(token, "tok");
    let manifest = manifest_from_body("{\"layers\": []}").unwrap();
    let manifest = phase.manifest_fetched(Ok(manifest)).unwrap();
    assert_eq!(manifest.layers.len(), 0);
    phase.begin_extraction();
}
