use vstd::prelude::*;

use crate::errors::RunError;
use crate::json::{
    field_views, json_layer_fields, json_token_field, layer_fields_of, token_field_of,
    LayerFields,
};

verus! {

// The registry client resolves an image name to a pull token, a manifest
// and the manifest's layer blobs. The HTTP requests themselves are plain
// input/output and live outside the library; everything that decides —
// which URLs and headers to send, and what the replies mean — is here.

/// One layer of an image: a compressed archive of a filesystem delta,
/// addressed by its content digest.
pub struct LayerDescriptor {
    /// Content digest of the compressed blob, e.g. `sha256:...`.
    pub digest: String,
    /// Media type the manifest declares for the blob; empty when absent.
    pub media_type: String,
    /// Compressed size in bytes the manifest declares; 0 when absent.
    pub size: u64,
}

/// An image manifest: the layers in the order they must be applied.
pub struct Manifest {
    pub layers: Vec<LayerDescriptor>,
}

/// The URL that asks the auth endpoint for an anonymous token scoped to
/// pulling one library image.
pub open spec fn auth_url_spec(image: Seq<char>) -> Seq<char> {
    "https://auth.docker.io/token?service=registry.docker.io&scope=repository:library/"@ + image
        + ":pull"@
}

/// The URL of an image's `latest` manifest.
pub open spec fn manifest_url_spec(image: Seq<char>) -> Seq<char> {
    "https://registry.hub.docker.com/v2/library/"@ + image + "/manifests/latest"@
}

/// The URL of one layer blob, addressed by content digest.
pub open spec fn blob_url_spec(image: Seq<char>, digest: Seq<char>) -> Seq<char> {
    "https://registry.hub.docker.com/v2/library/"@ + image + "/blobs/"@ + digest
}

/// The value of the `Authorization` header carrying a pull token.
pub open spec fn bearer_spec(token: Seq<char>) -> Seq<char> {
    "Bearer "@ + token
}

pub fn auth_url(image: &str) -> (r: String)
    ensures
        r@ == auth_url_spec(image@),
{
    let mut u = String::from_str(
        "https://auth.docker.io/token?service=registry.docker.io&scope=repository:library/",
    );
    u.append(image);
    u.append(":pull");
    u
}

pub fn manifest_url(image: &str) -> (r: String)
    ensures
        r@ == manifest_url_spec(image@),
{
    let mut u = String::from_str("https://registry.hub.docker.com/v2/library/");
    u.append(image);
    u.append("/manifests/latest");
    u
}

pub fn blob_url(image: &str, digest: &str) -> (r: String)
    ensures
        r@ == blob_url_spec(image@, digest@),
{
    let mut u = String::from_str("https://registry.hub.docker.com/v2/library/");
    u.append(image);
    u.append("/blobs/");
    u.append(digest);
    u
}

pub fn bearer_header(token: &str) -> (r: String)
    ensures
        r@ == bearer_spec(token@),
{
    let mut u = String::from_str("Bearer ");
    u.append(token);
    u
}

/// The one manifest media type the client accepts.
pub fn manifest_accept() -> (r: &'static str)
    ensures
        r@ == "application/vnd.docker.distribution.manifest.v2+json"@,
{
    "application/vnd.docker.distribution.manifest.v2+json"
}

/// Progress of one run's registry phase. The flags only move from false
/// to true and `gated()` holds at every point: extraction cannot begin
/// unless the manifest was obtained, which in turn needed the token — so
/// an auth or manifest failure aborts the run before anything touches
/// the filesystem.
pub struct RegistryPhase {
    token_ok: bool,
    manifest_ok: bool,
    extraction_begun: bool,
}

impl RegistryPhase {
    /// A pull token was obtained.
    pub closed spec fn token_ok(&self) -> bool {
        self.token_ok
    }

    /// A manifest was fetched and understood.
    pub closed spec fn manifest_ok(&self) -> bool {
        self.manifest_ok
    }

    /// Writing layers into the ephemeral root has begun.
    pub closed spec fn extraction_begun(&self) -> bool {
        self.extraction_begun
    }

    /// The steps that happened so far happened in order: no manifest
    /// without a token, and no extraction without a manifest.
    pub open spec fn gated(&self) -> bool {
        &&& self.manifest_ok() ==> self.token_ok()
        &&& self.extraction_begun() ==> self.manifest_ok()
    }

    /// A fresh run: nothing fetched, nothing extracted.
    pub fn start() -> (r: RegistryPhase)
        ensures
            !r.token_ok(),
            !r.manifest_ok(),
            !r.extraction_begun(),
            r.gated(),
    {
        RegistryPhase { token_ok: false, manifest_ok: false, extraction_begun: false }
    }

    /// Records the outcome of the token step and hands it through: only
    /// a token in hand lets the run continue.
    pub fn token_fetched(&mut self, outcome: Result<String, RunError>) -> (r: Result<
        String,
        RunError,
    >)
        requires
            !old(self).manifest_ok(),
            !old(self).extraction_begun(),
            old(self).gated(),
        ensures
            final(self).gated(),
            r == outcome,
            r is Ok <==> final(self).token_ok(),
            final(self).manifest_ok() == old(self).manifest_ok(),
            final(self).extraction_begun() == old(self).extraction_begun(),
    {
        self.token_ok = outcome.is_ok();
        outcome
    }

    /// Records the outcome of the manifest step, which presupposes the
    /// token, and hands it through.
    pub fn manifest_fetched(&mut self, outcome: Result<Manifest, RunError>) -> (r: Result<
        Manifest,
        RunError,
    >)
        requires
            old(self).token_ok(),
            !old(self).extraction_begun(),
            old(self).gated(),
        ensures
            final(self).gated(),
            r == outcome,
            r is Ok <==> final(self).manifest_ok(),
            final(self).token_ok(),
            final(self).extraction_begun() == old(self).extraction_begun(),
    {
        self.manifest_ok = outcome.is_ok();
        outcome
    }

    /// Marks the point past which the ephemeral root is no longer empty.
    /// Reaching it requires the whole registry phase to have succeeded:
    /// an auth or manifest failure aborts strictly before it.
    pub fn begin_extraction(&mut self)
        requires
            old(self).manifest_ok(),
            old(self).gated(),
        ensures
            final(self).gated(),
            final(self).extraction_begun(),
            final(self).token_ok(),
            final(self).manifest_ok(),
    {
        self.extraction_begun = true;
    }
}

/// What the token step returns for each value the JSON walk can hand
/// back: the token itself when the reply held one, and an auth failure
/// — fatal, since no further step is possible — when it did not.
pub fn token_decision(field: Option<&str>) -> (r: Result<String, RunError>)
    ensures
        field is Some ==> r is Ok && r->Ok_0@ == field->0@,
        field is None ==> r is Err && r->Err_0 is Auth,
{
    match field {
        Some(s) => Ok(String::from_str(s)),
        None => Err(RunError::Auth { detail: String::from_str("reply carries no 'token' string") }),
    }
}

/// Reads the pull token out of the auth endpoint's reply: the `token`
/// string the body denotes, exactly when it denotes one. Fails with
/// `Auth` otherwise: without a token no further step is possible.
pub fn token_from_auth_body(body: &str) -> (r: Result<String, RunError>)
    ensures
        r is Ok <==> token_field_of(body@) is Some,
        r is Ok ==> r->Ok_0@ == token_field_of(body@)->0,
        r is Err ==> r->Err_0 is Auth,
{
    let field = json_token_field(body);
    match &field {
        Some(s) => token_decision(Some(s.as_str())),
        None => token_decision(None),
    }
}

/// Every layer element carries a digest string; without one a layer
/// cannot be fetched.
pub open spec fn all_digests_present(
    fields: Seq<(Option<Seq<char>>, Option<Seq<char>>, Option<u64>)>,
) -> bool {
    forall|k: int| 0 <= k < fields.len() ==> (#[trigger] fields[k]).0 is Some
}

/// The descriptor one read field triple denotes, the optional fields
/// defaulted: the digest itself, the media type or empty, the size or 0.
pub open spec fn descriptor_of(f: (Option<Seq<char>>, Option<Seq<char>>, Option<u64>)) -> (
    Seq<char>,
    Seq<char>,
    u64,
) {
    (
        f.0->0,
        if f.1 is Some {
            f.1->0
        } else {
            Seq::<char>::empty()
        },
        if f.2 is Some {
            f.2->0
        } else {
            0u64
        },
    )
}

/// Reads the ordered layer list out of a manifest reply: the manifest
/// its body denotes, exactly when the body denotes a `layers` array in
/// which every layer carries a `digest` string. Fails with `Manifest`
/// otherwise — when the reply is not JSON, has no `layers` array, or
/// lists a layer without a digest.
pub fn manifest_from_body(body: &str) -> (r: Result<Manifest, RunError>)
    ensures
        r is Ok <==> (layer_fields_of(body@) is Some && all_digests_present(
            layer_fields_of(body@)->0,
        )),
        r is Ok ==> r->Ok_0.layers@.len() == layer_fields_of(body@)->0.len(),
        r is Ok ==> forall|k: int|
            0 <= k < r->Ok_0.layers@.len() ==> {
                let d = descriptor_of(layer_fields_of(body@)->0[k]);
                &&& (#[trigger] r->Ok_0.layers@[k]).digest@ == d.0
                &&& r->Ok_0.layers@[k].media_type@ == d.1
                &&& r->Ok_0.layers@[k].size == d.2
            },
        r is Err ==> r->Err_0 is Manifest,
{
    let fields = match json_layer_fields(body) {
        Some(f) => f,
        None => {
            return Err(
                RunError::Manifest {
                    detail: String::from_str("reply holds no manifest layer list"),
                },
            );
        },
    };
    match collect_layers(&fields) {
        Ok(layers) => Ok(Manifest { layers }),
        Err(e) => Err(e),
    }
}

/// Whether the manifest endpoint's HTTP answer lets the run continue: a
/// success status does, anything else is a fatal manifest error, per the
/// policy that any registry failure aborts the whole run.
pub fn manifest_status_check(status: u16) -> (r: Result<(), RunError>)
    ensures
        r is Ok <==> 200 <= status < 300,
        r is Err ==> r->Err_0 is Manifest,
{
    if 200 <= status && status < 300 {
        Ok(())
    } else {
        Err(
            RunError::Manifest {
                detail: String::from_str("registry answered a non-success status"),
            },
        )
    }
}

/// Whether a blob endpoint's HTTP answer lets the run continue: a
/// success status does, anything else is a fatal fetch error naming the
/// layer that could not be had.
pub fn blob_status_check(status: u16, digest: &str) -> (r: Result<(), RunError>)
    ensures
        r is Ok <==> 200 <= status < 300,
        r is Err ==> (r->Err_0 matches RunError::LayerFetch { digest: d, .. } && d@ == digest@),
{
    if 200 <= status && status < 300 {
        Ok(())
    } else {
        Err(
            RunError::LayerFetch {
                digest: String::from_str(digest),
                detail: String::from_str("registry answered a non-success status"),
            },
        )
    }
}

/// One blob request the layer fetch loop issues: the URL the digest is
/// served under, and the digest itself for diagnostics.
pub struct BlobRequest {
    pub url: String,
    pub digest: String,
}

/// The blob requests for a manifest's layers: one per layer, in manifest
/// order, each addressed by that layer's content digest.
pub fn layer_requests(image: &str, manifest: &Manifest) -> (r: Vec<BlobRequest>)
    ensures
        r@.len() == manifest.layers@.len(),
        forall|k: int|
            0 <= k < r@.len() ==> r@[k].url@ == blob_url_spec(image@, manifest.layers@[k].digest@)
                && r@[k].digest@ == manifest.layers@[k].digest@,
{
    let mut out: Vec<BlobRequest> = Vec::new();
    let n = manifest.layers.len();
    let mut i: usize = 0;
    while i < n
        invariant
            i <= n,
            n == manifest.layers@.len(),
            out@.len() == i,
            forall|k: int|
                0 <= k < out@.len() ==> out@[k].url@ == blob_url_spec(
                    image@,
                    manifest.layers@[k].digest@,
                ) && out@[k].digest@ == manifest.layers@[k].digest@,
        decreases n - i,
    {
        let digest = manifest.layers[i].digest.clone();
        let url = blob_url(image, digest.as_str());
        out.push(BlobRequest { url, digest });
        i = i + 1;
    }
    out
}

/// Turns the read layer fields into descriptors, one per element, in
/// order, the optional fields defaulted. A layer without a digest string
/// is a malformed manifest.
fn collect_layers(fields: &Vec<LayerFields>) -> (r: Result<Vec<LayerDescriptor>, RunError>)
    ensures
        r is Ok <==> all_digests_present(field_views(fields@)),
        r is Ok ==> r->Ok_0@.len() == fields@.len(),
        r is Ok ==> forall|k: int|
            0 <= k < r->Ok_0@.len() ==> {
                let d = descriptor_of(field_views(fields@)[k]);
                &&& (#[trigger] r->Ok_0@[k]).digest@ == d.0
                &&& r->Ok_0@[k].media_type@ == d.1
                &&& r->Ok_0@[k].size == d.2
            },
        r is Err ==> r->Err_0 is Manifest,
{
    let mut out: Vec<LayerDescriptor> = Vec::new();
    let n = fields.len();
    let mut i: usize = 0;
    while i < n
        invariant
            i <= n,
            n == fields@.len(),
            out@.len() == i,
            forall|k: int| 0 <= k < i ==> (#[trigger] field_views(fields@)[k]).0 is Some,
            forall|k: int|
                0 <= k < i ==> {
                    let d = descriptor_of(field_views(fields@)[k]);
                    &&& (#[trigger] out@[k]).digest@ == d.0
                    &&& out@[k].media_type@ == d.1
                    &&& out@[k].size == d.2
                },
        decreases n - i,
    {
        let digest = match &fields[i].0 {
            Some(s) => s.clone(),
            None => {
                proof {
                    assert(!((#[trigger] field_views(fields@)[i as int]).0 is Some));
                }
                return Err(
                    RunError::Manifest {
                        detail: String::from_str("layer carries no 'digest' string"),
                    },
                );
            },
        };
        let media_type = match &fields[i].1 {
            Some(s) => s.clone(),
            None => String::new(),
        };
        let size = match &fields[i].2 {
            Some(v) => *v,
            None => 0,
        };
        out.push(LayerDescriptor { digest, media_type, size });
        i = i + 1;
    }
    Ok(out)
}

} // verus!
