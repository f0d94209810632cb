use vstd::prelude::*;
use crate::error::ContainerError;
use crate::image_ref::{ImageRef, parse_image_ref, parses_to};
use crate::layer::{FsWrite, layer_writes_of, unpack_layer, writes_view};
use crate::manifest::{
    ManifestDoc, extract_layers, layer_list_of, platform_digest_of, select_platform_digest,
};
use crate::registry::{
    bearer, bearer_of, blob_url, blob_url_of, manifest_url, manifest_url_of, token_url,
    token_url_of,
};
use crate::rootfs::{DeviceNode, dev_null_node, dev_null_path, dev_null_path_of, null_device};

verus! {

/// Where a pull stands: what it waits for, or how it ended.
#[derive(Debug, Clone, Copy, PartialEq, Eq, Structural)]
pub enum PullStage {
    AwaitToken,
    AwaitManifest,
    AwaitPlatformManifest,
    AwaitBlob,
    AwaitUnpack,
    AwaitDevNullProbe,
    AwaitDevice,
    Finished,
    Aborted(ContainerError),
}

/// What the caller reports back after carrying out the last action.
pub enum PullEvent {
    /// The token endpoint answered with this token.
    Token(String),
    /// The manifest endpoint answered with this document.
    Manifest(ManifestDoc),
    /// The blob endpoint answered with these bytes.
    Blob(Vec<u8>),
    /// The writes of the last layer were carried out.
    Unpacked,
    /// Whether something already stands at the null device's path.
    DevNullProbed { present: bool },
    /// The device node was created.
    DeviceCreated,
    /// The last action could not be carried out.
    Failed,
}

/// The next piece of outside work that a pull asks for.
pub enum PullAction {
    /// GET `url`; answer with `Token`.
    FetchToken { url: String },
    /// GET `url` with this `Authorization` header and the manifest media type
    /// in `Accept`; answer with `Manifest`.
    FetchManifest { url: String, authorization: String },
    /// GET the blob `digest` at `url` with this `Authorization` header;
    /// answer with `Blob`.
    FetchBlob { digest: String, url: String, authorization: String },
    /// Carry out these writes in order; answer with `Unpacked`.
    Unpack { writes: Vec<FsWrite> },
    /// Tell whether something stands at `path`; answer with `DevNullProbed`.
    ProbeDevNull { path: String },
    /// Create this device node; answer with `DeviceCreated`.
    CreateDevice { node: DeviceNode },
    /// The root filesystem is complete.
    Done,
    /// The pull failed at the stage that the error names.
    Abort(ContainerError),
}

/// One pull of an image into a root directory, driven one event at a time.
pub struct PullSession {
    pub image: ImageRef,
    pub root_dir: String,
    pub native_arch: String,
    pub token: String,
    pub layers: Vec<String>,
    pub next_layer: usize,
    pub stage: PullStage,
    /// The digests of the blobs requested so far, in order.
    pub requested: Ghost<Seq<Seq<char>>>,
}

/// Whether `a` asks for the manifest at `url` with `token`.
pub open spec fn fetches_manifest(a: PullAction, url: Seq<char>, token: Seq<char>) -> bool {
    a matches PullAction::FetchManifest { url: u, authorization: h } && u@ == url && h@ == bearer_of(token)
}

/// Whether `a` asks for the blob `digest` of `name` with `token`.
pub open spec fn fetches_blob(a: PullAction, name: Seq<char>, digest: Seq<char>, token: Seq<char>) -> bool {
    a matches PullAction::FetchBlob { digest: d, url: u, authorization: h } && d@ == digest && u@ == blob_url_of(name, digest) && h@ == bearer_of(token)
}

/// Whether `a` asks whether the null device of `root` is there.
pub open spec fn probes_dev_null(a: PullAction, root: Seq<char>) -> bool {
    a matches PullAction::ProbeDevNull { path } && path@ == dev_null_path_of(root)
}

impl PullSession {
    /// The digests of the layers to unpack, in manifest order.
    pub open spec fn layer_seq(&self) -> Seq<Seq<char>> {
        self.layers@.map_values(|s: String| s@)
    }

    /// Whether the pull has neither finished nor failed.
    pub open spec fn active(&self) -> bool {
        !(self.stage is Finished) && !(self.stage is Aborted)
    }

    /// The blobs requested so far are a prefix of the layers.
    pub open spec fn requested_prefix(&self) -> bool {
        &&& self.next_layer <= self.layers@.len()
        &&& self.requested@.len() <= self.layers@.len()
        &&& self.requested@ == self.layer_seq().subrange(0, self.requested@.len() as int)
    }

    /// Blobs are requested in manifest order, one per layer, and only once
    /// the layer list is known.
    pub open spec fn wf(&self) -> bool {
        &&& self.requested_prefix()
        &&& match self.stage {
            PullStage::AwaitToken | PullStage::AwaitManifest | PullStage::AwaitPlatformManifest => self.requested@.len() == 0,
            PullStage::AwaitBlob | PullStage::AwaitUnpack => {
                &&& self.next_layer < self.layers@.len()
                &&& self.requested@.len() == self.next_layer + 1
            },
            PullStage::AwaitDevNullProbe | PullStage::AwaitDevice | PullStage::Finished => self.requested@.len() == self.layers@.len(),
            PullStage::Aborted(_) => true,
        }
    }

    /// The error that a failure at this stage is reported as.
    pub open spec fn stage_error(&self) -> ContainerError {
        match self.stage {
            PullStage::AwaitToken => ContainerError::Auth,
            PullStage::AwaitManifest | PullStage::AwaitPlatformManifest | PullStage::AwaitBlob => ContainerError::Registry,
            PullStage::Aborted(e) => e,
            _ => ContainerError::Extraction,
        }
    }

    /// Whether `event` is what this stage waits for.
    pub open spec fn expects(&self, event: PullEvent) -> bool {
        match self.stage {
            PullStage::AwaitToken => event is Token,
            PullStage::AwaitManifest | PullStage::AwaitPlatformManifest => event is Manifest,
            PullStage::AwaitBlob => event is Blob,
            PullStage::AwaitUnpack => event is Unpacked,
            PullStage::AwaitDevNullProbe => event is DevNullProbed,
            PullStage::AwaitDevice => event is DeviceCreated,
            _ => false,
        }
    }

    /// Whether `self` is `old` with the same image, root and host.
    pub open spec fn same_request(&self, old: PullSession) -> bool {
        &&& self.image.name@ == old.image.name@
        &&& self.image.tag@ == old.image.tag@
        &&& self.root_dir@ == old.root_dir@
        &&& self.native_arch@ == old.native_arch@
    }

    /// Whether `self` is aborted with `e`, and `a` reports it.
    pub open spec fn aborted_with(&self, a: PullAction, e: ContainerError) -> bool {
        self.stage == PullStage::Aborted(e) && a == PullAction::Abort(e)
    }

    /// Whether, with the layer list just known, `a` starts on its first layer.
    pub open spec fn starts_layers(&self, a: PullAction) -> bool {
        &&& self.next_layer == 0
        &&& self.layers@.len() == 0 ==> self.stage == PullStage::AwaitDevNullProbe && probes_dev_null(a, self.root_dir@)
        &&& self.layers@.len() > 0 ==> self.stage == PullStage::AwaitBlob && fetches_blob(a, self.image.name@, self.layer_seq()[0], self.token@)
    }

    fn abort(&mut self, e: ContainerError) -> (a: PullAction)
        requires
            old(self).requested_prefix(),
        ensures
            final(self).wf(),
            final(self).aborted_with(a, e),
            *final(self) == (PullSession { stage: PullStage::Aborted(e), ..*old(self) }),
    {
        self.stage = PullStage::Aborted(e);
        PullAction::Abort(e)
    }

    fn request_blob(&mut self) -> (a: PullAction)
        requires
            old(self).requested_prefix(),
            old(self).next_layer < old(self).layers@.len(),
            old(self).requested@.len() == old(self).next_layer,
        ensures
            final(self).wf(),
            final(self).same_request(*old(self)),
            final(self).stage == PullStage::AwaitBlob,
            final(self).layers@ == old(self).layers@,
            final(self).token@ == old(self).token@,
            final(self).next_layer == old(self).next_layer,
            final(self).requested@ == old(self).requested@.push(old(self).layer_seq()[old(self).next_layer as int]),
            fetches_blob(a, old(self).image.name@, old(self).layer_seq()[old(self).next_layer as int], old(self).token@),
    {
        let digest = self.layers[self.next_layer].clone();
        let url = blob_url(self.image.name.as_str(), digest.as_str());
        let authorization = bearer(self.token.as_str());
        self.stage = PullStage::AwaitBlob;
        self.requested = Ghost(self.requested@.push(digest@));
        assert(self.requested@ =~= self.layer_seq().subrange(0, self.requested@.len() as int));
        PullAction::FetchBlob { digest, url, authorization }
    }

    fn probe_dev_null(&mut self) -> (a: PullAction)
        requires
            old(self).requested_prefix(),
            old(self).requested@.len() == old(self).layers@.len(),
        ensures
            final(self).wf(),
            final(self).same_request(*old(self)),
            final(self).stage == PullStage::AwaitDevNullProbe,
            final(self).layers@ == old(self).layers@,
            final(self).token@ == old(self).token@,
            final(self).next_layer == old(self).next_layer,
            final(self).requested@ == old(self).requested@,
            probes_dev_null(a, old(self).root_dir@),
    {
        let path = dev_null_path(self.root_dir.as_str());
        self.stage = PullStage::AwaitDevNullProbe;
        PullAction::ProbeDevNull { path }
    }

    fn begin_layers(&mut self, ds: Vec<String>) -> (a: PullAction)
        requires
            old(self).requested_prefix(),
            old(self).requested@.len() == 0,
        ensures
            final(self).wf(),
            final(self).same_request(*old(self)),
            final(self).layers@ == ds@,
            final(self).token@ == old(self).token@,
            final(self).starts_layers(a),
            a matches PullAction::FetchBlob { digest, .. } ==> final(self).requested@ == old(self).requested@.push(digest@),
            !(a is FetchBlob) ==> final(self).requested@ == old(self).requested@,
    {
        self.layers = ds;
        self.next_layer = 0;
        assert(self.requested@ =~= self.layer_seq().subrange(0, 0));
        if self.layers.len() == 0 {
            self.probe_dev_null()
        } else {
            let a = self.request_blob();
            assert(self.layer_seq()[0] == self.layers@[0]@);
            a
        }
    }

    fn on_manifest(&mut self, doc: ManifestDoc) -> (a: PullAction)
        requires
            old(self).wf(),
            old(self).stage == PullStage::AwaitManifest || old(self).stage == PullStage::AwaitPlatformManifest,
        ensures
            final(self).wf(),
            final(self).same_request(*old(self)),
            final(self).token@ == old(self).token@,
            a matches PullAction::FetchBlob { digest, .. } ==> final(self).requested@ == old(self).requested@.push(digest@),
            !(a is FetchBlob) ==> final(self).requested@ == old(self).requested@,
            doc matches ManifestDoc::Concrete { layers } ==> match layer_list_of(layers) {
                Err(e) => final(self).aborted_with(a, e),
                Ok(ds) => final(self).layer_seq() == ds && final(self).starts_layers(a),
            },
            old(self).stage == PullStage::AwaitPlatformManifest ==> (doc is List
                ==> final(self).aborted_with(a, ContainerError::ManifestShape)),
            old(self).stage == PullStage::AwaitManifest ==> (doc matches ManifestDoc::List { entries }
                ==> match platform_digest_of(entries, old(self).native_arch@) {
                Err(e) => final(self).aborted_with(a, e),
                Ok(d) => final(self).stage == PullStage::AwaitPlatformManifest && fetches_manifest(a, manifest_url_of(old(self).image.name@, d), old(self).token@),
            }),
    {
        match doc {
            ManifestDoc::Concrete { layers } => match extract_layers(&layers) {
                Ok(ds) => {
                    let a = self.begin_layers(ds);
                    proof {
                        assert(self.layers@.map_values(|s: String| s@) == self.layer_seq());
                    }
                    a
                },
                Err(e) => self.abort(e),
            },
            ManifestDoc::List { entries } => {
                if self.stage == PullStage::AwaitPlatformManifest {
                    return self.abort(ContainerError::ManifestShape);
                }
                match select_platform_digest(&entries, self.native_arch.as_str()) {
                    Ok(d) => {
                        let url = manifest_url(self.image.name.as_str(), d.as_str());
                        let authorization = bearer(self.token.as_str());
                        self.stage = PullStage::AwaitPlatformManifest;
                        PullAction::FetchManifest { url, authorization }
                    },
                    Err(e) => self.abort(e),
                }
            },
        }
    }

    /// Advances the pull by one event and returns the next action.
    ///
    /// A finished or failed pull stays as it is. A failure, or an event that
    /// the stage does not wait for, aborts with the stage's error. Otherwise:
    /// the token leads to the tagged manifest; a manifest list to the
    /// manifest of the host's platform; a concrete manifest to its first
    /// layer; each blob to the writes that unpack it; each unpacked layer to
    /// the next blob, in manifest order, and the last one to the null device.
    pub fn step(&mut self, event: PullEvent) -> (a: PullAction)
        requires
            old(self).wf(),
        ensures
            final(self).wf(),
            final(self).same_request(*old(self)),
            !(a is FetchBlob) ==> final(self).requested@ == old(self).requested@,
            a matches PullAction::FetchBlob { digest, .. } ==> final(self).requested@ == old(self).requested@.push(digest@),
            old(self).stage == PullStage::Finished ==> a == PullAction::Done && final(self).stage == PullStage::Finished,
            old(self).stage matches PullStage::Aborted(e) ==> final(self).aborted_with(a, e),
            old(self).active() && (event is Failed || !old(self).expects(event)) ==> final(self).aborted_with(a, old(self).stage_error()),
            old(self).stage == PullStage::AwaitToken ==> (event matches PullEvent::Token(t) ==> {
                &&& final(self).stage == PullStage::AwaitManifest
                &&& final(self).token@ == t@
                &&& fetches_manifest(a, manifest_url_of(old(self).image.name@, old(self).image.tag@), t@)
            }),
            old(self).stage == PullStage::AwaitManifest ==> (event matches PullEvent::Manifest(ManifestDoc::List { entries }) ==> match platform_digest_of(entries, old(self).native_arch@) {
                Err(e) => final(self).aborted_with(a, e),
                Ok(d) => final(self).stage == PullStage::AwaitPlatformManifest && fetches_manifest(a, manifest_url_of(old(self).image.name@, d), old(self).token@),
            }),
            old(self).stage == PullStage::AwaitPlatformManifest ==> (event matches PullEvent::Manifest(ManifestDoc::List { .. })
                ==> final(self).aborted_with(a, ContainerError::ManifestShape)),
            (old(self).stage == PullStage::AwaitManifest || old(self).stage == PullStage::AwaitPlatformManifest)
                ==> (event matches PullEvent::Manifest(ManifestDoc::Concrete { layers }) ==> match layer_list_of(layers) {
                Err(e) => final(self).aborted_with(a, e),
                Ok(ds) => final(self).layer_seq() == ds && final(self).token@ == old(self).token@ && final(self).starts_layers(a),
            }),
            old(self).stage == PullStage::AwaitBlob ==> (event matches PullEvent::Blob(b) ==> match layer_writes_of(old(self).root_dir@, b@) {
                None => final(self).aborted_with(a, ContainerError::Extraction),
                Some(ws) => final(self).stage == PullStage::AwaitUnpack && (a matches PullAction::Unpack { writes } && writes_view(writes@) == ws),
            }),
            old(self).stage == PullStage::AwaitUnpack && event is Unpacked ==> {
                let next = old(self).next_layer + 1;
                &&& final(self).next_layer == next
                &&& next < old(self).layers@.len() ==> final(self).stage == PullStage::AwaitBlob
                    && fetches_blob(a, old(self).image.name@, old(self).layer_seq()[next], old(self).token@)
                &&& next == old(self).layers@.len() ==> final(self).stage == PullStage::AwaitDevNullProbe
                    && probes_dev_null(a, old(self).root_dir@)
            },
            old(self).stage == PullStage::AwaitDevNullProbe ==> (event matches PullEvent::DevNullProbed { present } ==> {
                &&& present ==> final(self).stage == PullStage::Finished && a == PullAction::Done
                &&& !present ==> final(self).stage == PullStage::AwaitDevice && (a matches PullAction::CreateDevice { node }
                    && node.path@ == dev_null_path_of(old(self).root_dir@) && node.node() == null_device())
            }),
            old(self).stage == PullStage::AwaitDevice && event is DeviceCreated ==> final(self).stage == PullStage::Finished && a == PullAction::Done,
    {
        match self.stage {
            PullStage::Finished => return PullAction::Done,
            PullStage::Aborted(e) => return PullAction::Abort(e),
            _ => {},
        }
        let err = match self.stage {
            PullStage::AwaitToken => ContainerError::Auth,
            PullStage::AwaitManifest | PullStage::AwaitPlatformManifest | PullStage::AwaitBlob => ContainerError::Registry,
            _ => ContainerError::Extraction,
        };
        match event {
            PullEvent::Token(t) => {
                if self.stage != PullStage::AwaitToken {
                    return self.abort(err);
                }
                let url = manifest_url(self.image.name.as_str(), self.image.tag.as_str());
                let authorization = bearer(t.as_str());
                self.token = t;
                self.stage = PullStage::AwaitManifest;
                PullAction::FetchManifest { url, authorization }
            },
            PullEvent::Manifest(doc) => {
                if self.stage != PullStage::AwaitManifest && self.stage != PullStage::AwaitPlatformManifest {
                    return self.abort(err);
                }
                self.on_manifest(doc)
            },
            PullEvent::Blob(b) => {
                if self.stage != PullStage::AwaitBlob {
                    return self.abort(err);
                }
                match unpack_layer(self.root_dir.as_str(), b.as_slice()) {
                    Ok(writes) => {
                        self.stage = PullStage::AwaitUnpack;
                        PullAction::Unpack { writes }
                    },
                    Err(e) => self.abort(e),
                }
            },
            PullEvent::Unpacked => {
                if self.stage != PullStage::AwaitUnpack {
                    return self.abort(err);
                }
                let n = self.layers.len();
                self.next_layer = self.next_layer + 1;
                if self.next_layer < n {
                    self.request_blob()
                } else {
                    self.probe_dev_null()
                }
            },
            PullEvent::DevNullProbed { present } => {
                if self.stage != PullStage::AwaitDevNullProbe {
                    return self.abort(err);
                }
                match dev_null_node(self.root_dir.as_str(), present) {
                    Some(node) => {
                        self.stage = PullStage::AwaitDevice;
                        PullAction::CreateDevice { node }
                    },
                    None => {
                        self.stage = PullStage::Finished;
                        PullAction::Done
                    },
                }
            },
            PullEvent::DeviceCreated => {
                if self.stage != PullStage::AwaitDevice {
                    return self.abort(err);
                }
                self.stage = PullStage::Finished;
                PullAction::Done
            },
            PullEvent::Failed => self.abort(err),
        }
    }
}

/// Starts pulling `image` (`name[:tag]`) into `root_dir` for a host whose
/// native architecture is `native_arch`: the first action asks for a token
/// scoped to the image's name.
pub fn pull(image: String, root_dir: String, native_arch: String) -> (r: (PullSession, PullAction))
    ensures
        r.0.wf(),
        r.0.stage == PullStage::AwaitToken,
        parses_to(image@, r.0.image),
        r.0.root_dir@ == root_dir@,
        r.0.native_arch@ == native_arch@,
        r.0.requested@.len() == 0,
        r.1 matches PullAction::FetchToken { url } && url@ == token_url_of(r.0.image.name@),
{
    let parsed = parse_image_ref(image.as_str());
    let url = token_url(parsed.name.as_str());
    let s = PullSession {
        image: parsed,
        root_dir,
        native_arch,
        token: String::new(),
        layers: Vec::new(),
        next_layer: 0,
        stage: PullStage::AwaitToken,
        requested: Ghost(Seq::empty()),
    };
    assert(s.layer_seq().subrange(0, 0) =~= Seq::<Seq<char>>::empty());
    (s, PullAction::FetchToken { url })
}

/// Blobs are requested in manifest order: once a pull has finished, the
/// digests it asked for are exactly its layers, in order.
pub proof fn lemma_blobs_in_manifest_order(s: PullSession)
    requires
        s.wf(),
        s.stage == PullStage::Finished,
    ensures
        s.requested@ == s.layer_seq(),
{
    assert(s.layer_seq().subrange(0, s.layer_seq().len() as int) =~= s.layer_seq());
}

} // verus!
