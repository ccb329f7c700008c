//! Loading Wasm modules from the daemon's image store.
//!
//! The daemon is reached over its content, images and containers RPCs;
//! performing those calls is transport work the driver does. The logic —
//! which call comes next, how a manifest is read, which layers count as
//! Wasm and what the final module list is — lives here as a verified
//! state machine over plain values. Every request the driver performs
//! must carry the containerd namespace as a request header, and content
//! writes must be made under an explicit lease.

use vstd::prelude::*;

use crate::error::Error;

verus! {

/// A content descriptor: the digest that addresses the content and its
/// media type.
pub struct OciDescriptor {
    pub digest: String,
    pub media_type: String,
}

/// One Wasm OCI layer: its descriptor and its bytes.
pub struct Layer {
    pub config: OciDescriptor,
    pub layer: Vec<u8>,
}

/// The slice of an OCI image manifest the loader reads: the config
/// descriptor's digest and the layer descriptors.
pub struct OciImageManifest {
    pub config_digest: String,
    pub layers: Vec<OciDescriptor>,
}

/// The platform an image config declares.
pub struct OciPlatform {
    pub architecture: String,
    pub os: String,
}

/// The mathematical view of a descriptor.
pub struct DescriptorView {
    pub digest: Seq<char>,
    pub media_type: Seq<char>,
}

/// The mathematical view of a manifest.
pub struct ManifestView {
    pub config_digest: Seq<char>,
    pub layers: Seq<DescriptorView>,
}

/// The mathematical view of a platform.
pub struct PlatformView {
    pub architecture: Seq<char>,
    pub os: Seq<char>,
}

impl View for OciDescriptor {
    type V = DescriptorView;

    open spec fn view(&self) -> DescriptorView {
        DescriptorView { digest: self.digest@, media_type: self.media_type@ }
    }
}

impl View for OciImageManifest {
    type V = ManifestView;

    open spec fn view(&self) -> ManifestView {
        ManifestView {
            config_digest: self.config_digest@,
            layers: self.layers@.map_values(|d: OciDescriptor| d@),
        }
    }
}

impl View for OciPlatform {
    type V = PlatformView;

    open spec fn view(&self) -> PlatformView {
        PlatformView { architecture: self.architecture@, os: self.os@ }
    }
}

/// What parsing OCI image manifest JSON yields, as a function of the
/// bytes alone: the parsed slice of the manifest, or nothing when the
/// bytes are not a well-formed manifest.
pub uninterp spec fn parsed_manifest(bytes: Seq<u8>) -> Option<ManifestView>;

/// What parsing image config JSON as a platform yields, as a function
/// of the bytes alone.
pub uninterp spec fn parsed_platform(bytes: Seq<u8>) -> Option<PlatformView>;

/// Relies on oci_spec::image::ImageManifest::from_reader to parse OCI
/// image manifest JSON; the result is a function of the bytes alone.
/// The config digest and the layer digests and media types are taken
/// over; the error carries the parser's message.
#[verifier::external_body]
fn parse_image_manifest(bytes: &Vec<u8>) -> (r: Result<OciImageManifest, String>)
    ensures
        r is Ok <==> parsed_manifest(bytes@) is Some,
        r matches Ok(m) ==> m@ == parsed_manifest(bytes@)->0,
{
    match oci_spec::image::ImageManifest::from_reader(bytes.as_slice()) {
        Ok(m) => Ok(OciImageManifest {
            config_digest: m.config().digest().to_string(),
            layers: m
                .layers()
                .iter()
                .map(|d| OciDescriptor {
                    digest: d.digest().to_string(),
                    media_type: d.media_type().to_string(),
                })
                .collect(),
        }),
        Err(e) => Err(e.to_string()),
    }
}

/// Relies on serde_json::from_slice for oci_spec::image::Platform to
/// parse image config JSON; the result is a function of the bytes
/// alone. The architecture and OS names are taken over; the error
/// carries the parser's message.
#[verifier::external_body]
fn parse_platform(bytes: &Vec<u8>) -> (r: Result<OciPlatform, String>)
    ensures
        r is Ok <==> parsed_platform(bytes@) is Some,
        r matches Ok(p) ==> p@ == parsed_platform(bytes@)->0,
{
    match serde_json::from_slice::<oci_spec::image::Platform>(bytes.as_slice()) {
        Ok(p) => Ok(OciPlatform {
            architecture: p.architecture().to_string(),
            os: p.os().to_string(),
        }),
        Err(e) => Err(e.to_string()),
    }
}

/// Whether some string of `v` reads `s`.
pub open spec fn spec_contains_str(v: Seq<String>, s: Seq<char>) -> bool {
    exists|j: int| 0 <= j < v.len() && #[trigger] v[j]@ == s
}

/// Whether a layer's media type is one of the supported Wasm layer
/// media types.
pub fn is_wasm_layer(media_type: &String, supported_layer_types: &Vec<String>) -> (r: bool)
    ensures
        r == spec_contains_str(supported_layer_types@, media_type@),
{
    let n = supported_layer_types.len();
    let mut i: usize = 0;
    while i < n
        invariant
            n == supported_layer_types@.len(),
            0 <= i <= n,
            forall|j: int| 0 <= j < i ==> #[trigger] supported_layer_types@[j]@ != media_type@,
        decreases n - i,
    {
        if supported_layer_types[i] == *media_type {
            return true;
        }
        i += 1;
    }
    false
}

/// The layer descriptors whose media type is supported, in manifest
/// order.
pub open spec fn spec_wasm_layers(layers: Seq<DescriptorView>, supported: Seq<String>) -> Seq<
    DescriptorView,
>
    decreases layers.len(),
{
    if layers.len() == 0 {
        Seq::<DescriptorView>::empty()
    } else {
        let prefix = spec_wasm_layers(layers.drop_last(), supported);
        if spec_contains_str(supported, layers.last().media_type) {
            prefix.push(layers.last())
        } else {
            prefix
        }
    }
}

/// An image none of whose layers carries a supported media type has no
/// Wasm layers to load.
pub proof fn lemma_no_supported_layer_no_modules(layers: Seq<DescriptorView>, supported: Seq<String>)
    requires
        forall|j: int|
            0 <= j < layers.len() ==> !spec_contains_str(
                supported,
                (#[trigger] layers[j]).media_type,
            ),
    ensures
        spec_wasm_layers(layers, supported) == Seq::<DescriptorView>::empty(),
    decreases layers.len(),
{
    if layers.len() > 0 {
        assert(layers.last() == layers[layers.len() - 1]);
        assert(forall|j: int|
            0 <= j < layers.drop_last().len() ==> #[trigger] layers.drop_last()[j] == layers[j]);
        lemma_no_supported_layer_no_modules(layers.drop_last(), supported);
    }
}

/// Filters the manifest layers down to the supported Wasm layers.
pub fn select_wasm_layers(layers: &Vec<OciDescriptor>, supported: &Vec<String>) -> (r: Vec<
    OciDescriptor,
>)
    ensures
        r@.map_values(|d: OciDescriptor| d@) == spec_wasm_layers(
            layers@.map_values(|d: OciDescriptor| d@),
            supported@,
        ),
{
    let ghost views = layers@.map_values(|d: OciDescriptor| d@);
    let mut out: Vec<OciDescriptor> = Vec::new();
    let n = layers.len();
    let mut i: usize = 0;
    while i < n
        invariant
            n == layers@.len(),
            views == layers@.map_values(|d: OciDescriptor| d@),
            0 <= i <= n,
            out@.map_values(|d: OciDescriptor| d@) == spec_wasm_layers(
                views.take(i as int),
                supported@,
            ),
        decreases n - i,
    {
        let ghost prev = out@.map_values(|d: OciDescriptor| d@);
        if is_wasm_layer(&layers[i].media_type, supported) {
            out.push(
                OciDescriptor {
                    digest: layers[i].digest.clone(),
                    media_type: layers[i].media_type.clone(),
                },
            );
            proof {
                assert(out@.map_values(|d: OciDescriptor| d@) =~= prev.push(views[i as int]));
            }
        }
        proof {
            assert(views.take(i + 1).drop_last() =~= views.take(i as int));
            assert(views.take(i + 1).last() == views[i as int]);
        }
        i += 1;
    }
    proof {
        assert(views.take(n as int) =~= views);
    }
    out
}

/// The next call the driver must perform for the loader, or the final
/// outcome. The driver adds the containerd namespace header to every
/// request it performs.
pub enum LoadAction {
    /// Ask the containers service for the container record.
    GetContainer { id: String },
    /// Ask the images service for the image record.
    GetImage { name: String },
    /// Read one content blob by digest.
    ReadContent { digest: String },
    /// Loading finished: the Wasm layers (empty for a plain OCI image or
    /// when no layer media type is supported) and the image platform.
    Finish { layers: Vec<Layer>, platform: OciPlatform },
    /// Loading failed: any upstream RPC or parse error surfaces as a
    /// `Containerd` error. Callers treat this as a soft failure and
    /// fall back to files in the rootfs.
    Fail { error: Error },
}

/// What the driver observed for the loader's last action.
pub enum LoadEvent {
    /// The container record arrived; `image` is its image name.
    Container { image: String },
    /// The image record arrived; `manifest_digest` is its target digest.
    Image { manifest_digest: String },
    /// A content read completed; the chunks have been reassembled.
    Content { bytes: Vec<u8> },
    /// The call failed; the message describes the upstream error.
    Failed { message: String },
}

/// Where the loader stands between calls.
pub enum LoaderState {
    /// Waiting for the container record.
    AwaitContainer,
    /// Waiting for the image record.
    AwaitImage,
    /// Waiting for the manifest content.
    AwaitManifest,
    /// Waiting for the image config content; the manifest's layer
    /// descriptors are kept for filtering.
    AwaitConfig { layers: Vec<OciDescriptor> },
    /// Waiting for the content of `pending`'s first layer; `done` holds
    /// the layers read so far.
    AwaitLayer { pending: Vec<OciDescriptor>, done: Vec<Layer>, platform: OciPlatform },
    /// A `Finish` or `Fail` action has been issued.
    Finished,
}

/// The module loader for one container: resolves the container to its
/// image manifest, reads the image config, and — for an image whose
/// architecture is `wasm` — reads every layer whose media type is in
/// the supported list. Any upstream failure ends the load; callers
/// treat that as soft and fall back to rootfs files.
pub struct ModuleLoader {
    supported: Vec<String>,
    state: LoaderState,
}

impl ModuleLoader {
    pub closed spec fn spec_state(&self) -> LoaderState {
        self.state
    }

    pub closed spec fn spec_supported(&self) -> Seq<String> {
        self.supported@
    }

    /// Begins a load: the first call resolves the container record.
    pub fn new(container_id: String, supported_media_types: Vec<String>) -> (r: (
        ModuleLoader,
        LoadAction,
    ))
        ensures
            r.0.spec_state() is AwaitContainer,
            r.0.spec_supported() == supported_media_types@,
            r.1 matches LoadAction::GetContainer { id } && id@ == container_id@,
    {
        (
            ModuleLoader { supported: supported_media_types, state: LoaderState::AwaitContainer },
            LoadAction::GetContainer { id: container_id },
        )
    }

    /// Advances the loader by one observed event and says what to do
    /// next. An upstream failure, a manifest or config that does not
    /// parse, an event that does not answer the pending call, and any
    /// event after the end fail the load with a `Containerd` error.
    pub fn step(self, event: LoadEvent) -> (r: (ModuleLoader, LoadAction))
        ensures
            r.0.spec_supported() == self.spec_supported(),
            event matches LoadEvent::Failed { message } ==> {
                &&& r.0.spec_state() is Finished
                &&& r.1 matches LoadAction::Fail { error } && error is Containerd
                    && error->Containerd_0@ == message@
            },
            self.spec_state() is AwaitContainer ==> (event matches LoadEvent::Container {
                image,
            } ==> {
                &&& r.0.spec_state() is AwaitImage
                &&& r.1 matches LoadAction::GetImage { name } && name@ == image@
            }),
            self.spec_state() is AwaitImage ==> (event matches LoadEvent::Image {
                manifest_digest,
            } ==> {
                &&& r.0.spec_state() is AwaitManifest
                &&& r.1 matches LoadAction::ReadContent { digest } && digest@ == manifest_digest@
            }),
            self.spec_state() is AwaitManifest ==> (event matches LoadEvent::Content {
                bytes,
            } ==> {
                &&& parsed_manifest(bytes@) is None ==> (r.0.spec_state() is Finished && (
                r.1 matches LoadAction::Fail { error } && error is Containerd))
                &&& parsed_manifest(bytes@) matches Some(mv) ==> {
                    &&& (r.0.spec_state() matches LoaderState::AwaitConfig { layers }
                        && layers@.map_values(|d: OciDescriptor| d@) == mv.layers)
                    &&& r.1 matches LoadAction::ReadContent { digest } && digest@
                        == mv.config_digest
                }
            }),
            self.spec_state() matches LoaderState::AwaitConfig { layers } ==> (
            event matches LoadEvent::Content { bytes } ==> {
                let lviews = layers@.map_values(|d: OciDescriptor| d@);
                let wasm = spec_wasm_layers(lviews, self.spec_supported());
                &&& parsed_platform(bytes@) is None ==> (r.0.spec_state() is Finished && (
                r.1 matches LoadAction::Fail { error } && error is Containerd))
                &&& parsed_platform(bytes@) matches Some(p) ==> {
                    &&& p.architecture != "wasm"@ ==> (r.0.spec_state() is Finished && (
                    r.1 matches LoadAction::Finish { layers: l, platform: pl } && l@.len() == 0
                        && pl@ == p))
                    &&& p.architecture == "wasm"@ && wasm.len() == 0 ==> (
                    r.0.spec_state() is Finished && (r.1 matches LoadAction::Finish {
                        layers: l,
                        platform: pl,
                    } && l@.len() == 0 && pl@ == p))
                    &&& p.architecture == "wasm"@ && wasm.len() > 0 ==> {
                        &&& (r.0.spec_state() matches LoaderState::AwaitLayer {
                            pending: p1,
                            done: d1,
                            platform: pl1,
                        } && p1@.map_values(|d: OciDescriptor| d@) == wasm && d1@.len() == 0
                            && pl1@ == p)
                        &&& r.1 matches LoadAction::ReadContent { digest } && digest@
                            == wasm[0].digest
                    }
                }
            }),
            self.spec_state() matches LoaderState::AwaitLayer { pending, done, platform } ==> (
            event matches LoadEvent::Content { bytes } ==> {
                let pviews = pending@.map_values(|d: OciDescriptor| d@);
                &&& pending@.len() == 1 ==> (r.0.spec_state() is Finished && (
                r.1 matches LoadAction::Finish { layers: l, platform: pl } && pl@ == platform@ && {
                    &&& l@.len() == done@.len() + 1
                    &&& (forall|j: int| 0 <= j < done@.len() ==> #[trigger] l@[j] == done@[j])
                    &&& l@.last().config@ == pviews[0]
                    &&& l@.last().layer@ == bytes@
                }))
                &&& pending@.len() > 1 ==> {
                    &&& (r.0.spec_state() matches LoaderState::AwaitLayer {
                        pending: p2,
                        done: d2,
                        platform: pl2,
                    } && {
                        &&& p2@.map_values(|d: OciDescriptor| d@) == pviews.skip(1)
                        &&& d2@.len() == done@.len() + 1
                        &&& (forall|j: int| 0 <= j < done@.len() ==> #[trigger] d2@[j] == done@[j])
                        &&& d2@.last().config@ == pviews[0]
                        &&& d2@.last().layer@ == bytes@
                        &&& pl2@ == platform@
                    })
                    &&& r.1 matches LoadAction::ReadContent { digest } && digest@
                        == pviews[1].digest
                }
            }),
    {
        let ModuleLoader { supported, state } = self;
        match (state, event) {
            (_, LoadEvent::Failed { message }) => (
                ModuleLoader { supported, state: LoaderState::Finished },
                LoadAction::Fail { error: Error::Containerd(message) },
            ),
            (LoaderState::AwaitContainer, LoadEvent::Container { image }) => (
                ModuleLoader { supported, state: LoaderState::AwaitImage },
                LoadAction::GetImage { name: image },
            ),
            (LoaderState::AwaitImage, LoadEvent::Image { manifest_digest }) => (
                ModuleLoader { supported, state: LoaderState::AwaitManifest },
                LoadAction::ReadContent { digest: manifest_digest },
            ),
            (LoaderState::AwaitManifest, LoadEvent::Content { bytes }) => {
                match parse_image_manifest(&bytes) {
                    Ok(m) => (
                        ModuleLoader {
                            supported,
                            state: LoaderState::AwaitConfig { layers: m.layers },
                        },
                        LoadAction::ReadContent { digest: m.config_digest },
                    ),
                    Err(msg) => (
                        ModuleLoader { supported, state: LoaderState::Finished },
                        LoadAction::Fail { error: Error::Containerd(msg) },
                    ),
                }
            },
            (LoaderState::AwaitConfig { layers }, LoadEvent::Content { bytes }) => {
                match parse_platform(&bytes) {
                    Ok(platform) => {
                        if !(platform.architecture == wasm_architecture()) {
                            return (
                                ModuleLoader { supported, state: LoaderState::Finished },
                                LoadAction::Finish { layers: Vec::new(), platform },
                            );
                        }
                        let pending = select_wasm_layers(&layers, &supported);
                        if pending.len() == 0 {
                            return (
                                ModuleLoader { supported, state: LoaderState::Finished },
                                LoadAction::Finish { layers: Vec::new(), platform },
                            );
                        }
                        let first = pending[0].digest.clone();
                        (
                            ModuleLoader {
                                supported,
                                state: LoaderState::AwaitLayer {
                                    pending,
                                    done: Vec::new(),
                                    platform,
                                },
                            },
                            LoadAction::ReadContent { digest: first },
                        )
                    },
                    Err(msg) => (
                        ModuleLoader { supported, state: LoaderState::Finished },
                        LoadAction::Fail { error: Error::Containerd(msg) },
                    ),
                }
            },
            (LoaderState::AwaitLayer { mut pending, mut done, platform }, LoadEvent::Content {
                bytes,
            }) => {
                if pending.len() == 0 {
                    return (
                        ModuleLoader { supported, state: LoaderState::Finished },
                        LoadAction::Fail {
                            error: Error::Containerd(
                                "unexpected answer from the daemon".to_owned(),
                            ),
                        },
                    );
                }
                let desc = pending.remove(0);
                done.push(Layer { config: desc, layer: bytes });
                if pending.len() == 0 {
                    return (
                        ModuleLoader { supported, state: LoaderState::Finished },
                        LoadAction::Finish { layers: done, platform },
                    );
                }
                let next = pending[0].digest.clone();
                (
                    ModuleLoader {
                        supported,
                        state: LoaderState::AwaitLayer { pending, done, platform },
                    },
                    LoadAction::ReadContent { digest: next },
                )
            },
            (_, _) => (
                ModuleLoader { supported, state: LoaderState::Finished },
                LoadAction::Fail {
                    error: Error::Containerd("unexpected answer from the daemon".to_owned()),
                },
            ),
        }
    }
}

/// The architecture name that marks a Wasm OCI image.
fn wasm_architecture() -> (s: String)
    ensures
        s@ == "wasm"@,
{
    "wasm".to_owned()
}

/// What the instance builds with after a load has ended: a finished
/// load contributes its layers and platform; a failed load is soft —
/// the instance continues with no modules and the given default
/// platform, and the engine falls back to files in the rootfs.
pub fn modules_or_fallback(outcome: LoadAction, default_platform: OciPlatform) -> (r: (
    Vec<Layer>,
    OciPlatform,
))
    ensures
        outcome matches LoadAction::Finish { layers, platform } ==> r.0 == layers && r.1
            == platform,
        !(outcome is Finish) ==> r.0@.len() == 0 && r.1 == default_platform,
{
    match outcome {
        LoadAction::Finish { layers, platform } => (layers, platform),
        _ => (Vec::new(), default_platform),
    }
}

/// The one module of a single-module engine: engines that run exactly
/// one guest binary accept a load only when it produced exactly one
/// layer, and take that layer.
pub fn sole_module(mut modules: Vec<Layer>) -> (r: Result<Layer, Error>)
    ensures
        r is Ok <==> modules@.len() == 1,
        r matches Ok(m) ==> m == modules@[0],
        r matches Err(e) ==> e is Others,
{
    if modules.len() != 1 {
        return Err(Error::Others("only one module is supported".to_owned()));
    }
    match modules.pop() {
        Some(m) => Ok(m),
        None => Err(Error::Others("only one module is supported".to_owned())),
    }
}

/// A content stream reassembled: the chunks in order, one after another.
pub open spec fn spec_concat(chunks: Seq<Seq<u8>>) -> Seq<u8>
    decreases chunks.len(),
{
    if chunks.len() == 0 {
        Seq::<u8>::empty()
    } else {
        spec_concat(chunks.drop_last()) + chunks.last()
    }
}

/// Reassembles the streamed chunks of one content read into the full
/// content bytes.
pub fn concat_chunks(chunks: &Vec<Vec<u8>>) -> (r: Vec<u8>)
    ensures
        r@ == spec_concat(chunks@.map_values(|c: Vec<u8>| c@)),
{
    let ghost views = chunks@.map_values(|c: Vec<u8>| c@);
    let mut out: Vec<u8> = Vec::new();
    let n = chunks.len();
    let mut i: usize = 0;
    while i < n
        invariant
            n == chunks@.len(),
            views == chunks@.map_values(|c: Vec<u8>| c@),
            0 <= i <= n,
            out@ == spec_concat(views.take(i as int)),
        decreases n - i,
    {
        let chunk = &chunks[i];
        let m = chunk.len();
        let ghost base = out@;
        let mut j: usize = 0;
        while j < m
            invariant
                m == chunk@.len(),
                0 <= j <= m,
                out@ == base + chunk@.take(j as int),
            decreases m - j,
        {
            out.push(chunk[j]);
            proof {
                assert(base + chunk@.take(j + 1) =~= (base + chunk@.take(j as int)).push(
                    chunk@[j as int],
                ));
            }
            j += 1;
        }
        proof {
            assert(chunk@.take(m as int) =~= chunk@);
            assert(views.take(i + 1).drop_last() =~= views.take(i as int));
            assert(views.take(i + 1).last() == views[i as int]);
            assert(out@ == spec_concat(views.take(i + 1)));
        }
        i += 1;
    }
    proof {
        assert(views.take(n as int) =~= views);
    }
    out
}

} // verus!
