pub mod app;
pub mod laws;
pub mod pod;
pub mod response;

use vstd::prelude::*;

use crate::keyed::KeyedList;
use crate::pod::Pod;
use crate::text::{split_on, split_text};

pub use self::app::{AppMetadata, AppMetadataView};
pub use self::pod::{pod_metadata_of, PodMetadata, PodMetadataView};
pub use self::response::{
    ok_with, status_only, Body, BodyView, ContentType, Method, Response, ResponseView, StatusCode,
};

verus! {

/// Where the metadata service listens.
pub const HOST_PORT: &'static str = "127.0.0.1:2377";

/// The metadata of the pods the service answers for, by pod UUID.
pub struct Metadata {
    pod_map: KeyedList<PodMetadata>,
}

/// Every pod is known under its own UUID.
pub open spec fn known_by_own_uuid(pods: Map<Seq<char>, PodMetadataView>) -> bool {
    forall|k: Seq<char>| #[trigger] pods.contains_key(k) ==> pods[k].uuid == k
}

impl Metadata {
    #[verifier::type_invariant]
    closed spec fn pods_under_own_uuid(self) -> bool {
        known_by_own_uuid(self.pod_map.deep_map())
    }
}

/// What a request asks the metadata service for.
pub enum Target {
    BadRequest,
    NotFound,
    MethodNotAllowed,
    Sign(Seq<char>),
    Verify(Seq<char>),
    PodAnnotations(Seq<char>),
    PodManifest(Seq<char>),
    PodUuid(Seq<char>),
    AppAnnotations(Seq<char>, Seq<char>),
    AppManifest(Seq<char>, Seq<char>),
    AppId(Seq<char>, Seq<char>),
}

/// The `i`-th piece of a path, if it has that many.
pub open spec fn piece(segs: Seq<Seq<char>>, i: int) -> Option<Seq<char>> {
    if 0 <= i < segs.len() {
        Some(segs[i])
    } else {
        None
    }
}

/// The pieces of a path after its leading `/`.
pub open spec fn path_pieces(path: Seq<char>) -> Seq<Seq<char>> {
    split_on(path.drop_first(), '/')
}

/// The resource a request names. A path must start with `/`; its first piece
/// is the UUID of a known pod, followed by `acMetadata/v1`. `POST` then takes
/// `pod/hmac/sign` or `pod/hmac/verify`; `GET` takes `pod/annotations`,
/// `pod/manifest`, `pod/uuid`, or `apps/<app>/annotations`,
/// `apps/<app>/image/manifest`, `apps/<app>/image/id` for a known app. Pieces
/// after those are not read. Any other method is not allowed.
pub open spec fn target(pods: Map<Seq<char>, PodMetadataView>, method: Method, path: Seq<char>) -> Target {
    if !(path.len() > 0 && path[0] == '/') {
        Target::BadRequest
    } else {
        let segs = path_pieces(path);
        let token = segs[0];
        if !pods.contains_key(token) {
            Target::NotFound
        } else if piece(segs, 1) != Some("acMetadata"@) || piece(segs, 2) != Some("v1"@) {
            Target::NotFound
        } else {
            match method {
                Method::Post => {
                    if piece(segs, 3) != Some("pod"@) || piece(segs, 4) != Some("hmac"@) {
                        Target::NotFound
                    } else if piece(segs, 5) == Some("sign"@) {
                        Target::Sign(token)
                    } else if piece(segs, 5) == Some("verify"@) {
                        Target::Verify(token)
                    } else {
                        Target::NotFound
                    }
                },
                Method::Get => {
                    if piece(segs, 3) == Some("pod"@) {
                        if piece(segs, 4) == Some("annotations"@) {
                            Target::PodAnnotations(token)
                        } else if piece(segs, 4) == Some("manifest"@) {
                            Target::PodManifest(token)
                        } else if piece(segs, 4) == Some("uuid"@) {
                            Target::PodUuid(token)
                        } else {
                            Target::NotFound
                        }
                    } else if piece(segs, 3) == Some("apps"@) {
                        match piece(segs, 4) {
                            Some(app) if pods[token].apps.contains_key(app) => {
                                if piece(segs, 5) == Some("annotations"@) {
                                    Target::AppAnnotations(token, app)
                                } else if piece(segs, 5) == Some("image"@) {
                                    if piece(segs, 6) == Some("manifest"@) {
                                        Target::AppManifest(token, app)
                                    } else if piece(segs, 6) == Some("id"@) {
                                        Target::AppId(token, app)
                                    } else {
                                        Target::NotFound
                                    }
                                } else {
                                    Target::NotFound
                                }
                            },
                            _ => Target::NotFound,
                        }
                    } else {
                        Target::NotFound
                    }
                },
                Method::Other => Target::MethodNotAllowed,
            }
        }
    }
}

/// The answer for a target: a bare status for errors; for signing and
/// verifying, the request body as text; otherwise the document asked for.
pub open spec fn reply(pods: Map<Seq<char>, PodMetadataView>, t: Target, body: Seq<char>) -> ResponseView {
    match t {
        Target::BadRequest => status_only(StatusCode::BadRequest),
        Target::NotFound => status_only(StatusCode::NotFound),
        Target::MethodNotAllowed => status_only(StatusCode::MethodNotAllowed),
        Target::Sign(_) => ok_with(ContentType::TextPlain, BodyView::Text(body)),
        Target::Verify(_) => ok_with(ContentType::TextPlain, BodyView::Text(body)),
        Target::PodAnnotations(p) => ok_with(ContentType::Json, BodyView::Annotations(pods[p].annotations)),
        Target::PodManifest(p) => ok_with(ContentType::Json, BodyView::PodManifest(pods[p].manifest)),
        Target::PodUuid(p) => ok_with(ContentType::TextPlain, BodyView::Text(pods[p].uuid)),
        Target::AppAnnotations(p, a) => ok_with(
            ContentType::Json,
            BodyView::Annotations(pods[p].apps[a].annotations),
        ),
        Target::AppManifest(p, a) => ok_with(
            ContentType::Json,
            BodyView::AppManifest(pods[p].apps[a].manifest),
        ),
        Target::AppId(p, a) => ok_with(ContentType::TextPlain, BodyView::Text(pods[p].apps[a].id)),
    }
}

/// Whether piece `i` of `segs` is `lit`.
fn piece_is(segs: &Vec<String>, i: usize, lit: &str) -> (r: bool)
    ensures
        r == (piece(segs.deep_view(), i as int) == Some(lit@)),
{
    if i < segs.len() {
        let l = lit.to_string();
        segs[i] == l
    } else {
        false
    }
}

impl View for Metadata {
    type V = Map<Seq<char>, PodMetadataView>;

    closed spec fn view(&self) -> Map<Seq<char>, PodMetadataView> {
        self.pod_map.deep_map()
    }
}

impl Metadata {
    /// A service that knows no pod.
    pub fn new() -> (r: Metadata)
        ensures
            r@ == Map::<Seq<char>, PodMetadataView>::empty(),
            known_by_own_uuid(r@),
    {
        Metadata { pod_map: KeyedList::new() }
    }

    /// Makes the pod known under its UUID, replacing a pod of the same UUID.
    pub fn register_pod(&mut self, pod: Pod)
        ensures
            final(self)@ == old(self)@.insert(pod.uuid@, pod_metadata_of(pod)),
            known_by_own_uuid(final(self)@),
    {
        proof {
            use_type_invariant(&*self);
        }
        if let Some(pod_metadata) = PodMetadata::new(pod) {
            let key = pod_metadata.uuid().clone();
            let mut pod_map = KeyedList::new();
            std::mem::swap(&mut pod_map, &mut self.pod_map);
            pod_map.insert(key, pod_metadata);
            self.pod_map = pod_map;
        }
    }

    /// Every pod this service knows is stored under its own UUID.
    pub fn pods_known_by_own_uuid(&self)
        ensures
            known_by_own_uuid(self@),
    {
        proof {
            use_type_invariant(self);
        }
    }

    /// The pod whose UUID is `token`, if there is a token and such a pod.
    pub fn get_by_token(&self, token: Option<&str>) -> (r: Option<&PodMetadata>)
        ensures
            r is Some <==> (token matches Some(t) && self@.contains_key(t@)),
            r matches Some(p) ==> p.deep_view() == self@[token->0@],
    {
        if let Some(tok) = token {
            let key = tok.to_string();
            self.pod_map.get(&key)
        } else {
            None
        }
    }

    /// The pod with this UUID, if known.
    pub fn get_pod(&self, uuid: String) -> (r: Option<&PodMetadata>)
        ensures
            r is Some <==> self@.contains_key(uuid@),
            r matches Some(p) ==> p.deep_view() == self@[uuid@],
    {
        self.pod_map.get(&uuid)
    }

    /// The app `app_name` of the pod with this UUID, if both are known.
    pub fn get_app(&self, uuid: String, app_name: String) -> (r: Option<&AppMetadata>)
        ensures
            r is Some <==> (self@.contains_key(uuid@) && self@[uuid@].apps.contains_key(app_name@)),
            r matches Some(a) ==> a.deep_view() == self@[uuid@].apps[app_name@],
    {
        match self.pod_map.get(&uuid) {
            Some(pmd) => pmd.get_app(Some(app_name.as_str())),
            None => None,
        }
    }

    /// Answers a request of `method` on `path` carrying `body`.
    pub fn handle(&self, method: Method, path: &str, body: String) -> (r: Response)
        ensures
            r.deep_view() == reply(self@, target(self@, method, path@), body@),
            known_by_own_uuid(self@),
    {
        proof {
            use_type_invariant(self);
        }
        let ghost pods = self@;
        let n = path.unicode_len();
        if n == 0 || path.get_char(0) != '/' {
            return Response::status_only(StatusCode::BadRequest);
        }
        let rest = path.substring_char(1, n);
        let segs = split_text(rest, '/');
        proof {
            crate::text::lemma_split_on_nonempty(rest@, '/');
            assert(rest@ =~= path@.drop_first());
            assert(segs.deep_view() =~= path_pieces(path@));
        }
        let pmd = match self.get_by_token(Some(segs[0].as_str())) {
            Some(p) => p,
            None => {
                return Response::status_only(StatusCode::NotFound);
            },
        };
        if !piece_is(&segs, 1, "acMetadata") || !piece_is(&segs, 2, "v1") {
            return Response::status_only(StatusCode::NotFound);
        }
        match method {
            Method::Post => {
                if !piece_is(&segs, 3, "pod") || !piece_is(&segs, 4, "hmac") {
                    return Response::status_only(StatusCode::NotFound);
                }
                if piece_is(&segs, 5, "sign") {
                    pmd.sign(body)
                } else if piece_is(&segs, 5, "verify") {
                    pmd.verify(body)
                } else {
                    Response::status_only(StatusCode::NotFound)
                }
            },
            Method::Get => {
                if piece_is(&segs, 3, "pod") {
                    if piece_is(&segs, 4, "annotations") {
                        pmd.serve_annotations()
                    } else if piece_is(&segs, 4, "manifest") {
                        pmd.serve_manifest()
                    } else if piece_is(&segs, 4, "uuid") {
                        pmd.serve_uuid()
                    } else {
                        Response::status_only(StatusCode::NotFound)
                    }
                } else if piece_is(&segs, 3, "apps") {
                    let app_name = if segs.len() > 4 {
                        Some(segs[4].as_str())
                    } else {
                        None
                    };
                    let appmd = match pmd.get_app(app_name) {
                        Some(a) => a,
                        None => {
                            return Response::status_only(StatusCode::NotFound);
                        },
                    };
                    if piece_is(&segs, 5, "annotations") {
                        appmd.serve_annotations()
                    } else if piece_is(&segs, 5, "image") {
                        if piece_is(&segs, 6, "manifest") {
                            appmd.serve_manifest()
                        } else if piece_is(&segs, 6, "id") {
                            appmd.serve_id()
                        } else {
                            Response::status_only(StatusCode::NotFound)
                        }
                    } else {
                        Response::status_only(StatusCode::NotFound)
                    }
                } else {
                    Response::status_only(StatusCode::NotFound)
                }
            },
            Method::Other => Response::status_only(StatusCode::MethodNotAllowed),
        }
    }
}

} // verus!
