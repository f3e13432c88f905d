use vstd::prelude::*;

use crate::pod::Pod;
use crate::text::{join_on, lemma_split_join};

use super::pod::{pod_metadata_of, PodMetadataView};
use super::response::{ok_with, status_only, BodyView, ContentType, StatusCode};
use super::{known_by_own_uuid, path_pieces, piece, reply, target, Method, Target};

verus! {

/// The path `/` + the pieces joined by `/`.
pub open spec fn request_path(pieces: Seq<Seq<char>>) -> Seq<char> {
    seq!['/'] + join_on(pieces, '/')
}

/// The pieces of such a path are the pieces it was made of.
pub proof fn lemma_request_path_pieces(pieces: Seq<Seq<char>>)
    requires
        pieces.len() >= 1,
        forall|i: int| 0 <= i < pieces.len() ==> !(#[trigger] pieces[i]).contains('/'),
    ensures
        request_path(pieces)[0] == '/',
        path_pieces(request_path(pieces)) == pieces,
{
    assert(request_path(pieces).drop_first() =~= join_on(pieces, '/'));
    lemma_split_join(pieces, '/');
}

proof fn lemma_distinct_literals()
    ensures
        "annotations"@ != "manifest"@,
        "annotations"@ != "uuid"@,
        "manifest"@ != "uuid"@,
        "annotations"@ != "image"@,
        "manifest"@ != "id"@,
        "pod"@ != "apps"@,
        "sign"@ != "verify"@,
{
    reveal_strlit("annotations");
    reveal_strlit("manifest");
    reveal_strlit("uuid");
    reveal_strlit("image");
    reveal_strlit("id");
    reveal_strlit("pod");
    reveal_strlit("apps");
    reveal_strlit("sign");
    reveal_strlit("verify");
    assert("annotations"@.len() != "manifest"@.len());
    assert("annotations"@.len() != "uuid"@.len());
    assert("manifest"@.len() != "uuid"@.len());
    assert("annotations"@.len() != "image"@.len());
    assert("manifest"@.len() != "id"@.len());
    assert("pod"@[0] != "apps"@[0]);
    assert("sign"@.len() != "verify"@.len());
}

proof fn lemma_no_slash_literals()
    ensures
        !"acMetadata"@.contains('/'),
        !"v1"@.contains('/'),
        !"pod"@.contains('/'),
        !"hmac"@.contains('/'),
        !"sign"@.contains('/'),
        !"verify"@.contains('/'),
        !"uuid"@.contains('/'),
        !"manifest"@.contains('/'),
        !"annotations"@.contains('/'),
        !"apps"@.contains('/'),
        !"image"@.contains('/'),
        !"id"@.contains('/'),
{
    reveal_strlit("acMetadata");
    reveal_strlit("v1");
    reveal_strlit("pod");
    reveal_strlit("hmac");
    reveal_strlit("sign");
    reveal_strlit("verify");
    reveal_strlit("uuid");
    reveal_strlit("manifest");
    reveal_strlit("annotations");
    reveal_strlit("apps");
    reveal_strlit("image");
    reveal_strlit("id");
}

/// The answer to `method` on the pod path `/<uuid>/acMetadata/v1/<rest...>`.
pub open spec fn pod_request(
    pods: Map<Seq<char>, PodMetadataView>,
    method: Method,
    uuid: Seq<char>,
    rest: Seq<Seq<char>>,
    body: Seq<char>,
) -> super::response::ResponseView {
    let path = request_path(seq![uuid, "acMetadata"@, "v1"@] + rest);
    reply(pods, target(pods, method, path), body)
}

proof fn lemma_pod_request_pieces(uuid: Seq<char>, rest: Seq<Seq<char>>)
    requires
        !uuid.contains('/'),
        forall|i: int| 0 <= i < rest.len() ==> !(#[trigger] rest[i]).contains('/'),
    ensures
        ({
            let pieces = seq![uuid, "acMetadata"@, "v1"@] + rest;
            &&& request_path(pieces)[0] == '/'
            &&& path_pieces(request_path(pieces)) == pieces
        }),
{
    lemma_no_slash_literals();
    let pieces = seq![uuid, "acMetadata"@, "v1"@] + rest;
    assert forall|i: int| 0 <= i < pieces.len() implies !(#[trigger] pieces[i]).contains('/') by {
        if i >= 3 {
            assert(pieces[i] == rest[i - 3]);
        }
    }
    lemma_request_path_pieces(pieces);
}

/// Once a pod is registered, its metadata answers `GET .../pod/uuid` with the
/// pod's UUID, `GET .../pod/manifest` with the pod manifest and
/// `GET .../pod/annotations` with the pod's annotations.
pub proof fn law_registered_pod_is_served(pods: Map<Seq<char>, PodMetadataView>, pod: Pod, body: Seq<char>)
    requires
        !pod.uuid@.contains('/'),
    ensures
        ({
            let after = pods.insert(pod.uuid@, pod_metadata_of(pod));
            &&& pod_request(after, Method::Get, pod.uuid@, seq!["pod"@, "uuid"@], body) == ok_with(
                ContentType::TextPlain,
                BodyView::Text(pod.uuid@),
            )
            &&& pod_request(after, Method::Get, pod.uuid@, seq!["pod"@, "manifest"@], body) == ok_with(
                ContentType::Json,
                BodyView::PodManifest(pod),
            )
            &&& pod_request(after, Method::Get, pod.uuid@, seq!["pod"@, "annotations"@], body)
                == ok_with(ContentType::Json, BodyView::Annotations(pod_metadata_of(pod).annotations))
        }),
{
    lemma_no_slash_literals();
    lemma_distinct_literals();
    let u = pod.uuid@;
    let after = pods.insert(u, pod_metadata_of(pod));
    assert(after.contains_key(u) && after[u] == pod_metadata_of(pod));
    let rests = seq![seq!["pod"@, "uuid"@], seq!["pod"@, "manifest"@], seq!["pod"@, "annotations"@]];
    assert forall|k: int| 0 <= k < 3 implies ({
        let pieces = seq![u, "acMetadata"@, "v1"@] + #[trigger] rests[k];
        &&& request_path(pieces)[0] == '/'
        &&& path_pieces(request_path(pieces)) == pieces
        &&& piece(pieces, 0) == Some(u)
        &&& piece(pieces, 1) == Some("acMetadata"@)
        &&& piece(pieces, 2) == Some("v1"@)
        &&& piece(pieces, 3) == Some("pod"@)
        &&& piece(pieces, 4) == Some(rests[k][1])
    }) by {
        let r = rests[k];
        assert(forall|i: int| 0 <= i < r.len() ==> !(#[trigger] r[i]).contains('/'));
        lemma_pod_request_pieces(u, r);
    }
    assert(rests[0] == seq!["pod"@, "uuid"@]);
    assert(rests[1] == seq!["pod"@, "manifest"@]);
    assert(rests[2] == seq!["pod"@, "annotations"@]);
}

/// Once a pod is registered, an app named `app` of it (the last of that name)
/// answers `GET .../apps/<app>/image/id` with its image id,
/// `GET .../apps/<app>/image/manifest` with its image manifest and
/// `GET .../apps/<app>/annotations` with its annotations.
pub proof fn law_registered_app_is_served(
    pods: Map<Seq<char>, PodMetadataView>,
    pod: Pod,
    app: Seq<char>,
    body: Seq<char>,
)
    requires
        !pod.uuid@.contains('/'),
        !app.contains('/'),
        pod_metadata_of(pod).apps.contains_key(app),
    ensures
        ({
            let after = pods.insert(pod.uuid@, pod_metadata_of(pod));
            let md = pod_metadata_of(pod).apps[app];
            &&& pod_request(after, Method::Get, pod.uuid@, seq!["apps"@, app, "image"@, "id"@], body)
                == ok_with(ContentType::TextPlain, BodyView::Text(md.id))
            &&& pod_request(after, Method::Get, pod.uuid@, seq!["apps"@, app, "image"@, "manifest"@], body)
                == ok_with(ContentType::Json, BodyView::AppManifest(md.manifest))
            &&& pod_request(after, Method::Get, pod.uuid@, seq!["apps"@, app, "annotations"@], body)
                == ok_with(ContentType::Json, BodyView::Annotations(md.annotations))
        }),
{
    lemma_no_slash_literals();
    lemma_distinct_literals();
    let u = pod.uuid@;
    let after = pods.insert(u, pod_metadata_of(pod));
    assert(after.contains_key(u) && after[u] == pod_metadata_of(pod));
    let r1 = seq!["apps"@, app, "image"@, "id"@];
    let r2 = seq!["apps"@, app, "image"@, "manifest"@];
    let r3 = seq!["apps"@, app, "annotations"@];
    assert(forall|i: int| 0 <= i < r1.len() ==> !(#[trigger] r1[i]).contains('/'));
    assert(forall|i: int| 0 <= i < r2.len() ==> !(#[trigger] r2[i]).contains('/'));
    assert(forall|i: int| 0 <= i < r3.len() ==> !(#[trigger] r3[i]).contains('/'));
    lemma_pod_request_pieces(u, r1);
    lemma_pod_request_pieces(u, r2);
    lemma_pod_request_pieces(u, r3);
    let p1 = seq![u, "acMetadata"@, "v1"@] + r1;
    let p2 = seq![u, "acMetadata"@, "v1"@] + r2;
    let p3 = seq![u, "acMetadata"@, "v1"@] + r3;
    assert(p1[0] == u && p1[1] == "acMetadata"@ && p1[2] == "v1"@ && p1[3] == "apps"@ && p1[4] == app
        && p1[5] == "image"@ && p1[6] == "id"@ && p1.len() == 7);
    assert(p2[0] == u && p2[1] == "acMetadata"@ && p2[2] == "v1"@ && p2[3] == "apps"@ && p2[4] == app
        && p2[5] == "image"@ && p2[6] == "manifest"@ && p2.len() == 7);
    assert(p3[0] == u && p3[1] == "acMetadata"@ && p3[2] == "v1"@ && p3[3] == "apps"@ && p3[4] == app
        && p3[5] == "annotations"@ && p3.len() == 6);
}

/// For a known pod, `POST .../pod/hmac/sign` and `POST .../pod/hmac/verify`
/// answer with the request body as text.
pub proof fn law_sign_and_verify_echo(pods: Map<Seq<char>, PodMetadataView>, uuid: Seq<char>, body: Seq<char>)
    requires
        pods.contains_key(uuid),
        !uuid.contains('/'),
    ensures
        pod_request(pods, Method::Post, uuid, seq!["pod"@, "hmac"@, "sign"@], body) == ok_with(
            ContentType::TextPlain,
            BodyView::Text(body),
        ),
        pod_request(pods, Method::Post, uuid, seq!["pod"@, "hmac"@, "verify"@], body) == ok_with(
            ContentType::TextPlain,
            BodyView::Text(body),
        ),
{
    lemma_no_slash_literals();
    lemma_distinct_literals();
    let r1 = seq!["pod"@, "hmac"@, "sign"@];
    let r2 = seq!["pod"@, "hmac"@, "verify"@];
    assert(forall|i: int| 0 <= i < r1.len() ==> !(#[trigger] r1[i]).contains('/'));
    assert(forall|i: int| 0 <= i < r2.len() ==> !(#[trigger] r2[i]).contains('/'));
    lemma_pod_request_pieces(uuid, r1);
    lemma_pod_request_pieces(uuid, r2);
    let p1 = seq![uuid, "acMetadata"@, "v1"@] + r1;
    let p2 = seq![uuid, "acMetadata"@, "v1"@] + r2;
    assert(p1[0] == uuid && p1[1] == "acMetadata"@ && p1[2] == "v1"@ && p1[3] == "pod"@ && p1[4] == "hmac"@
        && p1[5] == "sign"@ && p1.len() == 6);
    assert(p2[0] == uuid && p2[1] == "acMetadata"@ && p2[2] == "v1"@ && p2[3] == "pod"@ && p2[4] == "hmac"@
        && p2[5] == "verify"@ && p2.len() == 6);
}

/// Registering a pod changes no answer to a request about another pod.
pub proof fn law_register_keeps_other_pods(
    pods: Map<Seq<char>, PodMetadataView>,
    pod: Pod,
    method: Method,
    path: Seq<char>,
    body: Seq<char>,
)
    requires
        path.len() > 0 && path[0] == '/' ==> path_pieces(path)[0] != pod.uuid@,
    ensures
        ({
            let after = pods.insert(pod.uuid@, pod_metadata_of(pod));
            reply(after, target(after, method, path), body) == reply(pods, target(pods, method, path), body)
        }),
{
    let after = pods.insert(pod.uuid@, pod_metadata_of(pod));
    if path.len() > 0 && path[0] == '/' {
        let token = path_pieces(path)[0];
        assert(after.contains_key(token) == pods.contains_key(token));
        if pods.contains_key(token) {
            assert(after[token] == pods[token]);
        }
    }
}

/// A path that does not start with `/` is a bad request, whatever is registered.
pub proof fn law_relative_path_is_bad_request(
    pods: Map<Seq<char>, PodMetadataView>,
    method: Method,
    path: Seq<char>,
    body: Seq<char>,
)
    requires
        !(path.len() > 0 && path[0] == '/'),
    ensures
        reply(pods, target(pods, method, path), body) == status_only(StatusCode::BadRequest),
{
}

/// A path whose first piece is no registered pod is not found.
pub proof fn law_unknown_pod_is_not_found(
    pods: Map<Seq<char>, PodMetadataView>,
    method: Method,
    path: Seq<char>,
    body: Seq<char>,
)
    requires
        path.len() > 0 && path[0] == '/',
        !pods.contains_key(path_pieces(path)[0]),
    ensures
        reply(pods, target(pods, method, path), body) == status_only(StatusCode::NotFound),
{
}

/// For a known pod, a method other than `GET` and `POST` on
/// `/<uuid>/acMetadata/v1/...` is not allowed.
pub proof fn law_other_methods_not_allowed(
    pods: Map<Seq<char>, PodMetadataView>,
    uuid: Seq<char>,
    rest: Seq<Seq<char>>,
    body: Seq<char>,
)
    requires
        pods.contains_key(uuid),
        !uuid.contains('/'),
        forall|i: int| 0 <= i < rest.len() ==> !(#[trigger] rest[i]).contains('/'),
    ensures
        pod_request(pods, Method::Other, uuid, rest, body) == status_only(StatusCode::MethodNotAllowed),
{
    lemma_pod_request_pieces(uuid, rest);
    let pieces = seq![uuid, "acMetadata"@, "v1"@] + rest;
    assert(piece(pieces, 1) == Some("acMetadata"@));
    assert(piece(pieces, 2) == Some("v1"@));
}

/// Pieces after the ones a request is answered by are not read: adding pieces
/// to a path changes no answer other than "not found".
pub proof fn law_extra_pieces_ignored(
    pods: Map<Seq<char>, PodMetadataView>,
    method: Method,
    pieces: Seq<Seq<char>>,
    extra: Seq<Seq<char>>,
    body: Seq<char>,
)
    requires
        pieces.len() >= 1,
        forall|i: int| 0 <= i < pieces.len() ==> !(#[trigger] pieces[i]).contains('/'),
        forall|i: int| 0 <= i < extra.len() ==> !(#[trigger] extra[i]).contains('/'),
        target(pods, method, request_path(pieces)) != Target::NotFound,
    ensures
        target(pods, method, request_path(pieces + extra)) == target(pods, method, request_path(pieces)),
        reply(pods, target(pods, method, request_path(pieces + extra)), body) == reply(
            pods,
            target(pods, method, request_path(pieces)),
            body,
        ),
{
    let longer = pieces + extra;
    assert forall|i: int| 0 <= i < longer.len() implies !(#[trigger] longer[i]).contains('/') by {
        if i < pieces.len() {
            assert(longer[i] == pieces[i]);
        } else {
            assert(longer[i] == extra[i - pieces.len()]);
        }
    }
    lemma_request_path_pieces(pieces);
    lemma_request_path_pieces(longer);
    assert forall|i: int| 0 <= i < pieces.len() implies piece(longer, i) == piece(pieces, i) by {
        assert(longer[i] == pieces[i]);
    }
}

/// Registering keeps every pod known under its own UUID; an empty service
/// starts out so.
pub proof fn law_pods_known_by_own_uuid(pods: Map<Seq<char>, PodMetadataView>, pod: Pod)
    requires
        known_by_own_uuid(pods),
    ensures
        known_by_own_uuid(pods.insert(pod.uuid@, pod_metadata_of(pod))),
        known_by_own_uuid(Map::<Seq<char>, PodMetadataView>::empty()),
{
}

/// A pod whose UUID is the hyphenated text of sixteen bytes, as `Pod::new`
/// makes it, is served once registered, whatever those bytes are.
pub proof fn law_new_pod_is_served(
    pods: Map<Seq<char>, PodMetadataView>,
    pod: Pod,
    bytes: Seq<u8>,
    body: Seq<char>,
)
    requires
        bytes.len() == 16,
        pod.uuid@ == crate::text::uuid_text(bytes),
    ensures
        ({
            let after = pods.insert(pod.uuid@, pod_metadata_of(pod));
            pod_request(after, Method::Get, pod.uuid@, seq!["pod"@, "uuid"@], body) == ok_with(
                ContentType::TextPlain,
                BodyView::Text(pod.uuid@),
            )
        }),
{
    crate::text::lemma_uuid_text_shape(bytes);
    law_registered_pod_is_served(pods, pod, body);
}

/// For any state of the service, asking a known pod for its UUID answers with
/// the UUID the request names.
pub proof fn law_pod_uuid_answers_token(pods: Map<Seq<char>, PodMetadataView>, uuid: Seq<char>, body: Seq<char>)
    requires
        known_by_own_uuid(pods),
        pods.contains_key(uuid),
        !uuid.contains('/'),
    ensures
        pod_request(pods, Method::Get, uuid, seq!["pod"@, "uuid"@], body) == ok_with(
            ContentType::TextPlain,
            BodyView::Text(uuid),
        ),
{
    lemma_no_slash_literals();
    lemma_distinct_literals();
    let r = seq!["pod"@, "uuid"@];
    assert(forall|i: int| 0 <= i < r.len() ==> !(#[trigger] r[i]).contains('/'));
    lemma_pod_request_pieces(uuid, r);
    let p = seq![uuid, "acMetadata"@, "v1"@] + r;
    assert(p[0] == uuid && p[1] == "acMetadata"@ && p[2] == "v1"@ && p[3] == "pod"@ && p[4] == "uuid"@
        && p.len() == 5);
    assert(pods[uuid].uuid == uuid);
}

} // verus!
