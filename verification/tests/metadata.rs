use fyc::aci::AciJson;
use fyc::metadata::{Body, ContentType, Metadata, Method, PodMetadata, Response, StatusCode};
use fyc::pod::app::AppImage;
use fyc::pod::{App, Pod};
use fyc::util::NameValue;
use fyc::volumes::VolumeSet;

const UUID: [u8; 16] = [
    0x6b, 0xa7, 0xb8, 0x10, 0x9d, 0xad, 0x11, 0xd1, 0x80, 0xb4, 0x00, 0xc0, 0x4f, 0xd4, 0x30, 0xc8,
];
const UUID_TEXT: &str = "6ba7b810-9dad-11d1-80b4-00c04fd430c8";

fn nv(n: &str, v: &str) -> NameValue {
    NameValue::new(n.to_string(), v.to_string())
}

fn manifest(name: &str) -> AciJson {
    AciJson {
        acKind: "ImageManifest".to_string(),
        acVersion: "0.8.9".to_string(),
        name: name.to_string(),
        labels: None,
        app: None,
        dependencies: None,
        pathWhitelist: None,
        annotations: Some(vec![nv("created", "today")]),
    }
}

fn pod_app(name: &str, id: &str, image_name: &str) -> App {
    App {
        name: name.to_string(),
        image: AppImage { id: id.to_string(), name: None, labels: None },
        app: Some(manifest(image_name)),
        readOnlyRootFS: None,
        mounts: None,
        annotations: Some(vec![nv("app", name)]),
    }
}

fn pod() -> Pod {
    Pod::new(
        UUID,
        "0.8.9",
        Some(vec![
            pod_app("web", "sha512-web-old", "example.com/web-old"),
            pod_app("db", "sha512-db", "example.com/db"),
            pod_app("web", "sha512-web", "example.com/web"),
        ]),
        VolumeSet::new(),
        None,
        Some(vec![nv("owner", "ops")]),
        None,
        None,
        None,
    )
}

fn store() -> Metadata {
    let mut m = Metadata::new();
    m.register_pod(pod());
    m
}

fn text(r: &Response) -> Option<String> {
    match &r.body {
        Body::Text(s) => Some(s.clone()),
        _ => None,
    }
}

fn is_status(r: &Response, s: StatusCode) -> bool {
    matches!(
        (r.status, s),
        (StatusCode::Success, StatusCode::Success)
            | (StatusCode::BadRequest, StatusCode::BadRequest)
            | (StatusCode::NotFound, StatusCode::NotFound)
            | (StatusCode::MethodNotAllowed, StatusCode::MethodNotAllowed)
    )
}

fn bare(r: &Response, s: StatusCode) -> bool {
    is_status(r, s) && r.content_type.is_none() && matches!(r.body, Body::Empty)
}

fn is_json(r: &Response) -> bool {
    is_status(r, StatusCode::Success) && matches!(r.content_type, Some(ContentType::Json))
}

fn is_text(r: &Response) -> bool {
    is_status(r, StatusCode::Success) && matches!(r.content_type, Some(ContentType::TextPlain))
}

fn path(rest: &str) -> String {
    format!("/{}/acMetadata/v1/{}", UUID_TEXT, rest)
}

#[test]
fn pod_uuid_is_served() {
    let m = store();
    let r = m.handle(Method::Get, &path("pod/uuid"), String::new());
    assert!(is_text(&r));
    assert_eq!(text(&r), Some(UUID_TEXT.to_string()));
}

#[test]
fn pod_manifest_is_served() {
    let m = store();
    let r = m.handle(Method::Get, &path("pod/manifest"), String::new());
    assert!(is_json(&r));
    match r.body {
        Body::PodManifest(p) => {
            assert_eq!(p.uuid, UUID_TEXT);
            assert_eq!(p.acKind, "PodManifest");
        }
        _ => panic!("no manifest"),
    }
}

#[test]
fn pod_annotations_are_served() {
    let m = store();
    let r = m.handle(Method::Get, &path("pod/annotations"), String::new());
    assert!(is_json(&r));
    match r.body {
        Body::Annotations(a) => {
            assert_eq!(a.len(), 1);
            assert_eq!(a[0].name, "owner");
            assert_eq!(a[0].value, "ops");
        }
        _ => panic!("no annotations"),
    }
}

#[test]
fn app_documents_are_served_for_the_last_app_of_a_name() {
    let m = store();
    let r = m.handle(Method::Get, &path("apps/web/image/id"), String::new());
    assert!(is_text(&r));
    assert_eq!(text(&r), Some("sha512-web".to_string()));
    let r = m.handle(Method::Get, &path("apps/web/image/manifest"), String::new());
    assert!(is_json(&r));
    match r.body {
        Body::AppManifest(Some(a)) => assert_eq!(a.name, "example.com/web"),
        _ => panic!("no app manifest"),
    }
    let r = m.handle(Method::Get, &path("apps/db/annotations"), String::new());
    assert!(is_json(&r));
    match r.body {
        Body::Annotations(a) => assert_eq!(a[0].value, "db"),
        _ => panic!("no app annotations"),
    }
}

#[test]
fn sign_and_verify_echo_the_body() {
    let m = store();
    let r = m.handle(Method::Post, &path("pod/hmac/sign"), "payload".to_string());
    assert!(is_text(&r));
    assert_eq!(text(&r), Some("payload".to_string()));
    let r = m.handle(Method::Post, &path("pod/hmac/verify"), "sig".to_string());
    assert_eq!(text(&r), Some("sig".to_string()));
}

#[test]
fn relative_path_is_a_bad_request() {
    let m = store();
    assert!(bare(&m.handle(Method::Get, "pod/uuid", String::new()), StatusCode::BadRequest));
    assert!(bare(&m.handle(Method::Get, "", String::new()), StatusCode::BadRequest));
}

#[test]
fn unknown_pod_is_not_found() {
    let m = store();
    let r = m.handle(Method::Get, "/00000000-0000-0000-0000-000000000000/acMetadata/v1/pod/uuid", String::new());
    assert!(bare(&r, StatusCode::NotFound));
    assert!(bare(&m.handle(Method::Get, "/", String::new()), StatusCode::NotFound));
    let empty = Metadata::new();
    assert!(bare(&empty.handle(Method::Get, &path("pod/uuid"), String::new()), StatusCode::NotFound));
}

#[test]
fn wrong_prefix_or_resource_is_not_found() {
    let m = store();
    for p in [
        format!("/{}/acMetadata/v2/pod/uuid", UUID_TEXT),
        format!("/{}/metadata/v1/pod/uuid", UUID_TEXT),
        format!("/{}", UUID_TEXT),
        path("pod"),
        path("pod/other"),
        path("apps"),
        path("apps/nope/image/id"),
        path("apps/web"),
        path("apps/web/image"),
        path("apps/web/image/size"),
        path("other"),
    ] {
        assert!(bare(&m.handle(Method::Get, &p, String::new()), StatusCode::NotFound), "{}", p);
    }
    for p in [path("pod/uuid"), path("pod/hmac"), path("pod/hmac/forge"), path("apps/web/image/id")] {
        assert!(bare(&m.handle(Method::Post, &p, String::new()), StatusCode::NotFound), "{}", p);
    }
}

#[test]
fn other_methods_are_not_allowed() {
    let m = store();
    assert!(bare(&m.handle(Method::Other, &path("pod/uuid"), String::new()), StatusCode::MethodNotAllowed));
    assert!(bare(&m.handle(Method::Other, &path("anything"), String::new()), StatusCode::MethodNotAllowed));
    let r = m.handle(Method::Other, "/x/acMetadata/v1/pod/uuid", String::new());
    assert!(bare(&r, StatusCode::NotFound));
}

#[test]
fn trailing_pieces_are_ignored() {
    let m = store();
    let r = m.handle(Method::Get, &path("pod/uuid/extra/more"), String::new());
    assert_eq!(text(&r), Some(UUID_TEXT.to_string()));
    let r = m.handle(Method::Get, &path("pod/uuid/"), String::new());
    assert_eq!(text(&r), Some(UUID_TEXT.to_string()));
}

#[test]
fn registering_again_replaces_and_keeps_others() {
    let mut m = store();
    let other = Pod::new([7; 16], "1", None, VolumeSet::new(), None, None, None, None, None);
    m.register_pod(other);
    let r = m.handle(Method::Get, &path("pod/uuid"), String::new());
    assert_eq!(text(&r), Some(UUID_TEXT.to_string()));
    let r = m.handle(Method::Get, "/07070707-0707-0707-0707-070707070707/acMetadata/v1/pod/uuid", String::new());
    assert_eq!(text(&r), Some("07070707-0707-0707-0707-070707070707".to_string()));
    let replacement = Pod::new(UUID, "2", None, VolumeSet::new(), None, None, None, None, None);
    m.register_pod(replacement);
    let r = m.handle(Method::Get, &path("pod/manifest"), String::new());
    match r.body {
        Body::PodManifest(p) => assert_eq!(p.acVersion, "2"),
        _ => panic!("no manifest"),
    }
    assert!(bare(&m.handle(Method::Get, &path("apps/web/image/id"), String::new()), StatusCode::NotFound));
}

#[test]
fn lookups_by_uuid_and_app() {
    let m = store();
    assert!(m.get_pod(UUID_TEXT.to_string()).is_some());
    assert!(m.get_pod("nope".to_string()).is_none());
    assert!(m.get_by_token(Some(UUID_TEXT)).is_some());
    assert!(m.get_by_token(None).is_none());
    assert!(m.get_app(UUID_TEXT.to_string(), "db".to_string()).is_some());
    assert!(m.get_app(UUID_TEXT.to_string(), "cache".to_string()).is_none());
    assert!(m.get_app("nope".to_string(), "db".to_string()).is_none());
}

#[test]
fn pod_metadata_serves_its_parts() {
    let pm = PodMetadata::new(pod()).unwrap();
    assert_eq!(pm.uuid(), UUID_TEXT);
    assert_eq!(text(&pm.serve_uuid()), Some(UUID_TEXT.to_string()));
    assert_eq!(text(&pm.sign("b".to_string())), Some("b".to_string()));
    assert_eq!(text(&pm.verify("c".to_string())), Some("c".to_string()));
    assert!(pm.get_app(None).is_none());
    let db = pm.get_app(Some("db")).unwrap();
    assert_eq!(text(&db.serve_id()), Some("sha512-db".to_string()));
    assert!(is_json(&db.serve_annotations()));
    assert!(is_json(&db.serve_manifest()));
}

#[test]
fn every_pod_is_known_under_its_own_uuid() {
    let m = store();
    m.pods_known_by_own_uuid();
    let pm = m.get_pod(UUID_TEXT.to_string()).unwrap();
    assert_eq!(pm.uuid(), UUID_TEXT);
}
