use std::collections::HashMap;

use fyc::pod::app::{AppImage, MountPoint};
use fyc::pod::{App, Pod};
use fyc::util::{vec_or_empty, NameValue};
use fyc::volumes::VolumeSet;

fn nv(n: &str, v: &str) -> NameValue {
    NameValue::new(n.to_string(), v.to_string())
}

fn pod_app(name: &str, id: &str) -> App {
    App {
        name: name.to_string(),
        image: AppImage { id: id.to_string(), name: None, labels: None },
        app: None,
        readOnlyRootFS: None,
        mounts: Some(vec![MountPoint { name: "v".to_string(), path: "/v".to_string(), appVolume: None }]),
        annotations: Some(vec![nv("k", name)]),
    }
}

#[test]
fn vec_or_empty_clones_or_is_empty() {
    let v = vec![1, 2, 3];
    assert_eq!(vec_or_empty(Some(&v)), vec![1, 2, 3]);
    assert_eq!(vec_or_empty::<u8>(None), Vec::<u8>::new());
}

#[test]
fn new_pod_has_one_empty_volume_per_name() {
    let mut set = VolumeSet::new();
    set.insert("data".to_string());
    set.insert("logs".to_string());
    let p = Pod::new(
        [0xff; 16],
        "0.8.9",
        Some(vec![]),
        set,
        Some(vec![]),
        None,
        Some(vec![]),
        Some(HashMap::new()),
        None,
    );
    assert_eq!(p.acKind, "PodManifest");
    assert_eq!(p.acVersion, "0.8.9");
    assert_eq!(p.uuid, "ffffffff-ffff-ffff-ffff-ffffffffffff");
    assert_eq!(p.get_uuid(), "ffffffff-ffff-ffff-ffff-ffffffffffff");
    let vs = p.volumes.as_ref().unwrap();
    assert_eq!(vs.len(), 2);
    assert_eq!(vs[0].name, "data");
    assert_eq!(vs[1].name, "logs");
    for v in vs {
        assert_eq!(v.kind, "empty");
        assert_eq!(v.readOnly, Some(false));
        assert_eq!(v.source, Some(String::new()));
        assert_eq!(v.recursive, Some(false));
        assert!(v.mode.is_none() && v.uid.is_none() && v.gid.is_none());
    }
    assert!(p.annotations.is_none());
    assert!(p.userAnnotations.is_some() && p.userLabels.is_none());
}

#[test]
fn pod_getters_give_copies_or_nothing() {
    let p = Pod::new(
        [1; 16],
        "v",
        Some(vec![pod_app("a", "sha512-1"), pod_app("b", "sha512-2")]),
        VolumeSet::new(),
        None,
        Some(vec![nv("x", "y")]),
        None,
        None,
        None,
    );
    let ann = p.annotations_or_empty();
    assert_eq!(ann.len(), 1);
    assert_eq!(ann[0].name, "x");
    let apps = p.apps_or_empty();
    assert_eq!(apps.len(), 2);
    assert_eq!(apps[1].get_name(), "b");
    assert_eq!(apps[1].get_image_id(), "sha512-2");
    assert_eq!(apps[0].get_annotations()[0].value, "a");
    assert!(apps[0].get_app().is_none());
    let empty = Pod::new([1; 16], "v", None, VolumeSet::new(), None, None, None, None, None);
    assert!(empty.annotations_or_empty().is_empty());
    assert!(empty.apps_or_empty().is_empty());
}

#[test]
fn app_without_annotations_has_none() {
    let mut a = pod_app("a", "i");
    a.annotations = None;
    assert!(a.get_annotations().is_empty());
}

#[test]
fn different_uuids_have_different_texts() {
    let a = Pod::new([1; 16], "v", None, VolumeSet::new(), None, None, None, None, None);
    let mut bytes = [1u8; 16];
    bytes[9] = 2;
    let b = Pod::new(bytes, "v", None, VolumeSet::new(), None, None, None, None, None);
    assert_ne!(a.get_uuid(), b.get_uuid());
}

#[test]
fn pod_uuid_text_parses_back_to_the_uuid() {
    let bytes: [u8; 16] = [
        0x67, 0xe5, 0x50, 0x44, 0x10, 0xb1, 0x42, 0x6f, 0x92, 0x47, 0xbb, 0x68, 0x0e, 0x5f, 0xe0, 0xc8,
    ];
    let p = Pod::new(bytes, "v", None, VolumeSet::new(), None, None, None, None, None);
    assert_eq!(p.get_uuid(), "67e55044-10b1-426f-9247-bb680e5fe0c8");
    let parsed = uuid::Uuid::parse_str(&p.get_uuid()).unwrap();
    assert_eq!(parsed.as_bytes(), &bytes);
}
