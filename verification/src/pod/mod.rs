pub mod app;

use vstd::prelude::*;

use std::collections::HashMap;

use crate::aci::Isolator;
use crate::text::{uuid_hyphenated, uuid_text};
use crate::util::{lemma_name_values_cloned, vec_or_empty, NameValue};
use crate::volumes::VolumeSet;

pub use self::app::App;

verus! {

/// A volume of the pod.
#[allow(non_snake_case)]
pub struct Volume {
    pub name: String,
    pub readOnly: Option<bool>,
    pub kind: String,
    pub source: Option<String>,
    pub recursive: Option<bool>,
    pub mode: Option<String>,
    pub uid: Option<String>,
    pub gid: Option<String>,
}

impl Clone for Volume {
    fn clone(&self) -> (r: Self)
        ensures
            r == *self,
    {
        Volume {
            name: self.name.clone(),
            readOnly: self.readOnly,
            kind: self.kind.clone(),
            source: self.source.clone(),
            recursive: self.recursive,
            mode: self.mode.clone(),
            uid: self.uid.clone(),
            gid: self.gid.clone(),
        }
    }
}

impl DeepView for Volume {
    type V = Volume;

    /// A volume holds no list, so it is its own deep view.
    open spec fn deep_view(&self) -> Volume {
        *self
    }
}

/// A port of the pod on the host.
#[allow(non_snake_case)]
pub struct Port {
    pub name: String,
    pub hostPort: usize,
    pub hostIP: Option<String>,
    pub podPort: Option<crate::aci::Port>,
}

/// The pod manifest.
#[allow(non_snake_case)]
pub struct Pod {
    pub acVersion: String,
    pub acKind: String,
    pub uuid: String,
    pub apps: Option<Vec<App>>,
    pub volumes: Option<Vec<Volume>>,
    pub isolators: Option<Vec<Isolator>>,
    pub annotations: Option<Vec<NameValue>>,
    pub ports: Option<Vec<Port>>,
    pub userAnnotations: Option<HashMap<String, String>>,
    pub userLabels: Option<HashMap<String, String>>,
}

/// The volume the pod declares for a volume name it created: an empty,
/// writable, non-recursive volume with an empty source.
pub open spec fn is_empty_volume(v: Volume, name: Seq<char>) -> bool {
    &&& v.name@ == name
    &&& v.kind@ == "empty"@
    &&& v.readOnly == Some(false)
    &&& v.source matches Some(s) && s@ == Seq::<char>::empty()
    &&& v.recursive == Some(false)
    &&& v.mode is None
    &&& v.uid is None
    &&& v.gid is None
}

impl Pod {
    /// The pod's annotations, or none.
    pub open spec fn spec_annotations(self) -> Seq<NameValue> {
        match self.annotations {
            Some(v) => v@,
            None => Seq::empty(),
        }
    }

    /// The pod's apps, or none.
    pub open spec fn spec_apps(self) -> Seq<App> {
        match self.apps {
            Some(v) => v@,
            None => Seq::empty(),
        }
    }

    /// The manifest of a pod with this UUID and version: the given parts, and
    /// one empty volume for each name of `volume_set`, in the set's order.
    pub fn new(
        uuid: [u8; 16],
        version: &str,
        apps: Option<Vec<App>>,
        volume_set: VolumeSet,
        isolators: Option<Vec<Isolator>>,
        annotations: Option<Vec<NameValue>>,
        ports: Option<Vec<Port>>,
        user_annotations: Option<HashMap<String, String>>,
        user_labels: Option<HashMap<String, String>>,
    ) -> (r: Pod)
        ensures
            r.acKind@ == "PodManifest"@,
            r.acVersion@ == version@,
            r.uuid@ == uuid_text(uuid@),
            r.apps == apps,
            r.volumes matches Some(vs) && vs@.len() == volume_set.names().len() && forall|i: int|
                0 <= i < vs@.len() ==> is_empty_volume(#[trigger] vs@[i], volume_set.names()[i]),
            r.volumes matches Some(vs) && forall|i: int, j: int|
                0 <= i < j < vs@.len() ==> (#[trigger] vs@[i]).name@ != (#[trigger] vs@[j]).name@,
            r.isolators == isolators,
            r.annotations == annotations,
            r.ports == ports,
            r.userAnnotations == user_annotations,
            r.userLabels == user_labels,
    {
        let ghost names = volume_set.names();
        let set_names = volume_set.into_names();
        assert(names.no_duplicates());
        let mut volumes: Vec<Volume> = Vec::new();
        let mut i: usize = 0;
        while i < set_names.len()
            invariant
                i <= set_names@.len(),
                set_names@.map_values(|s: String| s@) == names,
                names.no_duplicates(),
                volumes@.len() == i,
                forall|k: int| 0 <= k < i ==> is_empty_volume(#[trigger] volumes@[k], names[k]),
            decreases set_names@.len() - i,
        {
            volumes.push(
                Volume {
                    name: set_names[i].clone(),
                    kind: "empty".to_string(),
                    readOnly: Some(false),
                    source: Some(String::new()),
                    recursive: Some(false),
                    mode: None,
                    uid: None,
                    gid: None,
                },
            );
            i = i + 1;
        }
        Pod {
            acKind: "PodManifest".to_string(),
            acVersion: version.to_string(),
            uuid: uuid_hyphenated(uuid),
            apps,
            volumes: Some(volumes),
            isolators,
            annotations,
            ports,
            userAnnotations: user_annotations,
            userLabels: user_labels,
        }
    }

    /// A copy of the pod's annotations, or nothing.
    pub fn annotations_or_empty(&self) -> (r: Vec<NameValue>)
        ensures
            r@ == self.spec_annotations(),
    {
        let r = vec_or_empty(self.annotations.as_ref());
        proof {
            lemma_name_values_cloned(self.spec_annotations(), r@);
        }
        r
    }

    /// A copy of the pod's apps, or nothing.
    pub fn apps_or_empty(&self) -> (r: Vec<App>)
        ensures
            r.deep_view() == self.spec_apps().map_values(|a: App| a.deep_view()),
    {
        let r = vec_or_empty(self.apps.as_ref());
        proof {
            let a = self.spec_apps();
            assert forall|i: int| 0 <= i < a.len() implies #[trigger] r@[i].deep_view() == a[i].deep_view() by {
                assert(cloned::<App>(a[i], r@[i]));
            }
            assert(r.deep_view() =~= a.map_values(|a: App| a.deep_view()));
        }
        r
    }

    /// The pod's UUID, hyphenated.
    pub fn get_uuid(&self) -> (r: String)
        ensures
            r == self.uuid,
    {
        self.uuid.clone()
    }
}

/// The UUID text of a pod, as `Pod::new` writes it, names exactly one UUID:
/// pods made with different UUIDs have different UUID texts.
pub proof fn law_pod_uuid_text_determines_uuid(p: Pod, q: Pod, a: [u8; 16], b: [u8; 16])
    requires
        p.uuid@ == uuid_text(a@),
        q.uuid@ == uuid_text(b@),
        p.uuid@ == q.uuid@,
    ensures
        a@ == b@,
{
    crate::text::lemma_uuid_text_injective(a@, b@);
}

/// The UUID text of a pod made with UUID `u` reads back as `u`.
pub proof fn law_pod_uuid_reads_back(p: Pod, u: [u8; 16])
    requires
        p.uuid@ == uuid_text(u@),
    ensures
        crate::text::uuid_of_text(p.uuid@) == Some(u@),
{
    crate::text::law_uuid_text_round_trip(u@);
}

} // verus!
