use vstd::prelude::*;

use crate::keyed::KeyedList;
use crate::pod::app::PodAppView;
use crate::pod::{App, Pod};
use crate::util::{NameValue, NameValueView};

use super::app::{AppMetadata, AppMetadataView};
use super::response::{ok_with, Body, BodyView, ContentType, Response};

verus! {

/// What the metadata service knows of a pod.
pub struct PodMetadata {
    annotations: Vec<NameValue>,
    apps: KeyedList<AppMetadata>,
    manifest: Pod,
    uuid: String,
}

pub struct PodMetadataView {
    pub annotations: Seq<NameValueView>,
    pub apps: Map<Seq<char>, AppMetadataView>,
    pub manifest: Pod,
    pub uuid: Seq<char>,
}

impl DeepView for PodMetadata {
    type V = PodMetadataView;

    closed spec fn deep_view(&self) -> PodMetadataView {
        PodMetadataView {
            annotations: self.annotations.deep_view(),
            apps: self.apps.deep_map(),
            manifest: self.manifest,
            uuid: self.uuid@,
        }
    }
}

/// What is known of an app of a pod: its annotations (none if it has none),
/// its image manifest and the id of its image.
pub open spec fn app_metadata_of(a: PodAppView) -> AppMetadataView {
    AppMetadataView {
        annotations: match a.annotations {
            Some(s) => s,
            None => Seq::empty(),
        },
        manifest: a.app,
        id: a.image.id,
    }
}

/// The apps of a pod by name; of two apps with one name, the later counts.
pub open spec fn apps_map(apps: Seq<PodAppView>) -> Map<Seq<char>, AppMetadataView>
    decreases apps.len(),
{
    if apps.len() == 0 {
        Map::empty()
    } else {
        apps_map(apps.drop_last()).insert(apps.last().name, app_metadata_of(apps.last()))
    }
}

/// What is known of a pod once its manifest is registered.
pub open spec fn pod_metadata_of(pod: Pod) -> PodMetadataView {
    PodMetadataView {
        annotations: pod.spec_annotations().map_values(|nv: NameValue| nv.deep_view()),
        apps: apps_map(pod.spec_apps().map_values(|a: App| a.deep_view())),
        manifest: pod,
        uuid: pod.uuid@,
    }
}

impl PodMetadata {
    /// The metadata of a pod manifest; there always is some.
    pub fn new(pod: Pod) -> (r: Option<PodMetadata>)
        ensures
            r matches Some(m) && m.deep_view() == pod_metadata_of(pod),
    {
        let annotations = pod.annotations_or_empty();
        let pod_apps = pod.apps_or_empty();
        let ghost views = pod.spec_apps().map_values(|a: App| a.deep_view());
        let mut apps: KeyedList<AppMetadata> = KeyedList::new();
        let mut i: usize = 0;
        assert(views.take(0) =~= Seq::<PodAppView>::empty());
        while i < pod_apps.len()
            invariant
                i <= pod_apps@.len(),
                pod_apps.deep_view() == views,
                apps.deep_map() == apps_map(views.take(i as int)),
            decreases pod_apps@.len() - i,
        {
            let a = &pod_apps[i];
            let ann = a.get_annotations();
            assert(ann.deep_view() =~= app_metadata_of(views[i as int]).annotations) by {
                assert(views[i as int] == a.deep_view());
            }
            let md = AppMetadata::new(ann, a.get_app(), a.get_image_id());
            apps.insert(a.get_name(), md);
            assert(views.take(i + 1).drop_last() =~= views.take(i as int));
            i = i + 1;
        }
        assert(views.take(i as int) =~= views);
        let uuid = pod.get_uuid();
        let r = PodMetadata { annotations, apps, manifest: pod, uuid };
        assert(r.annotations.deep_view() =~= pod_metadata_of(pod).annotations);
        Some(r)
    }

    /// The metadata of the app named `app`, if there is a name and such an app.
    pub fn get_app(&self, app: Option<&str>) -> (r: Option<&AppMetadata>)
        ensures
            r is Some <==> (app matches Some(n) && self.deep_view().apps.contains_key(n@)),
            r matches Some(m) ==> m.deep_view() == self.deep_view().apps[app->0@],
    {
        if let Some(app_name) = app {
            let key = app_name.to_string();
            return self.apps.get(&key);
        }
        None
    }

    /// The pod's UUID.
    pub fn uuid(&self) -> (r: &String)
        ensures
            r@ == self.deep_view().uuid,
    {
        &self.uuid
    }

    /// The pod's annotations.
    pub fn annotations(&self) -> (r: &Vec<NameValue>)
        ensures
            r.deep_view() == self.deep_view().annotations,
    {
        &self.annotations
    }

    /// The pod manifest.
    pub fn manifest(&self) -> (r: &Pod)
        ensures
            *r == self.deep_view().manifest,
    {
        &self.manifest
    }

    /// The pod's apps by name, no name twice.
    pub fn apps(&self) -> (r: &Vec<(String, AppMetadata)>)
        ensures
            crate::keyed::entries_map(r@) == self.deep_view().apps,
            crate::keyed::keys_unique(r@),
    {
        self.apps.entries()
    }

    /// Signs `body` for an app of the pod; the signature is the body itself.
    pub fn sign(&self, body: String) -> (r: Response)
        ensures
            r.deep_view() == ok_with(ContentType::TextPlain, BodyView::Text(body@)),
    {
        Response::ok_with(ContentType::TextPlain, Body::Text(body))
    }

    /// Verifies a signature of an app of the pod, answering with the body itself.
    pub fn verify(&self, body: String) -> (r: Response)
        ensures
            r.deep_view() == ok_with(ContentType::TextPlain, BodyView::Text(body@)),
    {
        Response::ok_with(ContentType::TextPlain, Body::Text(body))
    }

    /// The pod's annotations, as JSON.
    pub fn serve_annotations(&self) -> (r: Response)
        ensures
            r.deep_view() == ok_with(ContentType::Json, BodyView::Annotations(self.deep_view().annotations)),
    {
        Response::ok_with(ContentType::Json, Body::Annotations(&self.annotations))
    }

    /// The pod manifest, as JSON.
    pub fn serve_manifest(&self) -> (r: Response)
        ensures
            r.deep_view() == ok_with(ContentType::Json, BodyView::PodManifest(self.deep_view().manifest)),
    {
        Response::ok_with(ContentType::Json, Body::PodManifest(&self.manifest))
    }

    /// The pod's UUID, as text.
    pub fn serve_uuid(&self) -> (r: Response)
        ensures
            r.deep_view() == ok_with(ContentType::TextPlain, BodyView::Text(self.deep_view().uuid)),
    {
        Response::ok_with(ContentType::TextPlain, Body::Text(self.uuid.clone()))
    }
}

/// The apps of a pod by name hold exactly the names of its apps, and under each
/// name what is known of the last app of that name.
proof fn lemma_apps_map(apps: Seq<PodAppView>)
    ensures
        forall|n: Seq<char>|
            #[trigger] apps_map(apps).contains_key(n) <==> exists|j: int| 0 <= j < apps.len() && apps[j].name == n,
        forall|i: int|
            0 <= i < apps.len() && (forall|j: int| i < j < apps.len() ==> #[trigger] apps[j].name != apps[i].name)
                ==> apps_map(apps)[#[trigger] apps[i].name] == app_metadata_of(apps[i]),
    decreases apps.len(),
{
    if apps.len() > 0 {
        let init = apps.drop_last();
        lemma_apps_map(init);
        assert forall|n: Seq<char>|
            #[trigger] apps_map(apps).contains_key(n) <==> exists|j: int| 0 <= j < apps.len() && apps[j].name == n by {
            if exists|j: int| 0 <= j < apps.len() && apps[j].name == n {
                let j = choose|j: int| 0 <= j < apps.len() && apps[j].name == n;
                if j < apps.len() - 1 {
                    assert(init[j].name == n);
                }
            }
            if apps_map(apps).contains_key(n) && n != apps.last().name {
                let j = choose|j: int| 0 <= j < init.len() && init[j].name == n;
                assert(apps[j].name == n);
            }
        }
        assert forall|i: int|
            0 <= i < apps.len() && (forall|j: int| i < j < apps.len() ==> #[trigger] apps[j].name != apps[i].name)
                implies apps_map(apps)[#[trigger] apps[i].name] == app_metadata_of(apps[i]) by {
            if i < apps.len() - 1 {
                assert(apps[apps.len() - 1].name != apps[i].name);
                assert forall|j: int| i < j < init.len() implies #[trigger] init[j].name != init[i].name by {
                    assert(apps[j].name != apps[i].name);
                }
                assert(init[i] == apps[i]);
            }
        }
    }
}

/// Registering a pod keeps each of its apps as given: the apps known by name are
/// exactly the pod's apps, and under the name of an app (the last of that name)
/// stand that app's annotations (none if it has none), its image manifest as
/// given, labels and all, and its image id.
pub proof fn law_registered_apps_keep_their_manifests(pod: Pod, i: int)
    requires
        0 <= i < pod.spec_apps().len(),
        forall|j: int|
            i < j < pod.spec_apps().len() ==> (#[trigger] pod.spec_apps()[j]).name@ != pod.spec_apps()[i].name@,
    ensures
        forall|n: Seq<char>|
            #[trigger] pod_metadata_of(pod).apps.contains_key(n) <==> exists|j: int|
                0 <= j < pod.spec_apps().len() && (#[trigger] pod.spec_apps()[j]).name@ == n,
        ({
            let a = pod.spec_apps()[i];
            let m = pod_metadata_of(pod).apps;
            &&& m.contains_key(a.name@)
            &&& m[a.name@].manifest == a.app.deep_view()
            &&& m[a.name@].id == a.image.id@
            &&& m[a.name@].annotations == match a.annotations {
                Some(v) => v.deep_view(),
                None => Seq::<NameValueView>::empty(),
            }
        }),
{
    let apps = pod.spec_apps();
    let views = apps.map_values(|a: App| a.deep_view());
    lemma_apps_map(views);
    assert forall|n: Seq<char>|
        #[trigger] pod_metadata_of(pod).apps.contains_key(n) <==> exists|j: int|
            0 <= j < apps.len() && (#[trigger] apps[j]).name@ == n by {
        if exists|j: int| 0 <= j < apps.len() && (#[trigger] apps[j]).name@ == n {
            let j = choose|j: int| 0 <= j < apps.len() && (#[trigger] apps[j]).name@ == n;
            assert(views[j].name == n);
        }
        if pod_metadata_of(pod).apps.contains_key(n) {
            let j = choose|j: int| 0 <= j < views.len() && views[j].name == n;
            assert(apps[j].name@ == n);
        }
    }
    assert forall|j: int| i < j < views.len() implies #[trigger] views[j].name != views[i].name by {
        assert(apps[j].name@ != apps[i].name@);
    }
    assert(views[i].name == apps[i].name@);
    assert(exists|j: int| 0 <= j < apps.len() && (#[trigger] apps[j]).name@ == apps[i].name@);
}

} // verus!
