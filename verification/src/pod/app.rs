use vstd::prelude::*;

use crate::aci::{AciJson, AciJsonView};
use crate::util::{clone_opt_vec, lemma_name_value_clone_keeps_deep_view, NameValue, NameValueView};

use super::Volume;

verus! {

/// The image an app of the pod runs.
pub struct AppImage {
    pub id: String,
    pub name: Option<String>,
    pub labels: Option<Vec<NameValue>>,
}

pub struct AppImageView {
    pub id: Seq<char>,
    pub name: Option<Seq<char>>,
    pub labels: Option<Seq<NameValueView>>,
}

impl DeepView for AppImage {
    type V = AppImageView;

    open spec fn deep_view(&self) -> AppImageView {
        AppImageView { id: self.id@, name: self.name.deep_view(), labels: self.labels.deep_view() }
    }
}

impl Clone for AppImage {
    fn clone(&self) -> (r: Self)
        ensures
            r.deep_view() == self.deep_view(),
    {
        proof {
            lemma_name_value_clone_keeps_deep_view();
        }
        AppImage { id: self.id.clone(), name: self.name.clone(), labels: clone_opt_vec(&self.labels) }
    }
}

/// A volume of the pod mounted into one of its apps.
#[allow(non_snake_case)]
pub struct MountPoint {
    pub name: String,
    pub path: String,
    pub appVolume: Option<Volume>,
}

impl Clone for MountPoint {
    fn clone(&self) -> (r: Self)
        ensures
            r == *self,
    {
        let app_volume = match &self.appVolume {
            Some(v) => Some(v.clone()),
            None => None,
        };
        MountPoint { name: self.name.clone(), path: self.path.clone(), appVolume: app_volume }
    }
}

impl DeepView for MountPoint {
    type V = MountPoint;

    /// A mount point holds no list, so it is its own deep view.
    open spec fn deep_view(&self) -> MountPoint {
        *self
    }
}

/// An app of the pod: its name, its image and, once known, the image manifest.
#[allow(non_snake_case)]
pub struct App {
    pub name: String,
    pub image: AppImage,
    pub app: Option<AciJson>,
    pub readOnlyRootFS: Option<bool>,
    pub mounts: Option<Vec<MountPoint>>,
    pub annotations: Option<Vec<NameValue>>,
}

pub struct PodAppView {
    pub name: Seq<char>,
    pub image: AppImageView,
    pub app: Option<AciJsonView>,
    pub read_only_root_fs: Option<bool>,
    pub mounts: Option<Seq<MountPoint>>,
    pub annotations: Option<Seq<NameValueView>>,
}

impl DeepView for App {
    type V = PodAppView;

    open spec fn deep_view(&self) -> PodAppView {
        PodAppView {
            name: self.name@,
            image: self.image.deep_view(),
            app: self.app.deep_view(),
            read_only_root_fs: self.readOnlyRootFS,
            mounts: self.mounts.deep_view(),
            annotations: self.annotations.deep_view(),
        }
    }
}

impl Clone for App {
    fn clone(&self) -> (r: Self)
        ensures
            r.deep_view() == self.deep_view(),
    {
        proof {
            lemma_name_value_clone_keeps_deep_view();
        }
        App {
            name: self.name.clone(),
            image: self.image.clone(),
            app: self.get_app(),
            readOnlyRootFS: self.readOnlyRootFS,
            mounts: clone_opt_vec(&self.mounts),
            annotations: clone_opt_vec(&self.annotations),
        }
    }
}

impl App {
    /// The app's annotations, or none.
    pub open spec fn spec_annotations(self) -> Seq<NameValue> {
        match self.annotations {
            Some(v) => v@,
            None => Seq::empty(),
        }
    }

    /// A copy of the image manifest, if known.
    pub fn get_app(&self) -> (r: Option<AciJson>)
        ensures
            r.deep_view() == self.app.deep_view(),
    {
        match &self.app {
            Some(a) => Some(a.clone()),
            None => None,
        }
    }

    /// A copy of the app's annotations, or nothing.
    pub fn get_annotations(&self) -> (r: Vec<NameValue>)
        ensures
            r@ == self.spec_annotations(),
    {
        let r = crate::util::vec_or_empty(self.annotations.as_ref());
        proof {
            crate::util::lemma_name_values_cloned(self.spec_annotations(), r@);
        }
        r
    }

    /// The id of the app's image.
    pub fn get_image_id(&self) -> (r: String)
        ensures
            r == self.image.id,
    {
        self.image.id.clone()
    }

    /// The app's name.
    pub fn get_name(&self) -> (r: String)
        ensures
            r == self.name,
    {
        self.name.clone()
    }
}

} // verus!
