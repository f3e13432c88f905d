pub mod app;
pub mod mountpoint;

use vstd::prelude::*;

use crate::text::{last_piece, split_on};
use crate::util::{
    clone_opt_vec, lemma_name_value_clone_keeps_deep_view, lemma_string_clone_keeps_deep_view,
    NameValueView,
};
use crate::volumes::VolumeSet;

pub use self::app::{App, AppView, CommandSpec, Isolator, MountPlan, Port};
pub use self::mountpoint::MountPoint;
pub use crate::util::NameValue;

verus! {

/// An image this image depends on.
#[allow(non_snake_case)]
pub struct Dependency {
    pub imageName: String,
    pub imageID: Option<String>,
    pub labels: Option<Vec<NameValue>>,
    pub size: Option<usize>,
}

pub struct DependencyView {
    pub image_name: Seq<char>,
    pub image_id: Option<Seq<char>>,
    pub labels: Option<Seq<NameValueView>>,
    pub size: Option<usize>,
}

impl DeepView for Dependency {
    type V = DependencyView;

    open spec fn deep_view(&self) -> DependencyView {
        DependencyView {
            image_name: self.imageName@,
            image_id: self.imageID.deep_view(),
            labels: self.labels.deep_view(),
            size: self.size,
        }
    }
}

impl Clone for Dependency {
    fn clone(&self) -> (r: Self)
        ensures
            r.deep_view() == self.deep_view(),
    {
        proof {
            lemma_name_value_clone_keeps_deep_view();
        }
        Dependency {
            imageName: self.imageName.clone(),
            imageID: self.imageID.clone(),
            labels: clone_opt_vec(&self.labels),
            size: self.size,
        }
    }
}

/// The manifest of a container image.
#[allow(non_snake_case)]
pub struct AciJson {
    pub acKind: String,
    pub acVersion: String,
    pub name: String,
    pub labels: Option<Vec<NameValue>>,
    pub app: Option<App>,
    pub dependencies: Option<Vec<Dependency>>,
    pub pathWhitelist: Option<Vec<String>>,
    pub annotations: Option<Vec<NameValue>>,
}

pub struct AciJsonView {
    pub ac_kind: Seq<char>,
    pub ac_version: Seq<char>,
    pub name: Seq<char>,
    pub labels: Option<Seq<NameValueView>>,
    pub app: Option<AppView>,
    pub dependencies: Option<Seq<DependencyView>>,
    pub path_whitelist: Option<Seq<Seq<char>>>,
    pub annotations: Option<Seq<NameValueView>>,
}

impl DeepView for AciJson {
    type V = AciJsonView;

    open spec fn deep_view(&self) -> AciJsonView {
        AciJsonView {
            ac_kind: self.acKind@,
            ac_version: self.acVersion@,
            name: self.name@,
            labels: self.labels.deep_view(),
            app: self.app.deep_view(),
            dependencies: self.dependencies.deep_view(),
            path_whitelist: self.pathWhitelist.deep_view(),
            annotations: self.annotations.deep_view(),
        }
    }
}

impl Clone for AciJson {
    fn clone(&self) -> (r: Self)
        ensures
            r.deep_view() == self.deep_view(),
    {
        proof {
            lemma_name_value_clone_keeps_deep_view();
            lemma_string_clone_keeps_deep_view();
        }
        let app = match &self.app {
            Some(a) => Some(a.clone()),
            None => None,
        };
        AciJson {
            acKind: self.acKind.clone(),
            acVersion: self.acVersion.clone(),
            name: self.name.clone(),
            labels: clone_opt_vec(&self.labels),
            app,
            dependencies: clone_opt_vec(&self.dependencies),
            pathWhitelist: clone_opt_vec(&self.pathWhitelist),
            annotations: clone_opt_vec(&self.annotations),
        }
    }
}

/// An image being run in the pod: its manifest and the mount points made
/// for it so far, in the order they were mounted.
pub struct ACI {
    json: AciJson,
    mount_points: Vec<String>,
}

impl ACI {
    pub closed spec fn spec_json(self) -> AciJson {
        self.json
    }

    pub closed spec fn spec_mount_points(self) -> Seq<Seq<char>> {
        self.mount_points.deep_view()
    }

    /// The name of the app: the last `/`-separated piece of the image name.
    pub open spec fn spec_app_name(self) -> Seq<char> {
        split_on(self.spec_json().name@, '/').last()
    }

    /// An image with the given manifest and nothing mounted yet.
    pub fn new(json: AciJson) -> (r: ACI)
        ensures
            r.spec_json() == json,
            r.spec_mount_points() == Seq::<Seq<char>>::empty(),
    {
        let r = ACI { json, mount_points: Vec::new() };
        assert(r.spec_mount_points() =~= Seq::<Seq<char>>::empty());
        r
    }

    /// The manifest.
    pub fn json(&self) -> (r: &AciJson)
        ensures
            *r == self.spec_json(),
    {
        &self.json
    }

    /// The mounts the image needs; nothing when it has no app.
    pub fn mount_volumes(&self, vol_path: &str, app_path: &str, volumes: &VolumeSet) -> (r: MountPlan)
        ensures
            self.spec_json().app matches Some(a) ==> {
                &&& app::spec_system_mounts(app_path@, r.system@)
                &&& a.spec_volume_mounts(vol_path@, app_path@, volumes.names(), r.volumes@)
            },
            self.spec_json().app is None ==> r.system@.len() == 0 && r.volumes@.len() == 0,
    {
        match &self.json.app {
            Some(a) => a.mount_volumes(vol_path, app_path, volumes),
            None => MountPlan { system: Vec::new(), volumes: Vec::new() },
        }
    }

    /// Notes that `target` was mounted, so that it is unmounted later.
    pub fn record_mount_point(&mut self, target: String)
        ensures
            final(self).spec_json() == old(self).spec_json(),
            final(self).spec_mount_points() == old(self).spec_mount_points().push(target@),
    {
        let ghost before = self.mount_points.deep_view();
        let ghost t = target@;
        self.mount_points.push(target);
        assert(self.mount_points.deep_view() =~= before.push(t));
    }

    /// The mount points to unmount, in the order they were mounted.
    pub fn unmount_volumes(self) -> (r: Vec<String>)
        ensures
            r.deep_view() == self.spec_mount_points(),
    {
        self.mount_points
    }

    /// The commands of the image's app (see `App::exec_app`), named after the
    /// last piece of the image name; none when the image has no app.
    pub fn exec(&self, dir: &str, pod_uuid: [u8; 16]) -> (r: (
        Option<CommandSpec>,
        Option<CommandSpec>,
        Option<CommandSpec>,
    ))
        requires
            self.spec_json().app matches Some(a) ==> a.launchable(),
        ensures
            self.spec_json().app matches Some(a) ==> r.deep_view() == a.spec_exec_app(
                dir@,
                self.spec_app_name(),
                pod_uuid@,
            ),
            self.spec_json().app is None ==> r.deep_view() == (
                None::<app::CommandView>,
                None::<app::CommandView>,
                None::<app::CommandView>,
            ),
    {
        let app_name = last_piece(self.json.name.as_str(), '/');
        match &self.json.app {
            None => (None, None, None),
            Some(a) => a.exec_app(dir, app_name.as_str(), pod_uuid),
        }
    }
}

} // verus!
