use vstd::prelude::*;

use crate::metadata::HOST_PORT;
use crate::text::{str_concat, parse_u32, parse_u32_spec, uuid_hyphenated, uuid_text};
use crate::util::{
    clone_opt_vec, clone_vec, lemma_name_value_clone_keeps_deep_view,
    lemma_string_clone_keeps_deep_view, vec_or_empty, NameValue, NameValueView,
};
use crate::volumes::VolumeSet;

use super::MountPoint;

verus! {

/// The search path every app process starts with.
pub const ACE_PATH: &'static str = "/usr/local/sbin:/usr/local/bin:/usr/sbin:/usr/bin:/sbin:/bin";

/// The value of the `container` variable in every app's environment.
pub const FYC: &'static str = "fyc";

/// A command that the app runs when an event of its life happens
/// (`pre-start`, `post-stop`).
pub struct EventHandler {
    pub exec_: Vec<String>,
    pub name: String,
}

pub struct EventHandlerView {
    pub exec_: Seq<Seq<char>>,
    pub name: Seq<char>,
}

impl DeepView for EventHandler {
    type V = EventHandlerView;

    open spec fn deep_view(&self) -> EventHandlerView {
        EventHandlerView { exec_: self.exec_.deep_view(), name: self.name@ }
    }
}

impl Clone for EventHandler {
    fn clone(&self) -> (r: Self)
        ensures
            r.deep_view() == self.deep_view(),
    {
        proof {
            lemma_string_clone_keeps_deep_view();
        }
        EventHandler { exec_: clone_vec(&self.exec_), name: self.name.clone() }
    }
}

/// A port that the app listens on.
#[allow(non_snake_case)]
pub struct Port {
    pub name: String,
    pub protocol: String,
    pub port: u16,
    pub count: u16,
    pub socketActivated: Option<bool>,
}

impl Clone for Port {
    fn clone(&self) -> (r: Self)
        ensures
            r == *self,
    {
        Port {
            name: self.name.clone(),
            protocol: self.protocol.clone(),
            port: self.port,
            count: self.count,
            socketActivated: self.socketActivated,
        }
    }
}

impl DeepView for Port {
    type V = Port;

    /// A port holds no list, so it is its own deep view.
    open spec fn deep_view(&self) -> Port {
        *self
    }
}

/// An isolator of the app; none is understood, so it carries nothing.
pub struct Isolator {}

impl Clone for Isolator {
    fn clone(&self) -> (r: Self)
        ensures
            r == *self,
    {
        Isolator {  }
    }
}

impl DeepView for Isolator {
    type V = Isolator;

    open spec fn deep_view(&self) -> Isolator {
        *self
    }
}

/// The `app` part of an image manifest: what to run and how.
#[allow(non_snake_case)]
pub struct App {
    pub exec_: Option<Vec<String>>,
    pub user: String,
    pub group: String,
    pub supplementaryGIDs: Option<Vec<usize>>,
    pub eventHandlers: Option<Vec<EventHandler>>,
    pub workingDirectory: Option<String>,
    pub environment: Option<Vec<NameValue>>,
    pub isolators: Option<Vec<Isolator>>,
    pub mountPoints: Option<Vec<MountPoint>>,
    pub ports: Option<Vec<Port>>,
}

pub struct AppView {
    pub exec_: Option<Seq<Seq<char>>>,
    pub user: Seq<char>,
    pub group: Seq<char>,
    pub supplementary_gids: Option<Seq<usize>>,
    pub event_handlers: Option<Seq<EventHandlerView>>,
    pub working_directory: Option<Seq<char>>,
    pub environment: Option<Seq<NameValueView>>,
    pub isolators: Option<Seq<Isolator>>,
    pub mount_points: Option<Seq<MountPoint>>,
    pub ports: Option<Seq<Port>>,
}

impl DeepView for App {
    type V = AppView;

    open spec fn deep_view(&self) -> AppView {
        AppView {
            exec_: self.exec_.deep_view(),
            user: self.user@,
            group: self.group@,
            supplementary_gids: self.supplementaryGIDs.deep_view(),
            event_handlers: self.eventHandlers.deep_view(),
            working_directory: self.workingDirectory.deep_view(),
            environment: self.environment.deep_view(),
            isolators: self.isolators.deep_view(),
            mount_points: self.mountPoints.deep_view(),
            ports: self.ports.deep_view(),
        }
    }
}

impl Clone for App {
    fn clone(&self) -> (r: Self)
        ensures
            r.deep_view() == self.deep_view(),
    {
        proof {
            lemma_string_clone_keeps_deep_view();
            lemma_name_value_clone_keeps_deep_view();
        }
        App {
            exec_: clone_opt_vec(&self.exec_),
            user: self.user.clone(),
            group: self.group.clone(),
            supplementaryGIDs: clone_opt_vec(&self.supplementaryGIDs),
            eventHandlers: clone_opt_vec(&self.eventHandlers),
            workingDirectory: self.workingDirectory.clone(),
            environment: clone_opt_vec(&self.environment),
            isolators: clone_opt_vec(&self.isolators),
            mountPoints: clone_opt_vec(&self.mountPoints),
            ports: clone_opt_vec(&self.ports),
        }
    }
}

/// How to launch a process of an app: the program and its arguments, the ids
/// to switch to, the environment in order (a later entry of the same name wins),
/// the directory to enter and make the root, and the directory to enter inside it.
pub struct CommandSpec {
    pub program: String,
    pub args: Vec<String>,
    pub uid: Option<u32>,
    pub gid: Option<u32>,
    pub env: Vec<NameValue>,
    pub root_dir: String,
    pub work_dir: Option<String>,
}

pub struct CommandView {
    pub program: Seq<char>,
    pub args: Seq<Seq<char>>,
    pub uid: Option<u32>,
    pub gid: Option<u32>,
    pub env: Seq<NameValueView>,
    pub root_dir: Seq<char>,
    pub work_dir: Option<Seq<char>>,
}

impl DeepView for CommandSpec {
    type V = CommandView;

    open spec fn deep_view(&self) -> CommandView {
        CommandView {
            program: self.program@,
            args: self.args.deep_view(),
            uid: self.uid,
            gid: self.gid,
            env: self.env.deep_view(),
            root_dir: self.root_dir@,
            work_dir: self.work_dir.deep_view(),
        }
    }
}

/// The address where an app of the pod with this UUID finds its metadata.
pub open spec fn metadata_url(pod_uuid: Seq<u8>) -> Seq<char> {
    "http://"@ + HOST_PORT@ + "/"@ + uuid_text(pod_uuid)
}

/// The address of the metadata of the pod with this UUID.
pub fn pod_metadata_url(pod_uuid: [u8; 16]) -> (r: String)
    ensures
        r@ == metadata_url(pod_uuid@),
{
    let base = str_concat("http://", HOST_PORT);
    let with_slash = str_concat(base.as_str(), "/");
    let id = uuid_hyphenated(pod_uuid);
    str_concat(with_slash.as_str(), id.as_str())
}

/// The handler that answers an event: the first one of that name.
pub open spec fn is_first_handler(ehs: Seq<EventHandler>, event: Seq<char>, i: int) -> bool {
    &&& 0 <= i < ehs.len()
    &&& ehs[i].name@ == event
    &&& forall|j: int| 0 <= j < i ==> (#[trigger] ehs[j]).name@ != event
}

impl App {
    /// The variables every app process gets, before the app's own environment.
    pub open spec fn base_env(app_name: Seq<char>, pod_uuid: Seq<u8>) -> Seq<NameValueView> {
        seq![
            NameValueView { name: "PATH"@, value: ACE_PATH@ },
            NameValueView { name: "AC_APP_NAME"@, value: app_name },
            NameValueView { name: "AC_METADATA_URL"@, value: metadata_url(pod_uuid) },
            NameValueView { name: "container"@, value: FYC@ },
        ]
    }

    /// The app's own environment, or nothing.
    pub open spec fn own_env(self) -> Seq<NameValueView> {
        match self.environment {
            Some(v) => v.deep_view(),
            None => Seq::empty(),
        }
    }

    /// The command that runs `exec` for this app: `exec[0]` with the rest as
    /// arguments, the user and group when they are numeric ids, the base
    /// environment then the app's own, rooted at `dir`, in the app's working
    /// directory if it names one.
    pub open spec fn spec_command(
        self,
        exec: Seq<Seq<char>>,
        dir: Seq<char>,
        app_name: Seq<char>,
        pod_uuid: Seq<u8>,
    ) -> CommandView {
        CommandView {
            program: exec[0],
            args: exec.drop_first(),
            uid: parse_u32_spec(self.user@),
            gid: parse_u32_spec(self.group@),
            env: App::base_env(app_name, pod_uuid) + self.own_env(),
            root_dir: dir,
            work_dir: self.workingDirectory.deep_view(),
        }
    }

    /// The command for the first handler of `event`, if there is one.
    pub open spec fn handler_command(
        self,
        event: Seq<char>,
        dir: Seq<char>,
        app_name: Seq<char>,
        pod_uuid: Seq<u8>,
    ) -> Option<CommandView> {
        match self.eventHandlers {
            None => None,
            Some(ehs) => if exists|i: int| is_first_handler(ehs@, event, i) {
                let i = choose|i: int| is_first_handler(ehs@, event, i);
                Some(self.spec_command(ehs@[i].exec_.deep_view(), dir, app_name, pod_uuid))
            } else {
                None
            },
        }
    }

    /// Every command this app would build has a program to run: its `exec`,
    /// when it has one, and the first `pre-start` and `post-stop` handlers.
    pub open spec fn launchable(self) -> bool {
        self.exec_ matches Some(e) ==> {
            &&& e@.len() > 0
            &&& self.eventHandlers matches Some(ehs) ==> forall|i: int|
                #![trigger ehs@[i]]
                (is_first_handler(ehs@, "pre-start"@, i) || is_first_handler(ehs@, "post-stop"@, i))
                    ==> ehs@[i].exec_@.len() > 0
        }
    }

    /// The three commands of the app: the app itself, its `pre-start` handler and
    /// its `post-stop` handler; none at all when the app has nothing to run.
    pub open spec fn spec_exec_app(self, dir: Seq<char>, app_name: Seq<char>, pod_uuid: Seq<u8>) -> (
        Option<CommandView>,
        Option<CommandView>,
        Option<CommandView>,
    ) {
        match self.exec_ {
            None => (None, None, None),
            Some(e) => (
                Some(self.spec_command(e.deep_view(), dir, app_name, pod_uuid)),
                self.handler_command("pre-start"@, dir, app_name, pod_uuid),
                self.handler_command("post-stop"@, dir, app_name, pod_uuid),
            ),
        }
    }

    /// Builds the command that runs `exec` inside the app's root `dir`.
    pub fn prep_cmd(&self, exec: &Vec<String>, dir: &str, app_name: &str, pod_uuid: [u8; 16]) -> (r:
        CommandSpec)
        requires
            exec@.len() > 0,
        ensures
            r.deep_view() == self.spec_command(exec.deep_view(), dir@, app_name@, pod_uuid@),
    {
        let program = exec[0].clone();
        let mut args: Vec<String> = Vec::new();
        let mut i: usize = 1;
        while i < exec.len()
            invariant
                1 <= i <= exec@.len(),
                args@.len() == i - 1,
                forall|k: int| 0 <= k < args@.len() ==> #[trigger] args@[k]@ == exec@[k + 1]@,
            decreases exec@.len() - i,
        {
            args.push(exec[i].clone());
            i = i + 1;
        }
        let uid = parse_u32(self.user.as_str());
        let gid = parse_u32(self.group.as_str());
        let mut env: Vec<NameValue> = Vec::new();
        env.push(NameValue::new("PATH".to_string(), ACE_PATH.to_string()));
        env.push(NameValue::new("AC_APP_NAME".to_string(), app_name.to_string()));
        env.push(NameValue::new("AC_METADATA_URL".to_string(), pod_metadata_url(pod_uuid)));
        env.push(NameValue::new("container".to_string(), FYC.to_string()));
        let ghost base = env.deep_view();
        assert(base =~= App::base_env(app_name@, pod_uuid@));
        if let Some(env_vars) = &self.environment {
            let mut k: usize = 0;
            while k < env_vars.len()
                invariant
                    k <= env_vars@.len(),
                    env.deep_view() =~= base + env_vars.deep_view().take(k as int),
                decreases env_vars@.len() - k,
            {
                let ghost before = env.deep_view();
                let item = env_vars[k].clone();
                assert(item.deep_view() == env_vars@[k as int].deep_view());
                env.push(item);
                assert(env.deep_view() =~= before.push(env_vars@[k as int].deep_view()));
                assert(env_vars.deep_view().take(k + 1) =~= env_vars.deep_view().take(k as int).push(
                    env_vars@[k as int].deep_view(),
                ));
                k = k + 1;
            }
            assert(env_vars.deep_view().take(k as int) =~= env_vars.deep_view());
        } else {
            assert(base + self.own_env() =~= base);
        }
        let r = CommandSpec {
            program,
            args,
            uid,
            gid,
            env,
            root_dir: dir.to_string(),
            work_dir: self.workingDirectory.clone(),
        };
        assert(r.args.deep_view() =~= exec.deep_view().drop_first());
        r
    }

    /// The command of the first handler of `event` in `ehs`, if any.
    pub fn find_event_handle(
        &self,
        ehs: &Vec<EventHandler>,
        dir: &str,
        app_name: &str,
        pod_uuid: [u8; 16],
        event_name: &str,
    ) -> (r: Option<CommandSpec>)
        requires
            forall|i: int| #[trigger] is_first_handler(ehs@, event_name@, i) ==> ehs@[i].exec_@.len() > 0,
        ensures
            r is None <==> forall|i: int| 0 <= i < ehs@.len() ==> (#[trigger] ehs@[i]).name@ != event_name@,
            r matches Some(c) ==> exists|i: int|
                #[trigger] is_first_handler(ehs@, event_name@, i) && c.deep_view() == self.spec_command(
                    ehs@[i].exec_.deep_view(),
                    dir@,
                    app_name@,
                    pod_uuid@,
                ),
    {
        let target = event_name.to_string();
        let mut i: usize = 0;
        while i < ehs.len()
            invariant
                i <= ehs@.len(),
                target@ == event_name@,
                forall|k: int| #[trigger] is_first_handler(ehs@, event_name@, k) ==> ehs@[k].exec_@.len() > 0,
                forall|j: int| 0 <= j < i ==> (#[trigger] ehs@[j]).name@ != event_name@,
            decreases ehs@.len() - i,
        {
            if ehs[i].name == target {
                assert(is_first_handler(ehs@, event_name@, i as int));
                return Some(self.prep_cmd(&ehs[i].exec_, dir, app_name, pod_uuid));
            }
            i = i + 1;
        }
        None
    }
}

/// At most one handler is the first of an event.
pub proof fn lemma_first_handler_unique(ehs: Seq<EventHandler>, event: Seq<char>, i: int, j: int)
    requires
        is_first_handler(ehs, event, i),
        is_first_handler(ehs, event, j),
    ensures
        i == j,
{
    if i < j {
        assert(ehs[i].name@ != event);
    } else if j < i {
        assert(ehs[j].name@ != event);
    }
}

impl App {
    /// The command of the first handler of `event`, if the app has handlers.
    fn handler_for(&self, dir: &str, app_name: &str, pod_uuid: [u8; 16], event: &str) -> (r: Option<
        CommandSpec,
    >)
        requires
            self.eventHandlers matches Some(ehs) ==> forall|i: int|
                #[trigger] is_first_handler(ehs@, event@, i) ==> ehs@[i].exec_@.len() > 0,
        ensures
            r.deep_view() == self.handler_command(event@, dir@, app_name@, pod_uuid@),
    {
        match &self.eventHandlers {
            None => None,
            Some(ehs) => {
                let r = self.find_event_handle(ehs, dir, app_name, pod_uuid, event);
                proof {
                    if exists|i: int| is_first_handler(ehs@, event@, i) {
                        let k = choose|i: int| is_first_handler(ehs@, event@, i);
                        assert(ehs@[k].name@ == event@);
                        if r is Some {
                            let c = r->0;
                            let w = choose|i: int|
                                #[trigger] is_first_handler(ehs@, event@, i) && c.deep_view()
                                    == self.spec_command(
                                    ehs@[i].exec_.deep_view(),
                                    dir@,
                                    app_name@,
                                    pod_uuid@,
                                );
                            lemma_first_handler_unique(ehs@, event@, k, w);
                        }
                    } else {
                        if r is Some {
                            let c = r->0;
                            let w = choose|i: int|
                                #[trigger] is_first_handler(ehs@, event@, i) && c.deep_view()
                                    == self.spec_command(
                                    ehs@[i].exec_.deep_view(),
                                    dir@,
                                    app_name@,
                                    pod_uuid@,
                                );
                            assert(is_first_handler(ehs@, event@, w));
                        }
                    }
                }
                r
            },
        }
    }

    /// The commands of the app, its `pre-start` handler and its `post-stop`
    /// handler, all rooted at `dir`; none when the app has nothing to run.
    pub fn exec_app(&self, dir: &str, app_name: &str, pod_uuid: [u8; 16]) -> (r: (
        Option<CommandSpec>,
        Option<CommandSpec>,
        Option<CommandSpec>,
    ))
        requires
            self.launchable(),
        ensures
            r.deep_view() == self.spec_exec_app(dir@, app_name@, pod_uuid@),
    {
        let app_child = if let Some(exec) = &self.exec_ {
            self.prep_cmd(exec, dir, app_name, pod_uuid)
        } else {
            return (None, None, None);
        };
        let pre_start = self.handler_for(dir, app_name, pod_uuid, "pre-start");
        let post_stop = self.handler_for(dir, app_name, pod_uuid, "post-stop");
        (Some(app_child), pre_start, post_stop)
    }
}

/// The options of a mount, one per `MS_*` flag the executor uses.
#[derive(Clone, Copy)]
pub struct MountFlags {
    pub bind: bool,
    pub read_only: bool,
    pub no_dev: bool,
    pub no_suid: bool,
    pub no_exec: bool,
}

impl MountFlags {
    pub open spec fn spec_none() -> MountFlags {
        MountFlags { bind: false, read_only: false, no_dev: false, no_suid: false, no_exec: false }
    }

    /// `MS_BIND` alone.
    pub open spec fn spec_bind() -> MountFlags {
        MountFlags { bind: true, ..MountFlags::spec_none() }
    }

    /// `MS_RDONLY` alone.
    pub open spec fn spec_rdonly() -> MountFlags {
        MountFlags { read_only: true, ..MountFlags::spec_none() }
    }

    /// `MS_BIND | MS_NODEV | MS_NOSUID | MS_NOEXEC`: how system volumes are mounted.
    pub open spec fn spec_system() -> MountFlags {
        MountFlags { bind: true, read_only: false, no_dev: true, no_suid: true, no_exec: true }
    }

    /// The flags set in both, as `&` of the bit masks gives them.
    pub open spec fn spec_and(self, other: MountFlags) -> MountFlags {
        MountFlags {
            bind: self.bind && other.bind,
            read_only: self.read_only && other.read_only,
            no_dev: self.no_dev && other.no_dev,
            no_suid: self.no_suid && other.no_suid,
            no_exec: self.no_exec && other.no_exec,
        }
    }

    pub fn bind() -> (r: MountFlags)
        ensures
            r == MountFlags::spec_bind(),
    {
        MountFlags { bind: true, read_only: false, no_dev: false, no_suid: false, no_exec: false }
    }

    pub fn rdonly() -> (r: MountFlags)
        ensures
            r == MountFlags::spec_rdonly(),
    {
        MountFlags { bind: false, read_only: true, no_dev: false, no_suid: false, no_exec: false }
    }

    pub fn system() -> (r: MountFlags)
        ensures
            r == MountFlags::spec_system(),
    {
        MountFlags { bind: true, read_only: false, no_dev: true, no_suid: true, no_exec: true }
    }

    pub fn and(&self, other: &MountFlags) -> (r: MountFlags)
        ensures
            r == self.spec_and(*other),
    {
        MountFlags {
            bind: self.bind && other.bind,
            read_only: self.read_only && other.read_only,
            no_dev: self.no_dev && other.no_dev,
            no_suid: self.no_suid && other.no_suid,
            no_exec: self.no_exec && other.no_exec,
        }
    }
}

/// One mount of a system filesystem into the app: make the `target`
/// directory, then mount `source` on it. If the directory cannot be made,
/// the remaining system mounts are skipped.
pub struct SystemMount {
    pub source: String,
    pub target: String,
    pub flags: MountFlags,
}

/// One mount of a pod volume into the app. When `creates_volume` holds, the
/// volume's directory `source` is made first and the name joins the pod's
/// volumes; then the `target` directory is made and `source` mounted on it.
/// If a directory cannot be made, this and the remaining volume mounts are
/// skipped.
pub struct VolumeMount {
    pub volume: String,
    pub creates_volume: bool,
    pub source: String,
    pub target: String,
    pub flags: MountFlags,
}

/// All mounts an app needs, in order: system filesystems first, then volumes.
pub struct MountPlan {
    pub system: Vec<SystemMount>,
    pub volumes: Vec<VolumeMount>,
}

/// Where the carrying out of a mount plan stands.
#[derive(Clone, Copy)]
pub enum MountState {
    /// System mount `i` is next.
    System(usize),
    /// The directory of system mount `i` was asked for.
    SystemDir(usize),
    /// Volume mount `j` is next.
    Volume(usize),
    /// The volume directory of volume mount `j` was asked for.
    VolumeSource(usize),
    /// The volume of volume mount `j` has joined the pod's volumes.
    VolumeJoined(usize),
    /// The target directory of volume mount `j` was asked for.
    VolumeTarget(usize),
    /// Nothing is left to do.
    Done,
}

/// What to do next while carrying out a mount plan.
pub enum MountAction {
    /// Make this directory, and report whether it was made.
    MakeDir(String),
    /// Add this name to the pod's volumes.
    JoinVolume(String),
    /// Mount `source` on `target`, then note `target` as mounted, whatever the
    /// mount answered.
    Mount { source: String, target: String, flags: MountFlags },
    /// Stop.
    Finish,
}

pub enum MountActionView {
    MakeDir(Seq<char>),
    JoinVolume(Seq<char>),
    Mount(Seq<char>, Seq<char>, MountFlags),
    Finish,
}

impl DeepView for MountAction {
    type V = MountActionView;

    open spec fn deep_view(&self) -> MountActionView {
        match self {
            MountAction::MakeDir(p) => MountActionView::MakeDir(p@),
            MountAction::JoinVolume(n) => MountActionView::JoinVolume(n@),
            MountAction::Mount { source, target, flags } => MountActionView::Mount(source@, target@, *flags),
            MountAction::Finish => MountActionView::Finish,
        }
    }
}

/// Starting volume mount `j`: its volume's directory first when it makes the
/// volume, otherwise its target directory; nothing when no mount is left.
pub open spec fn spec_volume_start(plan: MountPlan, j: int) -> (MountState, MountActionView) {
    if 0 <= j < plan.volumes@.len() {
        let m = plan.volumes@[j];
        if m.creates_volume {
            (MountState::VolumeSource(j as usize), MountActionView::MakeDir(m.source@))
        } else {
            (MountState::VolumeTarget(j as usize), MountActionView::MakeDir(m.target@))
        }
    } else {
        (MountState::Done, MountActionView::Finish)
    }
}

/// Starting system mount `i`: its directory first; when no system mount is
/// left, the volume mounts.
pub open spec fn spec_system_start(plan: MountPlan, i: int) -> (MountState, MountActionView) {
    if 0 <= i < plan.system@.len() {
        (MountState::SystemDir(i as usize), MountActionView::MakeDir(plan.system@[i].target@))
    } else {
        spec_volume_start(plan, 0)
    }
}

/// The next state and action, given the state and whether the directory last
/// asked for was made. A system directory that cannot be made skips the rest
/// of the system mounts; a volume directory that cannot be made stops
/// everything. A volume joins the pod's volumes once its directory is made.
pub open spec fn spec_mount_step(plan: MountPlan, state: MountState, made: bool) -> (
    MountState,
    MountActionView,
) {
    match state {
        MountState::System(i) => spec_system_start(plan, i as int),
        MountState::SystemDir(i) => if i < plan.system@.len() && made {
            let m = plan.system@[i as int];
            (MountState::System((i + 1) as usize), MountActionView::Mount(m.source@, m.target@, m.flags))
        } else {
            spec_volume_start(plan, 0)
        },
        MountState::Volume(j) => spec_volume_start(plan, j as int),
        MountState::VolumeSource(j) => if j < plan.volumes@.len() && made {
            (MountState::VolumeJoined(j), MountActionView::JoinVolume(plan.volumes@[j as int].volume@))
        } else {
            (MountState::Done, MountActionView::Finish)
        },
        MountState::VolumeJoined(j) => if j < plan.volumes@.len() {
            (MountState::VolumeTarget(j), MountActionView::MakeDir(plan.volumes@[j as int].target@))
        } else {
            (MountState::Done, MountActionView::Finish)
        },
        MountState::VolumeTarget(j) => if j < plan.volumes@.len() && made {
            let m = plan.volumes@[j as int];
            (MountState::Volume((j + 1) as usize), MountActionView::Mount(m.source@, m.target@, m.flags))
        } else {
            (MountState::Done, MountActionView::Finish)
        },
        MountState::Done => (MountState::Done, MountActionView::Finish),
    }
}

/// How many steps at most are left from a state of carrying out `plan`.
pub open spec fn mount_steps_left(plan: MountPlan, state: MountState) -> int {
    let s = plan.system@.len() as int;
    let v = plan.volumes@.len() as int;
    match state {
        MountState::System(i) => if i < s { 2 * (s - i) + 4 * v + 2 } else { 4 * v + 2 },
        MountState::SystemDir(i) => if i < s { 2 * (s - i) + 4 * v + 1 } else { 4 * v + 1 },
        MountState::Volume(j) => if j < v { 4 * (v - j) + 1 } else { 1 },
        MountState::VolumeSource(j) => if j < v { 4 * (v - j) } else { 1 },
        MountState::VolumeJoined(j) => if j < v { 4 * (v - j) - 1 } else { 1 },
        MountState::VolumeTarget(j) => if j < v { 4 * (v - j) - 2 } else { 1 },
        MountState::Done => 0,
    }
}

/// Carrying out a plan always ends: every step but the last leaves fewer steps
/// to go, whatever the directories answer, and the last one stops for good.
pub proof fn law_mount_steps_end(plan: MountPlan, state: MountState, made: bool)
    ensures
        mount_steps_left(plan, state) >= 0,
        ({
            let (next, action) = spec_mount_step(plan, state, made);
            &&& action is Finish ==> next is Done
            &&& !(action is Finish) ==> 0 <= mount_steps_left(plan, next) < mount_steps_left(plan, state)
        }),
{
    assert(plan.system@.len() <= usize::MAX && plan.volumes@.len() <= usize::MAX) by {
        assert(plan.system.len() == plan.system@.len());
        assert(plan.volumes.len() == plan.volumes@.len());
    }
    match state {
        MountState::SystemDir(i) => {
            if i < plan.system@.len() {
                assert((i + 1) as usize == i + 1);
            }
        },
        MountState::VolumeTarget(j) => {
            if j < plan.volumes@.len() {
                assert((j + 1) as usize == j + 1);
            }
        },
        _ => {},
    }
}

/// Nothing is joined or mounted on a directory that was not made: a volume
/// joins the pod's volumes, and a mount happens, only right after its directory
/// was made; a volume directory that was not made stops everything.
pub proof fn law_mounts_follow_made_directories(plan: MountPlan, state: MountState, made: bool)
    ensures
        ({
            let (next, action) = spec_mount_step(plan, state, made);
            &&& action matches MountActionView::JoinVolume(n) ==> made && exists|j: int|
                0 <= j < plan.volumes@.len() && state == MountState::VolumeSource(j as usize)
                    && n == (#[trigger] plan.volumes@[j]).volume@
            &&& action is Mount ==> made && (state is SystemDir || state is VolumeTarget)
            &&& !made && (state is VolumeSource || state is VolumeTarget) ==> action is Finish
        }),
{
    if let MountState::VolumeSource(j) = state {
        if j < plan.volumes@.len() && made {
            assert(plan.volumes@[j as int].volume@ == plan.volumes@[j as int].volume@);
        }
    }
}

fn volume_start(plan: &MountPlan, j: usize) -> (r: (MountState, MountAction))
    ensures
        (r.0, r.1.deep_view()) == spec_volume_start(*plan, j as int),
{
    if j < plan.volumes.len() {
        let m = &plan.volumes[j];
        if m.creates_volume {
            (MountState::VolumeSource(j), MountAction::MakeDir(m.source.clone()))
        } else {
            (MountState::VolumeTarget(j), MountAction::MakeDir(m.target.clone()))
        }
    } else {
        (MountState::Done, MountAction::Finish)
    }
}

/// The next step of carrying out `plan` from `state`; `made` tells whether the
/// directory last asked for was made.
pub fn next_mount_action(plan: &MountPlan, state: MountState, made: bool) -> (r: (MountState, MountAction))
    ensures
        (r.0, r.1.deep_view()) == spec_mount_step(*plan, state, made),
{
    match state {
        MountState::System(i) => if i < plan.system.len() {
            (MountState::SystemDir(i), MountAction::MakeDir(plan.system[i].target.clone()))
        } else {
            volume_start(plan, 0)
        },
        MountState::SystemDir(i) => if i < plan.system.len() && made {
            let m = &plan.system[i];
            (
                MountState::System(i + 1),
                MountAction::Mount { source: m.source.clone(), target: m.target.clone(), flags: m.flags },
            )
        } else {
            volume_start(plan, 0)
        },
        MountState::Volume(j) => volume_start(plan, j),
        MountState::VolumeSource(j) => if j < plan.volumes.len() && made {
            (MountState::VolumeJoined(j), MountAction::JoinVolume(plan.volumes[j].volume.clone()))
        } else {
            (MountState::Done, MountAction::Finish)
        },
        MountState::VolumeJoined(j) => if j < plan.volumes.len() {
            (MountState::VolumeTarget(j), MountAction::MakeDir(plan.volumes[j].target.clone()))
        } else {
            (MountState::Done, MountAction::Finish)
        },
        MountState::VolumeTarget(j) => if j < plan.volumes.len() && made {
            let m = &plan.volumes[j];
            (
                MountState::Volume(j + 1),
                MountAction::Mount { source: m.source.clone(), target: m.target.clone(), flags: m.flags },
            )
        } else {
            (MountState::Done, MountAction::Finish)
        },
        MountState::Done => (MountState::Done, MountAction::Finish),
    }
}

/// The system filesystems every app gets.
pub open spec fn system_volume_names() -> Seq<Seq<char>> {
    seq!["proc"@, "sys"@, "dev"@]
}

/// The system mounts of an app whose root is `app_path`: for each system
/// filesystem, the directory `app_path` + name + `/`, with `/proc` mounted on it.
pub open spec fn spec_system_mounts(app_path: Seq<char>, r: Seq<SystemMount>) -> bool {
    &&& r.len() == 3
    &&& forall|k: int|
        0 <= k < 3 ==> {
            &&& (#[trigger] r[k]).target@ == app_path + system_volume_names()[k] + "/"@
            &&& r[k].source@ == "/proc"@
            &&& r[k].flags == MountFlags::spec_system()
        }
}

/// Plans the system mounts of an app rooted at `app_path`.
pub fn mount_system_volumes(app_path: &str) -> (r: Vec<SystemMount>)
    ensures
        spec_system_mounts(app_path@, r@),
{
    let mut r: Vec<SystemMount> = Vec::new();
    let names = ["proc", "sys", "dev"];
    let mut k: usize = 0;
    while k < 3
        invariant
            k <= 3,
            r@.len() == k,
            names@ == seq!["proc", "sys", "dev"],
            forall|j: int|
                0 <= j < k ==> {
                    &&& (#[trigger] r@[j]).target@ == app_path@ + system_volume_names()[j] + "/"@
                    &&& r@[j].source@ == "/proc"@
                    &&& r@[j].flags == MountFlags::spec_system()
                },
        decreases 3 - k,
    {
        let dir = str_concat(app_path, names[k]);
        let target = str_concat(dir.as_str(), "/");
        r.push(SystemMount { source: "/proc".to_string(), target, flags: MountFlags::system() });
        k = k + 1;
    }
    r
}

impl App {
    /// The app's mount points, or none.
    pub open spec fn spec_mount_points(self) -> Seq<MountPoint> {
        match self.mountPoints {
            Some(v) => v@,
            None => Seq::empty(),
        }
    }

    /// A copy of the app's mount points, or nothing.
    pub fn mount_points_or_empty(&self) -> (r: Vec<MountPoint>)
        ensures
            r@ == self.spec_mount_points(),
    {
        let r = vec_or_empty(self.mountPoints.as_ref());
        proof {
            let a = self.spec_mount_points();
            assert forall|i: int| 0 <= i < a.len() implies #[trigger] r@[i] == a[i] by {
                assert(cloned::<MountPoint>(a[i], r@[i]));
            }
            assert(r@ =~= a);
        }
        r
    }

    /// The plan of the volume mounts, given the pod's volumes before:
    /// mount point `i` mounts `vol_path` + name on `app_path` + path, bind-mounted
    /// unless read-only, and creates its volume unless the pod has it already or an
    /// earlier mount point of the app names it.
    pub open spec fn spec_volume_mounts(
        self,
        vol_path: Seq<char>,
        app_path: Seq<char>,
        existing: Seq<Seq<char>>,
        r: Seq<VolumeMount>,
    ) -> bool {
        let mps = self.spec_mount_points();
        &&& r.len() == mps.len()
        &&& forall|i: int|
            0 <= i < mps.len() ==> {
                &&& (#[trigger] r[i]).volume@ == mps[i].name@
                &&& r[i].source@ == vol_path + mps[i].name@
                &&& r[i].target@ == app_path + mps[i].path@
                &&& r[i].creates_volume == !(existing.contains(mps[i].name@) || exists|j: int|
                    0 <= j < i && (#[trigger] mps[j]).name@ == mps[i].name@)
                &&& r[i].flags == if mps[i].readOnly == Some(true) {
                    MountFlags::spec_bind().spec_and(MountFlags::spec_rdonly())
                } else {
                    MountFlags::spec_bind()
                }
            }
    }

    /// Plans every mount the app needs, system filesystems first.
    pub fn mount_volumes(&self, vol_path: &str, app_path: &str, volumes: &VolumeSet) -> (r:
        MountPlan)
        ensures
            spec_system_mounts(app_path@, r.system@),
            self.spec_volume_mounts(vol_path@, app_path@, volumes.names(), r.volumes@),
    {
        let system = mount_system_volumes(app_path);
        let mps = self.mount_points_or_empty();
        let mut planned = VolumeSet::new();
        let mut out: Vec<VolumeMount> = Vec::new();
        let mut i: usize = 0;
        while i < mps.len()
            invariant
                i <= mps@.len(),
                mps@ == self.spec_mount_points(),
                out@.len() == i,
                forall|n: Seq<char>|
                    #![trigger planned.names().contains(n)]
                    planned.names().contains(n) <==> exists|j: int|
                        0 <= j < i && (#[trigger] mps@[j]).name@ == n,
                forall|k: int|
                    0 <= k < i ==> {
                        &&& (#[trigger] out@[k]).volume@ == mps@[k].name@
                        &&& out@[k].source@ == vol_path@ + mps@[k].name@
                        &&& out@[k].target@ == app_path@ + mps@[k].path@
                        &&& out@[k].creates_volume == !(volumes.names().contains(mps@[k].name@)
                            || exists|j: int| 0 <= j < k && (#[trigger] mps@[j]).name@ == mps@[k].name@)
                        &&& out@[k].flags == if mps@[k].readOnly == Some(true) {
                            MountFlags::spec_bind().spec_and(MountFlags::spec_rdonly())
                        } else {
                            MountFlags::spec_bind()
                        }
                    },
            decreases mps@.len() - i,
        {
            let mp = &mps[i];
            let known = volumes.contains(&mp.name);
            let repeated = planned.contains(&mp.name);
            let creates = !known && !repeated;
            let flags = if mp.read_only() {
                MountFlags::bind().and(&MountFlags::rdonly())
            } else {
                MountFlags::bind()
            };
            let source = str_concat(vol_path, mp.name.as_str());
            let target = str_concat(app_path, mp.path.as_str());
            let ghost before = planned.names();
            planned.insert(mp.name.clone());
            proof {
                assert forall|n: Seq<char>|
                    #![trigger planned.names().contains(n)]
                    planned.names().contains(n) <==> exists|j: int|
                        0 <= j < i + 1 && (#[trigger] mps@[j]).name@ == n by {
                    if planned.names().contains(n) && n != mps@[i as int].name@ {
                        assert(before.contains(n)) by {
                            let idx = choose|idx: int| 0 <= idx < planned.names().len() && planned.names()[idx] == n;
                            if planned.names() != before {
                                assert(planned.names() == before.push(mps@[i as int].name@));
                            }
                        }
                    }
                    if exists|j: int| 0 <= j < i + 1 && (#[trigger] mps@[j]).name@ == n {
                        let j = choose|j: int| 0 <= j < i + 1 && (#[trigger] mps@[j]).name@ == n;
                        if j < i {
                            assert(before.contains(n));
                        }
                        if planned.names() == before.push(mps@[i as int].name@) {
                            assert(planned.names()[before.len() as int] == mps@[i as int].name@);
                            if before.contains(n) {
                                let idx = choose|idx: int| 0 <= idx < before.len() && before[idx] == n;
                                assert(planned.names()[idx] == n);
                            }
                        }
                    }
                }
            }
            out.push(VolumeMount { volume: mp.name.clone(), creates_volume: creates, source, target, flags });
            i = i + 1;
        }
        MountPlan { system, volumes: out }
    }
}

/// Whether the first handler of `event`, if any, has a program to run.
fn first_handler_runnable(ehs: &Vec<EventHandler>, event: &str) -> (r: bool)
    ensures
        r == forall|i: int| #[trigger] is_first_handler(ehs@, event@, i) ==> ehs@[i].exec_@.len() > 0,
{
    let target = event.to_string();
    let mut i: usize = 0;
    while i < ehs.len()
        invariant
            i <= ehs@.len(),
            target@ == event@,
            forall|j: int| 0 <= j < i ==> (#[trigger] ehs@[j]).name@ != event@,
        decreases ehs@.len() - i,
    {
        if ehs[i].name == target {
            assert(is_first_handler(ehs@, event@, i as int));
            proof {
                assert forall|k: int| #[trigger] is_first_handler(ehs@, event@, k) implies k == i by {
                    lemma_first_handler_unique(ehs@, event@, k, i as int);
                }
            }
            return ehs[i].exec_.len() > 0;
        }
        i = i + 1;
    }
    true
}

impl App {
    /// Whether every command the app would build has a program to run
    /// (see `launchable`).
    pub fn is_launchable(&self) -> (r: bool)
        ensures
            r == self.launchable(),
    {
        match &self.exec_ {
            None => true,
            Some(e) => {
                if e.len() == 0 {
                    return false;
                }
                match &self.eventHandlers {
                    None => true,
                    Some(ehs) => first_handler_runnable(ehs, "pre-start") && first_handler_runnable(
                        ehs,
                        "post-stop",
                    ),
                }
            },
        }
    }
}

/// The first mount point, up to `i`, that names `n`.
proof fn lemma_first_occurrence(mps: Seq<MountPoint>, n: Seq<char>, i: int) -> (j: int)
    requires
        0 <= i < mps.len(),
        mps[i].name@ == n,
    ensures
        0 <= j <= i,
        mps[j].name@ == n,
        forall|k: int| 0 <= k < j ==> (#[trigger] mps[k]).name@ != n,
    decreases i,
{
    if exists|k: int| 0 <= k < i && (#[trigger] mps[k]).name@ == n {
        let k = choose|k: int| 0 <= k < i && (#[trigger] mps[k]).name@ == n;
        lemma_first_occurrence(mps, n, k)
    } else {
        i
    }
}

/// A mount plan makes each new volume once, on its first mount point, and never
/// makes a volume the pod already has.
pub proof fn law_volumes_made_once(
    app: App,
    vol_path: Seq<char>,
    app_path: Seq<char>,
    existing: Seq<Seq<char>>,
    r: Seq<VolumeMount>,
)
    requires
        app.spec_volume_mounts(vol_path, app_path, existing, r),
    ensures
        forall|i: int, j: int|
            0 <= i < j < r.len() && (#[trigger] r[i]).creates_volume && (#[trigger] r[j]).creates_volume
                ==> r[i].volume@ != r[j].volume@,
        forall|i: int| 0 <= i < r.len() && (#[trigger] r[i]).creates_volume ==> !existing.contains(r[i].volume@),
        forall|i: int|
            0 <= i < r.len() && !existing.contains((#[trigger] r[i]).volume@) ==> exists|j: int|
                0 <= j <= i && (#[trigger] r[j]).creates_volume && r[j].volume@ == r[i].volume@,
{
    let mps = app.spec_mount_points();
    assert forall|i: int, j: int|
        0 <= i < j < r.len() && (#[trigger] r[i]).creates_volume && (#[trigger] r[j]).creates_volume
            implies r[i].volume@ != r[j].volume@ by {
        if r[i].volume@ == r[j].volume@ {
            assert(mps[i].name@ == mps[j].name@);
        }
    }
    assert forall|i: int|
        0 <= i < r.len() && !existing.contains((#[trigger] r[i]).volume@) implies exists|j: int|
            0 <= j <= i && (#[trigger] r[j]).creates_volume && r[j].volume@ == r[i].volume@ by {
        let j = lemma_first_occurrence(mps, mps[i].name@, i);
        assert(r[j].creates_volume);
    }
}

/// Read-only mount points end up with no mount flags at all, since the
/// bind and read-only masks share no bit.
pub proof fn law_read_only_mounts_have_no_flags()
    ensures
        MountFlags::spec_bind().spec_and(MountFlags::spec_rdonly()) == MountFlags::spec_none(),
{
}

/// Every mount is made with exactly the source, target and flags its plan
/// entry gives: a made system directory `i` mounts `plan.system[i]`, a made
/// volume target `j` mounts `plan.volumes[j]`, and no other step mounts anything.
pub proof fn law_mounts_use_planned_flags(plan: MountPlan, state: MountState, made: bool)
    ensures
        forall|i: usize|
            state == MountState::SystemDir(i) && i < plan.system@.len() && made ==> {
                &&& (#[trigger] spec_mount_step(plan, MountState::SystemDir(i), made)).0 == MountState::System(
                    (i + 1) as usize,
                )
                &&& spec_mount_step(plan, MountState::SystemDir(i), made).1 == MountActionView::Mount(
                    plan.system@[i as int].source@,
                    plan.system@[i as int].target@,
                    plan.system@[i as int].flags,
                )
            },
        forall|j: usize|
            state == MountState::VolumeTarget(j) && j < plan.volumes@.len() && made ==> {
                &&& (#[trigger] spec_mount_step(plan, MountState::VolumeTarget(j), made)).0
                    == MountState::Volume((j + 1) as usize)
                &&& spec_mount_step(plan, MountState::VolumeTarget(j), made).1 == MountActionView::Mount(
                    plan.volumes@[j as int].source@,
                    plan.volumes@[j as int].target@,
                    plan.volumes@[j as int].flags,
                )
            },
        forall|i: usize|
            !(i < plan.system@.len() && made) ==> !((#[trigger] spec_mount_step(
                plan,
                MountState::SystemDir(i),
                made,
            )).1 is Mount),
        forall|j: usize|
            !(j < plan.volumes@.len() && made) ==> !((#[trigger] spec_mount_step(
                plan,
                MountState::VolumeTarget(j),
                made,
            )).1 is Mount),
        spec_mount_step(plan, state, made).1 is Mount ==> state is SystemDir || state is VolumeTarget,
{
    match state {
        MountState::SystemDir(i) => {
            assert(state == MountState::SystemDir(i));
        },
        MountState::VolumeTarget(j) => {
            assert(state == MountState::VolumeTarget(j));
        },
        _ => {},
    }
}

/// A mount point that does not ask to be read-only (its `readOnly` absent or
/// false) is bind-mounted with no other flag; one that asks to be read-only is
/// planned with the flags `MS_BIND & MS_RDONLY`, which is no flag at all.
pub proof fn law_mount_flags_follow_read_only(
    app: App,
    vol_path: Seq<char>,
    app_path: Seq<char>,
    existing: Seq<Seq<char>>,
    r: Seq<VolumeMount>,
)
    requires
        app.spec_volume_mounts(vol_path, app_path, existing, r),
    ensures
        forall|i: int|
            0 <= i < r.len() && app.spec_mount_points()[i].readOnly != Some(true) ==> (#[trigger] r[i]).flags
                == (MountFlags { bind: true, read_only: false, no_dev: false, no_suid: false, no_exec: false }),
        forall|i: int|
            0 <= i < r.len() && app.spec_mount_points()[i].readOnly == Some(true) ==> (#[trigger] r[i]).flags
                == (MountFlags { bind: false, read_only: false, no_dev: false, no_suid: false, no_exec: false }),
        forall|i: int| 0 <= i < r.len() ==> ((#[trigger] r[i]).flags.bind <==> !(app.spec_mount_points()[i].readOnly == Some(true))),
        forall|i: int| 0 <= i < r.len() ==> !(#[trigger] r[i]).flags.read_only,
{
}

/// The command of the first handler of `event` runs that handler's own program
/// with the rest of its `exec` as arguments, with the same ids, environment and
/// directories as the app's own command; there is none when no handler has that name.
pub proof fn law_handler_runs_its_own_exec(
    app: App,
    event: Seq<char>,
    dir: Seq<char>,
    app_name: Seq<char>,
    pod_uuid: Seq<u8>,
    e: Seq<Seq<char>>,
)
    ensures
        ({
            let h = app.handler_command(event, dir, app_name, pod_uuid);
            let m = app.spec_command(e, dir, app_name, pod_uuid);
            &&& (app.eventHandlers matches Some(ehs) && exists|i: int| is_first_handler(ehs@, event, i))
                <==> h is Some
            &&& forall|ehs: Vec<EventHandler>, i: int|
                app.eventHandlers == Some(ehs) && #[trigger] is_first_handler(ehs@, event, i) ==> ({
                    &&& h matches Some(c)
                    &&& c.program == ehs@[i].exec_.deep_view()[0]
                    &&& c.args == ehs@[i].exec_.deep_view().drop_first()
                    &&& ehs@[i].exec_@.len() > 0 ==> c.args.len() == ehs@[i].exec_@.len() - 1
                    &&& forall|k: int| 1 <= k < ehs@[i].exec_@.len() ==> c.args[k - 1] == #[trigger] ehs@[i].exec_@[k]@
                    &&& c.uid == m.uid && c.gid == m.gid && c.env == m.env
                    &&& c.root_dir == m.root_dir && c.work_dir == m.work_dir
                })
        }),
{
    if let Some(ehs) = app.eventHandlers {
        assert forall|ehs2: Vec<EventHandler>, i: int|
            app.eventHandlers == Some(ehs2) && #[trigger] is_first_handler(ehs2@, event, i) implies ({
                let h = app.handler_command(event, dir, app_name, pod_uuid);
                let m = app.spec_command(e, dir, app_name, pod_uuid);
                &&& h matches Some(c)
                &&& c.program == ehs2@[i].exec_.deep_view()[0]
                &&& c.args == ehs2@[i].exec_.deep_view().drop_first()
                &&& ehs2@[i].exec_@.len() > 0 ==> c.args.len() == ehs2@[i].exec_@.len() - 1
                &&& forall|k: int| 1 <= k < ehs2@[i].exec_@.len() ==> c.args[k - 1] == #[trigger] ehs2@[i].exec_@[k]@
                &&& c.uid == m.uid && c.gid == m.gid && c.env == m.env
                &&& c.root_dir == m.root_dir && c.work_dir == m.work_dir
            }) by {
            assert(is_first_handler(ehs@, event, i));
            let w = choose|w: int| is_first_handler(ehs@, event, w);
            lemma_first_handler_unique(ehs@, event, w, i);
            let x = ehs@[i].exec_;
            assert forall|k: int| 1 <= k < x@.len() implies x.deep_view().drop_first()[k - 1] == #[trigger] x@[k]@ by {
                assert(x.deep_view()[k] == x@[k]@);
            }
        }
    }
}

/// The commands of `exec_app`: the app runs its own `exec` (program first, the
/// rest as arguments), and its `pre-start` and `post-stop` commands run the
/// first handler of that name with that handler's own arguments, in the app's
/// ids, environment and directories; there is no handler command where the app
/// has no such handler, and no command at all without an `exec`.
pub proof fn law_exec_app_commands(
    app: App,
    dir: Seq<char>,
    app_name: Seq<char>,
    pod_uuid: Seq<u8>,
    event: Seq<char>,
    ehs: Vec<EventHandler>,
    i: int,
)
    requires
        event == "pre-start"@ || event == "post-stop"@,
    ensures
        app.exec_ is None ==> app.spec_exec_app(dir, app_name, pod_uuid) == (
            None::<CommandView>,
            None::<CommandView>,
            None::<CommandView>,
        ),
        ({
            let (main, pre, post) = app.spec_exec_app(dir, app_name, pod_uuid);
            let h = if event == "pre-start"@ { pre } else { post };
            app.exec_ matches Some(e) ==> {
                &&& main matches Some(m)
                &&& m.program == e.deep_view()[0]
                &&& m.args == e.deep_view().drop_first()
                &&& m.root_dir == dir
                &&& m.work_dir == app.workingDirectory.deep_view()
                &&& m.env.len() == 4 + app.own_env().len()
                &&& m.env[0] == NameValueView { name: "PATH"@, value: ACE_PATH@ }
                &&& m.env[1] == NameValueView { name: "AC_APP_NAME"@, value: app_name }
                &&& m.env[2] == NameValueView { name: "AC_METADATA_URL"@, value: metadata_url(pod_uuid) }
                &&& m.env[3] == NameValueView { name: "container"@, value: FYC@ }
                &&& forall|k: int| 0 <= k < app.own_env().len() ==> m.env[4 + k] == #[trigger] app.own_env()[k]
                &&& (app.eventHandlers == Some(ehs) && is_first_handler(ehs@, event, i)) ==> ({
                    &&& h matches Some(c)
                    &&& c.program == ehs@[i].exec_.deep_view()[0]
                    &&& c.args == ehs@[i].exec_.deep_view().drop_first()
                    &&& c.uid == m.uid && c.gid == m.gid && c.env == m.env
                    &&& c.root_dir == m.root_dir && c.work_dir == m.work_dir
                })
                &&& (h is Some <==> (app.eventHandlers matches Some(hs) && exists|k: int| is_first_handler(hs@, event, k)))
            }
        }),
{
    if let Some(e) = app.exec_ {
        reveal_strlit("pre-start");
        reveal_strlit("post-stop");
        assert("pre-start"@ != "post-stop"@) by {
            assert("pre-start"@[1] != "post-stop"@[1]);
        }
        law_handler_runs_its_own_exec(app, event, dir, app_name, pod_uuid, e.deep_view());
    }
}

/// Carrying out the plan of an app mounts, for each system filesystem whose
/// directory was made, `/proc` on that directory of the app's root with the
/// system flags, and for each mount point whose target was made, the pod's
/// volume of that name on the mount point's path in the app's root: bind-mounted
/// and writable unless the mount point asks to be read-only.
pub proof fn law_plan_mounts_volumes_where_asked(
    app: App,
    vol_path: Seq<char>,
    app_path: Seq<char>,
    existing: Seq<Seq<char>>,
    plan: MountPlan,
)
    requires
        spec_system_mounts(app_path, plan.system@),
        app.spec_volume_mounts(vol_path, app_path, existing, plan.volumes@),
    ensures
        forall|i: usize|
            i < 3 ==> (#[trigger] spec_mount_step(plan, MountState::SystemDir(i), true)).1
                == MountActionView::Mount(
                "/proc"@,
                app_path + system_volume_names()[i as int] + "/"@,
                MountFlags { bind: true, read_only: false, no_dev: true, no_suid: true, no_exec: true },
            ),
        forall|j: usize|
            j < app.spec_mount_points().len() ==> (#[trigger] spec_mount_step(
                plan,
                MountState::VolumeTarget(j),
                true,
            )).1 == MountActionView::Mount(
                vol_path + app.spec_mount_points()[j as int].name@,
                app_path + app.spec_mount_points()[j as int].path@,
                MountFlags {
                    bind: app.spec_mount_points()[j as int].readOnly != Some(true),
                    read_only: false,
                    no_dev: false,
                    no_suid: false,
                    no_exec: false,
                },
            ),
{
    law_mount_flags_follow_read_only(app, vol_path, app_path, existing, plan.volumes@);
    assert forall|j: usize| j < app.spec_mount_points().len() implies (#[trigger] spec_mount_step(
        plan,
        MountState::VolumeTarget(j),
        true,
    )).1 == MountActionView::Mount(
        vol_path + app.spec_mount_points()[j as int].name@,
        app_path + app.spec_mount_points()[j as int].path@,
        MountFlags {
            bind: app.spec_mount_points()[j as int].readOnly != Some(true),
            read_only: false,
            no_dev: false,
            no_suid: false,
            no_exec: false,
        },
    ) by {
        let r = plan.volumes@;
        assert(r[j as int].flags.bind <==> !(app.spec_mount_points()[j as int].readOnly == Some(true)));
    }
}

} // verus!
