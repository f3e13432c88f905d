use fyc::aci::app::{next_mount_action, EventHandler, MountAction, MountFlags, MountState};
use fyc::aci::{AciJson, App, MountPoint, ACI};
use fyc::util::NameValue;
use fyc::volumes::VolumeSet;

const UUID: [u8; 16] = [
    0x12, 0x34, 0x56, 0x78, 0x9a, 0xbc, 0xde, 0xf0, 0x01, 0x23, 0x45, 0x67, 0x89, 0xab, 0xcd, 0xef,
];
const URL: &str = "http://127.0.0.1:2377/12345678-9abc-def0-0123-456789abcdef";

fn strings(v: &[&str]) -> Vec<String> {
    v.iter().map(|s| s.to_string()).collect()
}

fn nv(n: &str, v: &str) -> NameValue {
    NameValue::new(n.to_string(), v.to_string())
}

fn app() -> App {
    App {
        exec_: Some(strings(&["/bin/server", "--port", "80"])),
        user: "1000".to_string(),
        group: "staff".to_string(),
        supplementaryGIDs: None,
        eventHandlers: Some(vec![
            EventHandler { exec_: strings(&["/bin/prep"]), name: "pre-start".to_string() },
            EventHandler { exec_: strings(&["/bin/other-prep", "x"]), name: "pre-start".to_string() },
            EventHandler { exec_: strings(&["/bin/clean"]), name: "post-stop".to_string() },
        ]),
        workingDirectory: Some("/srv".to_string()),
        environment: Some(vec![nv("LANG", "C"), nv("PATH", "/mine")]),
        isolators: None,
        mountPoints: Some(vec![
            MountPoint { name: "data".to_string(), path: "/data".to_string(), readOnly: None },
            MountPoint { name: "conf".to_string(), path: "/etc/app".to_string(), readOnly: Some(true) },
            MountPoint { name: "data".to_string(), path: "/data2".to_string(), readOnly: Some(false) },
        ]),
        ports: None,
    }
}

fn manifest(name: &str, app: Option<App>) -> AciJson {
    AciJson {
        acKind: "ImageManifest".to_string(),
        acVersion: "0.8.9".to_string(),
        name: name.to_string(),
        labels: None,
        app,
        dependencies: None,
        pathWhitelist: None,
        annotations: None,
    }
}

fn env_pairs(env: &Vec<NameValue>) -> Vec<(String, String)> {
    env.iter().map(|e| (e.name.clone(), e.value.clone())).collect()
}

#[test]
fn read_only_defaults_to_writable() {
    let mut mp = MountPoint { name: "a".to_string(), path: "/a".to_string(), readOnly: None };
    assert!(!mp.read_only());
    mp.readOnly = Some(true);
    assert!(mp.read_only());
    mp.readOnly = Some(false);
    assert!(!mp.read_only());
}

#[test]
fn prep_cmd_builds_the_command() {
    let a = app();
    let c = a.prep_cmd(a.exec_.as_ref().unwrap(), "/pod/apps/x/rootfs/", "server", UUID);
    assert_eq!(c.program, "/bin/server");
    assert_eq!(c.args, strings(&["--port", "80"]));
    assert_eq!(c.uid, Some(1000));
    assert_eq!(c.gid, None);
    assert_eq!(c.root_dir, "/pod/apps/x/rootfs/");
    assert_eq!(c.work_dir, Some("/srv".to_string()));
    assert_eq!(
        env_pairs(&c.env),
        vec![
            ("PATH".to_string(), "/usr/local/sbin:/usr/local/bin:/usr/sbin:/usr/bin:/sbin:/bin".to_string()),
            ("AC_APP_NAME".to_string(), "server".to_string()),
            ("AC_METADATA_URL".to_string(), URL.to_string()),
            ("container".to_string(), "fyc".to_string()),
            ("LANG".to_string(), "C".to_string()),
            ("PATH".to_string(), "/mine".to_string()),
        ]
    );
}

#[test]
fn prep_cmd_without_environment_or_ids() {
    let mut a = app();
    a.environment = None;
    a.user = "root".to_string();
    a.group = "+0".to_string();
    a.workingDirectory = None;
    let c = a.prep_cmd(&strings(&["/bin/sh"]), "/r/", "n", UUID);
    assert!(c.args.is_empty());
    assert_eq!(c.uid, None);
    assert_eq!(c.gid, Some(0));
    assert_eq!(c.env.len(), 4);
    assert_eq!(c.work_dir, None);
}

#[test]
fn find_event_handle_takes_the_first_match() {
    let a = app();
    let ehs = a.eventHandlers.clone().unwrap();
    let pre = a.find_event_handle(&ehs, "/r/", "n", UUID, "pre-start").unwrap();
    assert_eq!(pre.program, "/bin/prep");
    let post = a.find_event_handle(&ehs, "/r/", "n", UUID, "post-stop").unwrap();
    assert_eq!(post.program, "/bin/clean");
    assert!(a.find_event_handle(&ehs, "/r/", "n", UUID, "pre-stop").is_none());
}

#[test]
fn exec_app_gives_app_and_handlers() {
    let a = app();
    let (main, pre, post) = a.exec_app("/r/", "n", UUID);
    assert_eq!(main.unwrap().program, "/bin/server");
    assert_eq!(pre.unwrap().program, "/bin/prep");
    assert_eq!(post.unwrap().program, "/bin/clean");
}

#[test]
fn exec_app_without_exec_gives_nothing() {
    let mut a = app();
    a.exec_ = None;
    let (main, pre, post) = a.exec_app("/r/", "n", UUID);
    assert!(main.is_none() && pre.is_none() && post.is_none());
}

#[test]
fn exec_app_without_handlers() {
    let mut a = app();
    a.eventHandlers = None;
    let (main, pre, post) = a.exec_app("/r/", "n", UUID);
    assert!(main.is_some() && pre.is_none() && post.is_none());
}

#[test]
fn launchable_needs_programs() {
    let mut a = app();
    assert!(a.is_launchable());
    a.exec_ = Some(vec![]);
    assert!(!a.is_launchable());
    let mut b = app();
    b.eventHandlers = Some(vec![EventHandler { exec_: vec![], name: "post-stop".to_string() }]);
    assert!(!b.is_launchable());
    let mut c = app();
    c.eventHandlers = Some(vec![EventHandler { exec_: vec![], name: "other".to_string() }]);
    assert!(c.is_launchable());
    let mut d = app();
    d.exec_ = None;
    d.eventHandlers = Some(vec![EventHandler { exec_: vec![], name: "pre-start".to_string() }]);
    assert!(d.is_launchable());
}

#[test]
fn aci_exec_names_the_app_after_the_image() {
    let aci = ACI::new(manifest("example.com/apps/reduce-worker", Some(app())));
    let (main, _, _) = aci.exec("/r/", UUID);
    let main = main.unwrap();
    let name = main.env.iter().find(|e| e.name == "AC_APP_NAME").unwrap();
    assert_eq!(name.value, "reduce-worker");
    let aci = ACI::new(manifest("plain", Some(app())));
    let (main, _, _) = aci.exec("/r/", UUID);
    assert_eq!(main.unwrap().env[1].value, "plain");
}

#[test]
fn aci_without_app_runs_nothing_and_mounts_nothing() {
    let aci = ACI::new(manifest("x", None));
    let (a, b, c) = aci.exec("/r/", UUID);
    assert!(a.is_none() && b.is_none() && c.is_none());
    let plan = aci.mount_volumes("/v/", "/r/", &VolumeSet::new());
    assert!(plan.system.is_empty() && plan.volumes.is_empty());
}

#[test]
fn system_volumes_are_planned_first() {
    let aci = ACI::new(manifest("x", Some(app())));
    let plan = aci.mount_volumes("/pod/volumes/", "/pod/apps/x/rootfs/", &VolumeSet::new());
    let targets: Vec<&str> = plan.system.iter().map(|m| m.target.as_str()).collect();
    assert_eq!(targets, vec!["/pod/apps/x/rootfs/proc/", "/pod/apps/x/rootfs/sys/", "/pod/apps/x/rootfs/dev/"]);
    for m in &plan.system {
        assert_eq!(m.source, "/proc");
        assert!(m.flags.bind && m.flags.no_dev && m.flags.no_suid && m.flags.no_exec && !m.flags.read_only);
    }
}

#[test]
fn volume_mounts_create_each_new_volume_once() {
    let aci = ACI::new(manifest("x", Some(app())));
    let mut known = VolumeSet::new();
    known.insert("conf".to_string());
    let plan = aci.mount_volumes("/pod/volumes/", "/pod/apps/x/rootfs", &known);
    let v = &plan.volumes;
    assert_eq!(v.len(), 3);
    assert_eq!(v[0].volume, "data");
    assert_eq!(v[0].source, "/pod/volumes/data");
    assert_eq!(v[0].target, "/pod/apps/x/rootfs/data");
    assert!(v[0].creates_volume);
    assert_eq!(v[1].target, "/pod/apps/x/rootfs/etc/app");
    assert!(!v[1].creates_volume);
    assert!(!v[2].creates_volume);
    assert_eq!(v[2].target, "/pod/apps/x/rootfs/data2");
}

#[test]
fn read_only_volumes_get_no_flags() {
    let aci = ACI::new(manifest("x", Some(app())));
    let plan = aci.mount_volumes("/v/", "/r", &VolumeSet::new());
    let f: MountFlags = plan.volumes[0].flags;
    assert!(f.bind && !f.read_only && !f.no_dev);
    let g = plan.volumes[1].flags;
    assert!(!g.bind && !g.read_only && !g.no_dev && !g.no_suid && !g.no_exec);
}

#[test]
fn recorded_mount_points_are_unmounted_in_order() {
    let mut aci = ACI::new(manifest("x", None));
    aci.record_mount_point("/a".to_string());
    aci.record_mount_point("/b".to_string());
    assert_eq!(aci.unmount_volumes(), strings(&["/a", "/b"]));
}

#[test]
fn clones_are_equal_in_content() {
    let a = app();
    let b = a.clone();
    assert_eq!(b.exec_, a.exec_);
    assert_eq!(b.mountPoints.unwrap()[1].path, "/etc/app");
    let m = manifest("n", Some(app())).clone();
    assert_eq!(m.name, "n");
    assert_eq!(m.app.unwrap().user, "1000");
}

fn run_plan(aci: &ACI, failing: &[&str]) -> Vec<String> {
    let plan = aci.mount_volumes("/v/", "/r", &VolumeSet::new());
    let mut log = Vec::new();
    let mut state = MountState::System(0);
    let mut made = false;
    loop {
        let (next, action) = next_mount_action(&plan, state, made);
        state = next;
        match action {
            MountAction::MakeDir(d) => {
                made = !failing.contains(&d.as_str());
                log.push(format!("mkdir {}", d));
            }
            MountAction::JoinVolume(n) => log.push(format!("join {}", n)),
            MountAction::Mount { source, target, .. } => log.push(format!("mount {} {}", source, target)),
            MountAction::Finish => break,
        }
    }
    log
}

#[test]
fn mount_steps_when_every_directory_is_made() {
    let aci = ACI::new(manifest("x", Some(app())));
    let log = run_plan(&aci, &[]);
    assert_eq!(
        log,
        vec![
            "mkdir /rproc/", "mount /proc /rproc/", "mkdir /rsys/", "mount /proc /rsys/", "mkdir /rdev/",
            "mount /proc /rdev/", "mkdir /v/data", "join data", "mkdir /r/data", "mount /v/data /r/data",
            "mkdir /v/conf", "join conf", "mkdir /r/etc/app", "mount /v/conf /r/etc/app", "mkdir /r/data2",
            "mount /v/data /r/data2",
        ]
    );
}

#[test]
fn failed_system_directory_skips_to_volumes() {
    let aci = ACI::new(manifest("x", Some(app())));
    let log = run_plan(&aci, &["/rsys/"]);
    assert_eq!(&log[..5], &["mkdir /rproc/", "mount /proc /rproc/", "mkdir /rsys/", "mkdir /v/data", "join data"]);
}

#[test]
fn failed_volume_directory_stops_everything() {
    let aci = ACI::new(manifest("x", Some(app())));
    let log = run_plan(&aci, &["/v/conf"]);
    assert_eq!(log.last().unwrap(), "mkdir /v/conf");
    assert!(!log.contains(&"join conf".to_string()));
    let log = run_plan(&aci, &["/r/data"]);
    assert_eq!(log.last().unwrap(), "mkdir /r/data");
}
