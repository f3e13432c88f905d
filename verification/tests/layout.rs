use fyc::aci::CommandSpec;
use fyc::layout::{image_dir, next_stage, pod_app_dir, pod_dir, pod_vol_dir, rootfs_dir, Stage};

fn some_command() -> Option<CommandSpec> {
    Some(CommandSpec {
        program: "/bin/true".to_string(),
        args: vec![],
        uid: None,
        gid: None,
        env: vec![],
        root_dir: "/".to_string(),
        work_dir: None,
    })
}

#[test]
fn pod_directories() {
    let mut bytes = [0u8; 16];
    bytes[15] = 0x2a;
    let dir = pod_dir(bytes);
    assert_eq!(dir, "/opt/fyc/00000000-0000-0000-0000-00000000002a/");
    assert_eq!(pod_app_dir(&dir), "/opt/fyc/00000000-0000-0000-0000-00000000002a/apps/");
    assert_eq!(pod_vol_dir(&dir), "/opt/fyc/00000000-0000-0000-0000-00000000002a/volumes/");
}

#[test]
fn image_directories() {
    let d = image_dir("/pod/apps/", "busybox");
    assert_eq!(d, "/pod/apps/busybox/");
    assert_eq!(rootfs_dir(&d), "/pod/apps/busybox/rootfs/");
}

fn is(a: Option<Stage>, b: Option<Stage>) -> bool {
    match (a, b) {
        (None, None) => true,
        (Some(Stage::PreStart), Some(Stage::PreStart)) => true,
        (Some(Stage::Main), Some(Stage::Main)) => true,
        (Some(Stage::PostStop), Some(Stage::PostStop)) => true,
        _ => false,
    }
}

#[test]
fn stages_without_an_app() {
    let cmds = (None, some_command(), some_command());
    assert!(is(next_stage(&cmds, None, true), None));
}

#[test]
fn stages_with_all_handlers() {
    let cmds = (some_command(), some_command(), some_command());
    assert!(is(next_stage(&cmds, None, true), Some(Stage::PreStart)));
    assert!(is(next_stage(&cmds, Some(Stage::PreStart), true), Some(Stage::Main)));
    assert!(is(next_stage(&cmds, Some(Stage::Main), true), Some(Stage::PostStop)));
    assert!(is(next_stage(&cmds, Some(Stage::PostStop), true), None));
}

#[test]
fn failed_pre_start_skips_the_app_but_not_post_stop() {
    let cmds = (some_command(), some_command(), some_command());
    assert!(is(next_stage(&cmds, Some(Stage::PreStart), false), Some(Stage::PostStop)));
    let no_post = (some_command(), some_command(), None);
    assert!(is(next_stage(&no_post, Some(Stage::PreStart), false), None));
}

#[test]
fn stages_without_handlers() {
    let cmds = (some_command(), None, None);
    assert!(is(next_stage(&cmds, None, true), Some(Stage::Main)));
    assert!(is(next_stage(&cmds, Some(Stage::Main), true), None));
}
