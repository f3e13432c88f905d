use vstd::prelude::*;

use crate::aci::CommandSpec;
use crate::text::{str_concat, uuid_hyphenated, uuid_text};

verus! {

/// Where the directories of pods are made.
pub const POD_ROOT: &'static str = "/opt/fyc/";

/// The directory of a pod's volumes, inside the pod's directory.
pub const VOL_DIR: &'static str = "volumes/";

/// The directory of a pod's images, inside the pod's directory.
pub const APP_DIR: &'static str = "apps/";

/// The directory of the pod with this UUID.
pub fn pod_dir(pod_uuid: [u8; 16]) -> (r: String)
    ensures
        r@ == POD_ROOT@ + uuid_text(pod_uuid@) + "/"@,
{
    let id = uuid_hyphenated(pod_uuid);
    let with_id = str_concat(POD_ROOT, id.as_str());
    str_concat(with_id.as_str(), "/")
}

/// The directory of the images of a pod.
pub fn pod_app_dir(pod_dir: &str) -> (r: String)
    ensures
        r@ == pod_dir@ + APP_DIR@,
{
    str_concat(pod_dir, APP_DIR)
}

/// The directory of the volumes of a pod.
pub fn pod_vol_dir(pod_dir: &str) -> (r: String)
    ensures
        r@ == pod_dir@ + VOL_DIR@,
{
    str_concat(pod_dir, VOL_DIR)
}

/// The directory an image archive named `stem` is unpacked into.
pub fn image_dir(app_dir: &str, stem: &str) -> (r: String)
    ensures
        r@ == app_dir@ + stem@ + "/"@,
{
    let with_stem = str_concat(app_dir, stem);
    str_concat(with_stem.as_str(), "/")
}

/// The root filesystem of an unpacked image.
pub fn rootfs_dir(image_dir: &str) -> (r: String)
    ensures
        r@ == image_dir@ + "rootfs/"@,
{
    str_concat(image_dir, "rootfs/")
}

/// The processes of an image, in the order they may run.
#[derive(Clone, Copy)]
pub enum Stage {
    PreStart,
    Main,
    PostStop,
}

/// What runs after `finished` (nothing yet, at the start) ended, well or not:
/// without an app nothing runs; the `pre-start` handler runs first if there is
/// one, and the app only if it succeeded; the `post-stop` handler, if any,
/// comes last either way. `None` means the image is done and its volumes are
/// unmounted.
pub open spec fn spec_next_stage(
    has_main: bool,
    has_pre_start: bool,
    has_post_stop: bool,
    finished: Option<Stage>,
    succeeded: bool,
) -> Option<Stage> {
    let after_main = if has_post_stop { Some(Stage::PostStop) } else { None };
    match finished {
        None => if !has_main {
            None
        } else if has_pre_start {
            Some(Stage::PreStart)
        } else {
            Some(Stage::Main)
        },
        Some(Stage::PreStart) => if succeeded { Some(Stage::Main) } else { after_main },
        Some(Stage::Main) => after_main,
        Some(Stage::PostStop) => None,
    }
}

/// The process to run next for an image with these commands.
pub fn next_stage(
    commands: &(Option<CommandSpec>, Option<CommandSpec>, Option<CommandSpec>),
    finished: Option<Stage>,
    succeeded: bool,
) -> (r: Option<Stage>)
    ensures
        r == spec_next_stage(
            commands.0 is Some,
            commands.1 is Some,
            commands.2 is Some,
            finished,
            succeeded,
        ),
{
    let has_main = commands.0.is_some();
    let has_pre_start = commands.1.is_some();
    let has_post_stop = commands.2.is_some();
    let after_main = if has_post_stop { Some(Stage::PostStop) } else { None };
    match finished {
        None => if !has_main {
            None
        } else if has_pre_start {
            Some(Stage::PreStart)
        } else {
            Some(Stage::Main)
        },
        Some(Stage::PreStart) => if succeeded { Some(Stage::Main) } else { after_main },
        Some(Stage::Main) => after_main,
        Some(Stage::PostStop) => None,
    }
}

/// Whatever the `pre-start` handler does, an app that starts ends with its
/// `post-stop` handler, if it has one, and then with nothing.
pub proof fn law_post_stop_follows_any_start(has_pre_start: bool, has_post_stop: bool, ok: bool)
    ensures
        ({
            let after_main = if has_post_stop { Some(Stage::PostStop) } else { None };
            &&& spec_next_stage(true, has_pre_start, has_post_stop, None, ok) == if has_pre_start {
                Some(Stage::PreStart)
            } else {
                Some(Stage::Main)
            }
            &&& spec_next_stage(true, has_pre_start, has_post_stop, Some(Stage::PreStart), false) == after_main
            &&& spec_next_stage(true, has_pre_start, has_post_stop, Some(Stage::PreStart), true) == Some(Stage::Main)
            &&& spec_next_stage(true, has_pre_start, has_post_stop, Some(Stage::Main), ok) == after_main
            &&& spec_next_stage(true, has_pre_start, has_post_stop, Some(Stage::PostStop), ok) is None
        }),
{
}

/// Whether the stage that ended had its command: a stage runs only for an image
/// with an app, and a handler stage only when the image has that handler.
pub open spec fn stage_had_command(
    has_main: bool,
    has_pre_start: bool,
    has_post_stop: bool,
    stage: Option<Stage>,
) -> bool {
    match stage {
        None => true,
        Some(Stage::PreStart) => has_main && has_pre_start,
        Some(Stage::Main) => has_main,
        Some(Stage::PostStop) => has_main && has_post_stop,
    }
}

/// No stage is ever named whose command is absent: without an app nothing runs
/// at all, whatever handlers there are, and from any stage that had its command
/// the next one named has its command too.
pub proof fn law_next_stage_has_its_command(
    has_main: bool,
    has_pre_start: bool,
    has_post_stop: bool,
    finished: Option<Stage>,
    ok: bool,
)
    requires
        stage_had_command(has_main, has_pre_start, has_post_stop, finished),
    ensures
        spec_next_stage(false, has_pre_start, has_post_stop, None, ok) is None,
        ({
            let r = spec_next_stage(has_main, has_pre_start, has_post_stop, finished, ok);
            &&& r is Some ==> has_main
            &&& r == Some(Stage::PreStart) ==> has_pre_start
            &&& r == Some(Stage::PostStop) ==> has_post_stop
        }),
{
}

} // verus!
