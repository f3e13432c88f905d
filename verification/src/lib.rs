//! Library core of an App Container executor: container image manifests,
//! the commands that launch an app, the volume mounts it needs, the pod
//! manifest and the metadata service that answers the apps of a pod.

pub mod aci;
pub mod keyed;
pub mod layout;
pub mod metadata;
pub mod pod;
pub mod text;
pub mod util;
pub mod volumes;

pub use text::parse_u32;
pub use util::{vec_or_empty, NameValue};
