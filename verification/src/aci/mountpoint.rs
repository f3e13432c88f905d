use vstd::prelude::*;

verus! {

/// A place in an app's root filesystem where a volume of the pod is mounted.
#[allow(non_snake_case)]
pub struct MountPoint {
    pub name: String,
    pub path: String,
    pub readOnly: Option<bool>,
}

impl Clone for MountPoint {
    fn clone(&self) -> (r: Self)
        ensures
            r == *self,
    {
        MountPoint { name: self.name.clone(), path: self.path.clone(), readOnly: self.readOnly }
    }
}

impl DeepView for MountPoint {
    type V = MountPoint;

    /// A mount point holds no list, so it is its own deep view.
    open spec fn deep_view(&self) -> MountPoint {
        *self
    }
}

impl MountPoint {
    /// Whether the mount point asks for a read-only mount; absent means writable.
    pub fn read_only(&self) -> (r: bool)
        ensures
            r == (self.readOnly == Some(true)),
    {
        match self.readOnly {
            None => false,
            Some(b) => b,
        }
    }
}

} // verus!
