//! One requested link: the path at which a symbolic link is desired and the
//! path it should point at.

use vstd::prelude::*;

verus! {

/// An immutable pairing of a desired link path with its intended target
/// path.  Identity is structural; duplicates are processed independently.
pub struct LinkDescriptor {
    pub symlink_path: String,
    pub target_path: String,
}

/// Mathematical image of a [`LinkDescriptor`].
pub struct DescriptorView {
    pub symlink_path: Seq<char>,
    pub target_path: Seq<char>,
}

impl View for LinkDescriptor {
    type V = DescriptorView;

    open spec fn view(&self) -> DescriptorView {
        DescriptorView { symlink_path: self.symlink_path@, target_path: self.target_path@ }
    }
}

impl LinkDescriptor {
    /// Pairs a link path with its intended target.
    pub fn new(symlink_path: String, target_path: String) -> (d: LinkDescriptor)
        ensures
            d@.symlink_path == symlink_path@,
            d@.target_path == target_path@,
    {
        LinkDescriptor { symlink_path, target_path }
    }
}

impl Clone for LinkDescriptor {
    fn clone(&self) -> (d: Self)
        ensures
            d@ == self@,
    {
        LinkDescriptor {
            symlink_path: self.symlink_path.clone(),
            target_path: self.target_path.clone(),
        }
    }
}

} // verus!
