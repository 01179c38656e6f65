use vstd::prelude::*;

verus! {

/// One path named by a change notification, with whether it is known to be a
/// directory (an unknown file type counts as "not a directory").
pub struct EventPath {
    pub path: String,
    pub is_dir: bool,
}

/// A change notification: an opaque kind tag and the paths it concerns.
/// Some notifications (a rescan, say) carry no path at all.
pub struct ChangeEvent {
    pub kind: String,
    pub paths: Vec<EventPath>,
}

impl EventPath {
    pub fn new(path: String, is_dir: bool) -> (r: Self)
        ensures
            r.path@ == path@,
            r.is_dir == is_dir,
    {
        EventPath { path, is_dir }
    }
}

impl ChangeEvent {
    pub fn new(kind: String, paths: Vec<EventPath>) -> (r: Self)
        ensures
            r.kind@ == kind@,
            r.paths@ == paths@,
    {
        ChangeEvent { kind, paths }
    }
}

} // verus!
