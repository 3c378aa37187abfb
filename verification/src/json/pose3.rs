//! A pose3.json document: groups of parts of which one is shown at a time.
use vstd::prelude::*;

verus! {

/// A part of a pose group and the parts whose opacity follows it.
#[derive(Debug, Clone, PartialEq, Eq)]
pub struct PosePart {
    id: String,
    links: Vec<String>,
}

impl PosePart {
    /// A part named `id` with linked parts `links`.
    pub fn new(id: String, links: Vec<String>) -> (r: Self)
        ensures
            r.id_view() == id@,
            r.links_view() == links@.map_values(|l: String| l@),
    {
        PosePart { id, links }
    }

    /// The part's id, as text.
    pub closed spec fn id_view(&self) -> Seq<char> {
        self.id@
    }

    /// The linked part ids, as text.
    pub closed spec fn links_view(&self) -> Seq<Seq<char>> {
        self.links@.map_values(|l: String| l@)
    }

    pub fn id(&self) -> (r: &str)
        ensures
            r@ == self.id_view(),
    {
        self.id.as_str()
    }

    pub fn links(&self) -> (r: &[String])
        ensures
            r@.map_values(|l: String| l@) == self.links_view(),
    {
        self.links.as_slice()
    }
}

/// A pose3.json document: its type, the optional fade-in time (an `f32` bit
/// pattern) and the part groups.
#[derive(Debug, Clone, PartialEq, Eq)]
pub struct Pose3 {
    kind: String,
    fade_in_time: Option<u32>,
    groups: Vec<Vec<PosePart>>,
}

impl Pose3 {
    /// A pose made of the parts of a pose3.json document.
    pub fn new(kind: String, fade_in_time: Option<u32>, groups: Vec<Vec<PosePart>>) -> (r: Self)
        ensures
            r.kind_view() == kind@,
            r.fade_in_time_view() == fade_in_time,
            r.groups_view() == groups@,
    {
        Pose3 { kind, fade_in_time, groups }
    }

    pub closed spec fn kind_view(&self) -> Seq<char> {
        self.kind@
    }

    pub closed spec fn fade_in_time_view(&self) -> Option<u32> {
        self.fade_in_time
    }

    pub closed spec fn groups_view(&self) -> Seq<Vec<PosePart>> {
        self.groups@
    }

    pub fn kind(&self) -> (r: &str)
        ensures
            r@ == self.kind_view(),
    {
        self.kind.as_str()
    }

    pub fn fade_in_time(&self) -> (r: Option<u32>)
        ensures
            r == self.fade_in_time_view(),
    {
        self.fade_in_time
    }

    pub fn groups(&self) -> (r: &[Vec<PosePart>])
        ensures
            r@ == self.groups_view(),
    {
        self.groups.as_slice()
    }
}

} // verus!
