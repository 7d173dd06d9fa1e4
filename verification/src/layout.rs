//! Filesystem locations as a root followed by the names joined onto it;
//! `app/` turns one into a `PathBuf` by joining the names in order.
use vstd::prelude::*;
use vstd::string::*;

verus! {

/// A location: `base`, then each of `segments` joined on in turn.
pub struct AppPath {
    pub base: String,
    pub segments: Vec<String>,
}

/// The root and the joined names of a location.
pub type PathView = (Seq<char>, Seq<Seq<char>>);

impl View for AppPath {
    type V = PathView;

    open spec fn view(&self) -> PathView {
        (self.base@, self.segments@.map_values(|s: String| s@))
    }
}

/// The location whose root is `base`, with `names` joined on.
pub open spec fn path_of(base: Seq<char>, names: Seq<Seq<char>>) -> PathView {
    (base, names)
}

impl AppPath {
    /// The location `base` itself.
    pub fn from_base(base: &str) -> (res: AppPath)
        ensures
            res@ == path_of(base@, Seq::empty()),
    {
        let res = AppPath { base: String::from_str(base), segments: Vec::new() };
        assert(res@.1 =~= Seq::<Seq<char>>::empty());
        res
    }

    /// This location with `name` joined on, as `Path::join` does.
    pub fn join(self, name: &str) -> (res: AppPath)
        ensures
            res@ == (self@.0, self@.1.push(name@)),
    {
        let ghost old_view = self@;
        let AppPath { base, mut segments } = self;
        segments.push(String::from_str(name));
        let res = AppPath { base, segments };
        assert(res@.1 =~= old_view.1.push(name@));
        res
    }
}

} // verus!
