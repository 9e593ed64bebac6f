//! File system locations as a base and the segments joined onto it.
use vstd::prelude::*;
use vstd::string::*;

use crate::text::{chars_of, clone_all, views};

verus! {

/// A location: `base`, with each of `segments` joined onto it in turn.
///
/// The library composes locations and never opens them, so how a segment is joined
/// (which separator, what an absolute segment does) is left to the platform.
#[derive(Clone, Debug, PartialEq, Eq, Hash)]
pub struct JoinedPath {
    pub base: String,
    pub segments: Vec<String>,
}

/// What a [`JoinedPath`] says.
pub struct PathView {
    pub base: Seq<char>,
    pub segments: Seq<Seq<char>>,
}

impl PathView {
    /// The location one segment further down.
    pub open spec fn join(self, segment: Seq<char>) -> PathView {
        PathView { base: self.base, segments: self.segments.push(segment) }
    }
}

/// The location `base` itself.
pub open spec fn at(base: Seq<char>) -> PathView {
    PathView { base, segments: Seq::empty() }
}

/// A location written with slashes.
pub open spec fn shown_of(path: PathView) -> Seq<char>
    decreases path.segments.len(),
{
    if path.segments.len() == 0 {
        path.base
    } else {
        let parent = shown_of(PathView { base: path.base, segments: path.segments.drop_last() });
        if parent.len() == 0 || parent.last() == '/' {
            parent + path.segments.last()
        } else {
            parent + "/"@ + path.segments.last()
        }
    }
}

impl View for JoinedPath {
    type V = PathView;

    open spec fn view(&self) -> PathView {
        PathView { base: self.base@, segments: views(self.segments@) }
    }
}

impl JoinedPath {
    /// The location `base` itself.
    pub fn new(base: &str) -> (r: Self)
        ensures
            r@ == at(base@),
    {
        let r = JoinedPath { base: base.to_owned(), segments: Vec::new() };
        assert(views(r.segments@) =~= Seq::empty());
        r
    }

    /// The location one segment further down.
    pub fn join(self, segment: &str) -> (r: Self)
        ensures
            r@ == self@.join(segment@),
    {
        let mut segments = self.segments;
        let ghost before = segments@;
        segments.push(segment.to_owned());
        assert(views(segments@) =~= views(before).push(segment@));
        JoinedPath { base: self.base, segments }
    }

    /// The location written with slashes.
    pub fn shown(&self) -> (r: String)
        ensures
            r@ == shown_of(self@),
    {
        let ghost all = views(self.segments@);
        let mut r = self.base.clone();
        let mut i: usize = 0;
        assert(all.take(0) =~= Seq::empty());
        while i < self.segments.len()
            invariant
                i <= self.segments.len(),
                all == views(self.segments@),
                r@ == shown_of(PathView { base: self.base@, segments: all.take(i as int) }),
            decreases self.segments.len() - i,
        {
            assert(all.take(i + 1).drop_last() =~= all.take(i as int));
            assert(all.take(i + 1).last() == self.segments@[i as int]@);
            let written = chars_of(r.as_str());
            if written.len() == 0 || written[written.len() - 1] == '/' {
                r = r.concat(self.segments[i].as_str());
            } else {
                r = r.concat("/").concat(self.segments[i].as_str());
            }
            i = i + 1;
        }
        assert(all.take(i as int) =~= all);
        r
    }

    /// A copy of the location.
    pub fn copied(&self) -> (r: Self)
        ensures
            r@ == self@,
    {
        JoinedPath { base: self.base.as_str().to_owned(), segments: clone_all(&self.segments) }
    }
}

}
