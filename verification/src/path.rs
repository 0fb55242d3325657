//! Locations of persisted node state.
//!
//! A location is kept as the text of a root directory and the names of the
//! directories below it, outermost first. Nothing here touches the file
//! system: joining only records one more name.

use vstd::prelude::*;

verus! {

/// A location on disk: a root and the segments nested below it.
#[derive(Debug)]
pub struct NodePath {
    /// The root directory, as the caller wrote it.
    pub root: String,
    /// The names nested below the root, outermost first.
    pub segments: Vec<String>,
}

/// The mathematical value of a [`NodePath`].
pub struct NodePathView {
    pub root: Seq<char>,
    pub segments: Seq<Seq<char>>,
}

impl NodePathView {
    /// The location one level below `self`, under the name `segment`.
    pub open spec fn join(self, segment: Seq<char>) -> NodePathView {
        NodePathView { root: self.root, segments: self.segments.push(segment) }
    }

    /// Whether one of the names below the root is `segment`.
    pub open spec fn has_segment(self, segment: Seq<char>) -> bool {
        self.segments.contains(segment)
    }

    /// Whether `self` is `base` itself or lies somewhere below it.
    pub open spec fn is_under(self, base: NodePathView) -> bool {
        &&& self.root == base.root
        &&& base.segments.is_prefix_of(self.segments)
    }
}

impl View for NodePath {
    type V = NodePathView;

    open spec fn view(&self) -> NodePathView {
        NodePathView { root: self.root@, segments: self.segments.deep_view() }
    }
}

impl DeepView for NodePath {
    type V = NodePathView;

    open spec fn deep_view(&self) -> NodePathView {
        self.view()
    }
}

impl NodePath {
    /// A location that is the root itself.
    pub fn new(root: &str) -> (path: NodePath)
        ensures
            path@ == (NodePathView { root: root@, segments: Seq::empty() }),
    {
        let path = NodePath { root: root.to_owned(), segments: Vec::new() };
        assert(path.segments.deep_view() =~= Seq::<Seq<char>>::empty());
        path
    }

    /// The location one level below `self`, under the name `segment`.
    /// `self` is left as it was.
    pub fn join(&self, segment: &str) -> (path: NodePath)
        ensures
            path@ == self@.join(segment@),
    {
        let mut segments = self.segments.clone();
        assert(segments.deep_view() =~= self.segments.deep_view());
        segments.push(segment.to_owned());
        assert(segments.deep_view() =~= self.segments.deep_view().push(segment@));
        NodePath { root: self.root.clone(), segments }
    }
}

} // verus!
