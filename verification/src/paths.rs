//! Path values as the launcher reasons about them: an absolute location is the
//! ordered sequence of its components below the filesystem root, and a relative
//! location is the sequence of components to append below some anchor.

use vstd::prelude::*;

verus! {

/// An absolute filesystem location, component by component, root first.
/// `/app/resources/data.db` is held as `["app", "resources", "data.db"]`.
#[derive(Clone, Debug, PartialEq, Eq)]
pub struct AbsPath {
    pub parts: Vec<String>,
}

/// A relative location: the components a caller wants below an anchor
/// directory, for example `["assets", "data.db"]`.
#[derive(Clone, Debug, PartialEq, Eq)]
pub struct RelPath {
    pub parts: Vec<String>,
}

impl View for AbsPath {
    type V = Seq<Seq<char>>;

    open spec fn view(&self) -> Seq<Seq<char>> {
        self.parts.deep_view()
    }
}

impl DeepView for AbsPath {
    type V = Seq<Seq<char>>;

    open spec fn deep_view(&self) -> Seq<Seq<char>> {
        self.view()
    }
}

impl View for RelPath {
    type V = Seq<Seq<char>>;

    open spec fn view(&self) -> Seq<Seq<char>> {
        self.parts.deep_view()
    }
}

/// The parent directory of a modelled path: every component but the last.
/// The root is its own parent.
pub open spec fn spec_parent(p: Seq<Seq<char>>) -> Seq<Seq<char>> {
    if p.len() == 0 {
        p
    } else {
        p.drop_last()
    }
}

/// Clones a component vector; the copy denotes the same sequence of
/// component texts.
fn clone_parts(parts: &Vec<String>) -> (r: Vec<String>)
    ensures
        r.deep_view() == parts.deep_view(),
{
    let mut r: Vec<String> = Vec::new();
    let mut i: usize = 0;
    while i < parts.len()
        invariant
            i <= parts.len(),
            r.deep_view().len() == i as int,
            forall|j: int| 0 <= j < i ==> r.deep_view()[j] == parts.deep_view()[j],
        decreases parts.len() - i,
    {
        let s: String = parts[i].clone();
        r.push(s);
        i = i + 1;
    }
    proof {
        assert(r.deep_view() =~= parts.deep_view());
    }
    r
}

impl AbsPath {
    /// The filesystem root.
    pub fn root() -> (r: AbsPath)
        ensures
            r@ == Seq::<Seq<char>>::empty(),
    {
        let r = AbsPath { parts: Vec::new() };
        proof {
            assert(r@ =~= Seq::<Seq<char>>::empty());
        }
        r
    }

    /// Builds a path directly from its components.
    pub fn from_parts(parts: Vec<String>) -> (r: AbsPath)
        ensures
            r@ == parts.deep_view(),
    {
        AbsPath { parts }
    }

    /// An owned copy of this path.
    pub fn duplicate(&self) -> (r: AbsPath)
        ensures
            r@ == self@,
    {
        AbsPath { parts: clone_parts(&self.parts) }
    }

    /// The location one component further down: `self` with `name` appended.
    pub fn child(&self, name: &String) -> (r: AbsPath)
        ensures
            r@ == self@.push(name@),
    {
        let mut parts = clone_parts(&self.parts);
        parts.push(name.clone());
        let r = AbsPath { parts };
        proof {
            assert(r@ =~= self@.push(name@));
        }
        r
    }

    /// The location reached by descending along every component of `rel`.
    pub fn join(&self, rel: &RelPath) -> (r: AbsPath)
        ensures
            r@ == self@ + rel@,
    {
        let mut parts = clone_parts(&self.parts);
        let mut i: usize = 0;
        while i < rel.parts.len()
            invariant
                i <= rel.parts.len(),
                parts.deep_view().len() == self@.len() + i as int,
                forall|j: int| 0 <= j < self@.len() ==> parts.deep_view()[j] == self@[j],
                forall|j: int|
                    0 <= j < i ==> parts.deep_view()[self@.len() + j] == rel@[j],
            decreases rel.parts.len() - i,
        {
            let s: String = rel.parts[i].clone();
            parts.push(s);
            i = i + 1;
        }
        let r = AbsPath { parts };
        proof {
            assert(r@ =~= self@ + rel@);
        }
        r
    }

    /// The parent directory; the root is returned unchanged.
    pub fn parent(&self) -> (r: AbsPath)
        ensures
            r@ == spec_parent(self@),
    {
        if self.parts.len() == 0 {
            self.duplicate()
        } else {
            let mut parts = clone_parts(&self.parts);
            let _last = parts.pop();
            let r = AbsPath { parts };
            proof {
                assert(r@ =~= spec_parent(self@));
            }
            r
        }
    }

    /// How many components the path has.
    pub fn depth(&self) -> (n: usize)
        ensures
            n as int == self@.len(),
    {
        self.parts.len()
    }

    /// The last component, for a non-root path: the file or directory name
    /// the path points at.
    pub fn file_name(&self) -> (r: &String)
        requires
            self@.len() > 0,
        ensures
            r@ == self@.last(),
    {
        &self.parts[self.parts.len() - 1]
    }
}

impl RelPath {
    /// Builds a relative path directly from its components.
    pub fn from_parts(parts: Vec<String>) -> (r: RelPath)
        ensures
            r@ == parts.deep_view(),
    {
        RelPath { parts }
    }

    /// A relative path of a single component.
    pub fn single(name: &String) -> (r: RelPath)
        ensures
            r@ == seq![name@],
    {
        let mut parts: Vec<String> = Vec::new();
        parts.push(name.clone());
        let r = RelPath { parts };
        proof {
            assert(r@ =~= seq![name@]);
        }
        r
    }

    /// An owned copy of this relative path.
    pub fn duplicate(&self) -> (r: RelPath)
        ensures
            r@ == self@,
    {
        RelPath { parts: clone_parts(&self.parts) }
    }
}

} // verus!
