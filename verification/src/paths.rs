//! Paths below the root directory, held as their components.

use crate::text::{chain, ends_with, join, join_with, lemma_views_push, str_eq, to_chars, views};
use vstd::prelude::*;
use vstd::string::*;

verus! {

broadcast use vstd::string::group_string_axioms;

/// A path relative to the root: the names to descend through, outermost first.
#[derive(Debug, PartialEq, Eq)]
pub struct RelPath {
    pub segments: Vec<String>,
}

impl View for RelPath {
    type V = Seq<Seq<char>>;

    open spec fn view(&self) -> Seq<Seq<char>> {
        views(self.segments@)
    }
}

/// A name that stays where it is put: not empty, not `.` or `..`, and free
/// of path separators.
pub open spec fn safe_name(name: Seq<char>) -> bool {
    &&& name.len() > 0
    &&& name != seq!['.']
    &&& name != seq!['.', '.']
    &&& forall|i: int| 0 <= i < name.len() ==> name[i] != '/' && name[i] != '\\'
}

/// Every component of the path is a safe name, so the path cannot leave the
/// directory it is resolved in.
pub open spec fn stays_inside(path: Seq<Seq<char>>) -> bool {
    forall|i: int| 0 <= i < path.len() ==> safe_name(#[trigger] path[i])
}

/// The text of a path resolved in `root`: the components joined by `/`
/// behind the root, with a `/` between the two unless the root is empty or
/// ends in one.
pub open spec fn absolute_spec(root: Seq<char>, path: Seq<Seq<char>>) -> Seq<char> {
    if path.len() == 0 {
        root
    } else if root.len() == 0 || seq!['/'].is_suffix_of(root) {
        root + join(path, seq!['/'])
    } else {
        root + seq!['/'] + join(path, seq!['/'])
    }
}

/// Whether `name` is a safe name.
pub fn is_safe_name(name: &str) -> (safe: bool)
    ensures
        safe == safe_name(name@),
{
    proof {
        reveal_strlit(".");
        reveal_strlit("..");
        assert("."@ =~= seq!['.']);
        assert(".."@ =~= seq!['.', '.']);
    }
    if str_eq(name, ".") || str_eq(name, "..") {
        return false;
    }
    let chars = to_chars(name);
    let n: usize = chars.len();
    if n == 0 {
        return false;
    }
    let mut i: usize = 0;
    while i < n
        invariant
            i <= n,
            n == chars.len(),
            chars@ == name@,
            forall|j: int| 0 <= j < i ==> name@[j] != '/' && name@[j] != '\\',
        decreases n - i,
    {
        if chars[i] == '/' || chars[i] == '\\' {
            return false;
        }
        i = i + 1;
    }
    true
}

impl Clone for RelPath {
    fn clone(&self) -> (copy: Self)
        ensures
            copy@ == self@,
    {
        let mut segments: Vec<String> = Vec::new();
        let n: usize = self.segments.len();
        let mut i: usize = 0;
        assert(views(self.segments@).take(0) =~= views(segments@));
        while i < n
            invariant
                i <= n,
                n == self.segments.len(),
                views(segments@) == views(self.segments@).take(i as int),
            decreases n - i,
        {
            let segment = self.segments[i].clone();
            proof {
                lemma_views_push(segments@, segment);
                assert(views(self.segments@).take(i + 1) =~= views(self.segments@).take(
                    i as int,
                ).push(segment@));
            }
            segments.push(segment);
            i = i + 1;
        }
        assert(views(self.segments@).take(n as int) =~= views(self.segments@));
        RelPath { segments }
    }
}

impl RelPath {
    /// The root itself.
    pub fn new() -> (path: RelPath)
        ensures
            path@ == Seq::<Seq<char>>::empty(),
    {
        let path = RelPath { segments: Vec::new() };
        assert(path@ =~= Seq::<Seq<char>>::empty());
        path
    }

    /// This path with `name` as one more component.
    pub fn join(&self, name: &str) -> (path: RelPath)
        ensures
            path@ == self@.push(name@),
    {
        let mut path = self.clone();
        let segment = String::from_str(name);
        proof {
            lemma_views_push(path.segments@, segment);
        }
        path.segments.push(segment);
        path
    }

    /// This path followed by the components of `other`.
    pub fn join_path(&self, other: &RelPath) -> (path: RelPath)
        ensures
            path@ == self@ + other@,
    {
        let mut path = self.clone();
        let n: usize = other.segments.len();
        let mut i: usize = 0;
        assert(self@ + other@.take(0) =~= path@);
        while i < n
            invariant
                i <= n,
                n == other.segments.len(),
                path@ == self@ + other@.take(i as int),
            decreases n - i,
        {
            let segment = other.segments[i].clone();
            proof {
                lemma_views_push(path.segments@, segment);
                assert(self@ + other@.take(i + 1) =~= (self@ + other@.take(i as int)).push(
                    segment@,
                ));
            }
            path.segments.push(segment);
            i = i + 1;
        }
        assert(other@.take(n as int) =~= other@);
        path
    }

    /// The directory that holds this path; the root has none.
    pub fn parent(&self) -> (parent: Option<RelPath>)
        ensures
            self@.len() == 0 ==> parent is None,
            self@.len() > 0 ==> parent is Some && parent->0@ == self@.drop_last(),
    {
        if self.segments.len() == 0 {
            None
        } else {
            let mut path = self.clone();
            path.segments.pop();
            assert(path@ =~= self@.drop_last());
            Some(path)
        }
    }

    /// The last component; the root has none.
    pub fn file_name(&self) -> (name: Option<String>)
        ensures
            self@.len() == 0 ==> name is None,
            self@.len() > 0 ==> name is Some && name->0@ == self@.last(),
    {
        let n: usize = self.segments.len();
        if n == 0 {
            None
        } else {
            Some(self.segments[n - 1].clone())
        }
    }

    /// Whether this path is `base` or lies below it.
    pub fn is_under(&self, base: &RelPath) -> (under: bool)
        ensures
            under == base@.is_prefix_of(self@),
    {
        let n: usize = base.segments.len();
        if n > self.segments.len() {
            return false;
        }
        let mut i: usize = 0;
        while i < n
            invariant
                i <= n,
                n == base.segments.len(),
                n <= self.segments.len(),
                forall|j: int| 0 <= j < i ==> base@[j] == self@[j],
            decreases n - i,
        {
            if self.segments[i] != base.segments[i] {
                assert(base@[i as int] != self@[i as int]);
                assert(self@.subrange(0, base@.len() as int)[i as int] == self@[i as int]);
                return false;
            }
            i = i + 1;
        }
        assert(base@ =~= self@.subrange(0, base@.len() as int));
        true
    }

    /// Whether every component is a safe name, so that the path cannot
    /// leave the directory it is resolved in.
    pub fn is_contained(&self) -> (contained: bool)
        ensures
            contained == stays_inside(self@),
    {
        let n: usize = self.segments.len();
        let mut i: usize = 0;
        while i < n
            invariant
                i <= n,
                n == self.segments.len(),
                forall|j: int| 0 <= j < i ==> safe_name(#[trigger] self@[j]),
            decreases n - i,
        {
            if !is_safe_name(self.segments[i].as_str()) {
                assert(!safe_name(self@[i as int]));
                return false;
            }
            i = i + 1;
        }
        true
    }

    /// The text of this path resolved in `root`.
    pub fn absolute(&self, root: &str) -> (text: String)
        ensures
            text@ == absolute_spec(root@, self@),
    {
        proof {
            reveal_strlit("/");
            assert("/"@ =~= seq!['/']);
        }
        if self.segments.len() == 0 {
            String::from_str(root)
        } else {
            let tail = join_with(&self.segments, "/");
            if root.unicode_len() == 0 || ends_with(root, "/") {
                chain(root, tail.as_str())
            } else {
                let mut text = chain(root, "/");
                text.append(tail.as_str());
                text
            }
        }
    }
}

} // verus!
