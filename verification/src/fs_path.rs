use vstd::prelude::*;

verus! {

/// The mathematical meaning of a path: whether it starts at the root
/// directory, and the sequence of its components.
pub struct PathModel {
    pub absolute: bool,
    pub parts: Seq<Seq<char>>,
}

/// A file-system path held as its components, compared component by component.
#[derive(Debug, Clone, PartialEq, Eq)]
pub struct FsPath {
    pub absolute: bool,
    pub components: Vec<String>,
}

impl View for FsPath {
    type V = PathModel;

    open spec fn view(&self) -> PathModel {
        PathModel { absolute: self.absolute, parts: self.components@.map_values(|s: String| s@) }
    }
}

/// `prefix` is an initial segment of `s`.
pub open spec fn is_prefix_of(prefix: Seq<Seq<char>>, s: Seq<Seq<char>>) -> bool {
    &&& prefix.len() <= s.len()
    &&& forall|i: int| 0 <= i < prefix.len() ==> #[trigger] prefix[i] == s[i]
}

/// `path` lies at or below `base`.
pub open spec fn path_starts_with(path: PathModel, base: PathModel) -> bool {
    path.absolute == base.absolute && is_prefix_of(base.parts, path.parts)
}

/// The directory that holds `path`, if it has one.
pub open spec fn path_parent(path: PathModel) -> Option<PathModel> {
    if path.parts.len() == 0 {
        None
    } else {
        Some(PathModel { absolute: path.absolute, parts: path.parts.drop_last() })
    }
}


/// Components joined by `/`.
pub open spec fn join_parts(parts: Seq<Seq<char>>) -> Seq<char>
    decreases parts.len(),
{
    if parts.len() == 0 {
        Seq::empty()
    } else if parts.len() == 1 {
        parts[0]
    } else {
        join_parts(parts.drop_last()) + seq!['/'] + parts.last()
    }
}

/// The text of a path: a leading `/` for an absolute path, then the components joined by `/`.
pub open spec fn path_text_of(path: PathModel) -> Seq<char> {
    if path.absolute {
        seq!['/'] + join_parts(path.parts)
    } else {
        join_parts(path.parts)
    }
}

/// The final component of a path, when it names an entry (not `.` or `..`).
pub open spec fn path_file_name(path: PathModel) -> Option<Seq<char>> {
    if path.parts.len() == 0 || path.parts.last() == seq!['.', '.'] || path.parts.last() == seq!['.'] {
        None
    } else {
        Some(path.parts.last())
    }
}

impl FsPath {
    /// The root directory `/`.
    pub fn root() -> (r: FsPath)
        ensures
            r@.absolute,
            r@.parts == Seq::<Seq<char>>::empty(),
    {
        let r = FsPath { absolute: true, components: Vec::new() };
        assert(r@.parts =~= Seq::<Seq<char>>::empty());
        r
    }

    /// A copy of this path.
    pub fn copy(&self) -> (r: FsPath)
        ensures
            r@ == self@,
    {
        let mut components: Vec<String> = Vec::new();
        let mut i: usize = 0;
        while i < self.components.len()
            invariant
                i <= self.components.len(),
                components@.len() == i,
                forall|j: int| 0 <= j < i ==> #[trigger] components@[j]@ == self.components@[j]@,
            decreases self.components.len() - i,
        {
            components.push(self.components[i].clone());
            i = i + 1;
        }
        let r = FsPath { absolute: self.absolute, components };
        assert(r@.parts =~= self@.parts);
        r
    }

    /// The path made of the first `n` components.
    pub fn prefix(&self, n: usize) -> (r: FsPath)
        requires
            n <= self@.parts.len(),
        ensures
            r@ == (PathModel { absolute: self@.absolute, parts: self@.parts.take(n as int) }),
    {
        let mut components: Vec<String> = Vec::new();
        let mut i: usize = 0;
        while i < n
            invariant
                i <= n <= self.components@.len(),
                components@.len() == i,
                forall|j: int| 0 <= j < i ==> #[trigger] components@[j]@ == self.components@[j]@,
            decreases n - i,
        {
            components.push(self.components[i].clone());
            i = i + 1;
        }
        let r = FsPath { absolute: self.absolute, components };
        assert(r@.parts =~= self@.parts.take(n as int));
        r
    }

    /// The number of components.
    pub fn component_count(&self) -> (n: usize)
        ensures
            n == self@.parts.len(),
    {
        self.components.len()
    }

    /// This path with one more component.
    pub fn join(&self, name: &str) -> (r: FsPath)
        ensures
            r@.absolute == self@.absolute,
            r@.parts == self@.parts.push(name@),
    {
        let mut r = self.copy();
        r.components.push(name.to_string());
        assert(r@.parts =~= self@.parts.push(name@));
        r
    }

    /// The two paths name the same location, component by component.
    pub fn same_path(&self, other: &FsPath) -> (r: bool)
        ensures
            r == (self@ == other@),
    {
        if self.absolute != other.absolute || self.components.len() != other.components.len() {
            proof {
                if self@ == other@ {
                    assert(self@.parts.len() == other@.parts.len());
                }
            }
            return false;
        }
        let mut i: usize = 0;
        while i < self.components.len()
            invariant
                i <= self.components.len(),
                self.components.len() == other.components.len(),
                forall|j: int| 0 <= j < i ==> self@.parts[j] == other@.parts[j],
            decreases self.components.len() - i,
        {
            if self.components[i] != other.components[i] {
                proof {
                    assert(self@.parts[i as int] != other@.parts[i as int]);
                }
                return false;
            }
            i = i + 1;
        }
        assert(self@.parts =~= other@.parts);
        true
    }

    /// This path lies at or below `base`.
    pub fn starts_with(&self, base: &FsPath) -> (r: bool)
        ensures
            r == path_starts_with(self@, base@),
    {
        if self.absolute != base.absolute || base.components.len() > self.components.len() {
            return false;
        }
        let mut i: usize = 0;
        while i < base.components.len()
            invariant
                i <= base.components.len(),
                base.components.len() <= self.components.len(),
                forall|j: int| 0 <= j < i ==> #[trigger] base@.parts[j] == self@.parts[j],
            decreases base.components.len() - i,
        {
            if base.components[i] != self.components[i] {
                proof {
                    assert(base@.parts[i as int] != self@.parts[i as int]);
                }
                return false;
            }
            i = i + 1;
        }
        true
    }

    /// The directory that holds this path, if any.
    pub fn parent(&self) -> (r: Option<FsPath>)
        ensures
            match r {
                Some(p) => path_parent(self@) == Some(p@),
                None => path_parent(self@) is None,
            },
    {
        if self.components.len() == 0 {
            return None;
        }
        let mut r = self.copy();
        r.components.pop();
        assert(r@.parts =~= self@.parts.drop_last());
        Some(r)
    }

    /// The final component, when it names an entry.
    pub fn file_name(&self) -> (r: Option<String>)
        ensures
            match r {
                Some(name) => path_file_name(self@) == Some(name@),
                None => path_file_name(self@) is None,
            },
    {
        let n = self.components.len();
        if n == 0 {
            return None;
        }
        let last = &self.components[n - 1];
        let last_text = last.as_str();
        let len = last_text.unicode_len();
        let is_dot = len == 1 && last_text.get_char(0) == '.';
        let is_dot_dot = len == 2 && last_text.get_char(0) == '.' && last_text.get_char(1) == '.';
        proof {
            assert(self@.parts.last() == last@);
            if last@ == seq!['.'] {
                assert(len == 1 && last_text@[0] == '.');
            }
            if last@ == seq!['.', '.'] {
                assert(len == 2 && last_text@[0] == '.' && last_text@[1] == '.');
            }
            if is_dot {
                assert(last@ =~= seq!['.']);
            }
            if is_dot_dot {
                assert(last@ =~= seq!['.', '.']);
            }
        }
        if is_dot || is_dot_dot {
            None
        } else {
            Some(last.clone())
        }
    }

    /// The text of this path.
    pub fn path_text(&self) -> (r: String)
        ensures
            r@ == path_text_of(self@),
    {
        let mut joined = String::new();
        let mut i: usize = 0;
        while i < self.components.len()
            invariant
                i <= self.components.len(),
                joined@ == join_parts(self@.parts.take(i as int)),
            decreases self.components.len() - i,
        {
            proof {
                assert(self@.parts.take(i + 1).drop_last() =~= self@.parts.take(i as int));
            }
            if i > 0 {
                joined.append("/");
                proof {
                    reveal_strlit("/");
                }
            }
            joined.append(self.components[i].as_str());
            proof {
                let t = self@.parts.take(i + 1);
                assert(t.last() == self@.parts[i as int]);
                if i == 0 {
                    assert(t.len() == 1);
                    assert(joined@ =~= join_parts(t));
                } else {
                    assert(joined@ =~= join_parts(t));
                }
            }
            i = i + 1;
        }
        assert(self@.parts.take(self.components.len() as int) =~= self@.parts);
        if self.absolute {
            let mut r = String::from_str("/");
            proof {
                reveal_strlit("/");
            }
            r.append(joined.as_str());
            assert(r@ =~= seq!['/'] + join_parts(self@.parts));
            r
        } else {
            joined
        }
    }
}

} // verus!
