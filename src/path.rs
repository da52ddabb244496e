use vstd::prelude::*;

verus! {

/// A path as the sequence of its components, each one as text.
pub type PathModel = Seq<Seq<char>>;

/// The components that std's path parser yields for a path string.
pub uninterp spec fn components_of(s: Seq<char>) -> PathModel;

/// Relies on `std::path::Path::components`: the components of `s`, in order,
/// each one as the text of its `OsStr` (the root directory reads `/`).
#[verifier::external_body]
fn split_components(s: &str) -> (r: Vec<String>)
    ensures
        r@.map_values(|c: String| c@) == components_of(s@),
{
    std::path::Path::new(s).components().map(|c| c.as_os_str().to_string_lossy().into_owned()).collect()
}

/// Relies on `str::starts_with` with a `char` pattern.
#[verifier::external_body]
fn text_starts_with(s: &String, c: char) -> (r: bool)
    ensures
        r == (s@.len() > 0 && s@[0] == c),
{
    s.starts_with(c)
}

/// Relies on `str::ends_with` with a `char` pattern.
#[verifier::external_body]
fn text_ends_with(s: &String, c: char) -> (r: bool)
    ensures
        r == (s@.len() > 0 && s@.last() == c),
{
    s.ends_with(c)
}

/// `base` is made of the leading components of `p`.
pub open spec fn is_prefix_of(base: PathModel, p: PathModel) -> bool {
    base.len() <= p.len() && p.subrange(0, base.len() as int) == base
}

/// A hidden name starts with a dot.
pub open spec fn is_hidden_name(c: Seq<char>) -> bool {
    c.len() > 0 && c[0] == '.'
}

/// An editor backup name ends with a tilde.
pub open spec fn is_backup_name(c: Seq<char>) -> bool {
    c.len() > 0 && c.last() == '~'
}

pub open spec fn has_hidden_component(p: PathModel) -> bool {
    exists|i: int| 0 <= i < p.len() && is_hidden_name(#[trigger] p[i])
}

pub open spec fn has_backup_component(p: PathModel) -> bool {
    exists|i: int| 0 <= i < p.len() && is_backup_name(#[trigger] p[i])
}

/// A filesystem path held as its components.
#[derive(Clone, Debug)]
pub struct WatchPath {
    parts: Vec<String>,
}

impl View for WatchPath {
    type V = PathModel;

    closed spec fn view(&self) -> PathModel {
        self.parts@.map_values(|c: String| c@)
    }
}

impl WatchPath {
    /// Parses a path string into its components.
    pub fn new(s: &str) -> (r: WatchPath)
        ensures
            r@ == components_of(s@),
    {
        WatchPath { parts: split_components(s) }
    }

    /// A path made of the given components, in order.
    pub fn from_components(parts: Vec<String>) -> (r: WatchPath)
        ensures
            r@ == parts@.map_values(|c: String| c@),
    {
        WatchPath { parts }
    }

    /// A second path with the same components.
    pub fn copied(&self) -> (r: WatchPath)
        ensures
            r@ == self@,
    {
        let empty = WatchPath { parts: Vec::new() };
        let r = self.join(&empty);
        assert(self@ + empty@ =~= self@);
        r
    }

    /// The components of this path.
    pub fn components(&self) -> (r: &Vec<String>)
        ensures
            r@.map_values(|c: String| c@) == self@,
    {
        &self.parts
    }

    /// The number of components.
    pub fn len(&self) -> (r: usize)
        ensures
            r == self@.len(),
    {
        self.parts.len()
    }

    /// This path followed by the components of `tail`.
    pub fn join(&self, tail: &WatchPath) -> (r: WatchPath)
        ensures
            r@ == self@ + tail@,
    {
        let mut parts: Vec<String> = Vec::new();
        let mut i: usize = 0;
        while i < self.parts.len()
            invariant
                i <= self.parts@.len(),
                parts@ == self.parts@.subrange(0, i as int),
            decreases self.parts@.len() - i,
        {
            parts.push(self.parts[i].clone());
            i += 1;
            assert(parts@ =~= self.parts@.subrange(0, i as int));
        }
        let mut j: usize = 0;
        while j < tail.parts.len()
            invariant
                j <= tail.parts@.len(),
                i == self.parts@.len(),
                parts@ == self.parts@ + tail.parts@.subrange(0, j as int),
            decreases tail.parts@.len() - j,
        {
            parts.push(tail.parts[j].clone());
            j += 1;
            assert(parts@ =~= self.parts@ + tail.parts@.subrange(0, j as int));
        }
        assert(parts@ =~= self.parts@ + tail.parts@);
        let r = WatchPath { parts };
        assert(r@ =~= self@ + tail@);
        r
    }

    /// Whether `base` is a leading run of whole components of this path.
    pub fn starts_with(&self, base: &WatchPath) -> (r: bool)
        ensures
            r == is_prefix_of(base@, self@),
    {
        if base.parts.len() > self.parts.len() {
            return false;
        }
        let mut i: usize = 0;
        while i < base.parts.len()
            invariant
                base@.len() <= self@.len(),
                i <= base@.len(),
                forall|k: int| 0 <= k < i ==> self@[k] == base@[k],
            decreases base@.len() - i,
        {
            if self.parts[i] != base.parts[i] {
                assert(self@.subrange(0, base@.len() as int)[i as int] != base@[i as int]);
                return false;
            }
            i += 1;
        }
        assert(self@.subrange(0, base@.len() as int) =~= base@);
        true
    }

    /// The components after `base`, if `base` leads this path.
    pub fn strip_prefix(&self, base: &WatchPath) -> (r: Option<WatchPath>)
        ensures
            r is Some <==> is_prefix_of(base@, self@),
            r is Some ==> r->0@ == self@.skip(base@.len() as int),
    {
        if !self.starts_with(base) {
            return None;
        }
        let start = base.parts.len();
        let mut parts: Vec<String> = Vec::new();
        let mut i: usize = start;
        while i < self.parts.len()
            invariant
                start <= i <= self.parts@.len(),
                start == base@.len(),
                parts@ == self.parts@.subrange(start as int, i as int),
            decreases self.parts@.len() - i,
        {
            parts.push(self.parts[i].clone());
            i += 1;
            assert(parts@ =~= self.parts@.subrange(start as int, i as int));
        }
        assert(parts@ =~= self.parts@.skip(start as int));
        let r = WatchPath { parts };
        assert(r@ =~= self@.skip(start as int));
        Some(r)
    }

    /// Whether some component starts with a dot.
    pub fn has_hidden_component(&self) -> (r: bool)
        ensures
            r == has_hidden_component(self@),
    {
        let mut i: usize = 0;
        while i < self.parts.len()
            invariant
                i <= self@.len(),
                forall|k: int| 0 <= k < i ==> !is_hidden_name(#[trigger] self@[k]),
            decreases self@.len() - i,
        {
            if text_starts_with(&self.parts[i], '.') {
                assert(is_hidden_name(self@[i as int]));
                return true;
            }
            i += 1;
        }
        false
    }

    /// Whether some component ends with a tilde.
    pub fn has_backup_component(&self) -> (r: bool)
        ensures
            r == has_backup_component(self@),
    {
        let mut i: usize = 0;
        while i < self.parts.len()
            invariant
                i <= self@.len(),
                forall|k: int| 0 <= k < i ==> !is_backup_name(#[trigger] self@[k]),
            decreases self@.len() - i,
        {
            if text_ends_with(&self.parts[i], '~') {
                assert(is_backup_name(self@[i as int]));
                return true;
            }
            i += 1;
        }
        false
    }
}

} // verus!
