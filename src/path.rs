use vstd::prelude::*;
use vstd::string::*;

verus! {

/// A file-system path, held as its components in order.
///
/// A component is a name (`"photos"`, `"pic.png"`), the root `"/"` (only first),
/// `"."` or `".."`. The view is the sequence of the components' characters.
pub struct FilePath {
    pub parts: Vec<String>,
}

impl View for FilePath {
    type V = Seq<Seq<char>>;

    open spec fn view(&self) -> Seq<Seq<char>> {
        self.parts@.map_values(|s: String| s@)
    }
}

pub open spec fn root_part() -> Seq<char> {
    seq!['/']
}

pub open spec fn webp_suffix() -> Seq<char> {
    seq!['.', 'w', 'e', 'b', 'p']
}

/// A component that names a file or directory: not the root, `.` or `..`.
pub open spec fn is_name_part(s: Seq<char>) -> bool {
    &&& s.len() > 0
    &&& s != root_part()
    &&& s != seq!['.']
    &&& s != seq!['.', '.']
}

/// The last component, where it is a name.
pub open spec fn file_name_of(p: Seq<Seq<char>>) -> Option<Seq<char>> {
    if p.len() > 0 && is_name_part(p.last()) {
        Some(p.last())
    } else {
        None
    }
}

/// Index of the last `.` in `name[1..end]`, or 0 where there is none.
pub open spec fn last_dot_before(name: Seq<char>, end: int) -> int
    decreases end,
{
    if end <= 1 {
        0
    } else if name[end - 1] == '.' {
        end - 1
    } else {
        last_dot_before(name, end - 1)
    }
}

/// Where a file name splits into stem and extension: the last `.` that is not
/// its first character, or 0 where the name has no such dot.
pub open spec fn dot_index(name: Seq<char>) -> int {
    last_dot_before(name, name.len() as int)
}

/// The file name without its extension.
pub open spec fn stem_of_name(name: Seq<char>) -> Seq<char> {
    if dot_index(name) == 0 {
        name
    } else {
        name.subrange(0, dot_index(name))
    }
}

/// The text after the splitting dot, if the name has one.
pub open spec fn extension_of_name(name: Seq<char>) -> Option<Seq<char>> {
    if dot_index(name) == 0 {
        None
    } else {
        Some(name.subrange(dot_index(name) + 1, name.len() as int))
    }
}

pub open spec fn extension_of(p: Seq<Seq<char>>) -> Option<Seq<char>> {
    match file_name_of(p) {
        Some(n) => extension_of_name(n),
        None => None,
    }
}

pub open spec fn stem_of(p: Seq<Seq<char>>) -> Option<Seq<char>> {
    match file_name_of(p) {
        Some(n) => Some(stem_of_name(n)),
        None => None,
    }
}

/// The path with its file name's extension replaced by `.webp`.
pub open spec fn with_webp_extension(p: Seq<Seq<char>>) -> Option<Seq<Seq<char>>> {
    match stem_of(p) {
        Some(s) => Some(p.drop_last().push(s + webp_suffix())),
        None => None,
    }
}

/// `p` with the leading components `base` taken off, where `p` begins with them.
pub open spec fn strip_prefix_of(p: Seq<Seq<char>>, base: Seq<Seq<char>>) -> Option<Seq<Seq<char>>> {
    if base.len() <= p.len() && p.subrange(0, base.len() as int) == base {
        Some(p.subrange(base.len() as int, p.len() as int))
    } else {
        None
    }
}

/// The path without its last component; none for the empty path and the root.
pub open spec fn parent_of(p: Seq<Seq<char>>) -> Option<Seq<Seq<char>>> {
    if p.len() == 0 || (p.len() == 1 && p[0] == root_part()) {
        None
    } else {
        Some(p.drop_last())
    }
}

pub open spec fn is_absolute(p: Seq<Seq<char>>) -> bool {
    p.len() > 0 && p[0] == root_part()
}

/// `b` appended to `a`; an absolute `b` replaces `a`.
pub open spec fn join_of(a: Seq<Seq<char>>, b: Seq<Seq<char>>) -> Seq<Seq<char>> {
    if is_absolute(b) {
        b
    } else {
        a + b
    }
}

proof fn lemma_last_dot_bounds(name: Seq<char>, end: int)
    requires
        end <= name.len(),
    ensures
        last_dot_before(name, end) == 0 || (1 <= last_dot_before(name, end) < end
            && name[last_dot_before(name, end)] == '.'),
    decreases end,
{
    if end > 1 && name[end - 1] != '.' {
        lemma_last_dot_bounds(name, end - 1);
    }
}

fn dot_index_of(name: &str) -> (r: usize)
    ensures
        r as int == dot_index(name@),
        r == 0 || (1 <= r < name@.len() && name@[r as int] == '.'),
{
    proof {
        lemma_last_dot_bounds(name@, name@.len() as int);
    }
    let mut end = name.unicode_len();
    while end > 1
        invariant
            end <= name@.len(),
            dot_index(name@) == last_dot_before(name@, end as int),
        decreases end,
    {
        if name.get_char(end - 1) == '.' {
            return end - 1;
        }
        end = end - 1;
    }
    0
}

pub(crate) fn copy_string(s: &String) -> (r: String)
    ensures
        r@ == s@,
{
    s.clone()
}

fn chars_equal(a: &str, b: &str) -> (r: bool)
    ensures
        r == (a@ == b@),
{
    let n = a.unicode_len();
    if n != b.unicode_len() {
        return false;
    }
    let mut i: usize = 0;
    while i < n
        invariant
            n == a@.len(),
            n == b@.len(),
            i <= n,
            a@.subrange(0, i as int) == b@.subrange(0, i as int),
        decreases n - i,
    {
        if a.get_char(i) != b.get_char(i) {
            assert(a@[i as int] != b@[i as int]);
            return false;
        }
        assert(a@.subrange(0, i + 1) == a@.subrange(0, i as int).push(a@[i as int]));
        assert(b@.subrange(0, i + 1) == b@.subrange(0, i as int).push(b@[i as int]));
        i = i + 1;
    }
    assert(a@ == a@.subrange(0, n as int));
    assert(b@ == b@.subrange(0, n as int));
    true
}

fn is_name_text(s: &str) -> (r: bool)
    ensures
        r == is_name_part(s@),
{
    proof {
        reveal_strlit("/");
        reveal_strlit(".");
        reveal_strlit("..");
    }
    assert("/"@ =~= root_part());
    assert("."@ =~= seq!['.']);
    assert(".."@ =~= seq!['.', '.']);
    s.unicode_len() > 0 && !chars_equal(s, "/") && !chars_equal(s, ".") && !chars_equal(s, "..")
}

impl FilePath {
    /// A path made of the given components.
    pub fn new(parts: Vec<String>) -> (r: FilePath)
        ensures
            r.parts@ == parts@,
    {
        FilePath { parts }
    }

    /// A copy with the same components.
    pub fn duplicate(&self) -> (r: FilePath)
        ensures
            r@ == self@,
    {
        let mut parts: Vec<String> = Vec::new();
        let mut i: usize = 0;
        while i < self.parts.len()
            invariant
                i <= self.parts@.len(),
                parts@.len() == i,
                forall|k: int| 0 <= k < i ==> parts@[k]@ == self.parts@[k]@,
            decreases self.parts@.len() - i,
        {
            parts.push(copy_string(&self.parts[i]));
            i = i + 1;
        }
        let r = FilePath { parts };
        assert(r@ =~= self@);
        r
    }

    /// The last component, where it is a name.
    pub fn file_name(&self) -> (r: Option<String>)
        ensures
            r matches Some(n) ==> file_name_of(self@) == Some(n@),
            r is None ==> file_name_of(self@) is None,
    {
        let n = self.parts.len();
        if n == 0 {
            return None;
        }
        let last = &self.parts[n - 1];
        assert(self@.last() == last@);
        if is_name_text(last.as_str()) {
            Some(copy_string(last))
        } else {
            None
        }
    }

    /// The file name without its extension.
    pub fn file_stem(&self) -> (r: Option<String>)
        ensures
            r matches Some(t) ==> stem_of(self@) == Some(t@),
            r is None ==> stem_of(self@) is None,
    {
        match self.file_name() {
            Some(name) => {
                let d = dot_index_of(name.as_str());
                if d == 0 {
                    Some(name)
                } else {
                    Some(String::from_str(name.as_str().substring_char(0, d)))
                }
            },
            None => None,
        }
    }

    /// The text after the last dot of the file name that is not its first character.
    pub fn extension(&self) -> (r: Option<String>)
        ensures
            r matches Some(t) ==> extension_of(self@) == Some(t@),
            r is None ==> extension_of(self@) is None,
    {
        match self.file_name() {
            Some(name) => {
                let d = dot_index_of(name.as_str());
                if d == 0 {
                    None
                } else {
                    let n = name.unicode_len();
                    Some(String::from_str(name.as_str().substring_char(d + 1, n)))
                }
            },
            None => None,
        }
    }

    /// The same path with the file name's extension replaced by `.webp`.
    pub fn with_webp_extension(&self) -> (r: Option<FilePath>)
        ensures
            r matches Some(q) ==> with_webp_extension(self@) == Some(q@),
            r is None ==> with_webp_extension(self@) is None,
    {
        match self.file_stem() {
            Some(stem) => {
                proof {
                    reveal_strlit(".webp");
                }
                assert(".webp"@ =~= webp_suffix());
                let name = stem.concat(".webp");
                let mut q = self.duplicate();
                q.parts.pop();
                q.parts.push(name);
                assert(q@ =~= self@.drop_last().push(stem@ + webp_suffix()));
                Some(q)
            },
            None => None,
        }
    }

    /// The components after `base`, where this path begins with them.
    pub fn strip_prefix(&self, base: &FilePath) -> (r: Option<FilePath>)
        ensures
            r matches Some(q) ==> strip_prefix_of(self@, base@) == Some(q@),
            r is None ==> strip_prefix_of(self@, base@) is None,
    {
        let n = self.parts.len();
        let m = base.parts.len();
        if m > n {
            return None;
        }
        let mut i: usize = 0;
        while i < m
            invariant
                m == base@.len(),
                n == self@.len(),
                m <= n,
                i <= m,
                self@.subrange(0, i as int) == base@.subrange(0, i as int),
            decreases m - i,
        {
            if !chars_equal(self.parts[i].as_str(), base.parts[i].as_str()) {
                assert(self@.subrange(0, m as int)[i as int] != base@[i as int]);
                return None;
            }
            assert(self@.subrange(0, i + 1) =~= self@.subrange(0, i as int).push(self@[i as int]));
            assert(base@.subrange(0, i + 1) =~= base@.subrange(0, i as int).push(base@[i as int]));
            i = i + 1;
        }
        assert(base@ =~= base@.subrange(0, m as int));
        let mut parts: Vec<String> = Vec::new();
        let mut j: usize = m;
        while j < n
            invariant
                m <= j <= n,
                n == self@.len(),
                parts@.len() == j - m,
                forall|k: int| 0 <= k < j - m ==> parts@[k]@ == self@[m + k],
            decreases n - j,
        {
            parts.push(copy_string(&self.parts[j]));
            j = j + 1;
        }
        let q = FilePath { parts };
        assert(q@ =~= self@.subrange(m as int, n as int));
        Some(q)
    }

    /// The directory that holds this path: all but the last component.
    pub fn parent(&self) -> (r: Option<FilePath>)
        ensures
            r matches Some(q) ==> parent_of(self@) == Some(q@),
            r is None ==> parent_of(self@) is None,
    {
        let n = self.parts.len();
        if n == 0 || (n == 1 && self.is_absolute()) {
            return None;
        }
        let mut q = self.duplicate();
        q.parts.pop();
        assert(q@ =~= self@.drop_last());
        Some(q)
    }

    /// Whether the first component is the root.
    pub fn is_absolute(&self) -> (r: bool)
        ensures
            r == is_absolute(self@),
    {
        proof {
            reveal_strlit("/");
        }
        assert("/"@ =~= root_part());
        self.parts.len() > 0 && chars_equal(self.parts[0].as_str(), "/")
    }

    /// `other` appended to this path; an absolute `other` replaces it.
    pub fn join(&self, other: &FilePath) -> (r: FilePath)
        ensures
            r@ == join_of(self@, other@),
    {
        if other.is_absolute() {
            return other.duplicate();
        }
        let mut q = self.duplicate();
        let ghost start = q@;
        let mut j: usize = 0;
        while j < other.parts.len()
            invariant
                j <= other@.len(),
                q@ == start + other@.subrange(0, j as int),
            decreases other@.len() - j,
        {
            let ghost prev = q@;
            q.parts.push(copy_string(&other.parts[j]));
            assert(q@ =~= prev.push(other@[j as int]));
            assert(other@.subrange(0, j + 1) =~= other@.subrange(0, j as int).push(other@[j as int]));
            assert(q@ =~= start + other@.subrange(0, j + 1));
            j = j + 1;
        }
        assert(other@ =~= other@.subrange(0, other@.len() as int));
        q
    }
}

} // verus!
