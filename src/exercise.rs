use vstd::prelude::*;

verus! {

/// How an exercise's source is treated.
#[derive(Clone, Copy, Debug, PartialEq, Eq, Structural)]
pub enum Mode {
    /// Compiled as a binary and run.
    Compile,
    /// Compiled as a test harness and run with captured output shown.
    Test,
    /// Linted only; nothing is run.
    Clippy,
}

/// `c` is the lower-case letter or other character `e`, or the upper-case form of the
/// ASCII letter `e`.
pub open spec fn same_letter(c: char, e: char) -> bool {
    c == e || ('a' <= e <= 'z' && c as u32 + 32 == e as u32)
}

/// `s` spells the lower-case word `word`, ignoring the case of ASCII letters.
pub open spec fn spells(s: Seq<char>, word: Seq<char>) -> bool {
    s.len() == word.len() && forall|i: int| 0 <= i < s.len() ==> same_letter(s[i], word[i])
}

/// Whether `s` spells the lower-case word `word`, ignoring the case of ASCII letters.
fn spells_word(s: &str, word: &str) -> (r: bool)
    ensures
        r == spells(s@, word@),
{
    let n = s.unicode_len();
    if n != word.unicode_len() {
        return false;
    }
    let mut i: usize = 0;
    while i < n
        invariant
            n == s@.len(),
            n == word@.len(),
            i <= n,
            forall|j: int| 0 <= j < i ==> same_letter(s@[j], word@[j]),
        decreases n - i,
    {
        let c = s.get_char(i);
        let e = word.get_char(i);
        let same = c == e || ('a' <= e && e <= 'z' && (c as u32) + 32 == e as u32);
        if !same {
            return false;
        }
        i = i + 1;
    }
    true
}

impl Mode {
    /// The mode named `s` in a manifest: `compile`, `test` or `clippy`, in any case.
    pub fn from_name(s: &str) -> (r: Option<Mode>)
        ensures
            r == Some(Mode::Compile) <==> spells(s@, "compile"@),
            r == Some(Mode::Test) <==> spells(s@, "test"@),
            r == Some(Mode::Clippy) <==> spells(s@, "clippy"@),
    {
        proof {
            reveal_strlit("compile");
            reveal_strlit("test");
            reveal_strlit("clippy");
        }
        if spells_word(s, "compile") {
            Some(Mode::Compile)
        } else if spells_word(s, "test") {
            Some(Mode::Test)
        } else if spells_word(s, "clippy") {
            Some(Mode::Clippy)
        } else {
            None
        }
    }
}

/// One exercise of the catalog.
#[derive(Debug)]
pub struct Exercise {
    /// Unique name of the exercise.
    pub name: String,
    /// Location of the source file, laid out as `<root>/<folder>/<file>`.
    pub path: String,
    /// How the source is treated.
    pub mode: Mode,
    /// Free text shown to the user.
    pub hint: String,
}

/// The catalog of exercises, in manifest order.
pub struct ExerciseList {
    pub exercises: Vec<Exercise>,
}

/// Captured text of a finished process.
#[derive(Debug)]
pub struct ExerciseOutput {
    pub stdout: String,
    pub stderr: String,
}

/// Why a lookup in the catalog found nothing.
#[derive(Clone, Copy, Debug, PartialEq, Eq, Structural)]
pub enum LookupError {
    /// No exercise carries the requested name, or lies in the requested folder.
    NotFound,
}

/// Why a list of exercises cannot form a catalog.
#[derive(Clone, Copy, Debug, PartialEq, Eq, Structural)]
pub enum CatalogError {
    /// Two exercises share a name; the positions of the first such pair.
    DuplicateName(usize, usize),
}

/// Names in `exs` are pairwise distinct.
pub open spec fn unique_names(exs: Seq<Exercise>) -> bool {
    forall|i: int, j: int|
        0 <= i < exs.len() && 0 <= j < exs.len() && i != j ==> exs[i].name@ != exs[j].name@
}

/// Position of the first `'/'` in `s` at or after `from`; `s.len()` where there is none.
pub open spec fn next_slash(s: Seq<char>, from: int) -> int
    decreases s.len() - from,
{
    if from < 0 || from >= s.len() {
        s.len() as int
    } else if s[from] == '/' {
        from
    } else {
        next_slash(s, from + 1)
    }
}

/// The second segment of a `/`-separated path; none where the path has a single segment.
pub open spec fn folder_of(path: Seq<char>) -> Option<Seq<char>> {
    let first = next_slash(path, 0);
    if first >= path.len() {
        None
    } else {
        Some(path.subrange(first + 1, next_slash(path, first + 1)))
    }
}

/// The exercise `e` lies in the folder named `folder`.
pub open spec fn in_folder(e: Exercise, folder: Seq<char>) -> bool {
    folder_of(e.path@) == Some(folder)
}

proof fn lemma_next_slash_bounds(s: Seq<char>, from: int)
    requires
        0 <= from <= s.len(),
    ensures
        from <= next_slash(s, from) <= s.len(),
        next_slash(s, from) < s.len() ==> s[next_slash(s, from)] == '/',
    decreases s.len() - from,
{
    if from < s.len() && s[from] != '/' {
        lemma_next_slash_bounds(s, from + 1);
    }
}

/// Position of the first `'/'` in `s` at or after `from`, or the length of `s`.
fn find_slash(s: &str, from: usize) -> (r: usize)
    requires
        from <= s@.len(),
    ensures
        r == next_slash(s@, from as int),
{
    let n = s.unicode_len();
    let mut i: usize = from;
    while i < n && s.get_char(i) != '/'
        invariant
            from <= i <= n,
            n == s@.len(),
            next_slash(s@, from as int) == next_slash(s@, i as int),
        decreases n - i,
    {
        i = i + 1;
    }
    i
}

/// Whether the characters of `s` from `start` on begin with those of `t`.
fn matches_at(s: &str, start: usize, t: &str) -> (r: bool)
    requires
        start <= s@.len(),
    ensures
        r == (start + t@.len() <= s@.len() && s@.subrange(start as int, start + t@.len()) == t@),
{
    let n = s.unicode_len();
    let m = t.unicode_len();
    if m > n - start {
        return false;
    }
    let mut k: usize = 0;
    while k < m
        invariant
            n == s@.len(),
            m == t@.len(),
            start + m <= n,
            k <= m,
            forall|j: int| 0 <= j < k ==> s@[start + j] == t@[j],
        decreases m - k,
    {
        if s.get_char(start + k) != t.get_char(k) {
            assert(s@.subrange(start as int, start + m)[k as int] != t@[k as int]);
            return false;
        }
        k = k + 1;
    }
    assert(s@.subrange(start as int, start + m) =~= t@);
    true
}

/// Whether `s` and `t` hold the same characters.
fn same_text(s: &str, t: &str) -> (r: bool)
    ensures
        r == (s@ == t@),
{
    let n = s.unicode_len();
    let m = t.unicode_len();
    if n != m {
        return false;
    }
    let r = matches_at(s, 0, t);
    assert(s@.subrange(0, n as int) =~= s@);
    r
}

/// Whether the folder segment of `path` is `folder`.
fn folder_is(path: &str, folder: &str) -> (r: bool)
    ensures
        r == (folder_of(path@) == Some(folder@)),
{
    let n = path.unicode_len();
    let first = find_slash(path, 0);
    proof {
        lemma_next_slash_bounds(path@, 0);
    }
    if first >= n {
        return false;
    }
    let second = find_slash(path, first + 1);
    proof {
        lemma_next_slash_bounds(path@, first + 1);
    }
    if second - (first + 1) != folder.unicode_len() {
        return false;
    }
    matches_at(path, first + 1, folder)
}

impl ExerciseList {
    /// Names are unique within the catalog.
    pub open spec fn wf(&self) -> bool {
        unique_names(self.exercises@)
    }

    /// Position of the first exercise named `name`.
    pub open spec fn first_named(&self, name: Seq<char>, i: int) -> bool {
        &&& 0 <= i < self.exercises@.len()
        &&& self.exercises@[i].name@ == name
        &&& forall|j: int| 0 <= j < i ==> self.exercises@[j].name@ != name
    }

    /// Some exercise is named `name`.
    pub open spec fn has_name(&self, name: Seq<char>) -> bool {
        exists|i: int| 0 <= i < self.exercises@.len() && self.exercises@[i].name@ == name
    }

    /// Makes a catalog of `exercises`, kept in the given order; refused when two share a name.
    pub fn new(exercises: Vec<Exercise>) -> (r: Result<ExerciseList, CatalogError>)
        ensures
            r is Ok <==> unique_names(exercises@),
            r matches Ok(list) ==> list.exercises@ == exercises@ && list.wf(),
            r matches Err(CatalogError::DuplicateName(i, j)) ==> i < j < exercises@.len()
                && exercises@[i as int].name@ == exercises@[j as int].name@,
    {
        let n = exercises.len();
        let mut j: usize = 0;
        while j < n
            invariant
                n == exercises@.len(),
                j <= n,
                forall|a: int, b: int|
                    0 <= a < j && 0 <= b < j && a != b ==> exercises@[a].name@ != exercises@[b].name@,
            decreases n - j,
        {
            let mut i: usize = 0;
            while i < j
                invariant
                    n == exercises@.len(),
                    i <= j < n,
                    forall|a: int| 0 <= a < i ==> exercises@[a].name@ != exercises@[j as int].name@,
                decreases j - i,
            {
                if same_text(exercises[i].name.as_str(), exercises[j].name.as_str()) {
                    return Err(CatalogError::DuplicateName(i, j));
                }
                i = i + 1;
            }
            j = j + 1;
        }
        Ok(ExerciseList { exercises })
    }

    /// Position of the first exercise named `name`.
    pub(crate) fn position_of(&self, name: &str) -> (r: Option<usize>)
        ensures
            r matches Some(i) ==> self.first_named(name@, i as int),
            r is None <==> !self.has_name(name@),
    {
        let n = self.exercises.len();
        let mut i: usize = 0;
        while i < n
            invariant
                n == self.exercises@.len(),
                i <= n,
                forall|j: int| 0 <= j < i ==> self.exercises@[j].name@ != name@,
            decreases n - i,
        {
            if same_text(self.exercises[i].name.as_str(), name) {
                return Some(i);
            }
            i = i + 1;
        }
        None
    }

    /// The exercise named `name`, or `NotFound` when none is.
    pub fn find_by_name(&self, name: &str) -> (r: Result<&Exercise, LookupError>)
        ensures
            r is Ok <==> self.has_name(name@),
            r matches Ok(e) ==> exists|i: int| self.first_named(name@, i) && *e == self.exercises@[i],
    {
        match self.position_of(name) {
            Some(i) => Ok(&self.exercises[i]),
            None => Err(LookupError::NotFound),
        }
    }

    /// Some exercise lies in the folder `folder`.
    pub open spec fn has_folder(&self, folder: Seq<char>) -> bool {
        exists|i: int| 0 <= i < self.exercises@.len() && in_folder(self.exercises@[i], folder)
    }

    /// `ps` lists, in manifest order, exactly the positions of the exercises in `folder`.
    pub open spec fn folder_positions(&self, folder: Seq<char>, ps: Seq<usize>) -> bool {
        &&& forall|k: int, l: int| 0 <= k < l < ps.len() ==> ps[k] < ps[l]
        &&& forall|k: int| 0 <= k < ps.len() ==> ps[k] < self.exercises@.len()
            && in_folder(self.exercises@[ps[k] as int], folder)
        &&& forall|i: int| 0 <= i < self.exercises@.len() && in_folder(self.exercises@[i], folder)
            ==> ps.contains(i as usize)
    }

    /// Positions, in manifest order, of the exercises whose folder segment is `folder`;
    /// `NotFound` when there are none.
    pub fn find_by_folder(&self, folder: &str) -> (r: Result<Vec<usize>, LookupError>)
        ensures
            r is Ok <==> self.has_folder(folder@),
            r matches Ok(ps) ==> self.folder_positions(folder@, ps@) && ps@.len() > 0,
    {
        let n = self.exercises.len();
        let mut ps: Vec<usize> = Vec::new();
        let mut i: usize = 0;
        while i < n
            invariant
                n == self.exercises@.len(),
                i <= n,
                forall|k: int, l: int| 0 <= k < l < ps@.len() ==> ps@[k] < ps@[l],
                forall|k: int| 0 <= k < ps@.len() ==> ps@[k] < i
                    && in_folder(self.exercises@[ps@[k] as int], folder@),
                forall|j: int| 0 <= j < i && in_folder(self.exercises@[j], folder@)
                    ==> ps@.contains(j as usize),
            decreases n - i,
        {
            if folder_is(self.exercises[i].path.as_str(), folder) {
                let ghost old_ps = ps@;
                ps.push(i);
                assert forall|j: int| 0 <= j <= i && in_folder(self.exercises@[j], folder@)
                    implies ps@.contains(j as usize) by {
                    if j < i {
                        let k = choose|k: int| 0 <= k < old_ps.len() && old_ps[k] == j as usize;
                        assert(ps@[k] == j as usize);
                    } else {
                        assert(ps@[old_ps.len() as int] == j as usize);
                    }
                }
            }
            i = i + 1;
        }
        if ps.len() == 0 {
            assert forall|j: int| 0 <= j < n implies !in_folder(self.exercises@[j], folder@) by {
                if in_folder(self.exercises@[j], folder@) {
                    assert(ps@.contains(j as usize));
                }
            }
            Err(LookupError::NotFound)
        } else {
            assert(in_folder(self.exercises@[ps@[0] as int], folder@));
            Ok(ps)
        }
    }
}

/// In a well-formed catalog an exercise is the one found by its own name, and no other is.
pub proof fn lemma_name_lookup_exact(list: ExerciseList, name: Seq<char>, i: int)
    requires
        list.wf(),
        0 <= i < list.exercises@.len(),
        list.exercises@[i].name@ == name,
    ensures
        list.has_name(name),
        list.first_named(name, i),
        forall|j: int| list.first_named(name, j) ==> j == i,
{
}

} // verus!
