use vstd::prelude::*;

verus! {

/// What a path turned out to be when the file system was asked.
#[derive(Clone, Copy, PartialEq, Eq, Structural, Debug)]
pub enum EntryKind {
    File,
    Dir,
    /// Anything else, including a path that does not exist.
    Other,
}

/// The string values of a sequence of owned strings.
pub open spec fn spec_views(s: Seq<String>) -> Seq<Seq<char>> {
    s.map_values(|x: String| x@)
}

/// A sequence with every later repetition of an earlier element removed:
/// each element keeps its first occurrence only.
pub open spec fn spec_dedup(s: Seq<Seq<char>>) -> Seq<Seq<char>>
    decreases s.len(),
{
    if s.len() == 0 {
        Seq::empty()
    } else if s.drop_last().contains(s.last())  {
        spec_dedup(s.drop_last())
    } else {
        spec_dedup(s.drop_last()).push(s.last())
    }
}

/// Deduplication keeps exactly the elements of the input: nothing is lost
/// and nothing is invented.
pub proof fn lemma_dedup_same_elements(s: Seq<Seq<char>>)
    ensures
        forall|x: Seq<char>| spec_dedup(s).contains(x) <==> s.contains(x),
    decreases s.len(),
{
    if s.len() > 0 {
        lemma_dedup_same_elements(s.drop_last());
        assert forall|x: Seq<char>| s.contains(x) implies spec_dedup(s).contains(x) by {
            let i = choose|i: int| 0 <= i < s.len() && s[i] == x;
            if i < s.len() - 1 || s.drop_last().contains(s.last()) {
                if i < s.len() - 1 {
                    assert(s.drop_last()[i] == x);
                }
                assert(s.drop_last().contains(x));
                assert(spec_dedup(s.drop_last()).contains(x));
                let j = choose|j: int|
                    0 <= j < spec_dedup(s.drop_last()).len() && spec_dedup(s.drop_last())[j] == x;
                assert(spec_dedup(s)[j] == x);
            } else {
                assert(spec_dedup(s)[spec_dedup(s).len() - 1] == x);
            }
        }
        assert forall|x: Seq<char>| spec_dedup(s).contains(x) implies s.contains(x) by {
            if s.drop_last().contains(s.last()) {
                assert(s.drop_last().contains(x));
                let i = choose|i: int| 0 <= i < s.drop_last().len() && s.drop_last()[i] == x;
                assert(s[i] == x);
            } else {
                let i = choose|i: int| 0 <= i < spec_dedup(s).len() && spec_dedup(s)[i] == x;
                if i < spec_dedup(s).len() - 1 {
                    assert(spec_dedup(s.drop_last())[i] == x);
                    assert(s.drop_last().contains(x));
                    let j = choose|j: int| 0 <= j < s.drop_last().len() && s.drop_last()[j] == x;
                    assert(s[j] == x);
                } else {
                    assert(s[s.len() - 1] == x);
                }
            }
        }
    }
}

/// Deduplication leaves no element twice.
pub proof fn lemma_dedup_no_duplicates(s: Seq<Seq<char>>)
    ensures
        forall|i: int, j: int|
            0 <= i < j < spec_dedup(s).len() ==> spec_dedup(s)[i] != spec_dedup(s)[j],
    decreases s.len(),
{
    if s.len() > 0 {
        lemma_dedup_no_duplicates(s.drop_last());
        lemma_dedup_same_elements(s.drop_last());
        if !s.drop_last().contains(s.last()) {
            assert forall|i: int, j: int|
                0 <= i < j < spec_dedup(s).len() implies spec_dedup(s)[i] != spec_dedup(s)[j] by {
                if j == spec_dedup(s).len() - 1 {
                    assert(spec_dedup(s.drop_last()).contains(spec_dedup(s.drop_last())[i]));
                }
            }
        }
    }
}

/// The running state of file discovery: directories still to be listed and
/// the files found so far. The caller asks the file system on the state's
/// behalf: it classifies each command-line argument, lists one pending
/// directory at a time, and hands every observation back; the state makes
/// all the decisions.
pub struct Discovery {
    pub recurse: bool,
    pub pending: Vec<String>,
    pub files: Vec<String>,
}

impl Discovery {
    /// Starts a discovery run; `recurse` is the policy's
    /// `recurse_subdirectories`.
    pub fn new(recurse: bool) -> (r: Discovery)
        ensures
            r.recurse == recurse,
            r.pending@.len() == 0,
            r.files@.len() == 0,
    {
        Discovery { recurse, pending: Vec::new(), files: Vec::new() }
    }

    /// Takes one command-line argument: a file is a candidate as it
    /// stands, a directory is queued for listing, and anything else —
    /// including a path that does not exist — is silently dropped.
    pub fn add_arg(&mut self, path: String, kind: EntryKind)
        ensures
            final(self).recurse == old(self).recurse,
            kind == EntryKind::File ==> final(self).files@ == old(self).files@.push(path)
                && final(self).pending@ == old(self).pending@,
            kind == EntryKind::Dir ==> final(self).pending@ == old(self).pending@.push(path)
                && final(self).files@ == old(self).files@,
            kind == EntryKind::Other ==> *final(self) == *old(self),
    {
        match kind {
            EntryKind::File => self.files.push(path),
            EntryKind::Dir => self.pending.push(path),
            EntryKind::Other => {},
        }
    }

    /// Hands out the next directory to list, if any is pending.
    pub fn next_dir(&mut self) -> (r: Option<String>)
        ensures
            final(self).recurse == old(self).recurse,
            final(self).files@ == old(self).files@,
            old(self).pending@.len() == 0 ==> r is None && final(self).pending@ == old(
                self,
            ).pending@,
            old(self).pending@.len() > 0 ==> r == Some(old(self).pending@.last())
                && final(self).pending@ == old(self).pending@.drop_last(),
    {
        self.pending.pop()
    }

    /// Takes one entry seen while listing a directory: a file is a
    /// candidate; a subdirectory is queued only when recursion is on, and
    /// then every deeper level is listed the same way; anything else is
    /// dropped.
    pub fn note_entry(&mut self, path: String, kind: EntryKind)
        ensures
            final(self).recurse == old(self).recurse,
            kind == EntryKind::File ==> final(self).files@ == old(self).files@.push(path)
                && final(self).pending@ == old(self).pending@,
            kind == EntryKind::Dir && old(self).recurse ==> final(self).pending@ == old(
                self,
            ).pending@.push(path) && final(self).files@ == old(self).files@,
            kind == EntryKind::Dir && !old(self).recurse ==> *final(self) == *old(self),
            kind == EntryKind::Other ==> *final(self) == *old(self),
    {
        match kind {
            EntryKind::File => self.files.push(path),
            EntryKind::Dir => {
                if self.recurse {
                    self.pending.push(path);
                }
            },
            EntryKind::Other => {},
        }
    }

    /// Closes discovery and hands back the candidate files, deduplicated:
    /// each path keeps its first occurrence only.
    pub fn into_files(self) -> (r: Vec<String>)
        ensures
            spec_views(r@) == spec_dedup(spec_views(self.files@)),
    {
        let files = self.files;
        let mut out: Vec<String> = Vec::new();
        let mut i: usize = 0;
        while i < files.len()
            invariant
                i <= files@.len(),
                spec_views(out@) == spec_dedup(spec_views(files@.take(i as int))),
            decreases files@.len() - i,
        {
            proof {
                lemma_dedup_same_elements(spec_views(files@.take(i as int)));
                assert(spec_views(files@.take(i + 1)).drop_last() =~= spec_views(
                    files@.take(i as int),
                ));
                assert(spec_views(files@.take(i + 1)).last() == files@[i as int]@);
            }
            let present = contains_string(&out, &files[i]);
            proof {
                let prefix = spec_views(files@.take(i as int));
                if present {
                    assert(spec_dedup(spec_views(files@.take(i + 1))) == spec_dedup(prefix));
                } else {
                    assert(spec_dedup(spec_views(files@.take(i + 1))) == spec_dedup(prefix).push(
                        files@[i as int]@,
                    ));
                }
            }
            if !present {
                let f = files[i].clone();
                out.push(f);
                proof {
                    assert(spec_views(out@) =~= spec_dedup(spec_views(files@.take(i + 1))));
                }
            }
            i += 1;
        }
        proof {
            assert(files@.take(files@.len() as int) =~= files@);
        }
        out
    }
}

/// Decides whether `v` already holds the string value of `s`.
fn contains_string(v: &Vec<String>, s: &String) -> (r: bool)
    ensures
        r == spec_views(v@).contains(s@),
{
    let mut i: usize = 0;
    while i < v.len()
        invariant
            i <= v@.len(),
            forall|j: int| 0 <= j < i ==> spec_views(v@)[j] != s@,
        decreases v@.len() - i,
    {
        if v[i].eq(s) {
            proof {
                assert(spec_views(v@)[i as int] == s@);
            }
            return true;
        }
        i += 1;
    }
    proof {
        if spec_views(v@).contains(s@) {
            let j = choose|j: int| 0 <= j < spec_views(v@).len() && spec_views(v@)[j] == s@;
            assert(spec_views(v@)[j] != s@);
        }
    }
    false
}

} // verus!
