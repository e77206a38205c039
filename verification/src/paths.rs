use vstd::prelude::*;

verus! {

/// The position of the last occurrence of `c` in `s`, or -1 when `s` does
/// not hold `c`.
pub open spec fn spec_last_index(s: Seq<char>, c: char) -> int
    decreases s.len(),
{
    if s.len() == 0 {
        -1
    } else if s[s.len() - 1] == c {
        s.len() - 1
    } else {
        spec_last_index(s.drop_last(), c)
    }
}

proof fn lemma_last_index_properties(s: Seq<char>, c: char)
    ensures
        -1 <= spec_last_index(s, c) < s.len(),
        spec_last_index(s, c) >= 0 ==> s[spec_last_index(s, c)] == c,
        forall|j: int| spec_last_index(s, c) < j < s.len() ==> s[j] != c,
    decreases s.len(),
{
    if s.len() > 0 && s[s.len() - 1] != c {
        lemma_last_index_properties(s.drop_last(), c);
        assert forall|j: int| spec_last_index(s, c) < j < s.len() implies s[j] != c by {
            if j < s.len() - 1 {
                assert(s.drop_last()[j] == s[j]);
            }
        }
    }
}

/// Finds the last occurrence of `c` in `s`.
fn find_last(s: &str, c: char) -> (r: Option<usize>)
    ensures
        r matches Some(i) ==> spec_last_index(s@, c) == i,
        r is None ==> spec_last_index(s@, c) == -1,
{
    proof {
        lemma_last_index_properties(s@, c);
    }
    let n = s.unicode_len();
    let mut i = n;
    while i > 0
        invariant
            i <= n,
            n == s@.len(),
            forall|j: int| i <= j < n ==> s@[j] != c,
        decreases i,
    {
        i -= 1;
        if s.get_char(i) == c {
            proof {
                lemma_last_index_properties(s@, c);
                let sli = spec_last_index(s@, c);
                if sli > i {
                    assert(s@[sli] != c);
                    assert(s@[sli] == c);
                }
            }
            return Some(i);
        }
    }
    None
}

/// The file name of a path: everything after the last separator, or the
/// whole path when it has none.
pub open spec fn spec_file_name(p: Seq<char>) -> Seq<char> {
    p.subrange(spec_last_index(p, '/') + 1, p.len() as int)
}

/// The extension of a path: what follows the last dot of the file name,
/// provided that dot comes after the name's first character (so a leading
/// dot marks a hidden file, not an extension).
pub open spec fn spec_extension(p: Seq<char>) -> Option<Seq<char>> {
    let name = spec_file_name(p);
    let d = spec_last_index(name, '.');
    if d >= 1 {
        Some(name.subrange(d + 1, name.len() as int))
    } else {
        None
    }
}

/// ASCII lowercasing of the letters that can appear in a JPEG extension.
pub open spec fn spec_lower(c: char) -> char {
    if c == 'J' {
        'j'
    } else if c == 'P' {
        'p'
    } else if c == 'E' {
        'e'
    } else if c == 'G' {
        'g'
    } else {
        c
    }
}

/// Whether an extension reads `jpg` or `jpeg`, ignoring ASCII case.
pub open spec fn spec_is_jpeg_ext(e: Seq<char>) -> bool {
    ||| (e.len() == 3 && spec_lower(e[0]) == 'j' && spec_lower(e[1]) == 'p' && spec_lower(e[2])
        == 'g')
    ||| (e.len() == 4 && spec_lower(e[0]) == 'j' && spec_lower(e[1]) == 'p' && spec_lower(e[2])
        == 'e' && spec_lower(e[3]) == 'g')
}

/// Whether the pipeline accepts a path: it must carry a `.jpg` or `.jpeg`
/// extension, ignoring ASCII case.
pub open spec fn spec_is_supported(p: Seq<char>) -> bool {
    match spec_extension(p) {
        Some(e) => spec_is_jpeg_ext(e),
        None => false,
    }
}

fn lower_char(c: char) -> (r: char)
    ensures
        r == spec_lower(c),
{
    if c == 'J' {
        'j'
    } else if c == 'P' {
        'p'
    } else if c == 'E' {
        'e'
    } else if c == 'G' {
        'g'
    } else {
        c
    }
}

/// Returns the file name of `path`: everything after the last `/`.
pub fn file_name(path: &str) -> (r: String)
    ensures
        r@ == spec_file_name(path@),
{
    proof {
        lemma_last_index_properties(path@, '/');
    }
    let n = path.unicode_len();
    match find_last(path, '/') {
        Some(i) => String::from_str(path.substring_char(i + 1, n)),
        None => {
            let r = String::from_str(path);
            proof {
                assert(path@ =~= spec_file_name(path@));
            }
            r
        },
    }
}

/// Decides whether the pipeline accepts `path`: true exactly when its file
/// name carries a `.jpg` or `.jpeg` extension, ignoring ASCII case.
pub fn is_supported_path(path: &str) -> (r: bool)
    ensures
        r == spec_is_supported(path@),
{
    let name = file_name(path);
    let name_str = name.as_str();
    proof {
        lemma_last_index_properties(name_str@, '.');
    }
    let n = name_str.unicode_len();
    match find_last(name_str, '.') {
        Some(d) if d >= 1 => {
            let ext = name_str.substring_char(d + 1, n);
            let len = ext.unicode_len();
            if len == 3 {
                lower_char(ext.get_char(0)) == 'j' && lower_char(ext.get_char(1)) == 'p'
                    && lower_char(ext.get_char(2)) == 'g'
            } else if len == 4 {
                lower_char(ext.get_char(0)) == 'j' && lower_char(ext.get_char(1)) == 'p'
                    && lower_char(ext.get_char(2)) == 'e' && lower_char(ext.get_char(3)) == 'g'
            } else {
                false
            }
        },
        _ => false,
    }
}

/// The sibling location a re-encoded file goes to when the source is not
/// overwritten: the source's directory, the fixed `compressed` subdirectory,
/// and the original file name.
pub open spec fn spec_output_path(p: Seq<char>) -> Seq<char> {
    p.subrange(0, spec_last_index(p, '/') + 1) + "compressed/"@ + spec_file_name(p)
}

/// Resolves where the re-encoded file will be written, once, at job-open
/// time: the source path itself when overwriting in place, else the
/// `compressed` subdirectory beside the source — a path that is never the
/// source path.
pub fn resolve_output_path(overwrite_in_place: bool, path: &str) -> (r: String)
    ensures
        overwrite_in_place ==> r@ == path@,
        !overwrite_in_place ==> r@ == spec_output_path(path@) && r@ != path@,
{
    if overwrite_in_place {
        String::from_str(path)
    } else {
        proof {
            lemma_last_index_properties(path@, '/');
            reveal_strlit("compressed/");
        }
        let n = path.unicode_len();
        let cut = match find_last(path, '/') {
            Some(i) => i + 1,
            None => 0,
        };
        let parent = String::from_str(path.substring_char(0, cut));
        let joined = parent.concat("compressed/").concat(path.substring_char(cut, n));
        proof {
            assert(joined@ =~= spec_output_path(path@));
            assert(joined@.len() == path@.len() + 11);
        }
        joined
    }
}

} // verus!
