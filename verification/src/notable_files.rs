use vstd::prelude::*;
use crate::fs_tree::is_dir_path;

verus! {

/// The ASCII lower-case form of a character; other characters are kept.
pub open spec fn ascii_lower(c: char) -> char {
    if 'A' <= c && c <= 'Z' {
        ((c as u32) + 32) as char
    } else {
        c
    }
}

/// The ASCII lower-case form of a text, character by character.
pub open spec fn ascii_lowercase(s: Seq<char>) -> Seq<char> {
    s.map_values(|c: char| ascii_lower(c))
}

/// Directory names that are left out at the root of a project: Unity's
/// generated folders, and any name that starts with `library` (some people keep
/// one library folder per platform).
pub open spec fn ignored_root_dir(lower_name: Seq<char>) -> bool {
    ||| lower_name == "library"@
    ||| lower_name == "logs"@
    ||| lower_name == "obj"@
    ||| lower_name == "temp"@
    ||| lower_name.len() >= 7 && lower_name.subrange(0, 7) == "library"@
}

/// Whether a directory entry is left out of the notable-files tree.
pub open spec fn ignored_dir(relative: Seq<char>, name: Seq<char>) -> bool {
    let lower_name = ascii_lowercase(name);
    ||| relative.len() == 0 && ignored_root_dir(lower_name)
    ||| lower_name == ".git"@
}

/// What becomes of a directory entry named `name` inside the directory at
/// `relative` (empty or ending with `/`): nothing (symbolic links and ignored
/// directories), or its relative path and whether it is a directory.
pub open spec fn spec_classify_entry(relative: Seq<char>, name: Seq<char>, is_symlink: bool, is_dir: bool) -> Option<(Seq<char>, bool)> {
    if is_symlink {
        None
    } else if is_dir {
        if ignored_dir(relative, name) {
            None
        } else {
            Some((relative + name + "/"@, true))
        }
    } else {
        Some((relative + name, false))
    }
}

/// A kept entry's path starts with the path of the directory that holds it; a
/// kept directory gets a directory path, and a kept file whose name is not
/// empty and holds no `/` gets a file path, so that each can become a node of
/// the notable-files tree.
pub proof fn lemma_classified_path_fits_tree(relative: Seq<char>, name: Seq<char>, is_symlink: bool, is_dir: bool)
    requires
        spec_classify_entry(relative, name, is_symlink, is_dir) is Some,
    ensures
        ({
            let (path, d) = spec_classify_entry(relative, name, is_symlink, is_dir)->0;
            &&& d == is_dir
            &&& path.len() == relative.len() + name.len() + (if d { 1int } else { 0int })
            &&& path.subrange(0, relative.len() as int) == relative
            &&& d ==> is_dir_path(path)
            &&& (!d && name.len() > 0 && !name.contains('/')) ==> !is_dir_path(path)
        }),
{
    reveal_strlit("/");
    let (path, d) = spec_classify_entry(relative, name, is_symlink, is_dir)->0;
    if d {
        assert(path =~= relative + name + seq!['/']);
        assert(path.subrange(0, relative.len() as int) =~= relative);
    } else {
        assert(path =~= relative + name);
        assert(path.subrange(0, relative.len() as int) =~= relative);
        if name.len() > 0 && !name.contains('/') {
            assert(path.last() == name.last());
            assert(name.contains(name.last()));
        }
    }
}

/// The directories that are left out, spelled out: at the project's root,
/// those whose ASCII lower-case name is `library`, `logs`, `obj` or `temp` or
/// starts with `library`; anywhere, the one whose ASCII lower-case name is
/// exactly `.git` (so `.github` or `.gitlab` are kept).
pub open spec fn skipped_directory(relative: Seq<char>, name: Seq<char>) -> bool {
    let lower = name.map_values(|c: char| if 'A' <= c && c <= 'Z' {
        ((c as u32) + 32) as char
    } else {
        c
    });
    ||| relative.len() == 0 && lower == seq!['l', 'i', 'b', 'r', 'a', 'r', 'y']
    ||| relative.len() == 0 && lower == seq!['l', 'o', 'g', 's']
    ||| relative.len() == 0 && lower == seq!['o', 'b', 'j']
    ||| relative.len() == 0 && lower == seq!['t', 'e', 'm', 'p']
    ||| relative.len() == 0 && lower.len() >= 7 && lower.subrange(0, 7) == seq![
        'l',
        'i',
        'b',
        'r',
        'a',
        'r',
        'y',
    ]
    ||| lower == seq!['.', 'g', 'i', 't']
}

/// What becomes of each entry: a symbolic link is left out; a file is kept
/// with its name appended to the directory's path; a directory is left out
/// exactly when `skipped_directory` names it, and is otherwise kept with its
/// name and a `/` appended.
pub proof fn lemma_entry_decisions(relative: Seq<char>, name: Seq<char>)
    ensures
        forall|d: bool| #[trigger] spec_classify_entry(relative, name, true, d) is None,
        spec_classify_entry(relative, name, false, false) == Some((relative + name, false)),
        spec_classify_entry(relative, name, false, true) is None <==> skipped_directory(relative, name),
        !skipped_directory(relative, name) ==> spec_classify_entry(relative, name, false, true) == Some(
            (relative + name + seq!['/'], true),
        ),
{
    reveal_strlit("library");
    reveal_strlit("logs");
    reveal_strlit("obj");
    reveal_strlit("temp");
    reveal_strlit(".git");
    reveal_strlit("/");
    let lower = ascii_lowercase(name);
    let lower2 = name.map_values(|c: char| if 'A' <= c && c <= 'Z' {
        ((c as u32) + 32) as char
    } else {
        c
    });
    assert(lower =~= lower2);
    assert("library"@ =~= seq!['l', 'i', 'b', 'r', 'a', 'r', 'y']);
    assert("logs"@ =~= seq!['l', 'o', 'g', 's']);
    assert("obj"@ =~= seq!['o', 'b', 'j']);
    assert("temp"@ =~= seq!['t', 'e', 'm', 'p']);
    assert(".git"@ =~= seq!['.', 'g', 'i', 't']);
    assert("/"@ =~= seq!['/']);
    assert(ignored_dir(relative, name) == skipped_directory(relative, name));
}

fn lower_char(c: char) -> (r: char)
    ensures
        r == ascii_lower(c),
{
    if 'A' <= c && c <= 'Z' {
        let code: u32 = (c as u32) + 32;
        assert(code < 0xD800);
        let b: u8 = code as u8;
        b as char
    } else {
        c
    }
}

/// Whether the ASCII lower-case form of `name` starts with `prefix`.
fn lower_starts_with(name: &str, prefix: &str) -> (r: bool)
    ensures
        r == (ascii_lowercase(name@).len() >= prefix@.len()
            && ascii_lowercase(name@).subrange(0, prefix@.len() as int) == prefix@),
{
    let n = name.unicode_len();
    let m = prefix.unicode_len();
    let ghost lower = ascii_lowercase(name@);
    if n < m {
        return false;
    }
    let mut i: usize = 0;
    while i < m
        invariant
            m <= n,
            n == name@.len(),
            m == prefix@.len(),
            lower == ascii_lowercase(name@),
            i <= m,
            forall|j: int| 0 <= j < i ==> lower[j] == prefix@[j],
        decreases m - i,
    {
        if lower_char(name.get_char(i)) != prefix.get_char(i) {
            assert(lower.subrange(0, m as int)[i as int] != prefix@[i as int]);
            return false;
        }
        i = i + 1;
    }
    assert(lower.subrange(0, m as int) =~= prefix@);
    true
}

/// Whether the ASCII lower-case form of `name` is `word`.
fn lower_equals(name: &str, word: &str) -> (r: bool)
    ensures
        r == (ascii_lowercase(name@) == word@),
{
    assert(ascii_lowercase(name@).len() == name@.len());
    if name.unicode_len() != word.unicode_len() {
        return false;
    }
    let r = lower_starts_with(name, word);
    proof {
        let lower = ascii_lowercase(name@);
        assert(lower.subrange(0, word@.len() as int) =~= lower);
    }
    r
}

/// Decides what becomes of one entry of a project directory while the
/// notable-files tree is read: `None` leaves it out, `Some((path, is_dir))`
/// gives its path relative to the project and whether to descend into it.
pub fn classify_entry(relative: &str, name: &str, is_symlink: bool, is_dir: bool) -> (r: Option<(String, bool)>)
    ensures
        match (r, spec_classify_entry(relative@, name@, is_symlink, is_dir)) {
            (None, None) => true,
            (Some((path, d)), Some((spec_path, spec_d))) => path@ == spec_path && d == spec_d,
            _ => false,
        },
        is_symlink ==> r is None,
        !is_symlink && !is_dir ==> (r matches Some((path, d)) && path@ == relative@ + name@ && !d),
        !is_symlink && is_dir ==> (r is None <==> skipped_directory(relative@, name@)),
        !is_symlink && is_dir && !skipped_directory(relative@, name@) ==> (r matches Some((path, d))
            && path@ == relative@ + name@ + seq!['/'] && d),
{
    proof {
        lemma_entry_decisions(relative@, name@);
    }
    if is_symlink {
        return None;
    }
    if is_dir {
        proof {
            reveal_strlit("library");
        }
        let at_root = relative.unicode_len() == 0;
        if at_root {
            if lower_equals(name, "library") || lower_equals(name, "logs") || lower_equals(name, "obj")
                || lower_equals(name, "temp") || lower_starts_with(name, "library") {
                return None;
            }
        }
        if lower_equals(name, ".git") {
            return None;
        }
        let mut path = String::from_str(relative);
        path.append(name);
        path.append("/");
        Some((path, true))
    } else {
        let mut path = String::from_str(relative);
        path.append(name);
        Some((path, false))
    }
}

} // verus!
