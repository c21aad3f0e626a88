//! The path grammar of the pipeline: which directory holds a file, which
//! extension a file name ends in, and where the optimized artifact lives.
//!
//! Paths are compared letter for letter. Both `/` and `\` end a directory
//! name, so that a path is split the same way whichever platform reported it.

use vstd::prelude::*;
use vstd::slice::slice_subrange;

verus! {

/// A kind of character that the path grammar looks for.
#[derive(Clone, Copy, Debug, PartialEq, Eq)]
pub enum Mark {
    /// `/` or `\`.
    Separator,
    /// `.`
    Dot,
}

impl Mark {
    /// Whether `c` is a character of this kind.
    pub open spec fn has(self, c: char) -> bool {
        match self {
            Mark::Separator => c == '/' || c == '\\',
            Mark::Dot => c == '.',
        }
    }

    fn test(self, c: char) -> (hit: bool)
        ensures
            hit == self.has(c),
    {
        match self {
            Mark::Separator => c == '/' || c == '\\',
            Mark::Dot => c == '.',
        }
    }
}

/// The index of the last character of kind `mark` in `s`, if there is one.
pub open spec fn last_index_of(s: Seq<char>, mark: Mark) -> Option<int>
    decreases s.len(),
{
    if s.len() == 0 {
        None
    } else if mark.has(s.last()) {
        Some(s.len() - 1)
    } else {
        last_index_of(s.drop_last(), mark)
    }
}

/// The directory that holds `path`: everything before its last separator.
/// A path without a separator names no directory.
pub open spec fn parent_of(path: Seq<char>) -> Option<Seq<char>> {
    match last_index_of(path, Mark::Separator) {
        Some(i) => Some(path.take(i)),
        None => None,
    }
}

/// The last component of `path`: everything after its last separator.
pub open spec fn file_name_of(path: Seq<char>) -> Seq<char> {
    match last_index_of(path, Mark::Separator) {
        Some(i) => path.skip(i + 1),
        None => path,
    }
}

/// The extension of `path`: what follows the last dot of its file name. A
/// file name without a dot, or whose only dot is its first character, has
/// none.
pub open spec fn extension_of(path: Seq<char>) -> Option<Seq<char>> {
    let name = file_name_of(path);
    match last_index_of(name, Mark::Dot) {
        Some(k) => if k > 0 {
            Some(name.skip(k + 1))
        } else {
            None
        },
        None => None,
    }
}

/// `c` with an ASCII capital replaced by its small letter.
pub open spec fn ascii_lower(c: char) -> char {
    if 'A' <= c && c <= 'Z' {
        ((c as u8) + 32) as char
    } else {
        c
    }
}

/// `s` with every ASCII capital replaced by its small letter.
pub open spec fn lowered(s: Seq<char>) -> Seq<char> {
    Seq::new(s.len(), |i: int| ascii_lower(s[i]))
}

/// The extensions of the image types that the pipeline processes: png, jpg,
/// jpeg, bmp, tiff and webp, in any mix of upper and lower case.
pub open spec fn is_image_extension(ext: Seq<char>) -> bool {
    let e = lowered(ext);
    ||| e == seq!['p', 'n', 'g']
    ||| e == seq!['j', 'p', 'g']
    ||| e == seq!['b', 'm', 'p']
    ||| e == seq!['j', 'p', 'e', 'g']
    ||| e == seq!['t', 'i', 'f', 'f']
    ||| e == seq!['w', 'e', 'b', 'p']
}

/// Whether `path` names a file of a recognized image type.
pub open spec fn names_image(path: Seq<char>) -> bool {
    match extension_of(path) {
        Some(ext) => is_image_extension(ext),
        None => false,
    }
}

/// The scheme that some clipboards write before each path of a file list.
pub open spec fn file_scheme() -> Seq<char> {
    seq!['f', 'i', 'l', 'e', ':', '/', '/']
}

/// The path that a file-list entry stands for: the entry itself, without a
/// leading `file://` if it has one.
pub open spec fn local_path_of(entry: Seq<char>) -> Seq<char> {
    if entry.len() >= 7 && entry.take(7) == file_scheme() {
        entry.skip(7)
    } else {
        entry
    }
}

/// The path under which a file-list entry is listed: the path that it
/// stands for, with a separator at its end if it is a directory.
pub open spec fn listed_path_of(entry: Seq<char>, is_directory: bool) -> Seq<char> {
    if is_directory {
        local_path_of(entry) + seq!['/']
    } else {
        local_path_of(entry)
    }
}

/// The file name of the optimized artifact.
pub open spec fn artifact_name() -> Seq<char> {
    "optimized.jpg"@
}

/// Where the optimized artifact lives: the fixed file name, directly under
/// the application's private data directory.
pub open spec fn artifact_path_of(data_dir: Seq<char>) -> Seq<char> {
    data_dir + seq!['/'] + artifact_name()
}

/// What [`last_index_of`] finds is a character of the kind asked for, and no
/// later character is; where it finds nothing, there is none.
pub proof fn lemma_last_index_of(s: Seq<char>, mark: Mark)
    ensures
        match last_index_of(s, mark) {
            Some(i) => 0 <= i < s.len() && mark.has(s[i]) && forall|j: int|
                i < j < s.len() ==> !mark.has(#[trigger] s[j]),
            None => forall|j: int| 0 <= j < s.len() ==> !mark.has(#[trigger] s[j]),
        },
    decreases s.len(),
{
    if s.len() > 0 && !mark.has(s.last()) {
        let front = s.drop_last();
        lemma_last_index_of(front, mark);
        assert forall|j: int| 0 <= j < front.len() implies #[trigger] s[j] == front[j] by {}
    }
}

/// A character of kind `mark` that no other follows is the one that
/// [`last_index_of`] finds.
pub proof fn lemma_last_index_is(s: Seq<char>, mark: Mark, i: int)
    requires
        0 <= i < s.len(),
        mark.has(s[i]),
        forall|j: int| i < j < s.len() ==> !mark.has(#[trigger] s[j]),
    ensures
        last_index_of(s, mark) == Some(i),
    decreases s.len(),
{
    if i < s.len() - 1 {
        let front = s.drop_last();
        assert(!mark.has(s[s.len() - 1]));
        assert forall|j: int| i < j < front.len() implies !mark.has(#[trigger] front[j]) by {
            assert(front[j] == s[j]);
        }
        lemma_last_index_is(front, mark, i);
    }
}

/// The characters of `s`, one by one.
pub fn chars_of(s: &str) -> (chars: Vec<char>)
    ensures
        chars@ == s@,
{
    let mut chars: Vec<char> = Vec::new();
    for c in it: s.chars()
        invariant
            chars@ == it.seq().take(it.index() as int),
            it.seq() == s@,
    {
        chars.push(c);
    }
    chars
}

fn find_last(chars: &[char], mark: Mark) -> (found: Option<usize>)
    ensures
        match found {
            Some(i) => last_index_of(chars@, mark) == Some(i as int),
            None => last_index_of(chars@, mark) is None,
        },
{
    let mut end: usize = chars.len();
    assert(chars@.take(end as int) =~= chars@);
    while end > 0
        invariant
            end <= chars@.len(),
            last_index_of(chars@, mark) == last_index_of(chars@.take(end as int), mark),
        decreases end,
    {
        if mark.test(chars[end - 1]) {
            return Some(end - 1);
        }
        assert(chars@.take(end as int).drop_last() =~= chars@.take(end - 1));
        end = end - 1;
    }
    None
}

/// Whether `dir` is the directory that holds `path`.
pub fn parent_is(path: &str, dir: &str) -> (held: bool)
    ensures
        held == (parent_of(path@) == Some(dir@)),
{
    let p: Vec<char> = chars_of(path);
    let d: Vec<char> = chars_of(dir);
    match find_last(p.as_slice(), Mark::Separator) {
        None => false,
        Some(cut) => {
            proof {
                lemma_last_index_of(p@, Mark::Separator);
            }
            if cut != d.len() {
                return false;
            }
            let mut i: usize = 0;
            while i < cut
                invariant
                    i <= cut,
                    cut == d@.len(),
                    cut < p@.len(),
                    p@ == path@,
                    d@ == dir@,
                    last_index_of(p@, Mark::Separator) == Some(cut as int),
                    forall|j: int| 0 <= j < i ==> p@[j] == d@[j],
                decreases cut - i,
            {
                if p[i] != d[i] {
                    assert(p@.take(cut as int)[i as int] != d@[i as int]);
                    return false;
                }
                i = i + 1;
            }
            assert(p@.take(cut as int) =~= d@);
            true
        },
    }
}

pub(crate) fn lower(c: char) -> (l: char)
    ensures
        l == ascii_lower(c),
{
    if c >= 'A' && c <= 'Z' {
        ((c as u8) + 32) as char
    } else {
        c
    }
}

proof fn lemma_spells_three(e: Seq<char>, a: char, b: char, c: char)
    ensures
        e == seq![a, b, c] <==> e.len() == 3 && e[0] == a && e[1] == b && e[2] == c,
{
    let lit = seq![a, b, c];
    assert(lit.len() == 3 && lit[0] == a && lit[1] == b && lit[2] == c);
    if e.len() == 3 && e[0] == a && e[1] == b && e[2] == c {
        assert(e =~= lit);
    }
}

proof fn lemma_spells_four(e: Seq<char>, a: char, b: char, c: char, d: char)
    ensures
        e == seq![a, b, c, d] <==> e.len() == 4 && e[0] == a && e[1] == b && e[2] == c && e[3]
            == d,
{
    let lit = seq![a, b, c, d];
    assert(lit.len() == 4 && lit[0] == a && lit[1] == b && lit[2] == c && lit[3] == d);
    if e.len() == 4 && e[0] == a && e[1] == b && e[2] == c && e[3] == d {
        assert(e =~= lit);
    }
}

pub(crate) fn is_image_ext(ext: &[char]) -> (known: bool)
    ensures
        known == is_image_extension(ext@),
{
    let ghost e = lowered(ext@);
    proof {
        lemma_spells_three(e, 'p', 'n', 'g');
        lemma_spells_three(e, 'j', 'p', 'g');
        lemma_spells_three(e, 'b', 'm', 'p');
        lemma_spells_four(e, 'j', 'p', 'e', 'g');
        lemma_spells_four(e, 't', 'i', 'f', 'f');
        lemma_spells_four(e, 'w', 'e', 'b', 'p');
    }
    if ext.len() == 3 {
        let a: char = lower(ext[0]);
        let b: char = lower(ext[1]);
        let c: char = lower(ext[2]);
        (a == 'p' && b == 'n' && c == 'g') || (a == 'j' && b == 'p' && c == 'g') || (a == 'b' && b
            == 'm' && c == 'p')
    } else if ext.len() == 4 {
        let a: char = lower(ext[0]);
        let b: char = lower(ext[1]);
        let c: char = lower(ext[2]);
        let d: char = lower(ext[3]);
        (a == 'j' && b == 'p' && c == 'e' && d == 'g') || (a == 't' && b == 'i' && c == 'f' && d
            == 'f') || (a == 'w' && b == 'e' && c == 'b' && d == 'p')
    } else {
        false
    }
}

/// Whether `path` names a file of a recognized image type.
pub fn is_image_path(path: &str) -> (known: bool)
    ensures
        known == names_image(path@),
{
    let p: Vec<char> = chars_of(path);
    let len: usize = p.len();
    let start: usize = match find_last(p.as_slice(), Mark::Separator) {
        Some(i) => {
            proof {
                lemma_last_index_of(p@, Mark::Separator);
            }
            i + 1
        },
        None => 0,
    };
    let name: &[char] = slice_subrange(p.as_slice(), start, len);
    assert(name@ =~= file_name_of(path@));
    match find_last(name, Mark::Dot) {
        Some(k) => {
            proof {
                lemma_last_index_of(name@, Mark::Dot);
            }
            if k > 0 {
                let ext: &[char] = slice_subrange(name, k + 1, name.len());
                assert(ext@ =~= name@.skip(k + 1));
                is_image_ext(ext)
            } else {
                false
            }
        },
        None => false,
    }
}

/// The path that a file-list entry stands for. Escapes in the entry are kept
/// as they are.
pub fn local_path(entry: &str) -> (path: String)
    ensures
        path@ == local_path_of(entry@),
{
    let chars: Vec<char> = chars_of(entry);
    let len: usize = chars.len();
    if len >= 7 {
        let ghost head = entry@.take(7);
        let ghost scheme = file_scheme();
        proof {
            assert(scheme.len() == 7 && scheme[0] == 'f' && scheme[1] == 'i' && scheme[2] == 'l'
                && scheme[3] == 'e' && scheme[4] == ':' && scheme[5] == '/' && scheme[6] == '/');
            assert(head.len() == 7 && head[0] == chars@[0] && head[1] == chars@[1] && head[2]
                == chars@[2] && head[3] == chars@[3] && head[4] == chars@[4] && head[5]
                == chars@[5] && head[6] == chars@[6]);
        }
        if chars[0] == 'f' && chars[1] == 'i' && chars[2] == 'l' && chars[3] == 'e' && chars[4]
            == ':' && chars[5] == '/' && chars[6] == '/' {
            assert(head =~= scheme);
            let rest: &str = entry.substring_char(7, len);
            assert(rest@ =~= entry@.skip(7));
            return String::from_str(rest);
        }
    }
    String::from_str(entry)
}

/// The path of the optimized artifact for the data directory `data_dir`.
pub fn artifact_path(data_dir: &str) -> (path: String)
    ensures
        path@ == artifact_path_of(data_dir@),
{
    let mut path: String = String::from_str(data_dir);
    path.append("/");
    path.append("optimized.jpg");
    proof {
        reveal_strlit("/");
        assert("/"@ =~= seq!['/']);
    }
    path
}

/// Whatever a directory is called, the path under which it is listed names
/// no image: it ends in a separator, and so has no file name.
pub proof fn lemma_directory_names_no_image(entry: Seq<char>)
    ensures
        file_name_of(listed_path_of(entry, true)) == Seq::<char>::empty(),
        !names_image(listed_path_of(entry, true)),
{
    let path = listed_path_of(entry, true);
    let cut = path.len() - 1;
    assert(path[cut] == '/');
    lemma_last_index_is(path, Mark::Separator, cut);
    assert(path.skip(cut + 1) =~= Seq::<char>::empty());
}

/// The artifact lies directly in the data directory, and its name is that of
/// an image: a clipboard that lists it would be taken for a new picture if
/// its directory did not give it away.
pub proof fn lemma_artifact_path(data_dir: Seq<char>)
    ensures
        parent_of(artifact_path_of(data_dir)) == Some(data_dir),
        file_name_of(artifact_path_of(data_dir)) == artifact_name(),
        names_image(artifact_path_of(data_dir)),
{
    reveal_strlit("optimized.jpg");
    let name = artifact_name();
    let path = artifact_path_of(data_dir);
    let cut = data_dir.len() as int;
    assert(path[cut] == '/');
    assert forall|j: int| cut < j < path.len() implies !Mark::Separator.has(#[trigger] path[j]) by {
        assert(path[j] == name[j - cut - 1]);
    }
    lemma_last_index_is(path, Mark::Separator, cut);
    assert(path.take(cut) =~= data_dir);
    assert(path.skip(cut + 1) =~= name);
    assert(name[9] == '.');
    assert forall|j: int| 9 < j < name.len() implies !Mark::Dot.has(#[trigger] name[j]) by {}
    lemma_last_index_is(name, Mark::Dot, 9);
    let ext = name.skip(10);
    assert(lowered(ext) =~= seq!['j', 'p', 'g']);
}

} // verus!
