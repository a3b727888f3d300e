//! Text-level helpers shared by the resolver and the executor: the sentinel
//! that ends interactive prompts, path joining, base names, and the scan of a
//! build descriptor for an `install:` line.

use vstd::prelude::*;

verus! {

/// The reserved console input that ends an interactive prompt loop.
pub open spec fn sentinel() -> Seq<char> {
    "stop"@
}

/// True exactly when `line` is the sentinel input that ends a prompt loop.
pub fn is_sentinel(line: &str) -> (r: bool)
    ensures
        r == (line@ == sentinel()),
{
    let s = String::from_str(line);
    let t = String::from_str("stop");
    s == t
}

/// A header name is either absolute (kept as it is) or joined under the
/// project root with a separator.
pub open spec fn joined_path(root: Seq<char>, name: Seq<char>) -> Seq<char> {
    if name.len() > 0 && name[0] == '/' {
        name
    } else {
        root + "/"@ + name
    }
}

/// Joins a header name under the project root, keeping absolute names intact.
pub fn join_path(root: &str, name: &str) -> (r: String)
    ensures
        r@ == joined_path(root@, name@),
{
    if name.unicode_len() > 0 && name.get_char(0) == '/' {
        String::from_str(name)
    } else {
        let mut s = String::from_str(root);
        s.append("/");
        s.append(name);
        s
    }
}

/// Joins every gathered header name under the project root.
pub open spec fn joined_all(root: Seq<char>, names: Seq<Seq<char>>) -> Seq<Seq<char>> {
    names.map_values(|n: Seq<char>| joined_path(root, n))
}

/// The header names a prompt loop gathers: every line strictly before the
/// first sentinel, in order; nothing once the sentinel is seen.
pub open spec fn gathered(inputs: Seq<Seq<char>>) -> Seq<Seq<char>>
    decreases inputs.len(),
{
    if inputs.len() == 0 {
        Seq::empty()
    } else if inputs[0] == sentinel() {
        Seq::empty()
    } else {
        seq![inputs[0]] + gathered(inputs.skip(1))
    }
}

/// When the first sentinel stands at `i` (or there is none and `i` is the
/// length), the gathered names are exactly the first `i` inputs.
pub proof fn lemma_gathered_prefix(s: Seq<Seq<char>>, i: int)
    requires
        0 <= i <= s.len(),
        forall|k: int| 0 <= k < i ==> s[k] != sentinel(),
        i == s.len() || s[i] == sentinel(),
    ensures
        gathered(s) == s.take(i),
    decreases i,
{
    if i == 0 {
        assert(gathered(s) =~= s.take(0));
    } else {
        assert(s[0] != sentinel());
        let t = s.skip(1);
        assert(forall|k: int| 0 <= k < i - 1 ==> t[k] != sentinel());
        lemma_gathered_prefix(t, i - 1);
        assert(seq![s[0]] + t.take(i - 1) =~= s.take(i));
    }
}

/// Everything after the last path separator: the whole string when there is
/// no separator, and the empty string when the path ends with one.
pub open spec fn basename_of(s: Seq<char>) -> Seq<char>
    decreases s.len(),
{
    if s.len() == 0 {
        s
    } else if s.contains('/') {
        basename_of(s.skip(1))
    } else {
        s
    }
}

proof fn lemma_basename_subrange(s: Seq<char>, cut: int)
    requires
        0 <= cut <= s.len(),
        cut == 0 || s[cut - 1] == '/',
        forall|k: int| cut <= k < s.len() ==> s[k] != '/',
    ensures
        basename_of(s) == s.subrange(cut, s.len() as int),
    decreases cut,
{
    if cut == 0 {
        assert(!s.contains('/'));
        assert(s.subrange(0, s.len() as int) =~= s);
    } else {
        assert(s.contains('/')) by {
            assert(s[cut - 1] == '/');
        }
        let t = s.skip(1);
        assert(forall|k: int| cut - 1 <= k < t.len() ==> t[k] != '/');
        lemma_basename_subrange(t, cut - 1);
        assert(t.subrange(cut - 1, t.len() as int) =~= s.subrange(cut, s.len() as int));
    }
}

/// The base file name of a path: the part after the last `/`.
pub fn basename(path: &str) -> (r: String)
    ensures
        r@ == basename_of(path@),
{
    let n = path.unicode_len();
    let mut cut: usize = 0;
    let mut i: usize = 0;
    while i < n
        invariant
            cut <= i <= n,
            n == path@.len(),
            cut == 0 || path@[cut - 1] == '/',
            forall|k: int| cut <= k < i ==> path@[k] != '/',
        decreases n - i,
    {
        if path.get_char(i) == '/' {
            cut = i + 1;
        }
        i += 1;
    }
    proof {
        lemma_basename_subrange(path@, cut as int);
    }
    String::from_str(path.substring_char(cut, n))
}

/// The fixed system directory that relocated headers are copied into.
pub open spec fn include_root() -> Seq<char> {
    "/usr/local/include/"@
}

/// The destination of a relocated header: the include root followed by the
/// header's base file name.
pub open spec fn header_dest_of(path: Seq<char>) -> Seq<char> {
    include_root() + basename_of(path)
}

/// Computes where a header file will be copied to.
pub fn header_destination(path: &str) -> (r: String)
    ensures
        r@ == header_dest_of(path@),
{
    let mut s = String::from_str("/usr/local/include/");
    let b = basename(path);
    s.append(b.as_str());
    s
}

/// `i..j` spans one full line of `s`: it starts at the beginning of the text
/// or right after a newline, ends at the end of the text or right before a
/// newline, and holds no newline itself.
pub open spec fn is_line_at(s: Seq<char>, i: int, j: int) -> bool {
    &&& 0 <= i <= j <= s.len()
    &&& (i == 0 || s[i - 1] == '\n')
    &&& (j == s.len() || s[j] == '\n')
    &&& (forall|k: int| i <= k < j ==> s[k] != '\n')
}

/// The text has a line that reads exactly `install:`.
pub open spec fn has_install_line(s: Seq<char>) -> bool {
    exists|i: int, j: int| is_line_at(s, i, j) && s.subrange(i, j) == "install:"@
}

/// Scans a build descriptor's text for a line that is exactly `install:`.
pub fn contains_install_line(contents: &str) -> (r: bool)
    ensures
        r == has_install_line(contents@),
{
    let target = String::from_str("install:");
    let n = contents.unicode_len();
    let mut start: usize = 0;
    let mut i: usize = 0;
    let mut found = false;
    while i < n
        invariant
            start <= i <= n,
            n == contents@.len(),
            target@ == "install:"@,
            start == 0 || contents@[start - 1] == '\n',
            forall|k: int| start <= k < i ==> contents@[k] != '\n',
            found ==> has_install_line(contents@),
            !found ==> forall|i2: int, j2: int|
                is_line_at(contents@, i2, j2) && j2 < i ==> contents@.subrange(i2, j2)
                    != "install:"@,
        decreases n - i,
    {
        if contents.get_char(i) == '\n' {
            let line = String::from_str(contents.substring_char(start, i));
            if line == target {
                proof {
                    assert(is_line_at(contents@, start as int, i as int));
                }
                found = true;
            } else {
                proof {
                    assert(line@ != target@);
                    assert(line@ == contents@.subrange(start as int, i as int));
                    if !found {
                        assert forall|i2: int, j2: int|
                            is_line_at(contents@, i2, j2) && j2 < i + 1 implies contents@.subrange(
                            i2,
                            j2,
                        ) != "install:"@ by {
                            if j2 == i as int {
                                assert(i2 == start) by {
                                    if i2 < start {
                                        assert(contents@[start - 1] == '\n');
                                    } else if i2 > start {
                                        assert(contents@[i2 - 1] == '\n');
                                    }
                                }
                                assert(contents@.subrange(i2, j2) == line@);
                            } else {
                                assert(j2 < i);
                            }
                        }
                    }
                }
            }
            start = i + 1;
        }
        i += 1;
    }
    if !found {
        let line = String::from_str(contents.substring_char(start, n));
        if line == target {
            proof {
                assert(is_line_at(contents@, start as int, n as int));
            }
            found = true;
        } else {
            proof {
                assert forall|i2: int, j2: int|
                    is_line_at(contents@, i2, j2) implies contents@.subrange(i2, j2)
                    != "install:"@ by {
                    if j2 == n {
                        assert(i2 == start) by {
                            if i2 < start {
                                assert(contents@[start - 1] == '\n');
                            } else if i2 > start {
                                assert(contents@[i2 - 1] == '\n');
                            }
                        }
                    }
                }
            }
        }
    }
    found
}

} // verus!
