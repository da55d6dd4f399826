use vstd::prelude::*;
use crate::delimiter::{COMMA, TAB};

verus! {

/// The last component of a path, as `std::path::Path::file_name` finds it.
pub uninterp spec fn file_name_of(p: Seq<char>) -> Option<Seq<char>>;

/// A string in lower case, as `str::to_lowercase` gives it.
pub uninterp spec fn lower_of(s: Seq<char>) -> Seq<char>;

pub open spec fn is_ascii_seq(s: Seq<char>) -> bool {
    forall|i: int| 0 <= i < s.len() ==> ((#[trigger] s[i]) as u32) < 128
}

pub open spec fn ascii_lower_char(c: char) -> char {
    if 'A' <= c && c <= 'Z' {
        ((c as u32) + 32) as char
    } else {
        c
    }
}

pub open spec fn ascii_lower(s: Seq<char>) -> Seq<char> {
    s.map_values(|c: char| ascii_lower_char(c))
}

/// `i` is the place of the last `.` of `n`, and not its first character.
pub open spec fn is_last_dot(n: Seq<char>, i: int) -> bool {
    &&& 0 < i < n.len()
    &&& n[i] == '.'
    &&& forall|j: int| i < j < n.len() ==> n[j] != '.'
}

/// The extension of a file name: what follows its last `.`, where that `.` is not
/// its first character.
pub open spec fn extension_of_name(n: Seq<char>) -> Option<Seq<char>> {
    if exists|i: int| is_last_dot(n, i) {
        let i = choose|i: int| is_last_dot(n, i);
        Some(n.subrange(i + 1, n.len() as int))
    } else {
        None
    }
}

/// The extension of a path.
pub open spec fn extension_of(p: Seq<char>) -> Option<Seq<char>> {
    match file_name_of(p) {
        Some(n) => extension_of_name(n),
        None => None,
    }
}

pub open spec fn has_suffix(s: Seq<char>, suffix: Seq<char>) -> bool {
    suffix.len() <= s.len() && s.subrange(s.len() - suffix.len(), s.len() as int) == suffix
}

pub open spec fn opt_string_view(o: Option<String>) -> Option<Seq<char>> {
    match o {
        Some(s) => Some(s@),
        None => None,
    }
}

/// The extension of a path in lower case; empty where the path has none. An ASCII
/// extension is lowered letter by letter.
pub open spec fn lowered_extension(p: Seq<char>) -> Seq<char> {
    match extension_of(p) {
        Some(e) => if is_ascii_seq(e) {
            ascii_lower(e)
        } else {
            lower_of(e)
        },
        None => Seq::empty(),
    }
}

/// The delimiter and compression that a path's name calls for, with `default` as
/// the delimiter where the name says nothing of it.
pub open spec fn dialect_of(p: Seq<char>, default: u8) -> (u8, bool) {
    let ext = lowered_extension(p);
    if ext == "tsv"@ || ext == "tab"@ {
        (TAB, false)
    } else if ext == "csv"@ {
        (COMMA, false)
    } else {
        let name = match file_name_of(p) {
            Some(n) => n,
            None => Seq::empty(),
        };
        let compressed_ext = has_suffix(ext, "sz"@);
        if has_suffix(name, ".csv.sz"@) {
            (COMMA, true)
        } else if has_suffix(name, ".tsv.sz"@) || has_suffix(name, ".tab.sz"@) {
            (TAB, true)
        } else {
            (default, compressed_ext)
        }
    }
}

/// Relies on `std::path::Path::file_name`: the last normal component of the path.
#[verifier::external_body]
fn file_name(p: &str) -> (r: Option<String>)
    ensures
        opt_string_view(r) == file_name_of(p@),
{
    std::path::Path::new(p).file_name().map(|n| n.to_string_lossy().into_owned())
}

/// Relies on `std::path::Path::extension`: what follows the last `.` of the file
/// name, unless that `.` begins it.
#[verifier::external_body]
fn extension(p: &str) -> (r: Option<String>)
    ensures
        opt_string_view(r) == extension_of(p@),
{
    std::path::Path::new(p).extension().map(|e| e.to_string_lossy().into_owned())
}

/// Relies on `str::to_lowercase`: the result depends on the characters alone, and
/// maps ASCII letters to their lower-case forms.
#[verifier::external_body]
pub(crate) fn lowercase(s: &str) -> (r: String)
    ensures
        r@ == lower_of(s@),
        is_ascii_seq(s@) ==> r@ == ascii_lower(s@),
{
    s.to_lowercase()
}

/// Whether two strings hold the same characters.
pub fn same_text(a: &str, b: &str) -> (r: bool)
    ensures
        r == (a@ == b@),
{
    let n = a.unicode_len();
    if n != b.unicode_len() {
        return false;
    }
    let mut i: usize = 0;
    while i < n
        invariant
            n == a@.len(),
            n == b@.len(),
            i <= n,
            forall|j: int| 0 <= j < i ==> a@[j] == b@[j],
        decreases n - i,
    {
        if a.get_char(i) != b.get_char(i) {
            return false;
        }
        i = i + 1;
    }
    assert(a@ =~= b@);
    true
}

/// Whether `s` ends with `suffix`.
pub fn ends_with_text(s: &str, suffix: &str) -> (r: bool)
    ensures
        r == has_suffix(s@, suffix@),
{
    let n = s.unicode_len();
    let k = suffix.unicode_len();
    if k > n {
        return false;
    }
    let start = n - k;
    let mut i: usize = 0;
    while i < k
        invariant
            n == s@.len(),
            k == suffix@.len(),
            start == n - k,
            i <= k,
            forall|j: int| 0 <= j < i ==> s@[start + j] == suffix@[j],
        decreases k - i,
    {
        if s.get_char(start + i) != suffix.get_char(i) {
            assert(s@.subrange(start as int, n as int)[i as int] != suffix@[i as int]);
            return false;
        }
        i = i + 1;
    }
    assert(s@.subrange(start as int, n as int) =~= suffix@);
    true
}

/// Works out the delimiter and compression that the name of the path `p` calls for.
pub fn resolve_dialect(p: &str, default: u8) -> (r: (u8, bool))
    ensures
        r == dialect_of(p@, default),
{
    let ext = match extension(p) {
        Some(e) => lowercase(e.as_str()),
        None => String::new(),
    };
    if same_text(ext.as_str(), "tsv") || same_text(ext.as_str(), "tab") {
        return (TAB, false);
    }
    if same_text(ext.as_str(), "csv") {
        return (COMMA, false);
    }
    let name = match file_name(p) {
        Some(n) => n,
        None => String::new(),
    };
    let compressed_ext = ends_with_text(ext.as_str(), "sz");
    if ends_with_text(name.as_str(), ".csv.sz") {
        (COMMA, true)
    } else if ends_with_text(name.as_str(), ".tsv.sz") || ends_with_text(name.as_str(), ".tab.sz") {
        (TAB, true)
    } else {
        (default, compressed_ext)
    }
}

/// A path whose extension is `tsv` or `tab`, in any case, is read with tabs and
/// uncompressed; one whose extension is `csv` with commas and uncompressed.
pub proof fn lemma_extension_dialect(p: Seq<char>, default: u8)
    ensures
        lowered_extension(p) == "tsv"@ || lowered_extension(p) == "tab"@ ==> dialect_of(p, default)
            == (TAB, false),
        lowered_extension(p) == "csv"@ ==> dialect_of(p, default) == (COMMA, false),
{
    reveal_strlit("tsv");
    reveal_strlit("tab");
    reveal_strlit("csv");
    assert("csv"@ != "tsv"@ && "csv"@ != "tab"@) by {
        assert("csv"@[0] != "tsv"@[0]);
        assert("csv"@[0] != "tab"@[0]);
    }
}

proof fn lemma_name_extension(n: Seq<char>, suffix: Seq<char>)
    requires
        has_suffix(n, suffix),
        suffix.len() == 7,
        suffix[0] == '.',
        suffix[4] == '.',
        suffix[1] != '.' && suffix[2] != '.' && suffix[3] != '.',
        suffix[5] == 's' && suffix[6] == 'z',
    ensures
        extension_of_name(n) == Some(seq!['s', 'z']),
{
    let k = n.len() - 3;
    assert(n[n.len() - 7] == suffix[0]);
    assert(n[k] == suffix[4]);
    assert(n[k + 1] == suffix[5]);
    assert(n[k + 2] == suffix[6]);
    assert(is_last_dot(n, k));
    let i = choose|i: int| is_last_dot(n, i);
    assert(i == k);
    assert(n.subrange(k + 1, n.len() as int) =~= seq!['s', 'z']);
}

/// A file name ending in `.csv.sz` is read compressed with commas; one ending in
/// `.tsv.sz` or `.tab.sz` compressed with tabs.
pub proof fn lemma_compressed_dialect(p: Seq<char>, n: Seq<char>, default: u8)
    requires
        file_name_of(p) == Some(n),
        has_suffix(n, ".csv.sz"@) || has_suffix(n, ".tsv.sz"@) || has_suffix(n, ".tab.sz"@),
    ensures
        has_suffix(n, ".csv.sz"@) ==> dialect_of(p, default) == (COMMA, true),
        has_suffix(n, ".tsv.sz"@) || has_suffix(n, ".tab.sz"@) ==> dialect_of(p, default) == (
        TAB,
        true,
        ),
{
    reveal_strlit(".csv.sz");
    reveal_strlit(".tsv.sz");
    reveal_strlit(".tab.sz");
    reveal_strlit("tsv");
    reveal_strlit("tab");
    reveal_strlit("csv");
    if has_suffix(n, ".csv.sz"@) {
        lemma_name_extension(n, ".csv.sz"@);
    } else if has_suffix(n, ".tsv.sz"@) {
        lemma_name_extension(n, ".tsv.sz"@);
    } else {
        lemma_name_extension(n, ".tab.sz"@);
    }
    let e = seq!['s', 'z'];
    assert(is_ascii_seq(e));
    assert(ascii_lower(e) =~= e);
    assert(lowered_extension(p) == e);
    assert(e != "tsv"@ && e != "tab"@ && e != "csv"@) by {
        assert(e.len() != "tsv"@.len());
    }
    if has_suffix(n, ".csv.sz"@) {
        let tail = n.subrange(n.len() - 7, n.len() as int);
        assert(tail[1] == 'c');
        assert(!has_suffix(n, ".tsv.sz"@) && !has_suffix(n, ".tab.sz"@)) by {
            if has_suffix(n, ".tsv.sz"@) || has_suffix(n, ".tab.sz"@) {
                assert(tail[1] == 't');
            }
        }
        assert(dialect_of(p, default) == (COMMA, true));
    } else {
        let tail = n.subrange(n.len() - 7, n.len() as int);
        assert(tail[1] == 't');
        assert(!has_suffix(n, ".csv.sz"@)) by {
            if has_suffix(n, ".csv.sz"@) {
                assert(tail[1] == 'c');
            }
        }
        assert(dialect_of(p, default) == (TAB, true));
    }
}

} // verus!
