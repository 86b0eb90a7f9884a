//! Character-level helpers: file name sanitising and byte decoding.

use vstd::prelude::*;
use vstd::utf8::{decode_utf8, valid_utf8};

verus! {

/// Whether `c` is an ASCII letter or an ASCII digit.
pub open spec fn is_ascii_alnum(c: char) -> bool {
    ('a' <= c && c <= 'z') || ('A' <= c && c <= 'Z') || ('0' <= c && c <= '9')
}

/// The character that stands for `c` in a file name stem.
pub open spec fn stem_char(c: char) -> char {
    if is_ascii_alnum(c) {
        c
    } else {
        '_'
    }
}

/// A title with every character that is not an ASCII letter or digit
/// replaced by `_`.
pub open spec fn sanitized(title: Seq<char>) -> Seq<char> {
    title.map_values(|c: char| stem_char(c))
}

/// The characters of `s`, in order.
pub(crate) fn chars_of(s: &str) -> (r: Vec<char>)
    ensures
        r@ == s@,
{
    let n = s.unicode_len();
    let mut r: Vec<char> = Vec::new();
    let mut i: usize = 0;
    while i < n
        invariant
            n == s@.len(),
            i <= n,
            r@ == s@.subrange(0, i as int),
        decreases n - i,
    {
        r.push(s.get_char(i));
        assert(r@ =~= s@.subrange(0, i + 1));
        i += 1;
    }
    assert(r@ =~= s@);
    r
}

/// Relies on `String: FromIterator<char>`: the string of the given characters.
#[verifier::external_body]
pub(crate) fn string_from_chars(v: &Vec<char>) -> (r: String)
    ensures
        r@ == v@,
{
    v.iter().collect()
}

fn is_ascii_alnum_exec(c: char) -> (r: bool)
    ensures
        r == is_ascii_alnum(c),
{
    ('a' <= c && c <= 'z') || ('A' <= c && c <= 'Z') || ('0' <= c && c <= '9')
}

/// Turns a video title into a file name stem: each character that is not an
/// ASCII letter or digit becomes `_`, one for one.
pub fn filename_video_title(title: &str) -> (r: String)
    ensures
        r@ == sanitized(title@),
        r@.len() == title@.len(),
        forall|i: int| 0 <= i < r@.len() ==> is_ascii_alnum(#[trigger] r@[i]) || r@[i] == '_',
        forall|i: int|
            0 <= i < title@.len() && is_ascii_alnum(#[trigger] title@[i]) ==> r@[i] == title@[i],
{
    let chars = chars_of(title);
    let mut out: Vec<char> = Vec::new();
    let mut i: usize = 0;
    while i < chars.len()
        invariant
            i <= chars@.len(),
            chars@ == title@,
            out@ == sanitized(title@).subrange(0, i as int),
        decreases chars@.len() - i,
    {
        let c = chars[i];
        if is_ascii_alnum_exec(c) {
            out.push(c);
        } else {
            out.push('_');
        }
        assert(out@ =~= sanitized(title@).subrange(0, i + 1));
        i += 1;
    }
    assert(out@ =~= sanitized(title@));
    string_from_chars(&out)
}

/// Whether `c` has the Unicode `White_Space` property.
pub open spec fn is_white_space(c: char) -> bool {
    let u = c as u32;
    (0x9 <= u && u <= 0xd) || u == 0x20 || u == 0x85 || u == 0xa0 || u == 0x1680 || (0x2000 <= u
        && u <= 0x200a) || u == 0x2028 || u == 0x2029 || u == 0x202f || u == 0x205f || u == 0x3000
}

/// `s` without its leading white space.
pub open spec fn trim_start(s: Seq<char>) -> Seq<char>
    decreases s.len(),
{
    if s.len() > 0 && is_white_space(s[0]) {
        trim_start(s.drop_first())
    } else {
        s
    }
}

/// `s` without its trailing white space.
pub open spec fn trim_end(s: Seq<char>) -> Seq<char>
    decreases s.len(),
{
    if s.len() > 0 && is_white_space(s.last()) {
        trim_end(s.drop_last())
    } else {
        s
    }
}

/// `s` without leading and trailing white space.
pub open spec fn trimmed(s: Seq<char>) -> Seq<char> {
    trim_end(trim_start(s))
}

/// What `String::from_utf8_lossy` makes of `b`.
pub uninterp spec fn lossy_utf8(b: Seq<u8>) -> Seq<char>;

/// Relies on `String::from_utf8`: succeeds exactly on valid UTF-8, with the
/// decoded characters.
#[verifier::external_body]
pub(crate) fn utf8_string(b: &Vec<u8>) -> (r: Option<String>)
    ensures
        r is Some <==> valid_utf8(b@),
        r matches Some(s) ==> s@ == decode_utf8(b@),
{
    String::from_utf8(b.clone()).ok()
}

/// Relies on `str::trim`: the string without leading and trailing characters
/// of the Unicode `White_Space` property.
#[verifier::external_body]
pub(crate) fn trim(s: &str) -> (r: String)
    ensures
        r@ == trimmed(s@),
{
    s.trim().to_owned()
}

/// Relies on `String::from_utf8_lossy`: decodes the bytes, replacing invalid
/// sequences; the result depends on the bytes alone.
#[verifier::external_body]
pub(crate) fn utf8_lossy(b: &Vec<u8>) -> (r: String)
    ensures
        r@ == lossy_utf8(b@),
        b@.len() == 0 ==> r@.len() == 0,
{
    String::from_utf8_lossy(b).into_owned()
}

/// The string `a` followed by `b`.
pub(crate) fn concat(a: &str, b: &str) -> (r: String)
    ensures
        r@ == a@ + b@,
{
    let mut r = String::from_str(a);
    r.append(b);
    r
}

/// The decoded, trimmed standard output of a process, if it is valid UTF-8.
pub open spec fn output_line(stdout: Seq<u8>) -> Option<Seq<char>> {
    if valid_utf8(stdout) {
        Some(trimmed(decode_utf8(stdout)))
    } else {
        None
    }
}

/// Decodes and trims the standard output of a process.
pub fn read_output_line(stdout: &Vec<u8>) -> (r: Option<String>)
    ensures
        match r {
            Some(s) => output_line(stdout@) == Some(s@),
            None => output_line(stdout@) is None,
        },
{
    match utf8_string(stdout) {
        Some(s) => Some(trim(s.as_str())),
        None => None,
    }
}

/// The index of the last `.` among the first `n` characters of `name`, or -1.
pub open spec fn last_dot_before(name: Seq<char>, n: int) -> int
    decreases n,
{
    if n <= 0 {
        -1
    } else if name[n - 1] == '.' {
        n - 1
    } else {
        last_dot_before(name, n - 1)
    }
}

/// The file name `name` with its extension replaced by `ext`, or with `.ext`
/// appended when it has none. The extension is what follows the last `.`.
pub open spec fn with_extension(name: Seq<char>, ext: Seq<char>) -> Seq<char> {
    let d = last_dot_before(name, name.len() as int);
    if d >= 0 {
        name.subrange(0, d) + seq!['.'] + ext
    } else {
        name + seq!['.'] + ext
    }
}

proof fn lemma_last_dot_range(name: Seq<char>, n: int)
    requires
        0 <= n <= name.len(),
    ensures
        -1 <= last_dot_before(name, n) < n,
        last_dot_before(name, n) >= 0 ==> name[last_dot_before(name, n)] == '.',
    decreases n,
{
    if n > 0 && name[n - 1] != '.' {
        lemma_last_dot_range(name, n - 1);
    }
}

/// A file name whose extension is replaced by `ext` ends with `.ext`, whatever
/// its former extension was.
pub proof fn lemma_with_extension_ends_with(name: Seq<char>, ext: Seq<char>)
    ensures
        ({
            let r = with_extension(name, ext);
            r.len() > ext.len() && r.subrange(r.len() - ext.len() - 1, r.len() as int) == seq![
                '.',
            ] + ext
        }),
{
    lemma_last_dot_range(name, name.len() as int);
    let r = with_extension(name, ext);
    assert(r.subrange(r.len() - ext.len() - 1, r.len() as int) =~= seq!['.'] + ext);
}

/// Replaces the extension of the file name `name` by `ext`.
pub fn replace_extension(name: &str, ext: &str) -> (r: String)
    ensures
        r@ == with_extension(name@, ext@),
{
    let chars = chars_of(name);
    let mut d: usize = 0;
    let mut found = false;
    let mut i: usize = 0;
    while i < chars.len()
        invariant
            chars@ == name@,
            i <= chars@.len(),
            found ==> d < i && last_dot_before(name@, i as int) == d,
            !found ==> last_dot_before(name@, i as int) == -1,
        decreases chars@.len() - i,
    {
        if chars[i] == '.' {
            d = i;
            found = true;
        }
        i += 1;
    }
    let mut out: Vec<char> = Vec::new();
    let keep = if found {
        d
    } else {
        chars.len()
    };
    let mut j: usize = 0;
    while j < keep
        invariant
            chars@ == name@,
            keep <= chars@.len(),
            j <= keep,
            out@ == name@.subrange(0, j as int),
        decreases keep - j,
    {
        out.push(chars[j]);
        assert(out@ =~= name@.subrange(0, j + 1));
        j += 1;
    }
    out.push('.');
    let stem = string_from_chars(&out);
    let r = concat(stem.as_str(), ext);
    assert(r@ =~= with_extension(name@, ext@));
    r
}

} // verus!
