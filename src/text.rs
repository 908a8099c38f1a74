use vstd::prelude::*;

verus! {

/// The characters with the Unicode `White_Space` property.
pub open spec fn is_white_space(c: char) -> bool {
    let u = c as u32;
    (0x9 <= u && u <= 0xd) || u == 0x20 || u == 0x85 || u == 0xa0 || u == 0x1680 || (0x2000 <= u
        && u <= 0x200a) || u == 0x2028 || u == 0x2029 || u == 0x202f || u == 0x205f || u == 0x3000
}

/// `s` without its leading white space.
pub open spec fn trim_start(s: Seq<char>) -> Seq<char>
    decreases s.len(),
{
    if s.len() > 0 && is_white_space(s[0]) {
        trim_start(s.drop_first())
    } else {
        s
    }
}

/// `s` without its trailing white space.
pub open spec fn trim_end(s: Seq<char>) -> Seq<char>
    decreases s.len(),
{
    if s.len() > 0 && is_white_space(s.last()) {
        trim_end(s.drop_last())
    } else {
        s
    }
}

/// `s` without its leading and trailing white space.
pub open spec fn trimmed(s: Seq<char>) -> Seq<char> {
    trim_end(trim_start(s))
}

/// The index of the first space in `s`, or its length when it holds none.
pub open spec fn space_index(s: Seq<char>) -> int
    decreases s.len(),
{
    if s.len() == 0 {
        0
    } else if s[0] == ' ' {
        0
    } else {
        1 + space_index(s.drop_first())
    }
}

/// `s` ends with `t`.
pub open spec fn ends_with(s: Seq<char>, t: Seq<char>) -> bool {
    t.len() <= s.len() && s.subrange(s.len() - t.len(), s.len() as int) == t
}

/// Relies on `str::trim`: it removes the leading and trailing characters that have
/// the Unicode `White_Space` property.
#[verifier::external_body]
pub(crate) fn trim_text(s: &str) -> (r: String)
    ensures
        r@ == trimmed(s@),
{
    s.trim().to_string()
}

proof fn lemma_space_index(s: Seq<char>, i: int)
    requires
        0 <= i <= s.len(),
        forall|j: int| 0 <= j < i ==> s[j] != ' ',
        i == s.len() || s[i] == ' ',
    ensures
        space_index(s) == i,
    decreases i,
{
    if i > 0 {
        let d = s.drop_first();
        assert forall|j: int| 0 <= j < i - 1 implies d[j] != ' ' by {
            assert(d[j] == s[j + 1]);
        }
        if i < s.len() {
            assert(d[i - 1] == s[i]);
        }
        lemma_space_index(d, i - 1);
    }
}

/// Finds the first space of `s`, or its length in characters when it holds none.
pub fn find_space(s: &str) -> (k: usize)
    ensures
        k as int == space_index(s@),
        k <= s@.len(),
{
    let n = s.unicode_len();
    let mut i: usize = 0;
    while i < n && s.get_char(i) != ' '
        invariant
            n == s@.len(),
            i <= n,
            forall|j: int| 0 <= j < i ==> s@[j] != ' ',
        decreases n - i,
    {
        i += 1;
    }
    proof {
        lemma_space_index(s@, i as int);
    }
    i
}

/// A file name of one plain component: it starts with an ASCII letter or digit,
/// and is made of ASCII letters, digits, `.`, `-` and `_`.
pub open spec fn is_plain_file_name(n: Seq<char>) -> bool {
    n.len() > 0 && (('a' <= n[0] && n[0] <= 'z') || ('A' <= n[0] && n[0] <= 'Z') || ('0' <= n[0]
        && n[0] <= '9')) && forall|i: int|
        0 <= i < n.len() ==> {
            let c = #[trigger] n[i];
            ('a' <= c && c <= 'z') || ('A' <= c && c <= 'Z') || ('0' <= c && c <= '9') || c == '.'
                || c == '-' || c == '_'
        }
}

/// `path` is `name` appended to `dir`, with a path separator between them or
/// none (when `dir` is empty or already ends with one).
pub open spec fn is_joined_path(path: Seq<char>, dir: Seq<char>, name: Seq<char>) -> bool {
    path == dir + name || path == dir + seq!['/'] + name || path == dir + seq!['\\'] + name
}

/// A path with the Windows verbatim prefix `\\?\`, which `PathBuf::push`
/// normalizes.
pub open spec fn is_verbatim_path(p: Seq<char>) -> bool {
    p.len() >= 4 && p.subrange(0, 4) == seq!['\\', '\\', '?', '\\']
}

/// Relies on `PathBuf::push`: a relative name of one component is appended to a
/// directory without a verbatim prefix, after the platform's separator unless
/// none is needed.
#[verifier::external_body]
pub(crate) fn join_path(dir: &str, name: &str) -> (r: String)
    requires
        is_plain_file_name(name@),
    ensures
        !is_verbatim_path(dir@) ==> is_joined_path(r@, dir@, name@),
{
    let mut path = std::path::PathBuf::from(dir);
    path.push(name);
    path.to_string_lossy().into_owned()
}

/// The texts `new` are those of `old` with `t` appended.
pub open spec fn text_pushed(old: Seq<String>, new: Seq<String>, t: Seq<char>) -> bool {
    new.len() == old.len() + 1 && new.drop_last() == old && new.last()@ == t
}

/// Appends a copy of `t` to `texts`.
pub fn push_text(texts: &mut Vec<String>, t: &str)
    ensures
        text_pushed(old(texts)@, final(texts)@, t@),
{
    let ghost before = texts@;
    texts.push(String::from_str(t));
    assert(texts@.drop_last() =~= before);
}

} // verus!
