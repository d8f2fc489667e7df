//! The few calls into the standard library that Verus has no
//! specification for: file-system queries, path handling and lossy UTF-8
//! decoding. Each contract below is believed, not proved.
use vstd::prelude::*;
use vstd::utf8::{decode_utf8, valid_utf8};

verus! {

/// `std::path::Path::new(p).exists()`: whether something is at `p` on the
/// file system. The answer depends on the disk at the moment of the call,
/// so nothing is promised about it.
#[verifier::external_body]
pub fn path_exists(p: &str) -> (r: bool) {
    std::path::Path::new(p).exists()
}

/// `std::path::Path::parent`, as text: `p` without its final component, or
/// `None` when `p` ends in a root or prefix or is empty. Claimed here: the
/// parent is `p` cut after an earlier component, so a prefix of `p`; the
/// empty path has none; and for a simple path (see `is_simple_path`),
/// whose components are the same on every platform, it is `p` up to its
/// last `/`, or `/` when that is the first character, or empty when there
/// is no `/`. Where the cut falls in other paths depends on the platform's
/// separators and prefixes and is left unsaid.
#[verifier::external_body]
pub fn path_parent(p: &str) -> (r: Option<String>)
    ensures
        r matches Some(q) ==> is_prefix(q@, p@),
        p@.len() == 0 ==> r is None,
        r is None ==> !is_simple_path(p@),
        r matches Some(q) ==> (is_simple_path(p@) ==> q@ == simple_parent(p@)),
{
    std::path::Path::new(p).parent().map(|q| q.display().to_string())
}

/// The index of the last `/` in `p`, or -1 when there is none.
pub open spec fn last_slash(p: Seq<char>) -> int
    decreases p.len(),
{
    if p.len() == 0 {
        -1
    } else if p.last() == '/' {
        p.len() - 1
    } else {
        last_slash(p.drop_last())
    }
}

/// The text without its leading `/`, if any.
pub open spec fn without_root(p: Seq<char>) -> Seq<char> {
    if p.len() > 0 && p[0] == '/' {
        p.skip(1)
    } else {
        p
    }
}

/// Whether a `.` or `..` component starts at `i` in `body`.
pub open spec fn dot_part_at(body: Seq<char>, i: int) -> bool {
    &&& i == 0 || body[i - 1] == '/'
    &&& body[i] == '.'
    &&& (i + 1 == body.len() || body[i + 1] == '/') || (i + 1 < body.len() && body[i + 1] == '.'
        && (i + 2 == body.len() || body[i + 2] == '/'))
}

/// A path that reads the same on every platform: an optional leading `/`,
/// then one or more names separated by single `/`, without `\`, `:`, empty
/// names, or names `.` and `..`.
pub open spec fn is_simple_path(p: Seq<char>) -> bool {
    let body = without_root(p);
    &&& body.len() > 0
    &&& body[0] != '/'
    &&& body.last() != '/'
    &&& forall|i: int| 0 <= i < body.len() ==> #[trigger] body[i] != '\\' && body[i] != ':'
    &&& forall|i: int| 0 <= i < body.len() - 1 ==> !(#[trigger] body[i] == '/' && body[i + 1] == '/')
    &&& forall|i: int| 0 <= i < body.len() ==> !#[trigger] dot_part_at(body, i)
}

/// The parent of a simple path: up to its last `/`, `/` when that is the
/// first character, or empty without a `/`.
pub open spec fn simple_parent(p: Seq<char>) -> Seq<char> {
    if last_slash(p) < 0 {
        seq![]
    } else if last_slash(p) == 0 {
        seq!['/']
    } else {
        p.take(last_slash(p))
    }
}

/// Whether `a` is a prefix of `b`.
pub open spec fn is_prefix(a: Seq<char>, b: Seq<char>) -> bool {
    &&& a.len() <= b.len()
    &&& b.take(a.len() as int) == a
}

/// Whether `path` ends with `name`.
pub open spec fn ends_with(path: Seq<char>, name: Seq<char>) -> bool {
    &&& path.len() >= name.len()
    &&& path.skip(path.len() - name.len()) == name
}

/// A path separator on some platform.
pub open spec fn is_separator(c: char) -> bool {
    c == '/' || c == '\\'
}

/// A plain relative file name: not empty, without a separator or a drive
/// colon, and not made of dots alone (so neither `.` nor `..`).
pub open spec fn is_plain_name(name: Seq<char>) -> bool {
    &&& name.len() > 0
    &&& forall|i: int|
        0 <= i < name.len() ==> #[trigger] name[i] != '/' && name[i] != '\\' && name[i] != ':'
    &&& exists|i: int| 0 <= i < name.len() && #[trigger] name[i] != '.'
}

/// Whether `r` is `base`, then at most one separator, then `name`.
pub open spec fn is_join_of(r: Seq<char>, base: Seq<char>, name: Seq<char>) -> bool {
    &&& r.len() == base.len() + name.len() || r.len() == base.len() + name.len() + 1
    &&& is_prefix(base, r)
    &&& ends_with(r, name)
    &&& r.len() == base.len() + name.len() + 1 ==> is_separator(r[base.len() as int])
}

/// Whether `p` starts with a backslash: a rooted, UNC or verbatim path on
/// Windows, for which `PathBuf::push` may rewrite the base (a verbatim base
/// is normalized, dropping `.` and `..`).
pub open spec fn starts_with_backslash(p: Seq<char>) -> bool {
    p.len() > 0 && p[0] == '\\'
}

/// What `Path::join` gives for `base` and a plain `name`, as far as it
/// reads the same on every platform: the result ends with `name`; unless
/// `base` starts with a backslash, it is `base`, at most one separator,
/// then `name`; an empty `base` gives `name` alone; a `base` ending in `/`
/// gets no further separator; and a `base` ending in anything but a
/// separator or a drive colon gets exactly one.
pub open spec fn is_path_join(r: Seq<char>, base: Seq<char>, name: Seq<char>) -> bool {
    &&& ends_with(r, name)
    &&& !starts_with_backslash(base) ==> is_join_of(r, base, name)
    &&& base.len() == 0 ==> r == name
    &&& base.len() > 0 && base.last() == '/' && !starts_with_backslash(base) ==> r == base + name
    &&& base.len() > 0 && !is_separator(base.last()) && base.last() != ':'
        && !starts_with_backslash(base) ==> r.len() == base.len() + name.len() + 1
}

/// `std::path::Path::join`, as text. By the documentation of
/// `PathBuf::push`, a relative `name` is appended to `base`, after the
/// platform's separator where one is needed (not after a separator, not
/// onto an empty path, not onto a bare drive such as `C:`); a verbatim
/// base (`\\?\...`) is normalized instead, so bases that start with a
/// backslash get only "ends with `name`". Which separator is added depends
/// on the platform and is left unsaid (see `is_path_join`).
#[verifier::external_body]
pub fn path_join(base: &str, name: &str) -> (r: String)
    requires
        is_plain_name(name@),
    ensures
        is_path_join(r@, base@, name@),
{
    std::path::Path::new(base).join(name).display().to_string()
}

/// What `String::from_utf8_lossy` makes of `bytes`: the decoded text, with
/// each invalid sequence replaced by U+FFFD.
pub uninterp spec fn lossy_text(bytes: Seq<u8>) -> Seq<char>;

/// `String::from_utf8_lossy(bytes)`, owned. Its result is named
/// `lossy_text`; the documentation also says that valid UTF-8 comes back
/// as the text it encodes, and that is claimed here too.
#[verifier::external_body]
pub fn utf8_lossy(bytes: &[u8]) -> (r: String)
    ensures
        r@ == lossy_text(bytes@),
        valid_utf8(bytes@) ==> r@ == decode_utf8(bytes@),
{
    String::from_utf8_lossy(bytes).into_owned()
}

} // verus!
