//! Where uploaded supporting documents are stored, and under which name.
use vstd::prelude::*;
use crate::models::UploadResponse;
use crate::text::{owned, push_char};

verus! {

/// The directory that holds the uploaded documents.
pub const INVOICES_DIR: &'static str = "invoices";

/// `t` occurs in `s` as a run of consecutive characters.
pub open spec fn is_substring(t: Seq<char>, s: Seq<char>) -> bool {
    exists|i: int| 0 <= i && i + t.len() <= s.len() && #[trigger] s.subrange(i, i + t.len()) == t
}

/// A path that is one plain file name on every platform: not empty, made of
/// ASCII letters and digits, `.`, `-` and `_` only, and neither `.` nor `..`.
pub open spec fn is_plain_name(s: Seq<char>) -> bool {
    &&& s.len() > 0
    &&& forall|i: int| 0 <= i < s.len() ==> is_safe_char(#[trigger] s[i])
    &&& s != seq!['.']
    &&& s != seq!['.', '.']
}

/// A path separator on some platform: `/` everywhere, `\` on Windows.
pub open spec fn is_separator(c: char) -> bool {
    c == '/' || c == '\\'
}

/// A path with no Windows prefix: its second character is not `:` (as in a
/// drive `C:`), and it does not start with two separators (as a network or
/// device path does).
pub open spec fn has_no_prefix(s: Seq<char>) -> bool {
    &&& !(s.len() >= 2 && s[1] == ':')
    &&& !(s.len() >= 2 && is_separator(s[0]) && is_separator(s[1]))
}

/// A path that reads the same on every platform: `/` is its only separator,
/// and it has no prefix. A `:` elsewhere than as the second character is
/// part of a component like any other character.
pub open spec fn unambiguous_path(s: Seq<char>) -> bool {
    &&& !s.contains('\\')
    &&& has_no_prefix(s)
}

/// The index just after the last separator (`/` or `\`) of `s`; 0 when it
/// has none.
pub open spec fn after_last_separator(s: Seq<char>) -> int
    decreases s.len(),
{
    if s.len() == 0 {
        0
    } else if is_separator(s.last()) {
        s.len() as int
    } else {
        after_last_separator(s.drop_last())
    }
}

/// What follows the last `/` or `\` of the path.
pub open spec fn final_segment(s: Seq<char>) -> Seq<char> {
    s.skip(after_last_separator(s))
}

/// A path that names a file on every platform: it has no prefix, and what
/// follows its last `/` or `\` is not empty, `.` or `..`. Which file it
/// names may still depend on whether `\` separates.
pub open spec fn names_a_file(s: Seq<char>) -> bool {
    &&& has_no_prefix(s)
    &&& final_segment(s).len() > 0
    &&& final_segment(s) != seq!['.']
    &&& final_segment(s) != seq!['.', '.']
}

/// The index just after the last `/` of `s`; 0 when it has none.
pub open spec fn after_last_slash(s: Seq<char>) -> int
    decreases s.len(),
{
    if s.len() == 0 {
        0
    } else if s.last() == '/' {
        s.len() as int
    } else {
        after_last_slash(s.drop_last())
    }
}

/// What follows the last `/` holds no `/`, and is not empty when the text
/// does not end in `/`.
pub proof fn lemma_after_last_slash(s: Seq<char>)
    ensures
        0 <= after_last_slash(s) <= s.len(),
        s.len() > 0 && s.last() != '/' ==> after_last_slash(s) < s.len(),
        after_last_slash(s) > 0 ==> s[after_last_slash(s) - 1] == '/',
        !s.skip(after_last_slash(s)).contains('/'),
    decreases s.len(),
{
    if s.len() > 0 && s.last() != '/' {
        let t = s.drop_last();
        lemma_after_last_slash(t);
        let k = after_last_slash(t);
        assert forall|i: int| 0 <= i < s.skip(k).len() implies s.skip(k)[i] != '/' by {
            if i < t.skip(k).len() {
                assert(s.skip(k)[i] == t.skip(k)[i]);
            }
        }
    }
}

/// The last component of a path whose only separator is `/`, as
/// `Path::components` reads it: separators that repeat or end the path are
/// ignored, and `.` is dropped except as the very first component. It is
/// `None` when the path is empty, a root alone, `.` alone, or ends in `..`.
pub open spec fn last_component(s: Seq<char>) -> Option<Seq<char>>
    decreases s.len(),
{
    if s.len() == 0 {
        None
    } else if s.last() == '/' {
        last_component(s.drop_last())
    } else {
        let k = after_last_slash(s);
        let seg = s.skip(k);
        if seg == seq!['.', '.'] {
            None
        } else if seg == seq!['.'] {
            if k == 0 {
                None
            } else {
                proof {
                    lemma_after_last_slash(s);
                }
                last_component(s.take(k))
            }
        } else {
            Some(seg)
        }
    }
}

/// A last component is a non-empty run of the path that holds no `/`.
pub proof fn lemma_last_component(s: Seq<char>)
    ensures
        last_component(s) matches Some(n) ==> {
            &&& n.len() > 0
            &&& !n.contains('/')
            &&& is_substring(n, s)
        },
    decreases s.len(),
{
    if s.len() > 0 {
        if s.last() == '/' {
            let t = s.drop_last();
            lemma_last_component(t);
            if let Some(n) = last_component(t) {
                let i = choose|i: int|
                    0 <= i && i + n.len() <= t.len() && #[trigger] t.subrange(i, i + n.len()) == n;
                assert(s.subrange(i, i + n.len()) =~= t.subrange(i, i + n.len()));
            }
        } else {
            lemma_after_last_slash(s);
            let k = after_last_slash(s);
            let seg = s.skip(k);
            if seg == seq!['.'] && k != 0 {
                let t = s.take(k);
                lemma_last_component(t);
                if let Some(n) = last_component(t) {
                    let i = choose|i: int|
                        0 <= i && i + n.len() <= t.len() && #[trigger] t.subrange(i, i + n.len()) == n;
                    assert(s.subrange(i, i + n.len()) =~= t.subrange(i, i + n.len()));
                }
            } else if seg != seq!['.', '.'] && seg != seq!['.'] {
                assert(s.subrange(k, k + seg.len()) =~= seg);
            }
        }
    }
}

/// A name with no separator and no drive mark, other than `.` and `..`,
/// is its own last component.
pub open spec fn is_simple_name(s: Seq<char>) -> bool {
    &&& s.len() > 0
    &&& !s.contains('/')
    &&& !s.contains('\\')
    &&& !(s.len() >= 2 && s[1] == ':')
    &&& s != seq!['.']
    &&& s != seq!['.', '.']
}

/// A simple name reads the same on every platform and is its own last
/// component; a plain name is a simple name.
pub proof fn lemma_simple_name(s: Seq<char>)
    ensures
        is_simple_name(s) ==> unambiguous_path(s) && last_component(s) == Some(s),
        is_plain_name(s) ==> is_simple_name(s),
{
    if is_simple_name(s) {
        lemma_after_last_slash(s);
        let k = after_last_slash(s);
        if k > 0 {
            assert(s.contains(s[k - 1]));
        }
        if s.len() >= 2 {
            assert(s.contains(s[0]));
        }
        assert(s.skip(0) =~= s);
    }
    if is_plain_name(s) {
        if s.contains('/') {
            let i = choose|i: int| 0 <= i < s.len() && s[i] == '/';
            assert(is_safe_char(s[i]));
        }
        if s.contains('\\') {
            let i = choose|i: int| 0 <= i < s.len() && s[i] == '\\';
            assert(is_safe_char(s[i]));
        }
        if s.len() >= 2 {
            assert(is_safe_char(s[1]));
        }
    }
}

/// `Path::new(path).file_name()`, as text: the last component of the path.
/// The component is a non-empty run of the path. For a path that reads the
/// same on every platform it is the last component as `Path::components`
/// reads it. A path with no prefix whose final segment is not empty, `.` or
/// `..` has a last component on every platform. For a path with `\` or a
/// prefix, which component it is depends on the platform's separators and
/// prefixes, and is not stated.
#[verifier::external_body]
fn path_file_name(path: &str) -> (r: Option<String>)
    ensures
        r matches Some(name) ==> name@.len() > 0 && is_substring(name@, path@),
        unambiguous_path(path@) ==> (match r {
            Some(name) => last_component(path@) == Some(name@),
            None => last_component(path@) is None,
        }),
        names_a_file(path@) ==> r is Some,
{
    std::path::Path::new(path).file_name().and_then(|name| name.to_str()).map(|name| name.to_owned())
}

/// A character that may stay in a stored file name: an ASCII letter or
/// digit, `.`, `-` or `_`.
pub open spec fn is_safe_char(c: char) -> bool {
    ('a' <= c <= 'z') || ('A' <= c <= 'Z') || ('0' <= c <= '9') || c == '.' || c == '-' || c == '_'
}

/// The character as it is stored: itself when safe, else `_`.
pub open spec fn safe_char(c: char) -> char {
    if is_safe_char(c) {
        c
    } else {
        '_'
    }
}

/// A name with every unsafe character replaced by `_`.
pub open spec fn sanitized(name: Seq<char>) -> Seq<char> {
    name.map_values(|c: char| safe_char(c))
}

/// Replaces every character of the name that is not an ASCII letter or
/// digit, `.`, `-` or `_` by `_`.
pub fn sanitize_chars(name: &str) -> (r: String)
    ensures
        r@ == sanitized(name@),
{
    broadcast use vstd::string::group_string_axioms;
    let mut out = String::new();
    for c in it: name.chars()
        invariant
            it.seq() == name@,
            out@ == sanitized(name@.take(it.index() as int)),
    {
        assert(name@.take(it.index() + 1) =~= name@.take(it.index() as int).push(c));
        let safe = ('a' <= c && c <= 'z') || ('A' <= c && c <= 'Z') || ('0' <= c && c <= '9')
            || c == '.' || c == '-' || c == '_';
        if safe {
            push_char(&mut out, c);
        } else {
            push_char(&mut out, '_');
        }
        assert(out@ =~= sanitized(name@.take(it.index() + 1)));
    }
    assert(name@.take(name@.len() as int) =~= name@);
    out
}

/// The name an upload is stored under: the last component of the name it
/// was sent with, made safe; empty when the name has no last component.
/// A simple name (no `/` or `\`, no `:` as its second character, not empty,
/// `.` or `..`) is its own last component, and a name that is already plain
/// is kept as it is. A path that names a file on every platform never gives
/// the empty name.
pub fn sanitize_filename(filename: &str) -> (r: String)
    ensures
        r@.len() == 0 || exists|name: Seq<char>|
            name.len() > 0 && is_substring(name, filename@) && r@ == sanitized(name),
        unambiguous_path(filename@) ==> r@ == (match last_component(filename@) {
            Some(name) => sanitized(name),
            None => Seq::empty(),
        }),
        is_simple_name(filename@) ==> r@ == sanitized(filename@),
        is_plain_name(filename@) ==> r@ == filename@,
        names_a_file(filename@) ==> r@.len() > 0,
{
    proof {
        lemma_simple_name(filename@);
    }
    match path_file_name(filename) {
        Some(name) => {
            let r = sanitize_chars(name.as_str());
            proof {
                lemma_sanitized_is_safe(name@);
                if is_plain_name(filename@) {
                    assert(sanitized(filename@) =~= filename@);
                }
            }
            r
        },
        None => String::new(),
    }
}

/// Where a stored document goes, and the path it is served under.
#[derive(Debug, Clone, PartialEq)]
pub struct StoredInvoice {
    pub file_name: String,
    pub public_path: String,
}

/// The path a document stored as `file_name` is served under.
pub open spec fn public_path(file_name: Seq<char>) -> Seq<char> {
    "/"@ + INVOICES_DIR@ + "/"@ + file_name
}

/// Decides where a document stored under the safe name goes; an empty
/// name is refused.
pub fn store_plan(safe_name: &str) -> (r: Result<StoredInvoice, String>)
    ensures
        match r {
            Ok(s) => safe_name@.len() > 0 && s.file_name@ == safe_name@ && s.public_path@
                == public_path(safe_name@),
            Err(e) => safe_name@.len() == 0 && e@ == "nom de fichier invalide"@,
        },
{
    if safe_name.is_empty() {
        return Err(owned("nom de fichier invalide"));
    }
    let mut path = owned("/");
    path.append(INVOICES_DIR);
    path.append("/");
    path.append(safe_name);
    Ok(StoredInvoice { file_name: owned(safe_name), public_path: path })
}

/// Decides where an uploaded document goes: under its sanitized name in
/// the invoices directory. Fails when nothing is left of the name: for a
/// path that reads the same on every platform, exactly when it has no last
/// component. A simple name, and any path that names a file on every
/// platform, always succeeds.
pub fn plan_invoice(filename: &str) -> (r: Result<StoredInvoice, String>)
    ensures
        match r {
            Ok(s) => s.file_name@.len() > 0 && s.public_path@ == public_path(s.file_name@) && exists|
                name: Seq<char>,
            | name.len() > 0 && is_substring(name, filename@) && s.file_name@ == sanitized(name),
            Err(e) => e@ == "nom de fichier invalide"@,
        },
        unambiguous_path(filename@) ==> (match last_component(filename@) {
            Some(name) => r matches Ok(s) && s.file_name@ == sanitized(name) && s.public_path@
                == public_path(sanitized(name)),
            None => r is Err,
        }),
        is_simple_name(filename@) ==> (r matches Ok(s) && s.file_name@ == sanitized(filename@)
            && s.public_path@ == public_path(sanitized(filename@))),
        is_plain_name(filename@) ==> (r matches Ok(s) && s.file_name@ == filename@
            && s.public_path@ == public_path(filename@)),
        names_a_file(filename@) ==> r is Ok,
{
    proof {
        lemma_simple_name(filename@);
        lemma_last_component(filename@);
    }
    let safe = sanitize_filename(filename);
    store_plan(safe.as_str())
}

/// The answer to an upload stored as planned.
pub fn upload_response(stored: &StoredInvoice) -> (r: UploadResponse)
    ensures
        r.path@ == stored.public_path@,
{
    UploadResponse { path: stored.public_path.clone() }
}

/// A stored name holds nothing but safe characters, and making it safe
/// again changes nothing.
pub proof fn lemma_sanitized_is_safe(name: Seq<char>)
    ensures
        forall|i: int| 0 <= i < sanitized(name).len() ==> is_safe_char(#[trigger] sanitized(name)[i]),
        sanitized(sanitized(name)) == sanitized(name),
        sanitized(name).len() == name.len(),
{
    assert(sanitized(sanitized(name)) =~= sanitized(name));
}


/// Only the form field named `file` carries the document.
pub fn is_upload_field(field_name: Option<&str>) -> (r: bool)
    ensures
        r == (field_name matches Some(n) && n@ == "file"@),
{
    match field_name {
        Some(n) => crate::text::str_eq(n, "file"),
        None => false,
    }
}

/// The name the uploaded document was sent with, or `upload.bin` when it
/// came without one.
pub fn upload_file_name(sent: Option<&str>) -> (r: String)
    ensures
        r@ == (match sent {
            Some(n) => n@,
            None => "upload.bin"@,
        }),
{
    match sent {
        Some(n) => owned(n),
        None => owned("upload.bin"),
    }
}

/// The answer to an upload request that carried no `file` field.
pub fn missing_file_error() -> (r: String)
    ensures
        r@ == "fichier manquant"@,
{
    owned("fichier manquant")
}

} // verus!
