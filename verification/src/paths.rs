//! What a file's path tells: its name, its extension, and from the extension how the file is
//! to be read. Paths are taken apart by `std::path`, under the rules of the platform.

use vstd::prelude::*;

verus! {

/// Said of a file that is neither a typeset document nor a CSV export.
pub const UNSUPPORTED_FORMAT: &'static str =
    "Unsupported file format. Please upload a PDF or CSV file.";

/// The file name entered for a path that has none.
pub const UNKNOWN_FILE_NAME: &'static str = "unknown";

/// How a document is to be read.
#[derive(Debug, Clone, Copy, PartialEq, Eq, Structural)]
pub enum FileFormat {
    Pdf,
    Csv,
    Unsupported,
}

/// `c` in lower case where it is one of `A` to `Z`, else `c`.
pub open spec fn lower(c: char) -> char {
    if 0x41 <= c as u32 <= 0x5A {
        ((c as u32 + 0x20) as u8) as char
    } else {
        c
    }
}

/// `s` with `A` to `Z` in lower case.
pub open spec fn lowered(s: Seq<char>) -> Seq<char> {
    Seq::new(s.len(), |i: int| lower(s[i]))
}

/// The format that an extension stands for: `pdf` and `csv` in any mix of cases, and nothing
/// else. No character outside `A` to `Z` has one of these letters as its lower case, so this
/// is the choice by the extension in lower case.
pub open spec fn format_of(extension: Option<Seq<char>>) -> FileFormat {
    match extension {
        Some(e) => if lowered(e) == seq!['p', 'd', 'f'] {
            FileFormat::Pdf
        } else if lowered(e) == seq!['c', 's', 'v'] {
            FileFormat::Csv
        } else {
            FileFormat::Unsupported
        },
        None => FileFormat::Unsupported,
    }
}

/// Whether `extension` stands in `path` right behind a `.` and holds no `.` itself.
pub open spec fn follows_a_dot(path: Seq<char>, extension: Seq<char>) -> bool {
    &&& !extension.contains('.')
    &&& exists|i: int|
        1 <= i && i + extension.len() <= path.len() && path[i - 1] == '.' && #[trigger] path.subrange(
            i,
            i + extension.len(),
        ) == extension
}

/// Whether every platform takes `path` apart alike: it holds no `\\` and no `:`, and does not
/// begin with two separators, so that `/` alone divides it and no prefix stands before it.
pub open spec fn is_portable(path: Seq<char>) -> bool {
    &&& !path.contains('\\')
    &&& !path.contains(':')
    &&& !(path.len() >= 2 && path[0] == '/' && path[1] == '/')
}

/// Whether `name` is what follows the last `/` of `path`, or all of a path without one.
pub open spec fn is_last_segment(path: Seq<char>, name: Seq<char>) -> bool {
    &&& !name.contains('/')
    &&& name.len() <= path.len()
    &&& path.skip(path.len() - name.len()) == name
    &&& (name.len() == path.len() || path[path.len() - name.len() - 1] == '/')
}

/// Whether `name` can name a file: it is not empty and neither `.` nor `..`.
pub open spec fn is_proper_name(name: Seq<char>) -> bool {
    name.len() > 0 && name != seq!['.'] && name != seq!['.', '.']
}

/// Whether `name` is the file name of `path` on every platform: the path is portable and ends
/// in the proper name `name`.
pub open spec fn names_file(path: Seq<char>, name: Seq<char>) -> bool {
    is_portable(path) && is_last_segment(path, name) && is_proper_name(name)
}

/// Whether `extension` is the extension of the file name `name`: what follows the last `.` of
/// the name, where that `.` is not the first character of the name and the name is not `..`.
pub open spec fn is_extension_of(name: Seq<char>, extension: Seq<char>) -> bool {
    &&& !extension.contains('.')
    &&& extension.len() + 2 <= name.len()
    &&& name[name.len() - extension.len() - 1] == '.'
    &&& name.skip(name.len() - extension.len()) == extension
    &&& name != seq!['.', '.']
}

/// Whether a file name has no extension.
pub open spec fn has_no_extension(name: Seq<char>) -> bool {
    forall|e: Seq<char>| !is_extension_of(name, e)
}

/// The extension of `path` by `std::path::Path::extension`: the portion of the file name
/// after its final `.`, or `None` where the path has no file name or the name no extension.
/// Which part of a path is the file name depends on the platform; of a portable path that
/// ends in a proper name, it is that name on every platform.
#[verifier::external_body]
pub(crate) fn path_extension(path: &str) -> (r: Option<String>)
    ensures
        r is Some ==> follows_a_dot(path@, r->Some_0@),
        forall|name: Seq<char>| #[trigger]
            names_file(path@, name) && r is Some ==> is_extension_of(name, r->Some_0@),
        forall|name: Seq<char>| #[trigger]
            names_file(path@, name) && r is None ==> has_no_extension(name),
{
    std::path::Path::new(path).extension().and_then(|e| e.to_str()).map(|e| e.to_string())
}

/// The final component of `path` by `std::path::Path::file_name`, or `None` where the path
/// ends in `..` or has no component. Of a portable path that ends in a proper name, it is
/// that name on every platform; of other paths nothing is promised.
#[verifier::external_body]
pub(crate) fn path_file_name(path: &str) -> (r: Option<String>)
    ensures
        forall|name: Seq<char>| #[trigger]
            names_file(path@, name) ==> r is Some && r->Some_0@ == name,
{
    std::path::Path::new(path).file_name().and_then(|n| n.to_str()).map(|n| n.to_string())
}

/// `c` in lower case where it is one of `A` to `Z`, else `c`.
fn lower_case(c: char) -> (r: char)
    ensures
        r == lower(c),
{
    let u: u32 = c as u32;
    if 0x41 <= u && u <= 0x5A {
        ((u + 0x20) as u8) as char
    } else {
        c
    }
}

/// Whether `chars`, in lower case, are the three letters given.
fn is_extension(chars: &Vec<char>, a: char, b: char, c: char) -> (r: bool)
    ensures
        r == (lowered(chars@) == seq![a, b, c]),
{
    if chars.len() != 3 {
        proof {
            assert(lowered(chars@).len() != seq![a, b, c].len());
        }
        return false;
    }
    let r = lower_case(chars[0]) == a && lower_case(chars[1]) == b && lower_case(chars[2]) == c;
    proof {
        let l = lowered(chars@);
        let t = seq![a, b, c];
        if r {
            assert(l =~= t);
        } else {
            assert(l[0] != t[0] || l[1] != t[1] || l[2] != t[2]);
        }
    }
    r
}

/// Chooses the format by the extension alone: the content is never looked at.
pub fn format_for_extension(extension: Option<&str>) -> (r: FileFormat)
    ensures
        r == format_of(
            match extension {
                Some(e) => Some(e@),
                None => None,
            },
        ),
{
    match extension {
        Some(e) => {
            let chars = crate::text::chars_of(e);
            if is_extension(&chars, 'p', 'd', 'f') {
                FileFormat::Pdf
            } else if is_extension(&chars, 'c', 's', 'v') {
                FileFormat::Csv
            } else {
                FileFormat::Unsupported
            }
        },
        None => FileFormat::Unsupported,
    }
}

/// Chooses how the file at `file_path` is to be read, by the extension of its name.
///
/// A portable path that ends in a proper name is read by the format of that name's
/// extension, and is unsupported where the name has none. Of any other path, where the
/// platform decides which part is the name: a path without a `.` is unsupported, and any
/// other result is the format of an extension that stands in the path behind a `.`.
pub fn detect_format(file_path: &str) -> (r: FileFormat)
    ensures
        forall|name: Seq<char>, e: Seq<char>|
            #![trigger names_file(file_path@, name), is_extension_of(name, e)]
            names_file(file_path@, name) && is_extension_of(name, e) ==> r == format_of(Some(e)),
        forall|name: Seq<char>| #[trigger]
            names_file(file_path@, name) && has_no_extension(name) ==> r
                == FileFormat::Unsupported,
        r != FileFormat::Unsupported ==> exists|extension: Seq<char>| #[trigger]
            follows_a_dot(file_path@, extension) && r == format_of(Some(extension)),
        !file_path@.contains('.') ==> r == FileFormat::Unsupported,
{
    match path_extension(file_path) {
        Some(e) => {
            let r = format_for_extension(Some(e.as_str()));
            proof {
                if !file_path@.contains('.') {
                    let i = choose|i: int|
                        1 <= i && i + e@.len() <= file_path@.len() && file_path@[i - 1] == '.'
                            && #[trigger] file_path@.subrange(i, i + e@.len()) == e@;
                    assert(file_path@.contains(file_path@[i - 1]));
                }
                assert forall|name: Seq<char>, other: Seq<char>|
                    #![trigger names_file(file_path@, name), is_extension_of(name, other)]
                    names_file(file_path@, name) && is_extension_of(name, other) implies other
                    == e@ by {
                    lemma_extension_unique(name, other, e@);
                }
                assert forall|name: Seq<char>| #[trigger]
                    names_file(file_path@, name) && has_no_extension(name) implies false by {
                    assert(is_extension_of(name, e@));
                }
            }
            r
        },
        None => {
            proof {
                assert forall|name: Seq<char>, other: Seq<char>|
                    #![trigger names_file(file_path@, name), is_extension_of(name, other)]
                    names_file(file_path@, name) && is_extension_of(name, other) implies false by {
                    assert(has_no_extension(name));
                }
            }
            format_for_extension(None)
        },
    }
}

/// A file name has one extension at most.
pub proof fn lemma_extension_unique(name: Seq<char>, a: Seq<char>, b: Seq<char>)
    requires
        is_extension_of(name, a),
        is_extension_of(name, b),
    ensures
        a == b,
{
    let n = name.len() as int;
    if a.len() < b.len() {
        let k = b.len() - a.len() - 1;
        assert(name.skip(n - b.len())[k] == name[n - a.len() - 1]);
        assert(b.contains(b[k]));
    } else if b.len() < a.len() {
        let k = a.len() - b.len() - 1;
        assert(name.skip(n - a.len())[k] == name[n - b.len() - 1]);
        assert(a.contains(a[k]));
    } else {
        assert(a =~= b);
    }
}

/// The file name to enter for a path: the name found in it, else `unknown`.
pub fn file_name_from(found: Option<String>) -> (r: String)
    ensures
        r@ == (match found {
            Some(name) => name@,
            None => UNKNOWN_FILE_NAME@,
        }),
{
    match found {
        Some(name) => name,
        None => UNKNOWN_FILE_NAME.to_string(),
    }
}

} // verus!
