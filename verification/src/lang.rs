use vstd::prelude::*;

verus! {

/// Languages of the sources that provola builds and tests.
#[derive(Clone, Copy, Debug, PartialEq, Eq, Structural)]
pub enum Language {
    C,
    Cpp,
    Rust,
}

/// Kinds of test runners whose reports provola reads.
#[derive(Clone, Copy, Debug, PartialEq, Eq, Structural)]
pub enum TestRunnerType {
    GoogleTest,
    Catch2,
}

/// What `std::path::Path::extension` gives for a path, taken as text.
pub uninterp spec fn path_extension(path: Seq<char>) -> Option<Seq<char>>;

/// Index of the last occurrence of `c` in `s`, or -1 when `c` does not occur.
pub open spec fn last_index_of(s: Seq<char>, c: char) -> int
    decreases s.len(),
{
    if s.len() == 0 {
        -1
    } else if s.last() == c {
        s.len() - 1
    } else {
        last_index_of(s.drop_last(), c)
    }
}

/// The extension of a bare file name: the text after its last '.', unless the
/// name has no '.' or its only '.' is the first character.
pub open spec fn file_name_extension(name: Seq<char>) -> Option<Seq<char>> {
    let i = last_index_of(name, '.');
    if i <= 0 {
        None
    } else {
        Some(name.subrange(i + 1, name.len() as int))
    }
}

/// A path that is one plain file name on every platform: no separator, no
/// drive prefix, and not one of the special names "", "." or "..".
pub open spec fn is_plain_file_name(path: Seq<char>) -> bool {
    &&& !path.contains('/')
    &&& !path.contains('\\')
    &&& !path.contains(':')
    &&& path != Seq::<char>::empty()
    &&& path != seq!['.']
    &&& path != seq!['.', '.']
}

/// The last segment of a path: the text after its last '/', or the whole
/// path when it has no '/'.
pub open spec fn last_segment(path: Seq<char>) -> Seq<char> {
    path.subrange(last_index_of(path, '/') + 1, path.len() as int)
}

/// A path whose extension is that of its last segment on every platform: no
/// '\\' and no ':' (so no Windows prefix), not starting with "//", and a
/// plain file name after its last '/'.
pub open spec fn is_simple_path(path: Seq<char>) -> bool {
    &&& !path.contains('\\')
    &&& !path.contains(':')
    &&& !(path.len() >= 2 && path[0] == '/' && path[1] == '/')
    &&& is_plain_file_name(last_segment(path))
}

/// The language that a file extension names.
pub open spec fn language_of_extension(ext: Seq<char>) -> Option<Language> {
    if ext == seq!['c'] {
        Some(Language::C)
    } else if ext == seq!['c', 'p', 'p'] || ext == seq!['c', 'c'] || ext == seq!['c', 'x', 'x'] {
        Some(Language::Cpp)
    } else if ext == seq!['r', 's'] {
        Some(Language::Rust)
    } else {
        None
    }
}

/// The language guessed from a source path.
pub open spec fn language_of_source(source: Seq<char>) -> Option<Language> {
    match path_extension(source) {
        Some(ext) => language_of_extension(ext),
        None => None,
    }
}

/// Calls `std::path::Path::extension` on `path` and returns the extension as
/// text. The contract claims that the result is `path_extension` of the path,
/// and, for a simple path (plain directories separated by '/' and a plain
/// file name last), what the documentation of `Path::extension` says of its
/// file name: the part after its last '.', and nothing when there is no '.'
/// or the name begins with its only '.'. For other paths (Windows prefixes,
/// backslashes, a trailing '/', "." or ".." last) what the extension is rests
/// on each platform's parsing of components and is left unsaid.
#[verifier::external_body]
fn extension_of(path: &str) -> (ext: Option<String>)
    ensures
        match ext {
            Some(e) => path_extension(path@) == Some(e@),
            None => path_extension(path@) is None,
        },
        is_simple_path(path@) ==> match ext {
            Some(e) => file_name_extension(last_segment(path@)) == Some(e@),
            None => file_name_extension(last_segment(path@)) is None,
        },
{
    let ext = std::path::Path::new(path).extension()?;
    Some(ext.to_string_lossy().into_owned())
}

fn text_is(s: &str, lit: &str) -> (r: bool)
    ensures
        r == (s@ == lit@),
{
    s.to_owned() == lit.to_owned()
}

impl Language {
    /// The language that a file extension names: "c" for C, "cpp", "cc" and
    /// "cxx" for C++, "rs" for Rust.
    pub fn from_extension(ext: &str) -> (lang: Option<Language>)
        ensures
            lang == language_of_extension(ext@),
    {
        proof {
            reveal_strlit("c");
            reveal_strlit("cpp");
            reveal_strlit("cc");
            reveal_strlit("cxx");
            reveal_strlit("rs");
            assert("c"@ =~= seq!['c']);
            assert("cpp"@ =~= seq!['c', 'p', 'p']);
            assert("cc"@ =~= seq!['c', 'c']);
            assert("cxx"@ =~= seq!['c', 'x', 'x']);
            assert("rs"@ =~= seq!['r', 's']);
        }
        if text_is(ext, "c") {
            Some(Language::C)
        } else if text_is(ext, "cpp") || text_is(ext, "cc") || text_is(ext, "cxx") {
            Some(Language::Cpp)
        } else if text_is(ext, "rs") {
            Some(Language::Rust)
        } else {
            None
        }
    }

    /// Guesses the language of a source file from its extension.
    pub fn from_source(source: &str) -> (lang: Option<Language>)
        ensures
            lang == language_of_source(source@),
            is_simple_path(source@) ==> lang == match file_name_extension(last_segment(source@)) {
                Some(ext) => language_of_extension(ext),
                None => None,
            },
    {
        match extension_of(source) {
            Some(ext) => Language::from_extension(ext.as_str()),
            None => None,
        }
    }
}

} // verus!
