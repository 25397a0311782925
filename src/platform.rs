//! Where the runtime's shared library lies under a runtime home directory.
//!
//! Each supported platform has one row in a fixed table: the separator its
//! paths use, the directories that lead from the runtime home to the library,
//! the library's base name and its file extension.
use vstd::prelude::*;
use vstd::string::*;
use crate::text::texts;

verus! {

/// The platforms the launcher knows how to embed the runtime on.
#[derive(Clone, Copy, Debug, PartialEq, Eq, Structural)]
pub enum Platform {
    MacOs,
    LinuxAmd64,
    LinuxI386,
    Windows,
}

/// The character that separates path components.
pub open spec fn separator(p: Platform) -> char {
    match p {
        Platform::Windows => '\\',
        _ => '/',
    }
}

/// The components that lead from the runtime home to the library, the last
/// being the library's base name.
pub open spec fn library_subpath(p: Platform) -> Seq<Seq<char>> {
    match p {
        Platform::MacOs => seq!["lib"@, "jli"@, "libjli"@],
        Platform::LinuxAmd64 => seq!["lib"@, "amd64"@, "server"@, "libjvm"@],
        Platform::LinuxI386 => seq!["lib"@, "i386"@, "server"@, "libjvm"@],
        Platform::Windows => seq!["bin"@, "server"@, "jvm"@],
    }
}

/// The file extension of a shared library.
pub open spec fn library_extension(p: Platform) -> Seq<char> {
    match p {
        Platform::MacOs => "dylib"@,
        Platform::Windows => "dll"@,
        _ => "so"@,
    }
}

/// Whether the host's primary thread must run the platform's event loop while
/// the launch runs on a worker thread.
pub open spec fn spec_needs_event_loop(p: Platform) -> bool {
    p == Platform::MacOs
}

/// `base` with `name` appended as a new last component; no separator is added
/// to an empty path or to one that already ends with a separator.
pub open spec fn child(sep: char, base: Seq<char>, name: Seq<char>) -> Seq<char> {
    if base.len() == 0 || base.last() == sep {
        base + name
    } else {
        base.push(sep) + name
    }
}

/// `base` with each of `names` appended in turn.
pub open spec fn descend(sep: char, base: Seq<char>, names: Seq<Seq<char>>) -> Seq<char>
    decreases names.len(),
{
    if names.len() == 0 {
        base
    } else {
        child(sep, descend(sep, base, names.drop_last()), names.last())
    }
}

/// The path of the runtime's shared library under `home`.
pub open spec fn located_path(p: Platform, home: Seq<char>) -> Seq<char> {
    descend(separator(p), home, library_subpath(p)) + seq!['.'] + library_extension(p)
}

/// `a` starts with `b`.
pub open spec fn extends(a: Seq<char>, b: Seq<char>) -> bool {
    a.len() >= b.len() && a.subrange(0, b.len() as int) == b
}

impl Platform {
    /// The path separator, as an executable value.
    pub fn separator(&self) -> (r: char)
        ensures
            r == separator(*self),
    {
        match self {
            Platform::Windows => '\\',
            _ => '/',
        }
    }

    /// The path separator, as a one-character string.
    pub fn separator_text(&self) -> (r: &'static str)
        ensures
            r@ == seq![separator(*self)],
    {
        proof {
            reveal_strlit("/");
            reveal_strlit("\\");
        }
        match self {
            Platform::Windows => "\\",
            _ => "/",
        }
    }

    /// Whether the primary thread must keep the platform's event loop alive.
    pub fn needs_event_loop(&self) -> (r: bool)
        ensures
            r == spec_needs_event_loop(*self),
    {
        match self {
            Platform::MacOs => true,
            _ => false,
        }
    }

    /// The components from the runtime home to the library, in order.
    pub fn library_subpath(&self) -> (r: Vec<String>)
        ensures
            texts(r@) == library_subpath(*self),
    {
        let mut r: Vec<String> = Vec::new();
        match self {
            Platform::MacOs => {
                r.push(String::from_str("lib"));
                r.push(String::from_str("jli"));
                r.push(String::from_str("libjli"));
            },
            Platform::LinuxAmd64 => {
                r.push(String::from_str("lib"));
                r.push(String::from_str("amd64"));
                r.push(String::from_str("server"));
                r.push(String::from_str("libjvm"));
            },
            Platform::LinuxI386 => {
                r.push(String::from_str("lib"));
                r.push(String::from_str("i386"));
                r.push(String::from_str("server"));
                r.push(String::from_str("libjvm"));
            },
            Platform::Windows => {
                r.push(String::from_str("bin"));
                r.push(String::from_str("server"));
                r.push(String::from_str("jvm"));
            },
        }
        assert(texts(r@) =~= library_subpath(*self));
        r
    }

    /// The shared-library file extension, without its dot.
    pub fn library_extension(&self) -> (r: String)
        ensures
            r@ == library_extension(*self),
    {
        match self {
            Platform::MacOs => String::from_str("dylib"),
            Platform::Windows => String::from_str("dll"),
            _ => String::from_str("so"),
        }
    }
}

/// Appends `name` to `path` as a new last component.
pub fn push_component(platform: Platform, path: &mut String, name: &str)
    ensures
        final(path)@ == child(separator(platform), old(path)@, name@),
{
    let sep = platform.separator();
    let n = path.as_str().unicode_len();
    if n > 0 && path.as_str().get_char(n - 1) != sep {
        path.append(platform.separator_text());
    }
    path.append(name);
}

/// The path of the runtime's shared library under `runtime_home`.
pub fn locate(platform: Platform, runtime_home: &str) -> (r: String)
    ensures
        r@ == located_path(platform, runtime_home@),
{
    let sep = platform.separator();
    let names = platform.library_subpath();
    let mut path = String::from_str(runtime_home);
    let mut i: usize = 0;
    while i < names.len()
        invariant
            i <= names@.len(),
            texts(names@) == library_subpath(platform),
            sep == separator(platform),
            path@ == descend(sep, runtime_home@, texts(names@).subrange(0, i as int)),
        decreases names@.len() - i,
    {
        let ghost before = texts(names@).subrange(0, i as int);
        push_component(platform, &mut path, names[i].as_str());
        assert(texts(names@).subrange(0, i + 1).drop_last() =~= before);
        i = i + 1;
    }
    assert(texts(names@).subrange(0, names@.len() as int) =~= texts(names@));
    path.append(".");
    let ext = platform.library_extension();
    path.append(ext.as_str());
    proof {
        reveal_strlit(".");
        assert(path@ =~= located_path(platform, runtime_home@));
    }
    path
}

proof fn lemma_extends_trans(a: Seq<char>, b: Seq<char>, c: Seq<char>)
    requires
        extends(a, b),
        extends(b, c),
    ensures
        extends(a, c),
{
    assert(a.subrange(0, c.len() as int) =~= a.subrange(0, b.len() as int).subrange(0, c.len() as int));
}

proof fn lemma_child_extends(sep: char, base: Seq<char>, name: Seq<char>)
    ensures
        extends(child(sep, base, name), base),
{
    assert(child(sep, base, name).subrange(0, base.len() as int) =~= base);
}

proof fn lemma_descend_extends_first(sep: char, base: Seq<char>, names: Seq<Seq<char>>)
    requires
        names.len() >= 1,
    ensures
        extends(descend(sep, base, names), child(sep, base, names[0])),
    decreases names.len(),
{
    let first = child(sep, base, names[0]);
    if names.len() == 1 {
        assert(names.drop_last() =~= Seq::<Seq<char>>::empty());
        assert(descend(sep, base, names.drop_last()) == base);
        assert(descend(sep, base, names) == first);
        assert(first.subrange(0, first.len() as int) =~= first);
    } else {
        let rest = names.drop_last();
        lemma_descend_extends_first(sep, base, rest);
        lemma_child_extends(sep, descend(sep, base, rest), names.last());
        lemma_extends_trans(descend(sep, base, names), descend(sep, base, rest), first);
    }
}

/// For every supported platform the library path lies strictly below the
/// runtime home: it starts with the home, a separator follows the home unless
/// the home is empty or already ends with one, and at least one component is
/// added. Its final extension is the platform's shared-library extension: the
/// path ends with a dot and that extension, which holds no dot and no
/// separator.
pub proof fn located_path_lies_under_home(p: Platform, home: Seq<char>)
    ensures
        located_path(p, home).len() > home.len() + 1,
        extends(located_path(p, home), home),
        home.len() == 0 || home.last() == separator(p)
            || located_path(p, home)[home.len() as int] == separator(p),
        located_path(p, home).subrange(
            located_path(p, home).len() - library_extension(p).len() - 1,
            located_path(p, home).len() as int,
        ) == seq!['.'] + library_extension(p),
        library_extension(p).len() > 0,
        forall|i: int|
            0 <= i < library_extension(p).len() ==> #[trigger] library_extension(p)[i] != '.'
                && library_extension(p)[i] != separator(p),
{
    reveal_strlit("lib");
    reveal_strlit("bin");
    reveal_strlit("dylib");
    reveal_strlit("dll");
    reveal_strlit("so");
    let sep = separator(p);
    let names = library_subpath(p);
    let d = descend(sep, home, names);
    let ext = library_extension(p);
    let r = located_path(p, home);
    lemma_descend_extends_first(sep, home, names);
    let first = child(sep, home, names[0]);
    lemma_child_extends(sep, home, names[0]);
    lemma_extends_trans(d, first, home);
    assert(names[0].len() > 0);
    assert(first.len() > home.len());
    assert(r == d + seq!['.'] + ext);
    assert(extends(r, d)) by {
        assert(r.subrange(0, d.len() as int) =~= d);
    }
    lemma_extends_trans(r, d, home);
    if !(home.len() == 0 || home.last() == sep) {
        assert(first[home.len() as int] == sep);
        assert(d[home.len() as int] == d.subrange(0, first.len() as int)[home.len() as int]);
        assert(r[home.len() as int] == r.subrange(0, d.len() as int)[home.len() as int]);
    }
    assert(r.subrange(r.len() - ext.len() - 1, r.len() as int) =~= seq!['.'] + ext);
}

} // verus!
