//! The runtime's startup options, built from the launch configuration.
//!
//! The configured options come first, in their order; one synthesized
//! `-Djava.class.path=<absolute jar path>` option comes last.
use vstd::prelude::*;
use vstd::string::*;
use crate::error::LaunchError;
use crate::platform::{child, push_component, separator, Platform};
use crate::text::{copy_strings, joined, texts};

verus! {

/// What the launcher reads from its configuration document.
#[derive(Clone, Debug)]
pub struct RuntimeConfig {
    /// The application archive, relative to the working directory or absolute.
    pub jar: String,
    /// The fully qualified name of the entry class, such as `com.example.Main`.
    pub main_class: String,
    /// Options for the runtime, in the order they are handed to it.
    pub vm_args: Vec<String>,
}

/// The option strings the runtime is created with.
#[derive(Clone, Debug)]
pub struct InvocationArguments {
    pub options: Vec<String>,
}

/// The prefix of the synthesized class path option.
pub open spec fn classpath_prefix() -> Seq<char> {
    "-Djava.class.path="@
}

pub open spec fn is_drive_letter(c: char) -> bool {
    ('a' <= c && c <= 'z') || ('A' <= c && c <= 'Z')
}

/// Whether `s` is an absolute path on platform `p`: rooted at `/`, or on
/// Windows at a drive (`C:\`, `C:/`) or a share (`\\`).
pub open spec fn is_absolute_path(p: Platform, s: Seq<char>) -> bool {
    match p {
        Platform::Windows => (s.len() >= 3 && is_drive_letter(s[0]) && s[1] == ':' && (s[2] == '\\'
            || s[2] == '/')) || (s.len() >= 2 && s[0] == '\\' && s[1] == '\\'),
        _ => s.len() >= 1 && s[0] == '/',
    }
}

/// The absolute path of the jar: the jar itself when it is absolute, else the
/// jar under an absolute working directory; none when the jar is empty or
/// when both are relative.
pub open spec fn absolute_jar(p: Platform, working_dir: Seq<char>, jar: Seq<char>) -> Option<
    Seq<char>,
> {
    if jar.len() == 0 {
        None
    } else if is_absolute_path(p, jar) {
        Some(jar)
    } else if is_absolute_path(p, working_dir) {
        Some(child(separator(p), working_dir, jar))
    } else {
        None
    }
}

/// The class path option for an absolute jar path.
pub open spec fn classpath_option(absolute_jar: Seq<char>) -> Seq<char> {
    classpath_prefix() + absolute_jar
}

/// The startup options for a configuration: its options in order, then the
/// class path option; none when the jar path cannot be made absolute.
pub open spec fn built_options(
    p: Platform,
    working_dir: Seq<char>,
    jar: Seq<char>,
    vm_args: Seq<Seq<char>>,
) -> Option<Seq<Seq<char>>> {
    match absolute_jar(p, working_dir, jar) {
        Some(a) => Some(vm_args.push(classpath_option(a))),
        None => None,
    }
}

/// Whether `path` is absolute on `platform`.
pub fn is_absolute(platform: Platform, path: &str) -> (r: bool)
    ensures
        r == is_absolute_path(platform, path@),
{
    let n = path.unicode_len();
    match platform {
        Platform::Windows => {
            if n >= 3 {
                let c0 = path.get_char(0);
                let c2 = path.get_char(2);
                if (('a' <= c0 && c0 <= 'z') || ('A' <= c0 && c0 <= 'Z')) && path.get_char(1) == ':'
                    && (c2 == '\\' || c2 == '/') {
                    return true;
                }
            }
            n >= 2 && path.get_char(0) == '\\' && path.get_char(1) == '\\'
        },
        _ => n >= 1 && path.get_char(0) == '/',
    }
}

/// The absolute path of `jar`, resolved against `working_dir` when relative.
pub fn absolute_jar_path(platform: Platform, working_dir: &str, jar: &str) -> (r: Result<
    String,
    LaunchError,
>)
    ensures
        match absolute_jar(platform, working_dir@, jar@) {
            Some(a) => r matches Ok(s) && s@ == a,
            None => r matches Err(LaunchError::ConfigError),
        },
{
    if jar.unicode_len() == 0 {
        return Err(LaunchError::ConfigError);
    }
    if is_absolute(platform, jar) {
        return Ok(String::from_str(jar));
    }
    if is_absolute(platform, working_dir) {
        let mut path = String::from_str(working_dir);
        push_component(platform, &mut path, jar);
        Ok(path)
    } else {
        Err(LaunchError::ConfigError)
    }
}

/// The class path option that names `absolute_jar`.
pub fn classpath_option_for(absolute_jar: &str) -> (r: String)
    ensures
        r@ == classpath_option(absolute_jar@),
{
    joined("-Djava.class.path=", absolute_jar)
}

/// The startup options for `config`, with the jar resolved against
/// `working_dir`: the configured options in order, then the class path option.
pub fn build(platform: Platform, working_dir: &str, config: &RuntimeConfig) -> (r: Result<
    InvocationArguments,
    LaunchError,
>)
    ensures
        match built_options(platform, working_dir@, config.jar@, texts(config.vm_args@)) {
            Some(o) => r matches Ok(a) && texts(a.options@) == o,
            None => r matches Err(LaunchError::ConfigError),
        },
{
    match absolute_jar_path(platform, working_dir, config.jar.as_str()) {
        Ok(abs) => {
            let mut options = copy_strings(&config.vm_args);
            let ghost before = options@;
            options.push(classpath_option_for(abs.as_str()));
            assert(texts(options@) =~= texts(before).push(classpath_option(abs@)));
            Ok(InvocationArguments { options })
        },
        Err(e) => Err(e),
    }
}

/// Building is deterministic: configurations with the same jar path and the
/// same options, in the same working directory, give the same option
/// sequence. When building succeeds the configured options keep their order
/// and the class path option is the last one.
pub proof fn build_is_deterministic(
    p: Platform,
    working_dir: Seq<char>,
    first: RuntimeConfig,
    second: RuntimeConfig,
)
    requires
        first.jar@ == second.jar@,
        texts(first.vm_args@) == texts(second.vm_args@),
    ensures
        built_options(p, working_dir, first.jar@, texts(first.vm_args@)) == built_options(
            p,
            working_dir,
            second.jar@,
            texts(second.vm_args@),
        ),
        built_options(p, working_dir, first.jar@, texts(first.vm_args@)) matches Some(o) ==> {
            &&& o.len() == first.vm_args@.len() + 1
            &&& o.subrange(0, first.vm_args@.len() as int) == texts(first.vm_args@)
            &&& o.last() == classpath_option(absolute_jar(p, working_dir, first.jar@)->0)
        },
{
    if let Some(o) = built_options(p, working_dir, first.jar@, texts(first.vm_args@)) {
        assert(o.subrange(0, first.vm_args@.len() as int) =~= texts(first.vm_args@));
    }
}

} // verus!
