use vstd::prelude::*;

use crate::components::{rendered, render_components};
use crate::host::{
    components_of, file_name_of, is_absolute_path, joined_path, path_components,
    path_file_name, path_is_absolute, path_join,
    path_strip_prefix, stripped_prefix,
};
use crate::text::{repeated, trim_start_matches, trimmed_start};

verus! {

/// The family of operating system whose conventions a helper follows where they differ.
pub enum Platform {
    Unix,
    Windows,
}

/// The text of `path` once a leading `.` component is taken off.
pub open spec fn current_dir_stripped(path: Seq<char>) -> Seq<char> {
    match stripped_prefix(path, seq!['.']) {
        Some(rest) => rest,
        None => path,
    }
}

/// Whether the first component of `path` is `.`.
pub open spec fn starts_with_current_dir(path: Seq<char>) -> bool {
    components_of(path).len() > 0 && components_of(path)[0] is CurDir
}

/// Whether the last component of `path` is a name.
pub open spec fn ends_with_name(path: Seq<char>) -> bool {
    components_of(path).len() > 0 && components_of(path).last() is Normal
}

/// Removes the `./` prefix from a path.
pub fn strip_current_dir<'a>(path: &'a str) -> (res: &'a str)
    ensures
        res@ == current_dir_stripped(path@),
        !starts_with_current_dir(path@) ==> res@ == path@,
        starts_with_current_dir(path@) ==> Some(res@) == stripped_prefix(path@, seq!['.']),
{
    proof {
        reveal_strlit(".");
        assert("."@ =~= seq!['.']);
    }
    match path_strip_prefix(path, ".") {
        Some(rest) => rest,
        None => path,
    }
}

/// Stripping `./` gives exactly what `Path::strip_prefix(".")` leaves, where that succeeds, and
/// the path itself where it fails.
pub proof fn lemma_stripped_is_strip_prefix_remainder(path: Seq<char>)
    ensures
        stripped_prefix(path, seq!['.']) matches Some(rest) ==> current_dir_stripped(path) == rest,
        stripped_prefix(path, seq!['.']) is None ==> current_dir_stripped(path) == path,
{
}

/// `path` unchanged where it is absolute; otherwise `path` without its `./` prefix, joined
/// onto the working directory `current_dir`, or `None` where the working directory could not
/// be read.
pub open spec fn absolute_form(path: Seq<char>, current_dir: Option<Seq<char>>) -> Option<Seq<char>> {
    if is_absolute_path(path) {
        Some(path)
    } else {
        match current_dir {
            Some(dir) => Some(joined_path(dir, current_dir_stripped(path))),
            None => None,
        }
    }
}

/// The view of an optional text.
pub open spec fn text_view(text: Option<&str>) -> Option<Seq<char>> {
    match text {
        Some(t) => Some(t@),
        None => None,
    }
}

/// The absolute form of `path`, given the working directory `current_dir` (`None` where it
/// could not be read). An absolute path needs no working directory; a relative one fails,
/// with `None`, exactly when the working directory is missing.
pub fn path_absolute_form(path: &str, current_dir: Option<&str>) -> (res: Option<String>)
    ensures
        res is None <==> (!is_absolute_path(path@) && current_dir is None),
        res matches Some(form) ==> Some(form@) == absolute_form(path@, text_view(current_dir)),
        is_absolute_path(path@) ==> (res matches Some(form) && form@ == path@),
        current_dir matches Some(dir) ==> (!is_absolute_path(path@) && !starts_with_current_dir(
            path@,
        ) ==> (res matches Some(form) && form@ == joined_path(dir@, path@))),
        current_dir matches Some(dir) ==> (!is_absolute_path(path@) && starts_with_current_dir(
            path@,
        ) ==> (res matches Some(form) && stripped_prefix(path@, seq!['.']) matches Some(rest)
            && form@ == joined_path(dir@, rest))),
{
    if path_is_absolute(path) {
        return Some(path.to_owned());
    }
    match current_dir {
        Some(dir) => {
            let relative = strip_current_dir(path);
            Some(path_join(dir, relative))
        },
        None => None,
    }
}

/// An absolute path is its own absolute form and needs no working directory; a relative path
/// needs one and is joined onto it, unchanged where `Path::strip_prefix(".")` fails (such as
/// `../foo`), and as what stripping leaves where it succeeds.
pub proof fn lemma_absolute_form_cases(path: Seq<char>, dir: Seq<char>)
    ensures
        is_absolute_path(path) ==> absolute_form(path, None) == Some(path) && absolute_form(
            path,
            Some(dir),
        ) == Some(path),
        !is_absolute_path(path) ==> absolute_form(path, None) is None,
        !is_absolute_path(path) && stripped_prefix(path, seq!['.']) is None ==> absolute_form(
            path,
            Some(dir),
        ) == Some(joined_path(dir, path)),
        !is_absolute_path(path) ==> (stripped_prefix(path, seq!['.']) matches Some(rest)
            ==> absolute_form(path, Some(dir)) == Some(joined_path(dir, rest))),
{
}

/// The prefix `\\?\` that marks a verbatim Windows path.
pub open spec fn verbatim_prefix() -> Seq<char> {
    seq!['\\', '\\', '?', '\\']
}

/// The text that [`absolute_path`] gives from an absolute form: the form itself, and on
/// Windows the form without any leading verbatim prefix.
pub open spec fn platform_text(form: Seq<char>, platform: Platform) -> Seq<char> {
    match platform {
        Platform::Unix => form,
        Platform::Windows => trimmed_start(form, verbatim_prefix()),
    }
}

/// The absolute path of `path`, given the working directory `current_dir` (`None` where it
/// could not be read); on Windows the verbatim prefix `\\?\` is taken off the front. It fails,
/// with `None`, exactly where [`path_absolute_form`] does.
pub fn absolute_path(path: &str, current_dir: Option<&str>, platform: Platform) -> (res: Option<String>)
    ensures
        res is None <==> (!is_absolute_path(path@) && current_dir is None),
        res matches Some(text) ==> absolute_form(path@, text_view(current_dir)) matches Some(
            form,
        ) && text@ == platform_text(form, platform),
        res matches Some(text) ==> (platform is Windows ==> !(text@.len() >= 4 && text@.take(4)
            == verbatim_prefix())),
        res matches Some(text) ==> (platform is Unix ==> Some(text@) == absolute_form(
            path@,
            text_view(current_dir),
        )),
        res matches Some(text) ==> (platform is Windows ==> (absolute_form(
            path@,
            text_view(current_dir),
        ) matches Some(form) && exists|k: nat| form == #[trigger] repeated(verbatim_prefix(), k)
            + text@)),
        res matches Some(text) ==> (platform is Windows ==> (absolute_form(
            path@,
            text_view(current_dir),
        ) matches Some(form) && (!(form.len() >= 4 && form.take(4) == verbatim_prefix())
            ==> text@ == form))),
{
    let form = match path_absolute_form(path, current_dir) {
        Some(form) => form,
        None => return None,
    };
    match platform {
        Platform::Unix => Some(form),
        Platform::Windows => {
            proof {
                reveal_strlit("\\\\?\\");
                assert("\\\\?\\"@ =~= verbatim_prefix());
            }
            let trimmed = trim_start_matches(form.as_str(), "\\\\?\\");
            proof {
                crate::text::lemma_trimmed_start_drops_pattern(form@, verbatim_prefix());
                let k = crate::text::lemma_trimmed_start_is_copies_then_rest(
                    form@,
                    verbatim_prefix(),
                );
                if !(form@.len() >= 4 && form@.take(4) == verbatim_prefix()) {
                    if k > 0 {
                        assert(repeated(verbatim_prefix(), k) == verbatim_prefix() + repeated(
                            verbatim_prefix(),
                            (k - 1) as nat,
                        ));
                        assert(form@.take(4) =~= verbatim_prefix());
                    }
                    assert(form@ =~= trimmed@);
                }
            }
            Some(trimmed.to_owned())
        },
    }
}

/// What [`is_existing_directory`] decides from what was read of the disk: the path must be a
/// directory, and it must either have a file name or normalize.
pub open spec fn existing_directory(is_dir: bool, has_file_name: bool, normalizes: bool) -> bool {
    is_dir && (has_file_name || normalizes)
}

/// Whether the decision of [`is_existing_directory`] on `path` needs to know whether the path
/// normalizes: only for a directory without a file name, such as `.` or `..`.
pub fn existing_directory_needs_normalize(path: &str, is_dir: bool) -> (res: bool)
    ensures
        res == (is_dir && file_name_of(path@) is None),
        res == (is_dir && !ends_with_name(path@)),
{
    is_dir && path_file_name(path).is_none()
}

/// Whether `path` names an existing directory, from what was read of the disk: `is_dir`,
/// whether the path is a directory, and `normalizes`, whether it normalizes (asked only where
/// [`existing_directory_needs_normalize`] says so; it does not matter elsewhere). `.` is
/// accepted only where it normalizes, since `.` names no directory once the working directory
/// has been removed.
pub fn is_existing_directory(path: &str, is_dir: bool, normalizes: bool) -> (res: bool)
    ensures
        res == existing_directory(is_dir, file_name_of(path@) is Some, normalizes),
        res == existing_directory(is_dir, ends_with_name(path@), normalizes),
{
    is_dir && (path_file_name(path).is_some() || normalizes)
}

/// A path that is not a directory is never accepted, whatever the rest says; a directory with
/// a file name is accepted whether it normalizes or not; a directory without one is accepted
/// exactly when it normalizes, and only there does the answer depend on normalizing.
pub proof fn lemma_existing_directory_cases(path: Seq<char>, is_dir: bool, normalizes: bool)
    ensures
        !is_dir ==> !existing_directory(is_dir, file_name_of(path) is Some, normalizes),
        is_dir && file_name_of(path) is Some ==> existing_directory(
            is_dir,
            file_name_of(path) is Some,
            normalizes,
        ),
        is_dir && file_name_of(path) is None ==> (existing_directory(
            is_dir,
            file_name_of(path) is Some,
            normalizes,
        ) == normalizes),
        existing_directory(is_dir, file_name_of(path) is Some, true) != existing_directory(
            is_dir,
            file_name_of(path) is Some,
            false,
        ) ==> is_dir && file_name_of(path) is None,
{
}

/// The separator to use in place of the platform's own: `/` on Windows under MSYS or
/// MSYS2, which set `MSYSTEM` (here `msystem`, its value where it is set) to a non-empty
/// value; otherwise `None`, for the platform's default.
pub fn default_path_separator(platform: Platform, msystem: Option<&str>) -> (res: Option<String>)
    ensures
        res is Some <==> (platform is Windows && msystem is Some && msystem->0@.len() > 0),
        res matches Some(sep) ==> sep@ == seq!['/'],
{
    match platform {
        Platform::Windows => match msystem {
            Some(value) => {
                if !value.is_empty() {
                    proof {
                        reveal_strlit("/");
                        assert("/"@ =~= seq!['/']);
                    }
                    Some("/".to_owned())
                } else {
                    None
                }
            },
            None => None,
        },
        Platform::Unix => None,
    }
}

/// A path as [`replace_path_separator`] hands it back: the input itself, or a new text.
pub enum RenderedPath<'a> {
    Borrowed(&'a str),
    Owned(String),
}

impl<'a> View for RenderedPath<'a> {
    type V = Seq<char>;

    open spec fn view(&self) -> Seq<char> {
        match self {
            RenderedPath::Borrowed(s) => s@,
            RenderedPath::Owned(s) => s@,
        }
    }
}

impl<'a> RenderedPath<'a> {
    /// The text of the path.
    pub fn as_str(&self) -> (res: &str)
        ensures
            res@ == self@,
    {
        match self {
            RenderedPath::Borrowed(s) => s,
            RenderedPath::Owned(s) => s.as_str(),
        }
    }
}

/// Replaces the path separator in `path` with `path_separator`.
///
/// With no separator the input is handed back as it is, borrowed. Otherwise the path is
/// rebuilt from its components with the given separator: a UNC prefix is written as two
/// separators, the server, a separator and the share; any other prefix stays as written;
/// the root directory becomes the separator; every other component is followed by the
/// separator unless it is the last.
pub fn replace_path_separator<'a>(path: &'a str, path_separator: Option<&str>) -> (res: RenderedPath<'a>)
    ensures
        match path_separator {
            None => res == RenderedPath::Borrowed(path),
            Some(sep) => res is Owned && res@ == rendered(components_of(path@), sep@),
        },
{
    match path_separator {
        None => RenderedPath::Borrowed(path),
        Some(sep) => {
            let comps = path_components(path);
            RenderedPath::Owned(render_components(&comps, sep))
        },
    }
}

} // verus!
