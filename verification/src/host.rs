//! The calls into `std::path` that the path helpers make, each with the
//! contract that the rest of the crate relies on. Path results follow the path rules of the
//! platform the crate is built for.

use std::path::{Component, Path, Prefix};

use vstd::prelude::*;

use crate::components::{component_views, ComponentView, PathComponent, PrefixKind};

verus! {

/// The components that `Path::components` yields for `path`.
pub uninterp spec fn components_of(path: Seq<char>) -> Seq<ComponentView>;

/// Whether `Path::is_absolute` holds of `path`.
pub uninterp spec fn is_absolute_path(path: Seq<char>) -> bool;

/// The text of `Path::join(base, path)`.
pub uninterp spec fn joined_path(base: Seq<char>, path: Seq<char>) -> Seq<char>;

/// The text that `Path::strip_prefix(path, base)` leaves, or `None` where it fails.
pub uninterp spec fn stripped_prefix(path: Seq<char>, base: Seq<char>) -> Option<Seq<char>>;

/// The text of `Path::file_name(path)`, or `None` where the path has no file name.
pub uninterp spec fn file_name_of(path: Seq<char>) -> Option<Seq<char>>;

/// Splits `path` with `std::path::Path::components`, telling prefixes apart by
/// `std::path::PrefixComponent::kind`. Claims that the result, component by component, is
/// `components_of(path)`: each prefix kind becomes its own `PrefixKind`, with the server and
/// share of a UNC prefix and the prefix's text as written. The text of each component is taken
/// from `path`, which is valid UTF-8, so the conversion to `String` loses nothing.
#[verifier::external_body]
pub(crate) fn path_components(path: &str) -> (res: Vec<PathComponent>)
    ensures
        component_views(res@) == components_of(path@),
{
    Path::new(path).components().map(|c| match c {
        Component::Prefix(p) => PathComponent::Prefix(match p.kind() {
            Prefix::Verbatim(_) => PrefixKind::Verbatim,
            Prefix::VerbatimUNC(..) => PrefixKind::VerbatimUnc,
            Prefix::VerbatimDisk(_) => PrefixKind::VerbatimDisk,
            Prefix::DeviceNS(_) => PrefixKind::DeviceNs,
            Prefix::UNC(a, b) => PrefixKind::Unc(a.to_string_lossy().into(), b.to_string_lossy().into()),
            Prefix::Disk(_) => PrefixKind::Disk,
        }, p.as_os_str().to_string_lossy().into()),
        Component::RootDir => PathComponent::RootDir,
        Component::CurDir => PathComponent::CurDir,
        Component::ParentDir => PathComponent::ParentDir,
        Component::Normal(name) => PathComponent::Normal(name.to_string_lossy().into()),
    }).collect()
}

/// Calls `std::path::Path::is_absolute`. Claims that the answer is `is_absolute_path(path)`.
#[verifier::external_body]
pub(crate) fn path_is_absolute(path: &str) -> (res: bool)
    ensures
        res == is_absolute_path(path@),
{
    Path::new(path).is_absolute()
}

/// Calls `std::path::Path::join`. Claims that the joined text is `joined_path(base, path)`;
/// both inputs are valid UTF-8 and the joined text is made of them and separators, so the
/// conversion to `String` loses nothing.
#[verifier::external_body]
pub(crate) fn path_join(base: &str, path: &str) -> (res: String)
    ensures
        res@ == joined_path(base@, path@),
{
    Path::new(base).join(path).to_string_lossy().into_owned()
}

/// Calls `std::path::Path::strip_prefix`. Claims that the remainder, or its absence, is
/// `stripped_prefix(path, base)`, and, as the documentation of `strip_prefix` and
/// `starts_with` says (only whole components match), that stripping `.` succeeds exactly
/// where the first component of `path` is `.`.
#[verifier::external_body]
pub(crate) fn path_strip_prefix<'a>(path: &'a str, base: &str) -> (res: Option<&'a str>)
    ensures
        stripped_prefix(path@, base@) == match res {
            Some(rest) => Some(rest@),
            None => None::<Seq<char>>,
        },
        base@ == seq!['.'] ==> (res is Some <==> (components_of(path@).len() > 0
            && components_of(path@)[0] is CurDir)),
{
    Path::new(path).strip_prefix(base).ok().and_then(Path::to_str)
}

/// Calls `std::path::Path::file_name`. Claims that the name, or its absence, is
/// `file_name_of(path)`, and, as its documentation says (the final component, where that is
/// a name), that there is a name exactly where the last component of `path` is a name, and
/// that it is that name.
#[verifier::external_body]
pub(crate) fn path_file_name(path: &str) -> (res: Option<&str>)
    ensures
        file_name_of(path@) == match res {
            Some(name) => Some(name@),
            None => None::<Seq<char>>,
        },
        res is Some <==> (components_of(path@).len() > 0 && components_of(path@).last() is Normal),
        res matches Some(name) ==> components_of(path@).last() == ComponentView::Normal(name@),
{
    Path::new(path).file_name().and_then(|name| name.to_str())
}

} // verus!
