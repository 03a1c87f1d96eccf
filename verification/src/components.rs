use vstd::prelude::*;

verus! {

/// One component of a path, as the host's path rules split it.
pub enum PathComponent {
    /// A Windows prefix: its kind, and its text as written.
    Prefix(PrefixKind, String),
    /// The root directory.
    RootDir,
    /// A leading `.`.
    CurDir,
    /// A `..`.
    ParentDir,
    /// Any other component: a file or directory name.
    Normal(String),
}

/// The kind of a Windows path prefix.
pub enum PrefixKind {
    /// `\\?\prefix`
    Verbatim,
    /// `\\?\UNC\server\share`
    VerbatimUnc,
    /// `\\?\C:`
    VerbatimDisk,
    /// `\\.\device`
    DeviceNs,
    /// `\\server\share`, with the server and share names.
    Unc(String, String),
    /// `C:`
    Disk,
}

/// The mathematical value of a [`PrefixKind`].
pub enum PrefixKindView {
    Verbatim,
    VerbatimUnc,
    VerbatimDisk,
    DeviceNs,
    Unc(Seq<char>, Seq<char>),
    Disk,
}

impl View for PrefixKind {
    type V = PrefixKindView;

    open spec fn view(&self) -> PrefixKindView {
        match self {
            PrefixKind::Verbatim => PrefixKindView::Verbatim,
            PrefixKind::VerbatimUnc => PrefixKindView::VerbatimUnc,
            PrefixKind::VerbatimDisk => PrefixKindView::VerbatimDisk,
            PrefixKind::DeviceNs => PrefixKindView::DeviceNs,
            PrefixKind::Unc(server, share) => PrefixKindView::Unc(server@, share@),
            PrefixKind::Disk => PrefixKindView::Disk,
        }
    }
}

/// The mathematical value of a [`PathComponent`].
pub enum ComponentView {
    Prefix(PrefixKindView, Seq<char>),
    RootDir,
    CurDir,
    ParentDir,
    Normal(Seq<char>),
}

impl View for PathComponent {
    type V = ComponentView;

    open spec fn view(&self) -> ComponentView {
        match self {
            PathComponent::Prefix(kind, t) => ComponentView::Prefix(kind@, t@),
            PathComponent::RootDir => ComponentView::RootDir,
            PathComponent::CurDir => ComponentView::CurDir,
            PathComponent::ParentDir => ComponentView::ParentDir,
            PathComponent::Normal(t) => ComponentView::Normal(t@),
        }
    }
}

/// The values of a list of components.
pub open spec fn component_views(comps: Seq<PathComponent>) -> Seq<ComponentView> {
    comps.map_values(|c: PathComponent| c@)
}

/// The text of a `.`, `..` or name component.
pub open spec fn plain_text(c: ComponentView) -> Seq<char> {
    match c {
        ComponentView::CurDir => seq!['.'],
        ComponentView::ParentDir => seq!['.', '.'],
        ComponentView::Normal(t) => t,
        _ => seq![],
    }
}

/// The text that component `i` of `comps` contributes when the path is written with
/// the separator `sep`: a UNC prefix becomes `sep sep server sep share`, any other prefix
/// (a drive, a device, or a verbatim prefix of any kind) stays as written, the root becomes `sep`, and every other component is followed by
/// `sep` unless it is the last one.
pub open spec fn rendered_piece(comps: Seq<ComponentView>, i: int, sep: Seq<char>) -> Seq<char> {
    match comps[i] {
        ComponentView::Prefix(kind, t) => match kind {
            PrefixKindView::Unc(server, share) => sep + sep + server + sep + share,
            _ => t,
        },
        ComponentView::RootDir => sep,
        _ => if i + 1 < comps.len() {
            plain_text(comps[i]) + sep
        } else {
            plain_text(comps[i])
        },
    }
}

/// The pieces of the first `n` components, one after the other.
pub open spec fn rendered_upto(comps: Seq<ComponentView>, sep: Seq<char>, n: int) -> Seq<char>
    decreases n,
{
    if n <= 0 {
        seq![]
    } else {
        rendered_upto(comps, sep, n - 1) + rendered_piece(comps, n - 1, sep)
    }
}

/// The path made of `comps`, written with the separator `sep`.
pub open spec fn rendered(comps: Seq<ComponentView>, sep: Seq<char>) -> Seq<char> {
    rendered_upto(comps, sep, comps.len() as int)
}

/// Writes the path made of `comps` with the separator `sep`.
pub fn render_components(comps: &Vec<PathComponent>, sep: &str) -> (res: String)
    ensures
        res@ == rendered(component_views(comps@), sep@),
{
    let ghost views = component_views(comps@);
    let mut out = String::new();
    let n = comps.len();
    let mut i: usize = 0;
    while i < n
        invariant
            n == comps@.len(),
            views == component_views(comps@),
            i <= n,
            out@ == rendered_upto(views, sep@, i as int),
        decreases n - i,
    {
        proof {
            reveal_strlit(".");
            reveal_strlit("..");
        }
        let last = i + 1 == n;
        match &comps[i] {
            PathComponent::Prefix(kind, t) => match kind {
                PrefixKind::Unc(server, share) => {
                    out.append(sep);
                    out.append(sep);
                    out.append(server.as_str());
                    out.append(sep);
                    out.append(share.as_str());
                },
                _ => {
                    out.append(t.as_str());
                },
            },
            PathComponent::RootDir => {
                out.append(sep);
            },
            PathComponent::CurDir => {
                out.append(".");
                if !last {
                    out.append(sep);
                }
            },
            PathComponent::ParentDir => {
                out.append("..");
                if !last {
                    out.append(sep);
                }
            },
            PathComponent::Normal(t) => {
                out.append(t.as_str());
                if !last {
                    out.append(sep);
                }
            },
        }
        assert(out@ =~= rendered_upto(views, sep@, i + 1));
        i = i + 1;
    }
    out
}

/// Whether the text that component `comp` carries of its own is free of `c`.
pub open spec fn text_avoids(comp: ComponentView, c: char) -> bool {
    match comp {
        ComponentView::Prefix(kind, t) => match kind {
            PrefixKindView::Unc(server, share) => !server.contains(c) && !share.contains(c),
            _ => !t.contains(c),
        },
        ComponentView::RootDir => true,
        _ => !plain_text(comp).contains(c),
    }
}

proof fn lemma_concat_avoids(a: Seq<char>, b: Seq<char>, c: char)
    requires
        !a.contains(c),
        !b.contains(c),
    ensures
        !(a + b).contains(c),
{
    assert forall|i: int| 0 <= i < (a + b).len() implies (a + b)[i] != c by {
        if i < a.len() {
            assert((a + b)[i] == a[i]);
        } else {
            assert((a + b)[i] == b[i - a.len()]);
        }
    }
}

proof fn lemma_piece_avoids(comps: Seq<ComponentView>, i: int, sep: Seq<char>, c: char)
    requires
        0 <= i < comps.len(),
        !sep.contains(c),
        text_avoids(comps[i], c),
    ensures
        !rendered_piece(comps, i, sep).contains(c),
{
    match comps[i] {
        ComponentView::Prefix(kind, t) => match kind {
            PrefixKindView::Unc(server, share) => {
                lemma_concat_avoids(sep, sep, c);
                lemma_concat_avoids(sep + sep, server, c);
                lemma_concat_avoids(sep + sep + server, sep, c);
                lemma_concat_avoids(sep + sep + server + sep, share, c);
            },
            _ => {},
        },
        ComponentView::RootDir => {},
        _ => {
            if i + 1 < comps.len() {
                lemma_concat_avoids(plain_text(comps[i]), sep, c);
            }
        },
    }
}

proof fn lemma_rendered_upto_avoids(comps: Seq<ComponentView>, sep: Seq<char>, c: char, n: int)
    requires
        0 <= n <= comps.len(),
        !sep.contains(c),
        forall|i: int| 0 <= i < comps.len() ==> text_avoids(#[trigger] comps[i], c),
    ensures
        !rendered_upto(comps, sep, n).contains(c),
    decreases n,
{
    if n > 0 {
        lemma_rendered_upto_avoids(comps, sep, c, n - 1);
        lemma_piece_avoids(comps, n - 1, sep, c);
        lemma_concat_avoids(rendered_upto(comps, sep, n - 1), rendered_piece(comps, n - 1, sep), c);
    }
}

/// A character that occurs neither in the separator nor in the own text of any component
/// does not occur in the path written with that separator: rewriting a path with a
/// separator free of `/`, out of components free of `/`, leaves no `/` in it.
pub proof fn lemma_rendered_avoids(comps: Seq<ComponentView>, sep: Seq<char>, c: char)
    requires
        !sep.contains(c),
        forall|i: int| 0 <= i < comps.len() ==> text_avoids(#[trigger] comps[i], c),
    ensures
        !rendered(comps, sep).contains(c),
{
    lemma_rendered_upto_avoids(comps, sep, c, comps.len() as int);
}

/// `names` written one after the other with `sep` between each two.
pub open spec fn joined_names(names: Seq<Seq<char>>, sep: Seq<char>) -> Seq<char>
    decreases names.len(),
{
    if names.len() == 0 {
        seq![]
    } else if names.len() == 1 {
        names[0]
    } else {
        joined_names(names.drop_last(), sep) + sep + names.last()
    }
}

/// The texts of a list of components.
pub open spec fn plain_texts(comps: Seq<ComponentView>) -> Seq<Seq<char>> {
    comps.map_values(|c: ComponentView| plain_text(c))
}

proof fn lemma_plain_upto(comps: Seq<ComponentView>, sep: Seq<char>, n: int)
    requires
        1 <= n <= comps.len(),
        forall|i: int| 0 <= i < comps.len() ==> !((#[trigger] comps[i]) is Prefix
            || comps[i] is RootDir),
    ensures
        rendered_upto(comps, sep, n) == joined_names(plain_texts(comps).take(n), sep) + if n
            < comps.len() {
            sep
        } else {
            seq![]
        },
    decreases n,
{
    let texts = plain_texts(comps);
    if n == 1 {
        assert(texts.take(1) =~= seq![plain_text(comps[0])]);
        assert(rendered_upto(comps, sep, 0) =~= seq![]);
    } else {
        lemma_plain_upto(comps, sep, n - 1);
        assert(texts.take(n).drop_last() =~= texts.take(n - 1));
        assert(texts.take(n).last() == plain_text(comps[n - 1]));
    }
}

/// A path made only of names, `.` and `..`, with no prefix and no root, is written as its
/// component texts joined by the separator: `foo/bar/baz` with `#` becomes `foo#bar#baz`.
pub proof fn lemma_relative_renders_joined(comps: Seq<ComponentView>, sep: Seq<char>)
    requires
        forall|i: int| 0 <= i < comps.len() ==> !((#[trigger] comps[i]) is Prefix
            || comps[i] is RootDir),
    ensures
        rendered(comps, sep) == joined_names(plain_texts(comps), sep),
{
    if comps.len() == 0 {
    } else {
        lemma_plain_upto(comps, sep, comps.len() as int);
        assert(plain_texts(comps).take(comps.len() as int) =~= plain_texts(comps));
    }
}

proof fn lemma_rooted_upto(comps: Seq<ComponentView>, sep: Seq<char>, n: int)
    requires
        1 <= n <= comps.len(),
        comps[0] is RootDir,
    ensures
        rendered_upto(comps, sep, n) == sep + rendered_upto(comps.drop_first(), sep, n - 1),
    decreases n,
{
    if n == 1 {
        assert(rendered_upto(comps, sep, 0) =~= seq![]);
        assert(rendered_upto(comps.drop_first(), sep, 0) =~= seq![]);
        assert(rendered_upto(comps, sep, 1) =~= sep);
    } else {
        lemma_rooted_upto(comps, sep, n - 1);
        assert(rendered_piece(comps, n - 1, sep) == rendered_piece(comps.drop_first(), n - 2, sep));
        assert(rendered_upto(comps, sep, n) =~= sep + rendered_upto(comps.drop_first(), sep, n - 1));
    }
}

/// A path made of the root followed by names, `.` and `..` is written as the separator
/// followed by the component texts joined by the separator: `/foo/bar` with `=` becomes
/// `=foo=bar`, and `/` alone becomes the separator.
pub proof fn lemma_rooted_renders_joined(comps: Seq<ComponentView>, sep: Seq<char>)
    requires
        comps.len() >= 1,
        comps[0] is RootDir,
        forall|i: int| 1 <= i < comps.len() ==> !((#[trigger] comps[i]) is Prefix
            || comps[i] is RootDir),
    ensures
        rendered(comps, sep) == sep + joined_names(plain_texts(comps.drop_first()), sep),
{
    lemma_rooted_upto(comps, sep, comps.len() as int);
    let rest = comps.drop_first();
    assert forall|i: int| 0 <= i < rest.len() implies !((#[trigger] rest[i]) is Prefix
        || rest[i] is RootDir) by {
        assert(rest[i] == comps[i + 1]);
    }
    lemma_relative_renders_joined(rest, sep);
}

proof fn lemma_upto_split(comps: Seq<ComponentView>, sep: Seq<char>, h: int, n: int)
    requires
        0 <= h <= n <= comps.len(),
    ensures
        rendered_upto(comps, sep, n) == rendered_upto(comps, sep, h) + rendered_upto(
            comps.skip(h),
            sep,
            n - h,
        ),
    decreases n,
{
    if n == h {
        assert(rendered_upto(comps.skip(h), sep, 0) =~= seq![]);
        assert(rendered_upto(comps, sep, h) + seq![] =~= rendered_upto(comps, sep, h));
    } else {
        lemma_upto_split(comps, sep, h, n - 1);
        let rest = comps.skip(h);
        assert(rest[n - 1 - h] == comps[n - 1]);
        assert(rendered_piece(comps, n - 1, sep) == rendered_piece(rest, n - 1 - h, sep));
        assert(rendered_upto(rest, sep, n - h) == rendered_upto(rest, sep, n - 1 - h)
            + rendered_piece(rest, n - 1 - h, sep));
        assert(rendered_upto(comps, sep, n) =~= rendered_upto(comps, sep, h) + rendered_upto(
            rest,
            sep,
            n - h,
        ));
    }
}

/// Whether a component is a name, `.` or `..`.
pub open spec fn is_plain(c: ComponentView) -> bool {
    c is Normal || c is CurDir || c is ParentDir
}

/// How a prefix is written with the separator `sep`: a UNC prefix `\\server\share` as two
/// separators, the server, a separator and the share; a drive (`C:`), a device or a verbatim
/// prefix exactly as it was written.
pub open spec fn prefix_text(c: ComponentView, sep: Seq<char>) -> Seq<char> {
    match c {
        ComponentView::Prefix(PrefixKindView::Unc(server, share), _) => sep + sep + server + sep
            + share,
        ComponentView::Prefix(_, t) => t,
        _ => seq![],
    }
}

proof fn lemma_plain_rest_renders_joined(comps: Seq<ComponentView>, sep: Seq<char>, h: int)
    requires
        0 <= h <= comps.len(),
        forall|i: int| h <= i < comps.len() ==> is_plain(#[trigger] comps[i]),
    ensures
        rendered(comps, sep) == rendered_upto(comps, sep, h) + joined_names(
            plain_texts(comps.skip(h)),
            sep,
        ),
{
    lemma_upto_split(comps, sep, h, comps.len() as int);
    let rest = comps.skip(h);
    assert forall|i: int| 0 <= i < rest.len() implies !((#[trigger] rest[i]) is Prefix
        || rest[i] is RootDir) by {
        assert(rest[i] == comps[i + h]);
        assert(is_plain(comps[i + h]));
    }
    lemma_relative_renders_joined(rest, sep);
}

/// A path made of a prefix followed by names, `.` and `..` (such as `C:foo\bar`) is written
/// as its prefix, then the names joined by the separator, with no separator between them.
pub proof fn lemma_prefixed_renders_joined(comps: Seq<ComponentView>, sep: Seq<char>)
    requires
        comps.len() >= 1,
        comps[0] is Prefix,
        forall|i: int| 1 <= i < comps.len() ==> is_plain(#[trigger] comps[i]),
    ensures
        rendered(comps, sep) == prefix_text(comps[0], sep) + joined_names(
            plain_texts(comps.skip(1)),
            sep,
        ),
{
    lemma_plain_rest_renders_joined(comps, sep, 1);
    assert(rendered_upto(comps, sep, 0) =~= seq![]);
    assert(rendered_upto(comps, sep, 1) =~= prefix_text(comps[0], sep));
}

/// A path made of a prefix, the root and then names, `.` and `..` is written as its prefix,
/// the separator, and the names joined by the separator: `C:\Users\me\file.txt` with `/`
/// becomes `C:/Users/me/file.txt`, and `\\nas\share\dir` with `/` becomes `//nas/share/dir`.
pub proof fn lemma_prefixed_rooted_renders_joined(comps: Seq<ComponentView>, sep: Seq<char>)
    requires
        comps.len() >= 2,
        comps[0] is Prefix,
        comps[1] is RootDir,
        forall|i: int| 2 <= i < comps.len() ==> is_plain(#[trigger] comps[i]),
    ensures
        rendered(comps, sep) == prefix_text(comps[0], sep) + sep + joined_names(
            plain_texts(comps.skip(2)),
            sep,
        ),
{
    lemma_plain_rest_renders_joined(comps, sep, 2);
    assert(rendered_upto(comps, sep, 0) =~= seq![]);
    assert(rendered_upto(comps, sep, 1) =~= prefix_text(comps[0], sep));
    assert(rendered_upto(comps, sep, 2) =~= prefix_text(comps[0], sep) + sep);
}

/// Where the last component is a name, the written path ends with that name: rewriting the
/// separators leaves the file name at the end.
pub proof fn lemma_rendered_ends_with_name(comps: Seq<ComponentView>, sep: Seq<char>)
    requires
        comps.len() > 0,
        comps.last() is Normal,
    ensures
        plain_text(comps.last()).is_suffix_of(rendered(comps, sep)),
{
    let n = comps.len() as int;
    let name = plain_text(comps.last());
    let whole = rendered(comps, sep);
    let head = rendered_upto(comps, sep, n - 1);
    assert(rendered_piece(comps, n - 1, sep) == name);
    assert(whole == head + name);
    assert(whole.subrange(whole.len() - name.len(), whole.len() as int) =~= name);
}

} // verus!
