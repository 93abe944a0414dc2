//! Paths as character sequences with a separator between their components.
//!
//! The separator is a parameter: `/` ([`SEPARATOR`]) for Unix paths, the
//! platform's own where the caller hands it in. A path that begins with the
//! separator begins at the root directory. No component is a prefix such as a
//! drive letter: a caller takes a path with a prefix apart by other means and
//! hands over the kind of each component.

use vstd::prelude::*;
use vstd::slice::slice_subrange;
use crate::text::{lemma_split_pieces, marks, parted, split, split_spans, Span};

verus! {

/// The character that separates the components of a Unix path.
pub const SEPARATOR: char = '/';

/// What a component of a path is.
#[derive(Debug, Clone, Copy, PartialEq, Eq, Structural)]
pub enum ComponentKind {
    /// The root directory, at the start of an absolute path.
    RootDir,
    /// The current directory `.`, at the start of a relative path.
    CurDir,
    /// The parent directory `..`.
    ParentDir,
    /// A name.
    Normal,
}

impl ComponentKind {
    /// Whether a separator stands behind the text of a component of this kind
    /// when the component is shown: behind every component but the last of a
    /// path, and but the root directory, which is a separator already.
    pub open spec fn separated(self, last: bool) -> bool {
        !last && self != ComponentKind::RootDir
    }

    /// Whether a separator stands behind the text of a component of this kind
    /// when the component is shown.
    pub fn takes_separator(self, last: bool) -> (separator: bool)
        ensures
            separator == self.separated(last),
    {
        match self {
            // The root directory is already a separator.
            ComponentKind::RootDir => false,
            // Everything else uses a separator that is painted the same way as
            // the component.
            _ => !last,
        }
    }
}

/// A component of a path, with its text.
pub struct ComponentView {
    pub kind: ComponentKind,
    pub text: Seq<char>,
}

/// What the piece `piece` between two separators is, `None` where it is no
/// component: an empty piece never is one, and `.` only at the very start.
pub open spec fn piece_kind(piece: Seq<char>, first: bool) -> Option<ComponentKind> {
    if piece.len() == 0 {
        None
    } else if piece.len() == 1 && piece[0] == '.' {
        if first {
            Some(ComponentKind::CurDir)
        } else {
            None
        }
    } else if piece.len() == 2 && piece[0] == '.' && piece[1] == '.' {
        Some(ComponentKind::ParentDir)
    } else {
        Some(ComponentKind::Normal)
    }
}

/// The components that the given pieces of a path are, in order.
pub open spec fn named_components(pieces: Seq<Seq<char>>) -> Seq<ComponentView>
    decreases pieces.len(),
{
    if pieces.len() == 0 {
        Seq::empty()
    } else {
        let before = named_components(pieces.drop_last());
        match piece_kind(pieces.last(), pieces.len() == 1) {
            Some(kind) => before.push(ComponentView { kind, text: pieces.last() }),
            None => before,
        }
    }
}

/// The root directory as a component.
pub open spec fn root(separator: char) -> ComponentView {
    ComponentView { kind: ComponentKind::RootDir, text: seq![separator] }
}

/// The components of `path`, from the root to the leaf, where `separator`
/// stands between them. A path that begins with a separator begins with the
/// root directory. Repeated separators, a separator at the end and every `.`
/// but one at the very start of a relative path make no component.
pub open spec fn components(path: Seq<char>, separator: char) -> Seq<ComponentView> {
    let named = named_components(split(path, separator));
    if path.len() > 0 && path[0] == separator {
        seq![root(separator)] + named
    } else {
        named
    }
}

/// The last component of `path`, if it is a name.
pub open spec fn file_name(path: Seq<char>, separator: char) -> Option<Seq<char>> {
    let all = components(path, separator);
    if all.len() > 0 && all.last().kind == ComponentKind::Normal {
        Some(all.last().text)
    } else {
        None
    }
}

/// The path `base` with `component` added at its end: the root directory
/// stands for the whole path, and any other component follows `base`, after a
/// separator unless `base` is empty or ends with one.
pub open spec fn push_component(
    base: Seq<char>,
    component: ComponentView,
    separator: char,
) -> Seq<char> {
    if component.kind == ComponentKind::RootDir {
        component.text
    } else if base.len() > 0 && base.last() != separator {
        base + seq![separator] + component.text
    } else {
        base + component.text
    }
}

/// The path that is made of the given components, with `separator` between
/// them.
pub open spec fn joined(components: Seq<ComponentView>, separator: char) -> Seq<char>
    decreases components.len(),
{
    if components.len() == 0 {
        Seq::empty()
    } else {
        push_component(joined(components.drop_last(), separator), components.last(), separator)
    }
}

/// The component has a text, which for the root directory is the separator
/// and for any other component holds no separator.
pub open spec fn well_shaped(component: ComponentView, separator: char) -> bool {
    &&& component.text.len() > 0
    &&& component.kind == ComponentKind::RootDir ==> component.text == seq![separator]
    &&& component.kind != ComponentKind::RootDir ==> forall|j: int|
        0 <= j < component.text.len() ==> component.text[j] != separator
}

/// The components that pieces without a separator are, are well shaped.
proof fn lemma_named_components_shape(pieces: Seq<Seq<char>>, separator: char)
    requires
        forall|k: int, j: int|
            0 <= k < pieces.len() && 0 <= j < pieces[k].len() ==> pieces[k][j] != separator,
    ensures
        forall|k: int|
            0 <= k < named_components(pieces).len() ==> well_shaped(
                #[trigger] named_components(pieces)[k],
                separator,
            ),
    decreases pieces.len(),
{
    if pieces.len() > 0 {
        lemma_named_components_shape(pieces.drop_last(), separator);
        let before = named_components(pieces.drop_last());
        let last = pieces.last();
        assert forall|k: int| 0 <= k < named_components(pieces).len() implies well_shaped(
            #[trigger] named_components(pieces)[k],
            separator,
        ) by {
            if k < before.len() {
                assert(named_components(pieces)[k] == before[k]);
            } else {
                assert(named_components(pieces)[k].text == last);
                assert(forall|j: int| 0 <= j < last.len() ==> last[j] != separator);
            }
        }
    }
}

/// Every component of a path is well shaped.
pub proof fn lemma_components_shape(path: Seq<char>, separator: char)
    ensures
        forall|k: int|
            0 <= k < components(path, separator).len() ==> well_shaped(
                #[trigger] components(path, separator)[k],
                separator,
            ),
{
    lemma_split_pieces(path, separator);
    lemma_named_components_shape(split(path, separator), separator);
}

/// Only the first component of a path can be the root directory.
pub proof fn lemma_root_first(path: Seq<char>, separator: char)
    ensures
        forall|k: int|
            1 <= k < components(path, separator).len() ==> (#[trigger] components(
                path,
                separator,
            )[k]).kind != ComponentKind::RootDir,
{
    lemma_no_named_root(split(path, separator));
}

/// No piece of a path is the root directory.
proof fn lemma_no_named_root(pieces: Seq<Seq<char>>)
    ensures
        forall|k: int|
            0 <= k < named_components(pieces).len() ==> (#[trigger] named_components(
                pieces,
            )[k]).kind != ComponentKind::RootDir,
    decreases pieces.len(),
{
    if pieces.len() > 0 {
        lemma_no_named_root(pieces.drop_last());
    }
}

/// A path that is made of well-shaped components is not empty, and ends with
/// a separator only where its last component is the root directory.
pub proof fn lemma_joined_end(components: Seq<ComponentView>, separator: char)
    requires
        components.len() > 0,
        well_shaped(components.last(), separator),
    ensures
        joined(components, separator).len() > 0,
        joined(components, separator).last() == separator <==> components.last().kind
            == ComponentKind::RootDir,
{
}

/// A component of a path, with the span of its text in the path.
#[derive(Debug, Clone, Copy)]
pub struct Component {
    pub kind: ComponentKind,
    pub span: Span,
}

impl Component {
    /// The component with its text taken from `path`.
    pub open spec fn in_path(self, path: Seq<char>) -> ComponentView {
        ComponentView { kind: self.kind, text: self.span.of(path) }
    }
}

/// `found` are the components `all` of `path`, each with its span.
pub open spec fn locates(found: Seq<Component>, path: Seq<char>, all: Seq<ComponentView>) -> bool {
    &&& found.len() == all.len()
    &&& forall|k: int|
        0 <= k < found.len() ==> (#[trigger] found[k]).span.within(path.len())
            && found[k].in_path(path) == all[k]
}

/// Behind the text of every component but the last and but the root directory
/// a separator stands in `path`.
pub open spec fn followed(found: Seq<Component>, path: Seq<char>, separator: char) -> bool {
    forall|k: int|
        0 <= k < found.len() - 1 && (#[trigger] found[k]).kind != ComponentKind::RootDir
            ==> found[k].span.end < path.len() && path[found[k].span.end as int] == separator
}

/// What the piece `piece` between two separators is.
fn kind_of_piece(piece: &[char], first: bool) -> (kind: Option<ComponentKind>)
    ensures
        kind == piece_kind(piece@, first),
{
    if piece.len() == 0 {
        None
    } else if piece.len() == 1 && piece[0] == '.' {
        if first {
            Some(ComponentKind::CurDir)
        } else {
            None
        }
    } else if piece.len() == 2 && piece[0] == '.' && piece[1] == '.' {
        Some(ComponentKind::ParentDir)
    } else {
        Some(ComponentKind::Normal)
    }
}

/// Finds the components of `path`, where `separator` stands between them.
pub fn parse_components(path: &[char], separator: char) -> (found: Vec<Component>)
    ensures
        locates(found@, path@, components(path@, separator)),
        followed(found@, path@, separator),
{
    let spans = split_spans(path, separator);
    let ghost pieces = split(path@, separator);
    let mut found: Vec<Component> = Vec::new();
    let rooted = path.len() > 0 && path[0] == separator;
    let ghost start: Seq<ComponentView> = if rooted {
        seq![root(separator)]
    } else {
        Seq::empty()
    };
    // The number of the piece that each component is; none for the root.
    let ghost mut origin: Seq<int> = Seq::empty();
    if rooted {
        found.push(Component { kind: ComponentKind::RootDir, span: Span { start: 0, end: 1 } });
        assert(path@.subrange(0, 1) =~= seq![separator]);
        proof {
            origin = origin.push(-1);
        }
    }
    let mut k: usize = 0;
    assert(pieces.take(0) =~= Seq::empty());
    while k < spans.len()
        invariant
            k <= spans.len(),
            pieces == split(path@, separator),
            marks(spans@, path@, pieces),
            locates(found@, path@, start + named_components(pieces.take(k as int))),
            origin.len() == found.len(),
            forall|j: int| 0 <= j < origin.len() ==> -1 <= #[trigger] origin[j] < k,
            forall|j: int| 0 <= j < origin.len() - 1 ==> #[trigger] origin[j] < origin[j + 1],
            forall|j: int|
                0 <= j < found.len() && (#[trigger] found[j]).kind != ComponentKind::RootDir
                    ==> 0 <= origin[j] && found[j].span == spans[origin[j]],
        decreases spans.len() - k,
    {
        let span = spans[k];
        let piece = slice_subrange(path, span.start, span.end);
        assert(pieces.take(k + 1).drop_last() =~= pieces.take(k as int));
        assert(pieces.take(k + 1).last() == piece@);
        match kind_of_piece(piece, k == 0) {
            Some(kind) => {
                found.push(Component { kind, span });
                proof {
                    origin = origin.push(k as int);
                }
            },
            None => {},
        }
        k += 1;
    }
    assert(pieces.take(spans.len() as int) =~= pieces);
    assert(components(path@, separator) =~= start + named_components(pieces));
    assert forall|j: int|
        0 <= j < found.len() - 1 && (#[trigger] found[j]).kind
            != ComponentKind::RootDir implies found[j].span.end < path.len()
        && path@[found[j].span.end as int] == separator by {
        assert(origin[j] < origin[j + 1]);
        assert(spans[origin[j]].end < path.len());
    }
    found
}

/// The span of the last component of `path`, if it is a name.
pub fn file_name_span(path: &[char], separator: char) -> (name: Option<Span>)
    ensures
        match name {
            Some(span) => span.within(path@.len()) && file_name(path@, separator) == Some(
                span.of(path@),
            ),
            None => file_name(path@, separator) is None,
        },
{
    let found = parse_components(path, separator);
    if found.len() == 0 {
        return None;
    }
    let last = found[found.len() - 1];
    match last.kind {
        ComponentKind::Normal => Some(last.span),
        _ => None,
    }
}

} // verus!
