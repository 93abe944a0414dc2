//! The components of a path, each with the style of the path that it ends.
//!
//! The separator that stands between the components, and behind the text of
//! a component that is handed out, is `/` unless the walk is started with
//! another. A path with a prefix, such as a drive letter, is not taken apart
//! here.

use vstd::prelude::*;
use vstd::string::{StrSliceExecFns, StringExecFns};
use crate::file::Metadata;
use crate::path::{
    components,
    followed,
    joined,
    lemma_components_shape,
    lemma_joined_end,
    lemma_root_first,
    locates,
    parse_components,
    Component,
    ComponentKind,
    ComponentView,
    SEPARATOR,
};
use crate::registry::{LsColors, LsColorsView};
use crate::style::Style;
use crate::text::chars_of;

verus! {

/// A walk over the components of a path: the registry that gives the styles,
/// the path, the separator between its components, and how many components
/// were handed out.
pub struct StyledComponentsView {
    pub registry: LsColorsView,
    pub path: Seq<char>,
    pub separator: char,
    pub position: nat,
}

impl StyledComponentsView {
    /// The components of the path.
    pub open spec fn components(self) -> Seq<ComponentView> {
        components(self.path, self.separator)
    }

    /// Every component was handed out.
    pub open spec fn finished(self) -> bool {
        self.position >= self.components().len()
    }

    /// The path that the next component ends: the components so far and the
    /// next one, joined.
    pub open spec fn next_path(self) -> Seq<char>
        recommends
            !self.finished(),
    {
        joined(self.components().take(self.position + 1int), self.separator)
    }

    /// The text of the next component as it is handed out: with a separator at
    /// its end, unless it is the last component or the root directory.
    pub open spec fn next_text(self) -> Seq<char>
        recommends
            !self.finished(),
    {
        let component = self.components()[self.position as int];
        if component.kind.separated(self.position + 1 == self.components().len()) {
            component.text + seq![self.separator]
        } else {
            component.text
        }
    }

    /// The style of the next component for an entry with the given metadata:
    /// the style of the path that the component ends.
    pub open spec fn next_style(self, metadata: Option<&Metadata>) -> Option<Style>
        recommends
            !self.finished(),
    {
        self.registry.style_for_separated_path(self.next_path(), self.separator, metadata)
    }

    /// The walk when `count` components were handed out.
    pub open spec fn at(self, count: nat) -> StyledComponentsView {
        StyledComponentsView { position: count, ..self }
    }

    /// The texts of the first `count` components as they are handed out, one
    /// after the other.
    pub open spec fn texts(self, count: nat) -> Seq<char>
        decreases count,
    {
        if count == 0 {
            Seq::empty()
        } else {
            self.texts((count - 1) as nat) + self.at((count - 1) as nat).next_text()
        }
    }

    /// The walk after one more component.
    pub open spec fn advanced(self) -> StyledComponentsView {
        StyledComponentsView { position: self.position + 1, ..self }
    }
}

/// The texts of the first `count` components as they are handed out make the
/// path of these components, with a separator at its end where more
/// components follow and the last of them is not the root directory.
proof fn lemma_texts(walk: StyledComponentsView, count: nat)
    requires
        count <= walk.components().len(),
    ensures
        walk.texts(count) == joined(walk.components().take(count as int), walk.separator)
            + if 0 < count < walk.components().len() && walk.components()[count - 1].kind
            != ComponentKind::RootDir {
            seq![walk.separator]
        } else {
            Seq::empty()
        },
    decreases count,
{
    let all = walk.components();
    if count == 0 {
        assert(all.take(0) =~= Seq::empty());
        assert(walk.texts(count) =~= joined(all.take(0), walk.separator) + Seq::empty());
    } else {
        let before = (count - 1) as nat;
        lemma_texts(walk, before);
        lemma_components_shape(walk.path, walk.separator);
        lemma_root_first(walk.path, walk.separator);
        assert(all.take(count as int).drop_last() =~= all.take(before as int));
        assert(all.take(count as int).last() == all[before as int]);
        let text = all[before as int].text;
        let end: Seq<char> = if count < all.len() && all[before as int].kind
            != ComponentKind::RootDir {
            seq![walk.separator]
        } else {
            Seq::empty()
        };
        assert(walk.at(before).next_text() =~= text + end);
        if before > 0 {
            assert(all.take(before as int).last() == all[before - 1]);
            lemma_joined_end(all.take(before as int), walk.separator);
        }
        assert(walk.texts(count) =~= joined(all.take(count as int), walk.separator) + end);
    }
}

/// The texts of all components as they are handed out, one after the other,
/// make the path again, without what is no component of it.
pub proof fn law_texts_make_the_path(walk: StyledComponentsView)
    ensures
        walk.texts(walk.components().len()) == joined(walk.components(), walk.separator),
{
    let all = walk.components();
    lemma_texts(walk, all.len());
    assert(all.take(all.len() as int) =~= all);
    assert(joined(all, walk.separator) + Seq::<char>::empty() =~= joined(all, walk.separator));
}

/// How far a walk has come: the number of components handed out, and the path
/// that these make.
struct Cursor {
    position: usize,
    component_path: String,
}

/// The path components with their respective style, handed out one by one.
/// The separator between the components is `/`, or the one that the walk was
/// started with.
pub struct StyledComponents<'a> {
    /// Reference to the underlying LsColors object
    lscolors: &'a LsColors,
    /// The whole path
    path: &'a str,
    /// The separator between the components of the path
    separator: char,
    /// The components of the path
    components: Vec<Component>,
    /// The place of the next component and the full path to the current one
    cursor: Cursor,
}

impl<'a> View for StyledComponents<'a> {
    type V = StyledComponentsView;

    closed spec fn view(&self) -> StyledComponentsView {
        StyledComponentsView {
            registry: self.lscolors@,
            path: self.path@,
            separator: self.separator,
            position: self.cursor.position as nat,
        }
    }
}

impl<'a> StyledComponents<'a> {
    #[verifier::type_invariant]
    spec fn well_formed(self) -> bool {
        &&& locates(self.components@, self.path@, components(self.path@, self.separator))
        &&& followed(self.components@, self.path@, self.separator)
        &&& self.path@.len() <= usize::MAX
        &&& self.cursor.position <= self.components.len()
        &&& self.cursor.component_path@ == joined(
            components(self.path@, self.separator).take(self.cursor.position as int),
            self.separator,
        )
    }

    /// Starts a walk over the components of the Unix path `path`, with `/`
    /// between them.
    pub fn new(lscolors: &'a LsColors, path: &'a str) -> (walk: Self)
        ensures
            walk@ == (StyledComponentsView {
                registry: lscolors@,
                path: path@,
                separator: SEPARATOR,
                position: 0,
            }),
    {
        StyledComponents::with_separator(lscolors, path, SEPARATOR)
    }

    /// Starts a walk over the components of `path`, with `separator` between
    /// them: the separator of the platform, where paths are written with
    /// another than `/`.
    pub fn with_separator(lscolors: &'a LsColors, path: &'a str, separator: char) -> (walk: Self)
        ensures
            walk@ == (StyledComponentsView {
                registry: lscolors@,
                path: path@,
                separator,
                position: 0,
            }),
    {
        let chars = chars_of(path);
        let components = parse_components(chars.as_slice(), separator);
        assert(crate::path::components(path@, separator).take(0) =~= Seq::empty());
        assert(path@.len() == chars.len());
        StyledComponents {
            lscolors,
            path,
            separator,
            components,
            cursor: Cursor { position: 0, component_path: String::new() },
        }
    }

    /// The path that the next component ends, `None` when every component was
    /// handed out. The metadata of this path decides the style of the next
    /// component.
    pub fn next_path(&self) -> (path: Option<String>)
        ensures
            match path {
                Some(path) => !self@.finished() && path@ == self@.next_path(),
                None => self@.finished(),
            },
    {
        proof {
            use_type_invariant(self);
        }
        if self.cursor.position >= self.components.len() {
            return None;
        }
        Some(self.extended_path())
    }

    /// The full path to the current component with the next component added.
    fn extended_path(&self) -> (path: String)
        requires
            !self@.finished(),
        ensures
            path@ == self@.next_path(),
    {
        proof {
            use_type_invariant(self);
            lemma_components_shape(self.path@, self.separator);
        }
        let ghost all = components(self.path@, self.separator);
        let position: usize = self.cursor.position;
        let component = self.components[position];
        let text: &str = self.path.substring_char(component.span.start, component.span.end);
        assert(all.take(position + 1).drop_last() =~= all.take(position as int));
        assert(all.take(position + 1).last() == all[position as int]);
        match component.kind {
            ComponentKind::RootDir => String::from_str(text),
            _ => {
                let mut path = self.cursor.component_path.clone();
                if position > 0 {
                    proof {
                        assert(all.take(position as int).last() == all[position - 1]);
                        lemma_joined_end(all.take(position as int), self.separator);
                    }
                    let before = self.components[position - 1];
                    assert(before == self.components@[position - 1]);
                    match before.kind {
                        ComponentKind::RootDir => {},
                        _ => {
                            // More components follow the one before, so the
                            // separator stands behind it in the path.
                            let separator: &str = self.path.substring_char(
                                before.span.end,
                                before.span.end + 1,
                            );
                            assert(separator@ =~= seq![self.separator]);
                            path.append(separator);
                        },
                    }
                }
                path.append(text);
                path
            },
        }
    }

    /// Hands out the next component with the style that its path has for an
    /// entry with the given metadata: the metadata of `next_path`. `None`
    /// when every component was handed out.
    pub fn next_with_metadata(&mut self, metadata: Option<&Metadata>) -> (item: Option<
        (String, Option<&'a Style>),
    >)
        ensures
            match item {
                Some((text, style)) => {
                    &&& !old(self)@.finished()
                    &&& text@ == old(self)@.next_text()
                    &&& Style::copied(style) == old(self)@.next_style(metadata)
                    &&& final(self)@ == old(self)@.advanced()
                },
                None => old(self)@.finished() && final(self)@ == old(self)@,
            },
    {
        proof {
            use_type_invariant(&*self);
        }
        let position: usize = self.cursor.position;
        if position >= self.components.len() {
            return None;
        }
        let component = self.components[position];
        let component_path = self.extended_path();
        let lscolors: &'a LsColors = self.lscolors;
        let path: &'a str = self.path;
        let style = lscolors.style_for_separated_path(
            component_path.as_str(),
            self.separator,
            metadata,
        );
        // Where a separator follows the component, it stands behind it in the
        // path, and is painted the same way as the component.
        assert(component == self.components@[position as int]);
        let end: usize = if component.kind.takes_separator(position + 1 == self.components.len()) {
            component.span.end + 1
        } else {
            component.span.end
        };
        let component_str = String::from_str(path.substring_char(component.span.start, end));
        assert(component_str@ =~= self@.next_text());
        self.cursor = Cursor { position: position + 1, component_path };
        Some((component_str, style))
    }

    /// Hands out the next component with the style that its path has when
    /// nothing but the text is known of it.
    pub fn next(&mut self) -> (item: Option<(String, Option<&'a Style>)>)
        ensures
            match item {
                Some((text, style)) => {
                    &&& !old(self)@.finished()
                    &&& text@ == old(self)@.next_text()
                    &&& Style::copied(style) == old(self)@.next_style(None)
                    &&& final(self)@ == old(self)@.advanced()
                },
                None => old(self)@.finished() && final(self)@ == old(self)@,
            },
    {
        self.next_with_metadata(None)
    }
}

impl LsColors {
    /// Get ANSI styles for each component of a given path. Components already
    /// include the path separator symbol, if required. For a path like
    /// `foo/bar/test.md`, this would hand out three pairs for the three path
    /// components `foo/`, `bar/` and `test.md` together with their respective
    /// styles.
    ///
    /// The path is taken as a Unix path, with `/` between its components; for
    /// another separator see `StyledComponents::with_separator`.
    pub fn style_for_path_components<'a>(&'a self, path: &'a str) -> (walk: StyledComponents<'a>)
        ensures
            walk@ == (StyledComponentsView {
                registry: self@,
                path: path@,
                separator: SEPARATOR,
                position: 0,
            }),
    {
        StyledComponents::new(self, path)
    }
}

} // verus!
