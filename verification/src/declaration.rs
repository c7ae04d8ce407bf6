//! What the loader derivation reads of a type declaration: its identifier,
//! its shape and the annotation blocks attached to it.

use vstd::prelude::*;

verus! {

/// The kind of type that a declaration declares.
#[derive(Clone, Copy, Debug, PartialEq, Eq, Structural)]
pub enum Shape {
    Struct,
    Enum,
    Union,
}

/// What follows the name of an item in an annotation block.
#[derive(Clone, Debug, PartialEq, Eq)]
pub enum Argument {
    /// Nothing: `name`.
    Word,
    /// A nested list: `name(...)`.
    List,
    /// A string literal, held by the text it denotes: `name = "text"`.
    Text(String),
    /// Any other value: `name = 5`.
    Other,
}

/// One item of an annotation block.
#[derive(Clone, Debug, PartialEq, Eq)]
pub enum Item {
    /// An item with a name: `name`, `name(...)` or `name = value`.
    Named { name: String, argument: Argument },
    /// A literal with no name in front of it.
    Literal,
}

/// What stands after the path of an annotation.
#[derive(Clone, Debug, PartialEq, Eq)]
pub enum Body {
    /// A list of items, possibly empty: `#[path(a, b = "c")]`, `#[path]`.
    Items(Vec<Item>),
    /// Anything that is no list of items: `#[path = "x"]`, `#[path(+)]`.
    Malformed,
}

/// One annotation block of a declaration: `#[path ...]`.
#[derive(Clone, Debug, PartialEq, Eq)]
pub struct Annotation {
    pub path: String,
    pub body: Body,
}

/// A type declaration, as far as the derivation reads it.
#[derive(Clone, Debug, PartialEq, Eq)]
pub struct Declaration {
    pub ident: String,
    pub shape: Shape,
    pub annotations: Vec<Annotation>,
}

/// An argument, with the text it holds as plain text.
pub enum ArgumentView {
    Word,
    List,
    Text(Seq<char>),
    Other,
}

/// An item, with its name as plain text.
pub enum ItemView {
    Named { name: Seq<char>, argument: ArgumentView },
    Literal,
}

/// A body, with its items as a sequence.
pub enum BodyView {
    Items(Seq<ItemView>),
    Malformed,
}

/// An annotation block, with its path as plain text.
pub struct AnnotationView {
    pub path: Seq<char>,
    pub body: BodyView,
}

/// A declaration, with its identifier as plain text and its annotation
/// blocks as a sequence.
pub struct DeclarationView {
    pub ident: Seq<char>,
    pub shape: Shape,
    pub annotations: Seq<AnnotationView>,
}

impl View for Argument {
    type V = ArgumentView;

    open spec fn view(&self) -> ArgumentView {
        match *self {
            Argument::Word => ArgumentView::Word,
            Argument::List => ArgumentView::List,
            Argument::Text(text) => ArgumentView::Text(text@),
            Argument::Other => ArgumentView::Other,
        }
    }
}

impl View for Item {
    type V = ItemView;

    open spec fn view(&self) -> ItemView {
        match *self {
            Item::Named { name, argument } => ItemView::Named { name: name@, argument: argument@ },
            Item::Literal => ItemView::Literal,
        }
    }
}

impl View for Body {
    type V = BodyView;

    open spec fn view(&self) -> BodyView {
        match *self {
            Body::Items(items) => BodyView::Items(items@.map_values(|item: Item| item@)),
            Body::Malformed => BodyView::Malformed,
        }
    }
}

impl View for Annotation {
    type V = AnnotationView;

    open spec fn view(&self) -> AnnotationView {
        AnnotationView { path: self.path@, body: self.body@ }
    }
}

impl View for Declaration {
    type V = DeclarationView;

    open spec fn view(&self) -> DeclarationView {
        DeclarationView {
            ident: self.ident@,
            shape: self.shape,
            annotations: self.annotations@.map_values(|annotation: Annotation| annotation@),
        }
    }
}

/// The path of the annotation blocks that the derivation reads:
/// `app_properties`. Blocks under any other path are not its business.
pub open spec fn annotation_path() -> Seq<char> {
    seq!['a', 'p', 'p', '_', 'p', 'r', 'o', 'p', 'e', 'r', 't', 'i', 'e', 's']
}

/// The name of the one option: `src`.
pub open spec fn source_option() -> Seq<char> {
    seq!['s', 'r', 'c']
}

/// One thing that the derivation finds in the blocks it reads: an item, or a
/// block that it could not take apart.
pub enum Entry {
    Item(ItemView),
    Unreadable,
}

/// The entries that one annotation block contributes.
pub open spec fn annotation_entries(annotation: AnnotationView) -> Seq<Entry> {
    if annotation.path != annotation_path() {
        Seq::<Entry>::empty()
    } else {
        match annotation.body {
            BodyView::Items(items) => items.map_values(|item: ItemView| Entry::Item(item)),
            BodyView::Malformed => seq![Entry::Unreadable],
        }
    }
}

/// The entries of a run of annotation blocks, in the order written.
pub open spec fn entries(annotations: Seq<AnnotationView>) -> Seq<Entry>
    decreases annotations.len(),
{
    if annotations.len() == 0 {
        Seq::<Entry>::empty()
    } else {
        entries(annotations.drop_last()) + annotation_entries(annotations.last())
    }
}

/// Whether an entry is an item named `src`.
pub open spec fn is_source(entry: Entry) -> bool {
    entry matches Entry::Item(ItemView::Named { name, .. }) && name == source_option()
}

/// Whether some entry is an item named `src`.
pub open spec fn names_source(entries: Seq<Entry>) -> bool {
    exists|i: int| 0 <= i < entries.len() && is_source(#[trigger] entries[i])
}

/// The path that an entry gives for the source document: that of
/// `src = "path"` where the path is not empty, and none for any other entry.
pub open spec fn source_path_of(entry: Entry) -> Option<Seq<char>> {
    match entry {
        Entry::Item(ItemView::Named { name, argument: ArgumentView::Text(path) }) => {
            if name == source_option() && path.len() > 0 {
                Some(path)
            } else {
                None
            }
        },
        _ => None,
    }
}

} // verus!
