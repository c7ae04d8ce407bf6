//! Reading the annotation of a declaration: either the descriptor of its
//! loader, or everything that is wrong with the annotation.

use vstd::prelude::*;
use crate::declaration::{
    annotation_entries, annotation_path, entries, is_source, names_source, source_option,
    source_path_of, Annotation, AnnotationView, Argument, ArgumentView, Body, Declaration,
    DeclarationView, Entry, Item, ItemView, Shape,
};
use crate::descriptor::{descriptor_for, Descriptor, DescriptorView};
use crate::text::same_text;

verus! {

/// One thing that is wrong with an annotated declaration.
#[derive(Clone, Debug, PartialEq, Eq)]
pub enum ExtractError {
    /// The annotated type is an enum.
    UnsupportedEnum,
    /// The annotated type is a union.
    UnsupportedUnion,
    /// An annotation block is no list of items.
    MalformedAnnotation,
    /// An item is a literal with no name.
    UnexpectedLiteral,
    /// An option other than `src`, held by its name.
    UnknownOption(String),
    /// `src` is given a second time.
    SourceRepeated,
    /// `src` is given without `=` and a value.
    SourceNotAssigned,
    /// `src` is given a value that is no string literal.
    SourceNotText,
    /// `src` is given the empty path.
    SourceEmpty,
    /// `src` is not given at all.
    SourceMissing,
}

/// An error, with the name it holds as plain text.
pub enum ExtractErrorView {
    UnsupportedEnum,
    UnsupportedUnion,
    MalformedAnnotation,
    UnexpectedLiteral,
    UnknownOption(Seq<char>),
    SourceRepeated,
    SourceNotAssigned,
    SourceNotText,
    SourceEmpty,
    SourceMissing,
}

impl View for ExtractError {
    type V = ExtractErrorView;

    open spec fn view(&self) -> ExtractErrorView {
        match *self {
            ExtractError::UnsupportedEnum => ExtractErrorView::UnsupportedEnum,
            ExtractError::UnsupportedUnion => ExtractErrorView::UnsupportedUnion,
            ExtractError::MalformedAnnotation => ExtractErrorView::MalformedAnnotation,
            ExtractError::UnexpectedLiteral => ExtractErrorView::UnexpectedLiteral,
            ExtractError::UnknownOption(name) => ExtractErrorView::UnknownOption(name@),
            ExtractError::SourceRepeated => ExtractErrorView::SourceRepeated,
            ExtractError::SourceNotAssigned => ExtractErrorView::SourceNotAssigned,
            ExtractError::SourceNotText => ExtractErrorView::SourceNotText,
            ExtractError::SourceEmpty => ExtractErrorView::SourceEmpty,
            ExtractError::SourceMissing => ExtractErrorView::SourceMissing,
        }
    }
}

/// The views of a run of errors.
pub open spec fn error_views(errors: Seq<ExtractError>) -> Seq<ExtractErrorView> {
    errors.map_values(|error: ExtractError| error@)
}

/// Why a declaration got no loader: the declaration's identifier and all
/// that is wrong with it, in the order found.
#[derive(Clone, Debug, PartialEq, Eq)]
pub struct Rejection {
    pub ident: String,
    pub errors: Vec<ExtractError>,
}

/// A rejection, with its identifier as plain text and its errors by their
/// views.
pub struct RejectionView {
    pub ident: Seq<char>,
    pub errors: Seq<ExtractErrorView>,
}

impl View for Rejection {
    type V = RejectionView;

    open spec fn view(&self) -> RejectionView {
        RejectionView { ident: self.ident@, errors: error_views(self.errors@) }
    }
}

/// What is wrong with one entry, given whether `src` stood before it.
/// Nothing is wrong with the first `src = "path"` whose path is not empty;
/// every other entry is an error, so that no option is passed over in
/// silence.
pub open spec fn entry_error(seen: bool, entry: Entry) -> Option<ExtractErrorView> {
    match entry {
        Entry::Unreadable => Some(ExtractErrorView::MalformedAnnotation),
        Entry::Item(ItemView::Literal) => Some(ExtractErrorView::UnexpectedLiteral),
        Entry::Item(ItemView::Named { name, argument }) => {
            if name != source_option() {
                Some(ExtractErrorView::UnknownOption(name))
            } else if seen {
                Some(ExtractErrorView::SourceRepeated)
            } else {
                match argument {
                    ArgumentView::Word => Some(ExtractErrorView::SourceNotAssigned),
                    ArgumentView::List => Some(ExtractErrorView::SourceNotAssigned),
                    ArgumentView::Other => Some(ExtractErrorView::SourceNotText),
                    ArgumentView::Text(path) => {
                        if path.len() == 0 {
                            Some(ExtractErrorView::SourceEmpty)
                        } else {
                            None
                        }
                    },
                }
            }
        },
    }
}

/// The errors of a run of entries, in the order of the entries.
pub open spec fn entry_errors(entries: Seq<Entry>) -> Seq<ExtractErrorView>
    decreases entries.len(),
{
    if entries.len() == 0 {
        Seq::<ExtractErrorView>::empty()
    } else {
        let earlier = entries.drop_last();
        match entry_error(names_source(earlier), entries.last()) {
            Some(error) => entry_errors(earlier).push(error),
            None => entry_errors(earlier),
        }
    }
}

/// The error for a shape that is not a struct.
pub open spec fn shape_errors(shape: Shape) -> Seq<ExtractErrorView> {
    match shape {
        Shape::Struct => Seq::<ExtractErrorView>::empty(),
        Shape::Enum => seq![ExtractErrorView::UnsupportedEnum],
        Shape::Union => seq![ExtractErrorView::UnsupportedUnion],
    }
}

/// The error for entries among which `src` does not occur.
pub open spec fn missing_errors(entries: Seq<Entry>) -> Seq<ExtractErrorView> {
    if names_source(entries) {
        Seq::<ExtractErrorView>::empty()
    } else {
        seq![ExtractErrorView::SourceMissing]
    }
}

/// All that is wrong with a declaration: first the errors of its entries,
/// then that of its shape, then the missing `src`.
pub open spec fn diagnostics(declaration: DeclarationView) -> Seq<ExtractErrorView> {
    let found = entries(declaration.annotations);
    entry_errors(found) + shape_errors(declaration.shape) + missing_errors(found)
}

/// Whether a declaration gets a loader: it is a struct, and its annotation
/// holds exactly one entry, which is `src = "path"` with a path that is not
/// empty.
pub open spec fn accepts(declaration: DeclarationView) -> bool {
    let found = entries(declaration.annotations);
    &&& declaration.shape == Shape::Struct
    &&& found.len() == 1
    &&& source_path_of(found[0]) is Some
}

/// The descriptor of an accepted declaration: its identifier, the names
/// that follow from it, and the path that its one entry gives.
pub open spec fn accepted_descriptor(declaration: DeclarationView) -> DescriptorView
    recommends
        accepts(declaration),
{
    descriptor_for(declaration.ident, source_path_of(entries(declaration.annotations)[0])->0)
}

/// The rejection of a declaration that is not accepted.
pub open spec fn rejection_of(declaration: DeclarationView) -> RejectionView {
    RejectionView { ident: declaration.ident, errors: diagnostics(declaration) }
}

/// The path that the first `src` among the entries gives, if it gives one.
spec fn found_path(entries: Seq<Entry>) -> Option<Seq<char>>
    decreases entries.len(),
{
    if entries.len() == 0 {
        None
    } else if names_source(entries.drop_last()) {
        found_path(entries.drop_last())
    } else {
        source_path_of(entries.last())
    }
}

/// `src` occurs among entries with one more at the end where it occurred
/// before, or is that one.
proof fn lemma_names_source_push(earlier: Seq<Entry>, entry: Entry)
    ensures
        names_source(earlier.push(entry)) == (names_source(earlier) || is_source(entry)),
{
    let all = earlier.push(entry);
    if names_source(earlier) {
        let i = choose|i: int| 0 <= i < earlier.len() && is_source(#[trigger] earlier[i]);
        assert(is_source(all[i]));
    }
    if is_source(entry) {
        assert(is_source(all[earlier.len() as int]));
    }
    if names_source(all) {
        let i = choose|i: int| 0 <= i < all.len() && is_source(#[trigger] all[i]);
        if i < earlier.len() {
            assert(is_source(earlier[i]));
        }
    }
}

/// Entries without errors are no entries at all, or one `src = "path"`.
proof fn lemma_no_entry_errors(entries: Seq<Entry>)
    requires
        entry_errors(entries).len() == 0,
    ensures
        entries.len() <= 1,
        entries.len() == 1 ==> source_path_of(entries[0]) is Some,
    decreases entries.len(),
{
    if entries.len() > 0 {
        let earlier = entries.drop_last();
        lemma_no_entry_errors(earlier);
        if earlier.len() == 1 {
            assert(is_source(earlier[0]));
        }
    }
}

/// Whatever is wrong with the entry at a place is among the errors of the
/// entries: no entry is passed over in silence.
pub proof fn lemma_entry_error_reported(entries: Seq<Entry>, at: int)
    requires
        0 <= at < entries.len(),
    ensures
        entry_error(names_source(entries.take(at)), entries[at]) matches Some(error)
            ==> entry_errors(entries).contains(error),
    decreases entries.len(),
{
    let earlier = entries.drop_last();
    if let Some(error) = entry_error(names_source(entries.take(at)), entries[at]) {
        if at == entries.len() - 1 {
            assert(entries.take(at) =~= earlier);
            let errors = entry_errors(entries);
            assert(errors[errors.len() - 1] == error);
        } else {
            assert(earlier.take(at) =~= entries.take(at));
            lemma_entry_error_reported(earlier, at);
            let k = choose|k: int|
                0 <= k < entry_errors(earlier).len() && entry_errors(earlier)[k] == error;
            assert(entry_errors(entries)[k] == error);
        }
    }
}

/// The derivation fails closed: a declaration whose annotation holds an
/// option other than `src` is rejected, and that option is reported by its
/// name.
pub proof fn lemma_unknown_option_rejected(
    declaration: DeclarationView,
    at: int,
    name: Seq<char>,
    argument: ArgumentView,
)
    requires
        0 <= at < entries(declaration.annotations).len(),
        entries(declaration.annotations)[at] == Entry::Item(ItemView::Named { name, argument }),
        name != source_option(),
    ensures
        !accepts(declaration),
        diagnostics(declaration).contains(ExtractErrorView::UnknownOption(name)),
{
    let found = entries(declaration.annotations);
    let error = ExtractErrorView::UnknownOption(name);
    lemma_entry_error_reported(found, at);
    let k = choose|k: int| 0 <= k < entry_errors(found).len() && entry_errors(found)[k] == error;
    assert(diagnostics(declaration)[k] == error);
    lemma_accepts_iff_no_diagnostics(declaration);
}

/// A declaration is accepted exactly when nothing is wrong with it.
pub proof fn lemma_accepts_iff_no_diagnostics(declaration: DeclarationView)
    ensures
        accepts(declaration) <==> diagnostics(declaration).len() == 0,
{
    let found = entries(declaration.annotations);
    if accepts(declaration) {
        assert(found.drop_last().len() == 0);
        assert(entry_errors(found.drop_last()).len() == 0);
        assert(is_source(found[0]));
    }
    if diagnostics(declaration).len() == 0 {
        lemma_no_entry_errors(found);
    }
}

/// A declaration whose annotation does not name `src` is rejected, and the
/// missing option is the last thing reported of it.
pub proof fn lemma_missing_source_rejected(declaration: DeclarationView)
    requires
        !names_source(entries(declaration.annotations)),
    ensures
        !accepts(declaration),
        diagnostics(declaration).len() > 0,
        diagnostics(declaration).last() == ExtractErrorView::SourceMissing,
{
    let found = entries(declaration.annotations);
    if found.len() == 1 && source_path_of(found[0]) is Some {
        assert(is_source(found[0]));
    }
}

/// A struct whose annotation is the single entry `src = "path"`, with a
/// path that is not empty, is accepted, and its descriptor holds the
/// declaration's identifier, the two names that follow from it and that
/// path.
pub proof fn lemma_single_source_accepted(declaration: DeclarationView, path: Seq<char>)
    requires
        declaration.shape == Shape::Struct,
        path.len() > 0,
        entries(declaration.annotations) == seq![
            Entry::Item(
                ItemView::Named { name: source_option(), argument: ArgumentView::Text(path) },
            ),
        ],
    ensures
        accepts(declaration),
        diagnostics(declaration).len() == 0,
        accepted_descriptor(declaration) == descriptor_for(declaration.ident, path),
        accepted_descriptor(declaration).well_formed(),
{
    lemma_accepts_iff_no_diagnostics(declaration);
}

/// What has been learnt of the entries read so far.
struct Scan {
    errors: Vec<ExtractError>,
    seen: bool,
    path: Option<String>,
}

impl Scan {
    spec fn path_view(&self) -> Option<Seq<char>> {
        match self.path {
            Some(path) => Some(path@),
            None => None,
        }
    }

    /// The scan holds what is to be known of the entries `done`.
    spec fn covers(&self, done: Seq<Entry>) -> bool {
        &&& error_views(self.errors@) == entry_errors(done)
        &&& self.seen == names_source(done)
        &&& self.path_view() == found_path(done)
    }

    fn new() -> (scan: Scan)
        ensures
            scan.covers(Seq::<Entry>::empty()),
    {
        let scan = Scan { errors: Vec::new(), seen: false, path: None };
        proof {
            assert(error_views(scan.errors@) =~= entry_errors(Seq::<Entry>::empty()));
        }
        scan
    }

    /// Notes one error behind those noted before.
    fn report(&mut self, error: ExtractError)
        ensures
            error_views(final(self).errors@) == error_views(old(self).errors@).push(error@),
            final(self).seen == old(self).seen,
            final(self).path == old(self).path,
    {
        self.errors.push(error);
        proof {
            assert(error_views(self.errors@) =~= error_views(old(self).errors@).push(error@));
        }
    }

    /// Reads a block that is no list of items.
    fn read_unreadable(&mut self, Ghost(done): Ghost<Seq<Entry>>)
        requires
            old(self).covers(done),
        ensures
            final(self).covers(done.push(Entry::Unreadable)),
    {
        proof {
            lemma_names_source_push(done, Entry::Unreadable);
            assert(done.push(Entry::Unreadable).drop_last() =~= done);
        }
        self.report(ExtractError::MalformedAnnotation);
    }

    /// Reads one item of a block.
    fn read_item(&mut self, item: &Item, Ghost(done): Ghost<Seq<Entry>>)
        requires
            old(self).covers(done),
        ensures
            final(self).covers(done.push(Entry::Item(item@))),
    {
        proof {
            lemma_names_source_push(done, Entry::Item(item@));
            assert(done.push(Entry::Item(item@)).drop_last() =~= done);
        }
        match item {
            Item::Literal => {
                self.report(ExtractError::UnexpectedLiteral);
            },
            Item::Named { name, argument } => {
                let is_src = same_text(name.as_str(), "src");
                proof {
                    reveal_strlit("src");
                    assert("src"@ =~= source_option());
                }
                if !is_src {
                    self.report(ExtractError::UnknownOption(name.clone()));
                } else if self.seen {
                    self.report(ExtractError::SourceRepeated);
                } else {
                    self.seen = true;
                    match argument {
                        Argument::Word => {
                            self.report(ExtractError::SourceNotAssigned);
                        },
                        Argument::List => {
                            self.report(ExtractError::SourceNotAssigned);
                        },
                        Argument::Other => {
                            self.report(ExtractError::SourceNotText);
                        },
                        Argument::Text(path) => {
                            if path.as_str().unicode_len() == 0 {
                                self.report(ExtractError::SourceEmpty);
                            } else {
                                self.path = Some(path.clone());
                            }
                        },
                    }
                }
            },
        }
    }

    /// Reads one annotation block: all its items if it stands under
    /// `app_properties`, nothing of it otherwise.
    fn read_annotation(&mut self, annotation: &Annotation, Ghost(done): Ghost<Seq<Entry>>)
        requires
            old(self).covers(done),
        ensures
            final(self).covers(done + annotation_entries(annotation@)),
    {
        let is_ours = same_text(annotation.path.as_str(), "app_properties");
        proof {
            reveal_strlit("app_properties");
            assert("app_properties"@ =~= annotation_path());
        }
        if !is_ours {
            proof {
                assert(done + annotation_entries(annotation@) =~= done);
            }
            return;
        }
        match &annotation.body {
            Body::Malformed => {
                self.read_unreadable(Ghost(done));
                proof {
                    assert(done + annotation_entries(annotation@) =~= done.push(
                        Entry::Unreadable,
                    ));
                }
            },
            Body::Items(items) => {
                let ghost block = annotation_entries(annotation@);
                let mut j: usize = 0;
                proof {
                    assert(done + block.take(0) =~= done);
                }
                while j < items.len()
                    invariant
                        j <= items.len(),
                        block.len() == items.len(),
                        forall|k: int| 0 <= k < items.len() ==> block[k] == Entry::Item(items[k]@),
                        self.covers(done + block.take(j as int)),
                    decreases items.len() - j,
                {
                    self.read_item(&items[j], Ghost(done + block.take(j as int)));
                    proof {
                        assert((done + block.take(j as int)).push(Entry::Item(items[j as int]@))
                            =~= done + block.take(j + 1));
                    }
                    j += 1;
                }
                proof {
                    assert(block.take(items.len() as int) =~= block);
                }
            },
        }
    }
}

/// Reads the annotation of `declaration`. A struct with exactly one entry,
/// `src = "path"` with a path that is not empty, gets its descriptor; any
/// other declaration is rejected with all that is wrong with it.
pub fn extract(declaration: &Declaration) -> (outcome: Result<Descriptor, Rejection>)
    ensures
        accepts(declaration@) ==> (outcome matches Ok(descriptor) && descriptor@
            == accepted_descriptor(declaration@) && descriptor@.well_formed()),
        !accepts(declaration@) ==> (outcome matches Err(rejection) && rejection@ == rejection_of(
            declaration@,
        ) && rejection@.errors.len() > 0),
        !names_source(entries(declaration@.annotations)) ==> (outcome matches Err(rejection)
            && rejection@.ident == declaration@.ident && rejection@.errors.last()
            == ExtractErrorView::SourceMissing),
{
    let ghost blocks = declaration@.annotations;
    let mut scan = Scan::new();
    let mut i: usize = 0;
    proof {
        assert(blocks.take(0) =~= Seq::<AnnotationView>::empty());
    }
    while i < declaration.annotations.len()
        invariant
            i <= declaration.annotations.len(),
            blocks == declaration@.annotations,
            blocks.len() == declaration.annotations.len(),
            scan.covers(entries(blocks.take(i as int))),
        decreases declaration.annotations.len() - i,
    {
        scan.read_annotation(&declaration.annotations[i], Ghost(entries(blocks.take(i as int))));
        proof {
            let next = blocks.take(i + 1);
            assert(next.drop_last() =~= blocks.take(i as int));
            assert(next.last() == declaration.annotations[i as int]@);
        }
        i += 1;
    }
    proof {
        assert(blocks.take(i as int) =~= blocks);
        lemma_accepts_iff_no_diagnostics(declaration@);
        if !names_source(entries(blocks)) {
            lemma_missing_source_rejected(declaration@);
        }
    }
    let ghost found = entries(blocks);
    match declaration.shape {
        Shape::Struct => {},
        Shape::Enum => {
            scan.report(ExtractError::UnsupportedEnum);
        },
        Shape::Union => {
            scan.report(ExtractError::UnsupportedUnion);
        },
    }
    if !scan.seen {
        scan.report(ExtractError::SourceMissing);
    }
    proof {
        assert(error_views(scan.errors@) =~= diagnostics(declaration@));
    }
    if scan.errors.len() > 0 {
        return Err(Rejection { ident: declaration.ident.clone(), errors: scan.errors });
    }
    proof {
        lemma_no_entry_errors(found);
        assert(found.drop_last().len() == 0);
        assert(!names_source(found.drop_last()));
    }
    let path = scan.path.unwrap();
    Ok(Descriptor::new(declaration.ident.as_str(), path.as_str()).unwrap())
}

} // verus!
