//! Rejections in words: the message of each error, and the diagnostic that
//! names the declaration it is about.

use vstd::prelude::*;
use vstd::string::*;
use crate::extract::{ExtractError, ExtractErrorView, Rejection, RejectionView};

verus! {

/// What an error says.
pub open spec fn message_text(error: ExtractErrorView) -> Seq<char> {
    match error {
        ExtractErrorView::UnsupportedEnum => "expected a struct, found an enum"@,
        ExtractErrorView::UnsupportedUnion => "expected a struct, found a union"@,
        ExtractErrorView::MalformedAnnotation => "expected a list of options in parentheses"@,
        ExtractErrorView::UnexpectedLiteral => "unexpected literal, expected the option `src`"@,
        ExtractErrorView::UnknownOption(name) => "unknown option `"@ + name
            + "`, the only option is `src`"@,
        ExtractErrorView::SourceRepeated => "the option `src` is given more than once"@,
        ExtractErrorView::SourceNotAssigned => "the option `src` needs `=` and a value"@,
        ExtractErrorView::SourceNotText => "the value of `src` must be a string literal"@,
        ExtractErrorView::SourceEmpty => "the value of `src` must not be empty"@,
        ExtractErrorView::SourceMissing => "missing option `src`"@,
    }
}

/// The diagnostic for one error of the declaration of `ident`: it names the
/// declaration, then gives the error's message.
pub open spec fn diagnostic_text(ident: Seq<char>, error: ExtractErrorView) -> Seq<char> {
    "AppProperties on `"@ + ident + "`: "@ + message_text(error)
}

/// The diagnostics of a rejection: one for each error, in order.
pub open spec fn diagnostic_texts(rejection: RejectionView) -> Seq<Seq<char>> {
    Seq::new(
        rejection.errors.len(),
        |i: int| diagnostic_text(rejection.ident, rejection.errors[i]),
    )
}

/// The characters of each of a run of texts.
pub open spec fn text_views(texts: Seq<String>) -> Seq<Seq<char>> {
    texts.map_values(|text: String| text@)
}

/// Every diagnostic holds the identifier of the declaration it is about.
pub proof fn lemma_diagnostic_names_declaration(ident: Seq<char>, error: ExtractErrorView)
    ensures
        exists|at: int|
            0 <= at && at + ident.len() <= diagnostic_text(ident, error).len()
                && #[trigger] diagnostic_text(ident, error).subrange(at, at + ident.len())
                == ident,
{
    let text = diagnostic_text(ident, error);
    let at = "AppProperties on `"@.len() as int;
    assert(text.subrange(at, at + ident.len()) =~= ident);
}

impl ExtractError {
    /// The message of this error.
    pub fn message(&self) -> (text: String)
        ensures
            text@ == message_text(self@),
    {
        match self {
            ExtractError::UnsupportedEnum => String::from_str("expected a struct, found an enum"),
            ExtractError::UnsupportedUnion => String::from_str("expected a struct, found a union"),
            ExtractError::MalformedAnnotation => String::from_str(
                "expected a list of options in parentheses",
            ),
            ExtractError::UnexpectedLiteral => String::from_str(
                "unexpected literal, expected the option `src`",
            ),
            ExtractError::UnknownOption(name) => {
                let mut text = String::from_str("unknown option `");
                text.append(name.as_str());
                text.append("`, the only option is `src`");
                text
            },
            ExtractError::SourceRepeated => String::from_str(
                "the option `src` is given more than once",
            ),
            ExtractError::SourceNotAssigned => String::from_str(
                "the option `src` needs `=` and a value",
            ),
            ExtractError::SourceNotText => String::from_str(
                "the value of `src` must be a string literal",
            ),
            ExtractError::SourceEmpty => String::from_str("the value of `src` must not be empty"),
            ExtractError::SourceMissing => String::from_str("missing option `src`"),
        }
    }

    /// The diagnostic for this error of the declaration of `ident`.
    pub fn diagnostic(&self, ident: &str) -> (text: String)
        ensures
            text@ == diagnostic_text(ident@, self@),
    {
        let mut text = String::from_str("AppProperties on `");
        text.append(ident);
        text.append("`: ");
        text.append(self.message().as_str());
        text
    }
}

impl Rejection {
    /// The diagnostics of this rejection: one for each error, in order.
    pub fn diagnostics(&self) -> (texts: Vec<String>)
        ensures
            text_views(texts@) == diagnostic_texts(self@),
    {
        let mut texts: Vec<String> = Vec::new();
        let mut i: usize = 0;
        while i < self.errors.len()
            invariant
                i <= self.errors.len(),
                texts.len() == i,
                forall|k: int|
                    0 <= k < i ==> texts[k]@ == diagnostic_text(self.ident@, self.errors[k]@),
            decreases self.errors.len() - i,
        {
            texts.push(self.errors[i].diagnostic(self.ident.as_str()));
            i += 1;
        }
        proof {
            assert(text_views(texts@) =~= diagnostic_texts(self@));
        }
        texts
    }
}

} // verus!
