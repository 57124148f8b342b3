//! Prompt sequences: a format version and the cases of a test, in the order
//! in which they were declared.
//!
//! A sequence is loaded from a document. The interface kind of a case is not
//! written in the document: it is the first kind, in the order of the variants
//! of [`TypedPromptCase`], whose shape the entry has. Loading is atomic: one
//! entry that has the shape of no kind fails the whole document.
use crate::document::{
    items_view, lemma_list_view, lemma_record_view, members_view, read_required, required_member,
    Document, DocumentView,
};
use crate::prompt_sequence::case::{PromptCase, PromptCaseView};
use crate::snapd_client::interfaces::home::{HomeConstraintsFilterView, HomeInterface};
use crate::snapd_client::view_of;
use vstd::prelude::*;

verus! {

/// A prompt case together with its interface kind.
#[derive(Debug, Clone, PartialEq, Eq)]
pub enum TypedPromptCase {
    Home(PromptCase<HomeInterface>),
}

/// The mathematical value of a [`TypedPromptCase`].
pub enum TypedPromptCaseView {
    Home(PromptCaseView<HomeConstraintsFilterView>),
}

impl View for TypedPromptCase {
    type V = TypedPromptCaseView;

    open spec fn view(&self) -> TypedPromptCaseView {
        match self {
            TypedPromptCase::Home(case) => TypedPromptCaseView::Home(case@),
        }
    }
}

impl TypedPromptCase {
    /// The case that a document states, with the first interface kind whose
    /// shape the document has.
    pub open spec fn parse(document: DocumentView) -> Option<TypedPromptCaseView> {
        match PromptCase::<HomeInterface>::parse(document) {
            Some(case) => Some(TypedPromptCaseView::Home(case)),
            None => None,
        }
    }

    /// The document that a case is written as: that of the case itself, with
    /// no mark of its kind.
    pub open spec fn document(case: TypedPromptCaseView) -> DocumentView {
        match case {
            TypedPromptCaseView::Home(case) => PromptCase::<HomeInterface>::document(case),
        }
    }

    /// Reads the case that a document states.
    pub fn from_document(document: &Document) -> (case: Option<Self>)
        ensures
            view_of(case) == Self::parse(document@),
    {
        match PromptCase::<HomeInterface>::from_document(document) {
            Some(case) => Some(TypedPromptCase::Home(case)),
            None => None,
        }
    }

    /// Writes the case as a document.
    pub fn to_document(&self) -> (document: Document)
        ensures
            document@ == Self::document(self@),
    {
        match self {
            TypedPromptCase::Home(case) => case.to_document(),
        }
    }
}

/// Why a document could not be loaded as a prompt sequence.
#[derive(Debug, Clone, Copy, PartialEq, Eq)]
pub enum LoadError {
    /// The document is not a record, or it does not hold exactly one list
    /// under `prompts`.
    Malformed,
    /// The document does not hold exactly one supported version under
    /// `version`.
    UnsupportedVersion,
    /// The entry at this position has the shape of no known interface kind;
    /// every entry before it has the shape of one.
    UnknownShape(usize),
}

/// The mathematical value of a [`LoadError`].
pub enum LoadErrorView {
    Malformed,
    UnsupportedVersion,
    UnknownShape(int),
}

impl View for LoadError {
    type V = LoadErrorView;

    open spec fn view(&self) -> LoadErrorView {
        match self {
            LoadError::Malformed => LoadErrorView::Malformed,
            LoadError::UnsupportedVersion => LoadErrorView::UnsupportedVersion,
            LoadError::UnknownShape(i) => LoadErrorView::UnknownShape(*i as int),
        }
    }
}

/// A versioned, ordered list of prompt cases.
#[derive(Debug, Clone, PartialEq, Eq)]
pub struct PromptSequence {
    version: u8,
    prompts: Vec<TypedPromptCase>,
}

/// The mathematical value of a [`PromptSequence`].
pub struct PromptSequenceView {
    pub version: u8,
    pub prompts: Seq<TypedPromptCaseView>,
}

/// The values of a list of cases, in order.
pub open spec fn cases_view(cases: Seq<TypedPromptCase>) -> Seq<TypedPromptCaseView> {
    cases.map_values(|case: TypedPromptCase| case@)
}

impl View for PromptSequence {
    type V = PromptSequenceView;

    closed spec fn view(&self) -> PromptSequenceView {
        PromptSequenceView { version: self.version, prompts: cases_view(self.prompts@) }
    }
}

/// The version that a record states: an integer from 0 to 255, written once.
pub open spec fn version_of(members: Seq<(Seq<char>, DocumentView)>) -> Option<u8> {
    match required_member(members, "version"@) {
        Some(DocumentView::Integer(version)) => if 0 <= version <= 255 {
            Some(version as u8)
        } else {
            None
        },
        _ => None,
    }
}

/// The entries that a record lists under `prompts`, written once.
pub open spec fn entries_of(members: Seq<(Seq<char>, DocumentView)>) -> Option<
    Seq<DocumentView>,
> {
    match required_member(members, "prompts"@) {
        Some(DocumentView::List(entries)) => Some(entries),
        _ => None,
    }
}

/// Whether the entry at position `i` has the shape of no known interface
/// kind.
pub open spec fn unknown_shape(entries: Seq<DocumentView>, i: int) -> bool {
    0 <= i < entries.len() && TypedPromptCase::parse(entries[i]) is None
}

/// Whether the entry at position `i` is the first of unknown shape.
pub open spec fn first_unknown_shape(entries: Seq<DocumentView>, i: int) -> bool {
    unknown_shape(entries, i) && forall|j: int| 0 <= j < i ==> !unknown_shape(entries, j)
}

/// The cases that a list of entries states, each entry read by itself and
/// kept at its position. Meant for entries that all have a known shape.
pub open spec fn cases_of(entries: Seq<DocumentView>) -> Seq<TypedPromptCaseView> {
    Seq::new(entries.len(), |i: int| TypedPromptCase::parse(entries[i])->Some_0)
}

/// What loading a document gives.
///
/// The document must be a record, else it is malformed. It must state a
/// version, else the version is unsupported. It must list its entries under
/// `prompts`, else it is malformed. Every entry must have a known shape, else
/// the first that has none is reported. Other keys are ignored.
pub open spec fn load(document: DocumentView) -> Result<PromptSequenceView, LoadErrorView> {
    match document {
        DocumentView::Record(members) => match version_of(members) {
            None => Err(LoadErrorView::UnsupportedVersion),
            Some(version) => match entries_of(members) {
                None => Err(LoadErrorView::Malformed),
                Some(entries) => if exists|i: int| unknown_shape(entries, i) {
                    Err(
                        LoadErrorView::UnknownShape(
                            choose|i: int| first_unknown_shape(entries, i),
                        ),
                    )
                } else {
                    Ok(PromptSequenceView { version, prompts: cases_of(entries) })
                },
            },
        },
        _ => Err(LoadErrorView::Malformed),
    }
}

impl Default for PromptSequence {
    /// The sequence of version 0 that has no case.
    fn default() -> (sequence: Self)
        ensures
            sequence@ == (PromptSequenceView { version: 0, prompts: Seq::empty() }),
    {
        let sequence = PromptSequence { version: 0, prompts: Vec::new() };
        assert(sequence@.prompts =~= Seq::empty());
        sequence
    }
}

impl PromptSequence {
    /// The format version that the sequence was declared with.
    pub fn version(&self) -> (version: u8)
        ensures
            version == self@.version,
    {
        self.version
    }

    /// The cases of the sequence, in the order in which they were declared.
    pub fn prompts(&self) -> (prompts: &Vec<TypedPromptCase>)
        ensures
            cases_view(prompts@) == self@.prompts,
    {
        &self.prompts
    }

    /// Loads a sequence from a document.
    pub fn from_document(document: &Document) -> (loaded: Result<PromptSequence, LoadError>)
        ensures
            match loaded {
                Ok(sequence) => load(document@) == Ok::<PromptSequenceView, LoadErrorView>(
                    sequence@,
                ),
                Err(error) => load(document@) == Err::<PromptSequenceView, LoadErrorView>(error@),
            },
    {
        let members = match document {
            Document::Record(members) => members,
            _ => {
                return Err(LoadError::Malformed);
            },
        };
        proof {
            lemma_record_view(*members);
        }
        let version: u8 = match read_required(members, "version") {
            Some(Document::Integer(version)) => {
                if 0 <= *version && *version <= 255 {
                    *version as u8
                } else {
                    return Err(LoadError::UnsupportedVersion);
                }
            },
            _ => {
                return Err(LoadError::UnsupportedVersion);
            },
        };
        let entries = match read_required(members, "prompts") {
            Some(Document::List(entries)) => entries,
            _ => {
                return Err(LoadError::Malformed);
            },
        };
        proof {
            lemma_list_view(*entries);
        }
        let ghost stated = items_view(entries@);
        let mut prompts: Vec<TypedPromptCase> = Vec::new();
        let mut i: usize = 0;
        while i < entries.len()
            invariant
                0 <= i <= entries.len(),
                stated == items_view(entries@),
                document@ == DocumentView::Record(members_view(members@)),
                version_of(members_view(members@)) == Some(version),
                entries_of(members_view(members@)) == Some(stated),
                prompts.len() == i,
                forall|j: int| 0 <= j < i ==> !unknown_shape(stated, j),
                forall|j: int|
                    0 <= j < i ==> TypedPromptCase::parse(stated[j]) == Some(
                        (#[trigger] prompts@[j])@,
                    ),
            decreases entries.len() - i,
        {
            match TypedPromptCase::from_document(&entries[i]) {
                Some(case) => {
                    prompts.push(case);
                },
                None => {
                    proof {
                        assert(unknown_shape(stated, i as int));
                        assert(first_unknown_shape(stated, i as int));
                        let first = choose|k: int| first_unknown_shape(stated, k);
                        assert(first == i) by {
                            if first < i {
                                assert(!unknown_shape(stated, first));
                            } else if first > i {
                                assert(!unknown_shape(stated, i as int));
                            }
                        }
                    }
                    return Err(LoadError::UnknownShape(i));
                },
            }
            i = i + 1;
        }
        let sequence = PromptSequence { version, prompts };
        proof {
            assert(forall|k: int| !unknown_shape(stated, k));
            assert(sequence@.prompts =~= cases_of(stated));
        }
        Ok(sequence)
    }
}

} // verus!
