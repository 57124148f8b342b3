//! The outcome of a match: success, or the list of the attributes that
//! disagreed.
//!
//! Every matcher compares attribute by attribute. An attribute that the filter
//! leaves unset matches any value. One that is set and differs from the value
//! seen adds a [`MatchFailure`] that names the attribute and shows both values
//! in their `Debug` rendering.
use crate::document::{members_view, Document, DocumentView, Member};
use crate::render::{debug_text, debug_texts, render_text, render_texts};
use vstd::prelude::*;

verus! {

/// One attribute that disagreed: its name, the value that the filter expected
/// and the value that the prompt held, both rendered.
#[derive(Debug, Clone, PartialEq, Eq)]
pub struct MatchFailure {
    pub field: &'static str,
    pub expected: String,
    pub seen: String,
}

/// The mathematical value of a [`MatchFailure`].
pub struct MatchFailureView {
    pub field: Seq<char>,
    pub expected: Seq<char>,
    pub seen: Seq<char>,
}

impl View for MatchFailure {
    type V = MatchFailureView;

    open spec fn view(&self) -> MatchFailureView {
        MatchFailureView { field: self.field@, expected: self.expected@, seen: self.seen@ }
    }
}

/// The outcome of matching a filter against a value.
#[derive(Debug, Clone, PartialEq, Eq)]
pub enum MatchAttempt {
    Success,
    Failure(Vec<MatchFailure>),
}

/// The mathematical value of a [`MatchAttempt`].
pub enum MatchAttemptView {
    Success,
    Failure(Seq<MatchFailureView>),
}

/// The values of a list of failures, in order.
pub open spec fn failures_view(failures: Seq<MatchFailure>) -> Seq<MatchFailureView> {
    failures.map_values(|failure: MatchFailure| failure@)
}

impl View for MatchAttempt {
    type V = MatchAttemptView;

    open spec fn view(&self) -> MatchAttemptView {
        match self {
            MatchAttempt::Success => MatchAttemptView::Success,
            MatchAttempt::Failure(failures) => MatchAttemptView::Failure(failures_view(failures@)),
        }
    }
}

/// The outcome that a list of mismatches amounts to: success when there is
/// none, else a failure that carries the list unchanged.
pub open spec fn attempt_of(mismatches: Seq<MatchFailureView>) -> MatchAttemptView {
    if mismatches.len() == 0 {
        MatchAttemptView::Success
    } else {
        MatchAttemptView::Failure(mismatches)
    }
}

/// What comparing one text attribute contributes to a report: nothing when the
/// filter leaves it unset or holds the value seen, else one entry.
pub open spec fn text_mismatch(
    field: Seq<char>,
    expected: Option<Seq<char>>,
    seen: Seq<char>,
) -> Seq<MatchFailureView> {
    match expected {
        Some(expected) => if expected == seen {
            Seq::empty()
        } else {
            seq![MatchFailureView { field, expected: debug_text(expected), seen: debug_text(seen) }]
        },
        None => Seq::empty(),
    }
}

/// What comparing one attribute that lists texts contributes to a report.
/// Two lists agree when they hold the same texts in the same order.
pub open spec fn texts_mismatch(
    field: Seq<char>,
    expected: Option<Seq<Seq<char>>>,
    seen: Seq<Seq<char>>,
) -> Seq<MatchFailureView> {
    match expected {
        Some(expected) => if expected == seen {
            Seq::empty()
        } else {
            seq![MatchFailureView { field, expected: debug_texts(expected), seen: debug_texts(seen) }]
        },
        None => Seq::empty(),
    }
}

/// The document that a failure is written as: a record of its three texts.
pub open spec fn failure_document(failure: MatchFailureView) -> DocumentView {
    DocumentView::Record(
        seq![
            ("field"@, DocumentView::Text(failure.field)),
            ("expected"@, DocumentView::Text(failure.expected)),
            ("seen"@, DocumentView::Text(failure.seen)),
        ],
    )
}

impl MatchFailure {
    /// A failure for the attribute `field`, from the two rendered values.
    pub fn new(field: &'static str, expected: String, seen: String) -> (failure: MatchFailure)
        ensures
            failure@ == (MatchFailureView { field: field@, expected: expected@, seen: seen@ }),
    {
        MatchFailure { field, expected, seen }
    }

    /// Writes the failure as a document.
    pub fn to_document(&self) -> (document: Document)
        ensures
            document@ == failure_document(self@),
    {
        let mut members: Vec<Member> = Vec::new();
        members.push(Member { key: "field".to_owned(), value: Document::Text(self.field.to_owned()) });
        members.push(
            Member { key: "expected".to_owned(), value: Document::Text(self.expected.clone()) },
        );
        members.push(Member { key: "seen".to_owned(), value: Document::Text(self.seen.clone()) });
        proof {
            crate::document::lemma_record_view(members);
            assert(members_view(members@) =~= failure_document(self@)->Record_0);
        }
        Document::Record(members)
    }
}

impl MatchAttempt {
    /// The outcome that a list of failures amounts to.
    pub fn from_failures(failures: Vec<MatchFailure>) -> (attempt: MatchAttempt)
        ensures
            attempt@ == attempt_of(failures_view(failures@)),
    {
        if failures.len() == 0 {
            MatchAttempt::Success
        } else {
            MatchAttempt::Failure(failures)
        }
    }

    /// Whether the attempt succeeded.
    pub fn is_success(&self) -> (success: bool)
        ensures
            success == (self@ is Success),
    {
        match self {
            MatchAttempt::Success => true,
            MatchAttempt::Failure(_) => false,
        }
    }
}

/// Adding a failure to a list adds its value to the list's value.
pub proof fn lemma_failures_view_push(failures: Seq<MatchFailure>, failure: MatchFailure)
    ensures
        failures_view(failures.push(failure)) == failures_view(failures).push(failure@),
{
    assert(failures_view(failures.push(failure)) =~= failures_view(failures).push(failure@));
}

/// The value of two lists of failures, one after the other, is the two values
/// one after the other.
pub proof fn lemma_failures_view_concat(first: Seq<MatchFailure>, second: Seq<MatchFailure>)
    ensures
        failures_view(first + second) == failures_view(first) + failures_view(second),
{
    assert(failures_view(first + second) =~= failures_view(first) + failures_view(second));
}

/// Whether two lists hold the same texts in the same order.
pub fn texts_equal(first: &Vec<String>, second: &Vec<String>) -> (equal: bool)
    ensures
        equal == (first.deep_view() == second.deep_view()),
{
    if first.len() != second.len() {
        assert(first.deep_view().len() != second.deep_view().len());
        return false;
    }
    let mut i: usize = 0;
    while i < first.len()
        invariant
            0 <= i <= first.len(),
            first.len() == second.len(),
            forall|j: int| 0 <= j < i ==> first@[j]@ == second@[j]@,
        decreases first.len() - i,
    {
        if !(first[i] == second[i]) {
            assert(first.deep_view()[i as int] != second.deep_view()[i as int]);
            return false;
        }
        i = i + 1;
    }
    assert(first.deep_view() =~= second.deep_view());
    true
}

/// Compares one text attribute and records the mismatch, if there is one, at
/// the end of `failures`.
pub fn text_field_matches(
    field: &'static str,
    expected: &Option<String>,
    seen: &String,
    failures: &mut Vec<MatchFailure>,
)
    ensures
        failures_view(final(failures)@) == failures_view(old(failures)@) + text_mismatch(
            field@,
            expected.deep_view(),
            seen@,
        ),
{
    let ghost before = failures@;
    match expected {
        Some(expected) => {
            if !(*expected == *seen) {
                let failure = MatchFailure::new(
                    field,
                    render_text(expected.as_str()),
                    render_text(seen.as_str()),
                );
                failures.push(failure);
                proof {
                    lemma_failures_view_push(before, failure);
                    assert(failures_view(before).push(failure@) =~= failures_view(before) + seq![
                        failure@,
                    ]);
                }
            } else {
                assert(failures_view(before) =~= failures_view(before) + Seq::empty());
            }
        },
        None => {
            assert(failures_view(before) =~= failures_view(before) + Seq::empty());
        },
    }
}

/// Compares one attribute that lists texts and records the mismatch, if there
/// is one, at the end of `failures`.
pub fn texts_field_matches(
    field: &'static str,
    expected: &Option<Vec<String>>,
    seen: &Vec<String>,
    failures: &mut Vec<MatchFailure>,
)
    ensures
        failures_view(final(failures)@) == failures_view(old(failures)@) + texts_mismatch(
            field@,
            expected.deep_view(),
            seen.deep_view(),
        ),
{
    let ghost before = failures@;
    match expected {
        Some(expected) => {
            if !texts_equal(expected, seen) {
                let failure = MatchFailure::new(field, render_texts(expected), render_texts(seen));
                failures.push(failure);
                proof {
                    lemma_failures_view_push(before, failure);
                    assert(failures_view(before).push(failure@) =~= failures_view(before) + seq![
                        failure@,
                    ]);
                }
            } else {
                assert(failures_view(before) =~= failures_view(before) + Seq::empty());
            }
        },
        None => {
            assert(failures_view(before) =~= failures_view(before) + Seq::empty());
        },
    }
}

} // verus!
