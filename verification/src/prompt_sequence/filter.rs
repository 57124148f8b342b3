//! Prompt filters: what a test author expects of a prompt.
use crate::document::{
    lemma_lookup_only, lemma_optional_text_round_trip, lemma_record_view, members_view,
    optional_member, optional_text, optional_text_document, read_optional, read_optional_text,
    write_optional_text, Document, DocumentView, Member,
};
use crate::prompt_sequence::matching::{
    attempt_of, failures_view, lemma_failures_view_concat, text_field_matches, text_mismatch,
    MatchAttempt, MatchAttemptView, MatchFailure, MatchFailureView,
};
use crate::render::debug_text;
use crate::snapd_client::{view_of, ConstraintsFilter, Prompt, PromptView, SnapdInterface};
use vstd::prelude::*;

verus! {

/// A filter over the prompts of the interface kind `I`.
///
/// Each of its three attributes is optional. An attribute that is unset
/// matches any prompt; the attributes that are set must all match.
#[derive(Debug, Clone, PartialEq, Eq)]
pub struct PromptFilter<I: SnapdInterface> {
    snap: Option<String>,
    interface: Option<String>,
    constraints: Option<I::ConstraintsFilter>,
}

/// The mathematical value of a [`PromptFilter`], over the value `F` of its
/// constraints filter.
pub struct PromptFilterView<F> {
    pub snap: Option<Seq<char>>,
    pub interface: Option<Seq<char>>,
    pub constraints: Option<F>,
}

impl<I: SnapdInterface> View for PromptFilter<I> {
    type V = PromptFilterView<<I::ConstraintsFilter as View>::V>;

    closed spec fn view(&self) -> Self::V {
        PromptFilterView {
            snap: self.snap.deep_view(),
            interface: self.interface.deep_view(),
            constraints: view_of(self.constraints),
        }
    }
}

impl<I: SnapdInterface> Default for PromptFilter<I> {
    /// The filter with every attribute unset.
    fn default() -> (filter: Self)
        ensures
            filter@ == (PromptFilterView::<<I::ConstraintsFilter as View>::V> {
                snap: None,
                interface: None,
                constraints: None,
            }),
    {
        PromptFilter { snap: None, interface: None, constraints: None }
    }
}

impl<I: SnapdInterface> PromptFilter<I> {
    /// The mismatches on the attributes of the prompt itself: the snap name,
    /// then the interface name.
    pub open spec fn top_level_mismatches(
        filter: PromptFilterView<<I::ConstraintsFilter as View>::V>,
        prompt: PromptView<<I::Constraints as View>::V>,
    ) -> Seq<MatchFailureView> {
        text_mismatch("snap"@, filter.snap, prompt.snap) + text_mismatch(
            "interface"@,
            filter.interface,
            prompt.interface,
        )
    }

    /// The mismatches on the constraints of the prompt: none when the filter
    /// sets no constraints, else those that the interface kind finds.
    pub open spec fn constraint_mismatches(
        filter: PromptFilterView<<I::ConstraintsFilter as View>::V>,
        prompt: PromptView<<I::Constraints as View>::V>,
    ) -> Seq<MatchFailureView> {
        match filter.constraints {
            Some(constraints) => <I::ConstraintsFilter as ConstraintsFilter>::mismatches(
                constraints,
                prompt.constraints,
            ),
            None => Seq::empty(),
        }
    }

    /// Every attribute on which the filter and the prompt disagree: the
    /// top-level ones first, then those of the constraints.
    pub open spec fn mismatches(
        filter: PromptFilterView<<I::ConstraintsFilter as View>::V>,
        prompt: PromptView<<I::Constraints as View>::V>,
    ) -> Seq<MatchFailureView> {
        Self::top_level_mismatches(filter, prompt) + Self::constraint_mismatches(filter, prompt)
    }

    /// The members that a filter is written as, unset attributes as null.
    pub open spec fn document_members(
        filter: PromptFilterView<<I::ConstraintsFilter as View>::V>,
    ) -> Seq<(Seq<char>, DocumentView)> {
        seq![
            ("snap"@, optional_text_document(filter.snap)),
            ("interface"@, optional_text_document(filter.interface)),
            (
                "constraints"@,
                match filter.constraints {
                    Some(constraints) => <I::ConstraintsFilter as ConstraintsFilter>::document(
                        constraints,
                    ),
                    None => DocumentView::Null,
                },
            ),
        ]
    }

    /// The document that a filter is written as.
    pub open spec fn document(
        filter: PromptFilterView<<I::ConstraintsFilter as View>::V>,
    ) -> DocumentView {
        DocumentView::Record(Self::document_members(filter))
    }

    /// The filter that a document states: a record with the optional
    /// attributes `snap` and `interface`, texts, and `constraints`, which must
    /// have the shape of the interface kind. Other keys are ignored.
    pub open spec fn parse(document: DocumentView) -> Option<
        PromptFilterView<<I::ConstraintsFilter as View>::V>,
    > {
        match document {
            DocumentView::Record(members) => match (
                optional_text(members, "snap"@),
                optional_text(members, "interface"@),
                optional_member(members, "constraints"@),
            ) {
                (Some(snap), Some(interface), Some(None)) => Some(
                    PromptFilterView { snap, interface, constraints: None },
                ),
                (Some(snap), Some(interface), Some(Some(stated))) => match <I::ConstraintsFilter as ConstraintsFilter>::parse(
                    stated,
                ) {
                    Some(constraints) => Some(
                        PromptFilterView { snap, interface, constraints: Some(constraints) },
                    ),
                    None => None,
                },
                _ => None,
            },
            _ => None,
        }
    }

    /// Expects prompts to come from the snap `snap`.
    pub fn with_snap(&mut self, snap: &str) -> (filter: &mut Self)
        ensures
            filter@ == (PromptFilterView::<<I::ConstraintsFilter as View>::V> {
                snap: Some(snap@),
                ..old(self)@
            }),
            *final(self) == *final(filter),
    {
        self.snap = Some(snap.to_owned());
        self
    }

    /// Expects prompts to name the interface `interface`.
    pub fn with_interface(&mut self, interface: &str) -> (filter: &mut Self)
        ensures
            filter@ == (PromptFilterView::<<I::ConstraintsFilter as View>::V> {
                interface: Some(interface@),
                ..old(self)@
            }),
            *final(self) == *final(filter),
    {
        self.interface = Some(interface.to_owned());
        self
    }

    /// Expects the constraints of prompts to match `constraints`.
    pub fn with_constraints(&mut self, constraints: I::ConstraintsFilter) -> (filter: &mut Self)
        ensures
            filter@ == (PromptFilterView::<<I::ConstraintsFilter as View>::V> {
                constraints: Some(constraints@),
                ..old(self)@
            }),
            *final(self) == *final(filter),
    {
        self.constraints = Some(constraints);
        self
    }

    /// The snap name that the filter expects, if it expects one.
    pub fn snap(&self) -> (snap: Option<&String>)
        ensures
            snap.deep_view() == self@.snap,
    {
        self.snap.as_ref()
    }

    /// The interface name that the filter expects, if it expects one.
    pub fn interface(&self) -> (interface: Option<&String>)
        ensures
            interface.deep_view() == self@.interface,
    {
        self.interface.as_ref()
    }

    /// The constraints filter that the filter holds, if it holds one.
    pub fn constraints(&self) -> (constraints: Option<&I::ConstraintsFilter>)
        ensures
            match constraints {
                Some(constraints) => self@.constraints == Some(constraints@),
                None => self@.constraints is None,
            },
    {
        self.constraints.as_ref()
    }

    /// Matches the filter against a prompt.
    ///
    /// The attempt succeeds when no attribute that is set disagrees with the
    /// prompt. Otherwise it fails with one entry for each attribute that
    /// disagrees: the snap name, then the interface name, then the attributes
    /// of the constraints in the order of the interface kind.
    pub fn matches(&self, p: &Prompt<I>) -> (attempt: MatchAttempt)
        ensures
            attempt@ == attempt_of(Self::mismatches(self@, p@)),
    {
        let mut failures: Vec<MatchFailure> = Vec::new();
        assert(failures_view(failures@) =~= Seq::empty());
        text_field_matches("snap", &self.snap, &p.snap, &mut failures);
        text_field_matches("interface", &self.interface, &p.interface, &mut failures);
        assert(failures_view(failures@) =~= Self::top_level_mismatches(self@, p@));

        match &self.constraints {
            None => {
                assert(failures_view(failures@) =~= Self::mismatches(self@, p@));
                MatchAttempt::from_failures(failures)
            },
            Some(c) => match c.matches(&p.constraints) {
                MatchAttempt::Success => {
                    assert(failures_view(failures@) =~= Self::mismatches(self@, p@));
                    MatchAttempt::from_failures(failures)
                },
                MatchAttempt::Failure(c_failures) => {
                    let ghost top = failures@;
                    let ghost rest = c_failures@;
                    let mut c_failures = c_failures;
                    failures.append(&mut c_failures);
                    proof {
                        lemma_failures_view_concat(top, rest);
                    }
                    MatchAttempt::Failure(failures)
                },
            },
        }
    }

    /// Reads the filter that a document states.
    pub fn from_document(document: &Document) -> (filter: Option<Self>)
        ensures
            view_of(filter) == Self::parse(document@),
    {
        match document {
            Document::Record(members) => {
                proof {
                    lemma_record_view(*members);
                }
                let snap = match read_optional_text(members, "snap") {
                    Some(snap) => snap,
                    None => {
                        return None;
                    },
                };
                let interface = match read_optional_text(members, "interface") {
                    Some(interface) => interface,
                    None => {
                        return None;
                    },
                };
                match read_optional(members, "constraints") {
                    None => None,
                    Some(None) => Some(PromptFilter { snap, interface, constraints: None }),
                    Some(Some(stated)) => match I::ConstraintsFilter::from_document(stated) {
                        Some(constraints) => Some(
                            PromptFilter { snap, interface, constraints: Some(constraints) },
                        ),
                        None => None,
                    },
                }
            },
            _ => None,
        }
    }

    /// Writes the filter as a document.
    pub fn to_document(&self) -> (document: Document)
        ensures
            document@ == Self::document(self@),
    {
        let constraints = match &self.constraints {
            Some(constraints) => constraints.to_document(),
            None => Document::Null,
        };
        let mut members: Vec<Member> = Vec::new();
        members.push(Member { key: "snap".to_owned(), value: write_optional_text(&self.snap) });
        members.push(
            Member { key: "interface".to_owned(), value: write_optional_text(&self.interface) },
        );
        members.push(Member { key: "constraints".to_owned(), value: constraints });
        proof {
            lemma_record_view(members);
            assert(members_view(members@) =~= Self::document_members(self@));
        }
        Document::Record(members)
    }
}

/// The entry that a report holds for a text attribute that disagreed.
pub open spec fn text_failure(
    field: Seq<char>,
    expected: Seq<char>,
    seen: Seq<char>,
) -> MatchFailureView {
    MatchFailureView { field, expected: debug_text(expected), seen: debug_text(seen) }
}

/// The filter that expects nothing.
pub open spec fn unset_filter<F>() -> PromptFilterView<F> {
    PromptFilterView { snap: None, interface: None, constraints: None }
}

/// A filter with every attribute unset matches every prompt.
pub proof fn lemma_unset_filter_matches<I: SnapdInterface>(
    prompt: PromptView<<I::Constraints as View>::V>,
)
    ensures
        attempt_of(PromptFilter::<I>::mismatches(unset_filter(), prompt))
            == MatchAttemptView::Success,
{
}

/// A filter that expects the snap `snap` matches only prompts of that snap.
/// Against a prompt of another snap the report begins with the entry for
/// `snap`, which shows both names rendered, and goes on with what the filter
/// would report without that expectation; the top-level part of the report
/// holds no other entry for `snap`.
pub proof fn lemma_snap_mismatch<I: SnapdInterface>(
    filter: PromptFilterView<<I::ConstraintsFilter as View>::V>,
    prompt: PromptView<<I::Constraints as View>::V>,
    snap: Seq<char>,
)
    requires
        filter.snap == Some(snap),
    ensures
        attempt_of(PromptFilter::<I>::mismatches(filter, prompt)) is Success ==> prompt.snap
            == snap,
        prompt.snap != snap ==> {
            let report = PromptFilter::<I>::mismatches(filter, prompt);
            let top = PromptFilter::<I>::top_level_mismatches(filter, prompt);
            let without = PromptFilterView { snap: None, ..filter };
            &&& attempt_of(report) == MatchAttemptView::Failure(report)
            &&& report == seq![text_failure("snap"@, snap, prompt.snap)]
                + PromptFilter::<I>::mismatches(without, prompt)
            &&& forall|i: int| 0 <= i < top.len() ==> (top[i].field == "snap"@ <==> i == 0)
        },
{
    reveal_strlit("snap");
    reveal_strlit("interface");
    assert("snap"@.len() == 4 && "interface"@.len() == 9);
    if prompt.snap != snap {
        let report = PromptFilter::<I>::mismatches(filter, prompt);
        let without = PromptFilterView { snap: None, ..filter };
        assert(report =~= seq![text_failure("snap"@, snap, prompt.snap)]
            + PromptFilter::<I>::mismatches(without, prompt));
    }
}

/// The order of a report is fixed: against a prompt that disagrees with both
/// the snap name and the interface name that a filter expects, the report
/// holds the entry for `snap`, then the entry for `interface`, then the
/// entries of the constraints as the interface kind orders them.
pub proof fn lemma_report_order<I: SnapdInterface>(
    filter: PromptFilterView<<I::ConstraintsFilter as View>::V>,
    prompt: PromptView<<I::Constraints as View>::V>,
    snap: Seq<char>,
    interface: Seq<char>,
)
    requires
        filter.snap == Some(snap),
        filter.interface == Some(interface),
        prompt.snap != snap,
        prompt.interface != interface,
    ensures
        PromptFilter::<I>::mismatches(filter, prompt) == seq![
            text_failure("snap"@, snap, prompt.snap),
            text_failure("interface"@, interface, prompt.interface),
        ] + PromptFilter::<I>::constraint_mismatches(filter, prompt),
{
    assert(PromptFilter::<I>::top_level_mismatches(filter, prompt) =~= seq![
        text_failure("snap"@, snap, prompt.snap),
        text_failure("interface"@, interface, prompt.interface),
    ]);
}

/// The mismatches of the constraints come after all top-level mismatches: a
/// report is its top-level entries, of which there are at most two, followed
/// by the entries of the constraints, each kept in its order.
pub proof fn lemma_constraints_after_top_level<I: SnapdInterface>(
    filter: PromptFilterView<<I::ConstraintsFilter as View>::V>,
    prompt: PromptView<<I::Constraints as View>::V>,
)
    ensures
        ({
            let report = PromptFilter::<I>::mismatches(filter, prompt);
            let top = PromptFilter::<I>::top_level_mismatches(filter, prompt);
            let rest = PromptFilter::<I>::constraint_mismatches(filter, prompt);
            &&& top.len() <= 2
            &&& report.len() == top.len() + rest.len()
            &&& forall|i: int| 0 <= i < top.len() ==> report[i] == top[i]
            &&& forall|j: int| 0 <= j < rest.len() ==> report[top.len() + j] == rest[j]
        }),
{
}

/// Writing a filter as a document and reading the document gives the filter
/// back, with the same attributes set and unset.
pub proof fn lemma_filter_round_trip<I: SnapdInterface>(
    filter: PromptFilterView<<I::ConstraintsFilter as View>::V>,
)
    ensures
        PromptFilter::<I>::parse(PromptFilter::<I>::document(filter)) == Some(filter),
{
    reveal_strlit("snap");
    reveal_strlit("interface");
    reveal_strlit("constraints");
    let members = PromptFilter::<I>::document_members(filter);
    assert(members.len() == 3);
    assert(members[0].0 == "snap"@ && members[1].0 == "interface"@ && members[2].0
        == "constraints"@);
    assert("snap"@.len() == 4 && "interface"@.len() == 9 && "constraints"@.len() == 11);
    lemma_lookup_only(members, "snap"@, 0);
    lemma_lookup_only(members, "interface"@, 1);
    lemma_lookup_only(members, "constraints"@, 2);
    lemma_optional_text_round_trip(filter.snap);
    lemma_optional_text_round_trip(filter.interface);
    match filter.constraints {
        Some(constraints) => {
            <I::ConstraintsFilter as ConstraintsFilter>::lemma_document_parses(constraints);
        },
        None => {},
    }
}

/// Reading a filter from a document, writing it and reading it again gives
/// the same filter as the first reading.
pub proof fn lemma_filter_reread<I: SnapdInterface>(document: DocumentView)
    requires
        PromptFilter::<I>::parse(document) is Some,
    ensures
        PromptFilter::<I>::parse(
            PromptFilter::<I>::document(PromptFilter::<I>::parse(document)->Some_0),
        ) == PromptFilter::<I>::parse(document),
{
    lemma_filter_round_trip::<I>(PromptFilter::<I>::parse(document)->Some_0);
}

} // verus!
