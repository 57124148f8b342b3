//! Prompt cases: a filter and the reply to give when it matches.
use crate::document::{
    lemma_lookup_only, lemma_record_view, members_view, read_required, required_member, Document,
    DocumentView, Member,
};
use crate::prompt_sequence::filter::{lemma_filter_round_trip, PromptFilter, PromptFilterView};
use crate::prompt_sequence::matching::{failures_view, MatchAttempt, MatchFailure};
use crate::snapd_client::{
    lemma_reply_document_parses, parse_reply, reply_document, view_of, Action, Prompt,
    PromptReply, SnapdInterface,
};
use vstd::prelude::*;

verus! {

/// One case of a prompt sequence: the prompts that fit `prompt_filter` are
/// answered with `reply`.
#[derive(Debug, Clone, PartialEq, Eq)]
pub struct PromptCase<I: SnapdInterface> {
    prompt_filter: PromptFilter<I>,
    reply: PromptReply<I>,
}

/// The mathematical value of a [`PromptCase`], over the value `F` of its
/// constraints filter.
pub struct PromptCaseView<F> {
    pub prompt_filter: PromptFilterView<F>,
    pub reply: Action,
}

impl<I: SnapdInterface> View for PromptCase<I> {
    type V = PromptCaseView<<I::ConstraintsFilter as View>::V>;

    closed spec fn view(&self) -> Self::V {
        PromptCaseView { prompt_filter: self.prompt_filter@, reply: self.reply@ }
    }
}

impl<I: SnapdInterface> PromptCase<I> {
    /// The members that a case is written as.
    pub open spec fn document_members(
        case: PromptCaseView<<I::ConstraintsFilter as View>::V>,
    ) -> Seq<(Seq<char>, DocumentView)> {
        seq![
            ("prompt-filter"@, PromptFilter::<I>::document(case.prompt_filter)),
            ("reply"@, reply_document(case.reply)),
        ]
    }

    /// The document that a case is written as.
    pub open spec fn document(
        case: PromptCaseView<<I::ConstraintsFilter as View>::V>,
    ) -> DocumentView {
        DocumentView::Record(Self::document_members(case))
    }

    /// The case that a document states: a record with the two required
    /// attributes `prompt-filter` and `reply`, each of its own shape. Other
    /// keys are ignored.
    pub open spec fn parse(document: DocumentView) -> Option<
        PromptCaseView<<I::ConstraintsFilter as View>::V>,
    > {
        match document {
            DocumentView::Record(members) => match (
                required_member(members, "prompt-filter"@),
                required_member(members, "reply"@),
            ) {
                (Some(filter), Some(reply)) => match (
                    PromptFilter::<I>::parse(filter),
                    parse_reply(reply),
                ) {
                    (Some(prompt_filter), Some(reply)) => Some(
                        PromptCaseView { prompt_filter, reply },
                    ),
                    _ => None,
                },
                _ => None,
            },
            _ => None,
        }
    }

    /// The case that answers the prompts that fit `prompt_filter` with
    /// `reply`.
    pub fn new(prompt_filter: PromptFilter<I>, reply: PromptReply<I>) -> (case: Self)
        ensures
            case@ == (PromptCaseView::<<I::ConstraintsFilter as View>::V> {
                prompt_filter: prompt_filter@,
                reply: reply@,
            }),
    {
        PromptCase { prompt_filter, reply }
    }

    /// The filter of the case.
    pub fn prompt_filter(&self) -> (prompt_filter: &PromptFilter<I>)
        ensures
            prompt_filter@ == self@.prompt_filter,
    {
        &self.prompt_filter
    }

    /// The reply of the case.
    pub fn reply(&self) -> (reply: &PromptReply<I>)
        ensures
            reply@ == self@.reply,
    {
        &self.reply
    }

    /// Resolves a prompt: the reply of the case when its filter matches the
    /// prompt, else every attribute on which the two disagree, in the order in
    /// which the filter reports them.
    pub fn into_reply_or_error(self, p: Prompt<I>) -> (outcome: Result<
        PromptReply<I>,
        Vec<MatchFailure>,
    >)
        ensures
            outcome is Ok <==> PromptFilter::<I>::mismatches(self@.prompt_filter, p@).len() == 0,
            match outcome {
                Ok(reply) => reply@ == self@.reply,
                Err(failures) => failures_view(failures@) == PromptFilter::<I>::mismatches(
                    self@.prompt_filter,
                    p@,
                ),
            },
    {
        match self.prompt_filter.matches(&p) {
            MatchAttempt::Success => Ok(self.reply),
            MatchAttempt::Failure(failures) => Err(failures),
        }
    }

    /// Reads the case that a document states.
    pub fn from_document(document: &Document) -> (case: Option<Self>)
        ensures
            view_of(case) == Self::parse(document@),
    {
        match document {
            Document::Record(members) => {
                proof {
                    lemma_record_view(*members);
                }
                let filter = match read_required(members, "prompt-filter") {
                    Some(filter) => filter,
                    None => {
                        return None;
                    },
                };
                let reply = match read_required(members, "reply") {
                    Some(reply) => reply,
                    None => {
                        return None;
                    },
                };
                let prompt_filter = match PromptFilter::<I>::from_document(filter) {
                    Some(prompt_filter) => prompt_filter,
                    None => {
                        return None;
                    },
                };
                match PromptReply::<I>::from_document(reply) {
                    Some(reply) => Some(PromptCase { prompt_filter, reply }),
                    None => None,
                }
            },
            _ => None,
        }
    }

    /// Writes the case as a document.
    pub fn to_document(&self) -> (document: Document)
        ensures
            document@ == Self::document(self@),
    {
        let mut members: Vec<Member> = Vec::new();
        members.push(
            Member { key: "prompt-filter".to_owned(), value: self.prompt_filter.to_document() },
        );
        members.push(Member { key: "reply".to_owned(), value: self.reply.to_document() });
        proof {
            lemma_record_view(members);
            assert(members_view(members@) =~= Self::document_members(self@));
        }
        Document::Record(members)
    }
}

/// Writing a case as a document and reading the document gives the case
/// back.
pub proof fn lemma_case_round_trip<I: SnapdInterface>(
    case: PromptCaseView<<I::ConstraintsFilter as View>::V>,
)
    ensures
        PromptCase::<I>::parse(PromptCase::<I>::document(case)) == Some(case),
{
    reveal_strlit("prompt-filter");
    reveal_strlit("reply");
    let members = PromptCase::<I>::document_members(case);
    assert(members.len() == 2);
    assert(members[0].0 == "prompt-filter"@ && members[1].0 == "reply"@);
    assert("prompt-filter"@.len() == 13 && "reply"@.len() == 5);
    lemma_lookup_only(members, "prompt-filter"@, 0);
    lemma_lookup_only(members, "reply"@, 1);
    lemma_filter_round_trip::<I>(case.prompt_filter);
    lemma_reply_document_parses(case.reply);
}

} // verus!
