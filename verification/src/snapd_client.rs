//! What the engine shares with the daemon's client: prompts, replies, and the
//! contract that every interface kind fulfils.
pub mod interfaces;

use crate::document::{
    lemma_lookup_only, lemma_record_view, members_view, read_required, required_member, Document,
    DocumentView, Member,
};
use crate::prompt_sequence::matching::{attempt_of, MatchAttempt, MatchFailureView};
use core::fmt::Debug;
use core::marker::PhantomData;
use vstd::prelude::*;

verus! {

/// The views of an optional value.
pub open spec fn view_of<T: View>(value: Option<T>) -> Option<T::V> {
    match value {
        Some(value) => Some(value@),
        None => None,
    }
}

/// The filter over the constraints of one interface kind.
///
/// Every attribute of such a filter is optional. An attribute that is unset
/// matches any value; one that is set must equal the value of the constraints,
/// and lists are equal when they hold the same items in the same order.
pub trait ConstraintsFilter: View + Sized + Debug + Clone + PartialEq + Eq {
    /// The constraints that the filter is matched against.
    type Constraints: View + Debug + Clone + PartialEq + Eq;

    /// The attributes on which the filter and the constraints disagree, in the
    /// order that the interface kind fixes for its attributes.
    spec fn mismatches(
        filter: Self::V,
        constraints: <Self::Constraints as View>::V,
    ) -> Seq<MatchFailureView>;

    /// The filter that a document states, if the document has the shape of this
    /// interface kind.
    spec fn parse(document: DocumentView) -> Option<Self::V>;

    /// The document that the filter is written as.
    spec fn document(filter: Self::V) -> DocumentView;

    /// A filter is never written as null, and reading what was written gives
    /// the filter back.
    proof fn lemma_document_parses(filter: Self::V)
        ensures
            !(Self::document(filter) is Null),
            Self::parse(Self::document(filter)) == Some(filter),
    ;

    /// Matches the filter against the constraints of a prompt.
    fn matches(&self, constraints: &Self::Constraints) -> (attempt: MatchAttempt)
        ensures
            attempt@ == attempt_of(Self::mismatches(self@, constraints@)),
    ;

    /// Reads the filter that a document states.
    fn from_document(document: &Document) -> (filter: Option<Self>)
        ensures
            view_of(filter) == Self::parse(document@),
    ;

    /// Writes the filter as a document.
    fn to_document(&self) -> (document: Document)
        ensures
            document@ == Self::document(self@),
    ;
}

/// One kind of interface: the shape of its constraints and of the filter over
/// them.
pub trait SnapdInterface: Sized + Debug + Clone + PartialEq + Eq {
    type Constraints: View + Debug + Clone + PartialEq + Eq;

    type ConstraintsFilter: ConstraintsFilter<Constraints = Self::Constraints>;
}

/// What the daemon is told to do with a request.
#[derive(Debug, Clone, Copy, PartialEq, Eq)]
pub enum Action {
    Allow,
    Deny,
}

/// The identity that the daemon gave a prompt.
#[derive(Debug, Clone, PartialEq, Eq)]
pub struct PromptId(pub String);

impl Default for PromptId {
    /// The empty identity, which the daemon gives to no prompt.
    fn default() -> (id: Self)
        ensures
            id.0@ == Seq::<char>::empty(),
    {
        PromptId(String::new())
    }
}

/// A request for permission, as the daemon reported it.
#[derive(Debug, Clone, PartialEq, Eq)]
pub struct Prompt<I: SnapdInterface> {
    pub id: PromptId,
    pub timestamp: String,
    pub snap: String,
    pub interface: String,
    pub constraints: I::Constraints,
}

/// The mathematical value of a [`Prompt`], over the value `C` of its
/// constraints.
pub struct PromptView<C> {
    pub id: Seq<char>,
    pub timestamp: Seq<char>,
    pub snap: Seq<char>,
    pub interface: Seq<char>,
    pub constraints: C,
}

impl<I: SnapdInterface> View for Prompt<I> {
    type V = PromptView<<I::Constraints as View>::V>;

    open spec fn view(&self) -> Self::V {
        PromptView {
            id: self.id.0@,
            timestamp: self.timestamp@,
            snap: self.snap@,
            interface: self.interface@,
            constraints: self.constraints@,
        }
    }
}

impl<I: SnapdInterface> Prompt<I> {
    /// The reply that answers this prompt with `action`.
    pub fn into_reply(self, action: Action) -> (reply: PromptReply<I>)
        ensures
            reply@ == action,
    {
        PromptReply::new(action)
    }
}

/// The answer to a prompt of the interface kind `I`.
#[derive(Debug, PartialEq, Eq)]
pub struct PromptReply<I: SnapdInterface> {
    action: Action,
    interface: PhantomData<I>,
}

impl<I: SnapdInterface> View for PromptReply<I> {
    type V = Action;

    closed spec fn view(&self) -> Action {
        self.action
    }
}

impl<I: SnapdInterface> Clone for PromptReply<I> {
    fn clone(&self) -> (reply: Self)
        ensures
            reply@ == self@,
    {
        PromptReply { action: self.action, interface: PhantomData }
    }
}

/// The word that an action is written as.
pub open spec fn action_word(action: Action) -> Seq<char> {
    match action {
        Action::Allow => "allow"@,
        Action::Deny => "deny"@,
    }
}

/// The action that a word stands for.
pub open spec fn action_of(word: Seq<char>) -> Option<Action> {
    if word == "allow"@ {
        Some(Action::Allow)
    } else if word == "deny"@ {
        Some(Action::Deny)
    } else {
        None
    }
}

/// The reply that a document states: a record with the one required attribute
/// `action`, a text that is one of the two action words.
pub open spec fn parse_reply(document: DocumentView) -> Option<Action> {
    match document {
        DocumentView::Record(members) => match required_member(members, "action"@) {
            Some(DocumentView::Text(word)) => action_of(word),
            _ => None,
        },
        _ => None,
    }
}

/// The document that a reply is written as.
pub open spec fn reply_document(action: Action) -> DocumentView {
    DocumentView::Record(seq![("action"@, DocumentView::Text(action_word(action)))])
}

/// Reading the document that a reply was written as gives the reply back.
pub proof fn lemma_reply_document_parses(action: Action)
    ensures
        parse_reply(reply_document(action)) == Some(action),
{
    reveal_strlit("allow");
    reveal_strlit("deny");
    assert("deny"@.len() == 4 && "allow"@.len() == 5);
    let members = seq![("action"@, DocumentView::Text(action_word(action)))];
    assert(members.len() == 1 && members[0].0 == "action"@);
    lemma_lookup_only(members, "action"@, 0);
}

impl<I: SnapdInterface> PromptReply<I> {
    /// The reply that takes `action`.
    pub fn new(action: Action) -> (reply: Self)
        ensures
            reply@ == action,
    {
        PromptReply { action, interface: PhantomData }
    }

    /// The action that the reply takes.
    pub fn action(&self) -> (action: Action)
        ensures
            action == self@,
    {
        self.action
    }

    /// Reads the reply that a document states.
    pub fn from_document(document: &Document) -> (reply: Option<Self>)
        ensures
            view_of(reply) == parse_reply(document@),
    {
        match document {
            Document::Record(members) => {
                proof {
                    lemma_record_view(*members);
                }
                match read_required(members, "action") {
                    Some(Document::Text(word)) => {
                        if *word == "allow".to_owned() {
                            Some(PromptReply::new(Action::Allow))
                        } else if *word == "deny".to_owned() {
                            Some(PromptReply::new(Action::Deny))
                        } else {
                            None
                        }
                    },
                    _ => None,
                }
            },
            _ => None,
        }
    }

    /// Writes the reply as a document.
    pub fn to_document(&self) -> (document: Document)
        ensures
            document@ == reply_document(self@),
    {
        let word = match self.action {
            Action::Allow => "allow".to_owned(),
            Action::Deny => "deny".to_owned(),
        };
        let mut members: Vec<Member> = Vec::new();
        members.push(Member { key: "action".to_owned(), value: Document::Text(word) });
        proof {
            lemma_record_view(members);
            assert(members_view(members@) =~= reply_document(self@)->Record_0);
        }
        Document::Record(members)
    }
}

} // verus!
