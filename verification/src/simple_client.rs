//! The decisions of a bare-bones interactive client, which answers each
//! pending prompt with what a person typed.
//!
//! The client polls the daemon, shows a prompt, reads a line and sends the
//! reply; all of that is done by the program around this library. What is
//! decided here: which pending prompts are handled, how a typed line is
//! understood, and which reply it leads to.
use crate::snapd_client::{Action, PromptId};
use vstd::prelude::*;
use vstd::string::StrSliceExecFns;

verus! {

/// Whether a character is whitespace: one of the characters that Unicode
/// classes as `White_Space`.
pub open spec fn is_whitespace(c: char) -> bool {
    let code: u32 = c as u32;
    ||| 0x09 <= code <= 0x0D
    ||| code == 0x20
    ||| code == 0x85
    ||| code == 0xA0
    ||| code == 0x1680
    ||| 0x2000 <= code <= 0x200A
    ||| code == 0x2028
    ||| code == 0x2029
    ||| code == 0x202F
    ||| code == 0x205F
    ||| code == 0x3000
}

/// Whether a typed line says yes: it holds one `y` or `Y` and, before and
/// after it, nothing but whitespace.
pub open spec fn says_yes(answer: Seq<char>) -> bool {
    exists|i: int|
        0 <= i < answer.len() && (answer[i] == 'y' || answer[i] == 'Y') && forall|j: int|
            0 <= j < answer.len() && j != i ==> is_whitespace(#[trigger] answer[j])
}

/// Tells whether a character is whitespace.
pub fn whitespace(c: char) -> (white: bool)
    ensures
        white == is_whitespace(c),
{
    let code: u32 = c as u32;
    (0x09 <= code && code <= 0x0D) || code == 0x20 || code == 0x85 || code == 0xA0 || code
        == 0x1680 || (0x2000 <= code && code <= 0x200A) || code == 0x2028 || code == 0x2029
        || code == 0x202F || code == 0x205F || code == 0x3000
}

/// Tells whether a typed line says yes.
pub fn is_affirmative(answer: &str) -> (yes: bool)
    ensures
        yes == says_yes(answer@),
{
    let length = answer.unicode_len();
    let mut found: Option<usize> = None;
    let mut i: usize = 0;
    while i < length
        invariant
            0 <= i <= length,
            length == answer@.len(),
            match found {
                Some(at) => at < i && (answer@[at as int] == 'y' || answer@[at as int] == 'Y')
                    && forall|j: int| 0 <= j < i && j != at ==> is_whitespace(#[trigger] answer@[j]),
                None => forall|j: int| 0 <= j < i ==> is_whitespace(#[trigger] answer@[j]),
            },
        decreases length - i,
    {
        let c = answer.get_char(i);
        if !whitespace(c) {
            if found.is_none() && (c == 'y' || c == 'Y') {
                found = Some(i);
            } else {
                proof {
                    lemma_second_word_says_no(answer@, i as int);
                }
                return false;
            }
        }
        i = i + 1;
    }
    proof {
        if found.is_none() {
            assert forall|k: int| 0 <= k < answer@.len() implies !(answer@[k] == 'y' || answer@[k]
                == 'Y') by {
                assert(is_whitespace(answer@[k]));
            }
        }
    }
    found.is_some()
}

/// A line does not say yes when it holds a character that is neither
/// whitespace nor the one `y` or `Y`: either the character at `at` is not a
/// `y`, or another character before it is no whitespace either.
proof fn lemma_second_word_says_no(answer: Seq<char>, at: int)
    requires
        0 <= at < answer.len(),
        !is_whitespace(answer[at]),
        !(answer[at] == 'y' || answer[at] == 'Y') || exists|j: int|
            0 <= j < at && !is_whitespace(answer[j]),
    ensures
        !says_yes(answer),
{
    if says_yes(answer) {
        let i = choose|i: int|
            0 <= i < answer.len() && (answer[i] == 'y' || answer[i] == 'Y') && forall|j: int|
                0 <= j < answer.len() && j != i ==> is_whitespace(#[trigger] answer[j]);
        if i != at {
            assert(is_whitespace(answer[at]));
        } else {
            let j = choose|j: int| 0 <= j < at && !is_whitespace(answer[j]);
            assert(is_whitespace(answer[j]));
        }
    }
}

/// What the client does with a pending prompt.
#[derive(Debug, Clone, Copy, PartialEq, Eq)]
pub enum Step {
    /// The prompt was the last one handled: it is passed over.
    Skip,
    /// The prompt is fetched, shown and answered.
    Handle,
}

/// The state of the client: the prompt that it handled last.
#[derive(Debug, Clone, PartialEq, Eq)]
pub struct SimpleClient {
    prev_id: PromptId,
}

impl Default for SimpleClient {
    /// A client that has handled no prompt yet.
    fn default() -> (client: Self)
        ensures
            client.last_handled() == Seq::<char>::empty(),
    {
        SimpleClient::new()
    }
}

impl SimpleClient {
    /// The identity of the prompt that was handled last; empty before the
    /// first.
    pub closed spec fn last_handled(&self) -> Seq<char> {
        self.prev_id.0@
    }

    /// A client that has handled no prompt yet.
    pub fn new() -> (client: Self)
        ensures
            client.last_handled() == Seq::<char>::empty(),
    {
        SimpleClient { prev_id: PromptId(String::new()) }
    }

    /// Decides what to do with a pending prompt: it is handled unless it is
    /// the one that was handled last.
    pub fn step(&self, id: &PromptId) -> (step: Step)
        ensures
            step == (if id.0@ == self.last_handled() {
                Step::Skip
            } else {
                Step::Handle
            }),
    {
        if id.0 == self.prev_id.0 {
            Step::Skip
        } else {
            Step::Handle
        }
    }

    /// Records that the prompt `id` was handled: it is now the last one.
    pub fn handled(&mut self, id: PromptId)
        ensures
            final(self).last_handled() == id.0@,
    {
        self.prev_id = id;
    }
}

/// The action that a typed line asks for: the request is allowed when the
/// line says yes, and denied otherwise.
pub fn action_for(answer: &str) -> (action: Action)
    ensures
        action == (if says_yes(answer@) {
            Action::Allow
        } else {
            Action::Deny
        }),
{
    if is_affirmative(answer) {
        Action::Allow
    } else {
        Action::Deny
    }
}

} // verus!
