//! The declarative documents that sequence definitions are written in.
//!
//! A document is a tree of plain values: null, booleans, numbers, text, lists
//! and records. A record keeps its members in the order in which they were
//! written, and may name a key more than once; the readers below decide what
//! that means for an attribute.
use vstd::prelude::*;

verus! {

/// A declarative document.
#[derive(Debug, PartialEq, Eq)]
pub enum Document {
    Null,
    Bool(bool),
    /// A number without fraction or exponent.
    Integer(i128),
    /// Any other number, kept as it was written.
    Decimal(String),
    Text(String),
    List(Vec<Document>),
    Record(Vec<Member>),
}

/// One member of a record: a key and the document found under it.
#[derive(Debug, PartialEq, Eq)]
pub struct Member {
    pub key: String,
    pub value: Document,
}

/// The mathematical value of a [`Document`].
pub enum DocumentView {
    Null,
    Bool(bool),
    Integer(int),
    Decimal(Seq<char>),
    Text(Seq<char>),
    List(Seq<DocumentView>),
    Record(Seq<(Seq<char>, DocumentView)>),
}

impl View for Document {
    type V = DocumentView;

    open spec fn view(&self) -> DocumentView
        decreases self,
    {
        match self {
            Document::Null => DocumentView::Null,
            Document::Bool(b) => DocumentView::Bool(*b),
            Document::Integer(n) => DocumentView::Integer(*n as int),
            Document::Decimal(s) => DocumentView::Decimal(s@),
            Document::Text(s) => DocumentView::Text(s@),
            Document::List(items) => DocumentView::List(
                Seq::new(
                    items@.len(),
                    |i: int|
                        if 0 <= i < items@.len() {
                            items@[i].view()
                        } else {
                            DocumentView::Null
                        },
                ),
            ),
            Document::Record(members) => DocumentView::Record(
                Seq::new(
                    members@.len(),
                    |i: int|
                        (
                            members@[i].key@,
                            if 0 <= i < members@.len() {
                                members@[i].value.view()
                            } else {
                                DocumentView::Null
                            },
                        ),
                ),
            ),
        }
    }
}

/// The values of the items of a list, in order.
pub open spec fn items_view(items: Seq<Document>) -> Seq<DocumentView> {
    Seq::new(items.len(), |i: int| items[i]@)
}

/// The keys and values of the members of a record, in order.
pub open spec fn members_view(members: Seq<Member>) -> Seq<(Seq<char>, DocumentView)> {
    Seq::new(members.len(), |i: int| (members[i].key@, members[i].value@))
}

/// The value of a list is the list of its items' values.
pub proof fn lemma_list_view(items: Vec<Document>)
    ensures
        Document::List(items)@ == DocumentView::List(items_view(items@)),
{
    assert(Document::List(items)@->List_0 =~= items_view(items@));
}

/// The value of a record is the list of its members' keys and values.
pub proof fn lemma_record_view(members: Vec<Member>)
    ensures
        Document::Record(members)@ == DocumentView::Record(members_view(members@)),
{
    assert(Document::Record(members)@->Record_0 =~= members_view(members@));
}

/// What a record holds under a key.
pub enum Lookup {
    /// No member has the key.
    Absent,
    /// Exactly one member has the key: its value.
    Once(DocumentView),
    /// More than one member has the key.
    Repeated,
}

/// Whether the member at position `i` has the key.
pub open spec fn has_key(members: Seq<(Seq<char>, DocumentView)>, key: Seq<char>, i: int) -> bool {
    0 <= i < members.len() && members[i].0 == key
}

/// Whether the member at position `i` is the only one that has the key.
pub open spec fn only_key(members: Seq<(Seq<char>, DocumentView)>, key: Seq<char>, i: int) -> bool {
    has_key(members, key, i) && forall|j: int| has_key(members, key, j) ==> j == i
}

/// What the members of a record hold under a key.
pub open spec fn lookup(members: Seq<(Seq<char>, DocumentView)>, key: Seq<char>) -> Lookup {
    if forall|i: int| !has_key(members, key, i) {
        Lookup::Absent
    } else if exists|i: int| only_key(members, key, i) {
        Lookup::Once(members[choose|i: int| only_key(members, key, i)].1)
    } else {
        Lookup::Repeated
    }
}

/// A key that one member has, and no other, is held once, with that member's
/// value.
pub proof fn lemma_lookup_only(members: Seq<(Seq<char>, DocumentView)>, key: Seq<char>, i: int)
    requires
        0 <= i < members.len(),
        members[i].0 == key,
        forall|j: int| 0 <= j < members.len() && j != i ==> (#[trigger] members[j]).0 != key,
    ensures
        lookup(members, key) == Lookup::Once(members[i].1),
{
    assert(has_key(members, key, i));
    assert(only_key(members, key, i));
    let chosen = choose|k: int| only_key(members, key, k);
    assert(chosen == i);
}

/// Where a key was found among the members of a record.
#[derive(Debug, Clone, Copy, PartialEq, Eq)]
pub enum Found {
    Absent,
    At(usize),
    Repeated,
}

/// Looks a key up among the members of a record.
pub fn find(members: &Vec<Member>, key: &str) -> (found: Found)
    ensures
        match found {
            Found::Absent => lookup(members_view(members@), key@) == Lookup::Absent,
            Found::At(i) => i < members.len() && members@[i as int].key@ == key@ && lookup(
                members_view(members@),
                key@,
            ) == Lookup::Once(members@[i as int].value@),
            Found::Repeated => lookup(members_view(members@), key@) == Lookup::Repeated,
        },
{
    let ghost view = members_view(members@);
    let wanted = key.to_owned();
    let mut found = Found::Absent;
    let mut i: usize = 0;
    while i < members.len()
        invariant
            0 <= i <= members.len(),
            view == members_view(members@),
            wanted@ == key@,
            match found {
                Found::Absent => forall|j: int| 0 <= j < i ==> !has_key(view, key@, j),
                Found::At(at) => at < i && has_key(view, key@, at as int) && forall|j: int|
                    0 <= j < i && has_key(view, key@, j) ==> j == at,
                Found::Repeated => false,
            },
        decreases members.len() - i,
    {
        if members[i].key == wanted {
            match found {
                Found::Absent => {
                    found = Found::At(i);
                },
                _ => {
                    proof {
                        let at = found->At_0 as int;
                        assert(has_key(view, key@, at));
                        assert(has_key(view, key@, i as int));
                        assert forall|k: int| !only_key(view, key@, k) by {
                            if only_key(view, key@, k) {
                                assert(at == k);
                                assert(i as int == k);
                            }
                        }
                    }
                    return Found::Repeated;
                },
            }
        }
        i = i + 1;
    }
    proof {
        match found {
            Found::At(at) => {
                assert(only_key(view, key@, at as int));
                let chosen = choose|k: int| only_key(view, key@, k);
                assert(chosen == at);
            },
            _ => {},
        }
    }
    found
}

/// What a record holds for an attribute that may be left out: nothing when the
/// key is absent or null, the value when it is written once. `None` when the
/// key is written more than once.
pub open spec fn optional_member(
    members: Seq<(Seq<char>, DocumentView)>,
    key: Seq<char>,
) -> Option<Option<DocumentView>> {
    match lookup(members, key) {
        Lookup::Absent => Some(None),
        Lookup::Once(value) => if value is Null {
            Some(None)
        } else {
            Some(Some(value))
        },
        Lookup::Repeated => None,
    }
}

/// What a record holds for an attribute that must be written: the value when
/// the key is written exactly once.
pub open spec fn required_member(
    members: Seq<(Seq<char>, DocumentView)>,
    key: Seq<char>,
) -> Option<DocumentView> {
    match lookup(members, key) {
        Lookup::Once(value) => Some(value),
        _ => None,
    }
}

/// The text that a document is, if it is a text.
pub open spec fn text_of(document: DocumentView) -> Option<Seq<char>> {
    match document {
        DocumentView::Text(text) => Some(text),
        _ => None,
    }
}

/// The texts that a document lists, if it is a list of texts and nothing else.
pub open spec fn texts_of(document: DocumentView) -> Option<Seq<Seq<char>>> {
    match document {
        DocumentView::List(items) => if forall|i: int| 0 <= i < items.len() ==> items[i] is Text {
            Some(Seq::new(items.len(), |i: int| items[i]->Text_0))
        } else {
            None
        },
        _ => None,
    }
}

/// An optional text attribute of a record: `Some(None)` when it is left out,
/// `Some(Some(text))` when it is written as a text, `None` when the record is
/// not acceptable for it.
pub open spec fn optional_text(
    members: Seq<(Seq<char>, DocumentView)>,
    key: Seq<char>,
) -> Option<Option<Seq<char>>> {
    match optional_member(members, key) {
        None => None,
        Some(None) => Some(None),
        Some(Some(value)) => match text_of(value) {
            Some(text) => Some(Some(text)),
            None => None,
        },
    }
}

/// An optional attribute of a record that lists texts, read as
/// [`optional_text`] reads a text.
pub open spec fn optional_texts(
    members: Seq<(Seq<char>, DocumentView)>,
    key: Seq<char>,
) -> Option<Option<Seq<Seq<char>>>> {
    match optional_member(members, key) {
        None => None,
        Some(None) => Some(None),
        Some(Some(value)) => match texts_of(value) {
            Some(texts) => Some(Some(texts)),
            None => None,
        },
    }
}

/// The member that a record holds for an optional attribute.
pub fn read_optional<'a>(members: &'a Vec<Member>, key: &str) -> (read: Option<Option<&'a Document>>)
    ensures
        match read {
            None => optional_member(members_view(members@), key@) is None,
            Some(None) => optional_member(members_view(members@), key@) == Some(
                None::<DocumentView>,
            ),
            Some(Some(value)) => optional_member(members_view(members@), key@) == Some(
                Some(value@),
            ),
        },
{
    match find(members, key) {
        Found::Absent => Some(None),
        Found::At(i) => {
            let value = &members[i].value;
            match value {
                Document::Null => Some(None),
                _ => Some(Some(value)),
            }
        },
        Found::Repeated => None,
    }
}

/// The member that a record holds for a required attribute.
pub fn read_required<'a>(members: &'a Vec<Member>, key: &str) -> (read: Option<&'a Document>)
    ensures
        match read {
            None => required_member(members_view(members@), key@) is None,
            Some(value) => required_member(members_view(members@), key@) == Some(value@),
        },
{
    match find(members, key) {
        Found::At(i) => Some(&members[i].value),
        _ => None,
    }
}

/// The text that a document is, if it is one.
pub fn read_text(document: &Document) -> (read: Option<String>)
    ensures
        read.deep_view() == text_of(document@),
{
    match document {
        Document::Text(text) => Some(text.clone()),
        _ => None,
    }
}

/// The texts that a document lists, if it is a list of texts.
pub fn read_texts(document: &Document) -> (read: Option<Vec<String>>)
    ensures
        read.deep_view() == texts_of(document@),
{
    match document {
        Document::List(items) => {
            proof {
                lemma_list_view(*items);
            }
            let ghost listed = items_view(items@);
            let mut texts: Vec<String> = Vec::new();
            let mut i: usize = 0;
            while i < items.len()
                invariant
                    0 <= i <= items.len(),
                    listed == items_view(items@),
                    document@ == DocumentView::List(listed),
                    texts.len() == i,
                    forall|j: int|
                        0 <= j < i ==> #[trigger] listed[j] == DocumentView::Text(texts@[j]@),
                decreases items.len() - i,
            {
                match &items[i] {
                    Document::Text(text) => {
                        texts.push(text.clone());
                    },
                    _ => {
                        assert(!(listed[i as int] is Text));
                        return None;
                    },
                }
                i = i + 1;
            }
            proof {
                let read = Seq::new(listed.len(), |j: int| listed[j]->Text_0);
                assert forall|j: int| 0 <= j < read.len() implies texts.deep_view()[j] == read[j] by {
                    assert(listed[j] == DocumentView::Text(texts@[j]@));
                }
                assert(texts.deep_view() =~= read);
            }
            Some(texts)
        },
        _ => None,
    }
}

/// Reads an optional text attribute of a record.
pub fn read_optional_text(members: &Vec<Member>, key: &str) -> (read: Option<Option<String>>)
    ensures
        read.deep_view() == optional_text(members_view(members@), key@),
{
    match read_optional(members, key) {
        None => None,
        Some(None) => Some(None),
        Some(Some(value)) => match read_text(value) {
            Some(text) => Some(Some(text)),
            None => None,
        },
    }
}

/// Reads an optional attribute of a record that lists texts.
pub fn read_optional_texts(members: &Vec<Member>, key: &str) -> (read: Option<Option<Vec<String>>>)
    ensures
        read.deep_view() == optional_texts(members_view(members@), key@),
{
    match read_optional(members, key) {
        None => None,
        Some(None) => Some(None),
        Some(Some(value)) => match read_texts(value) {
            Some(texts) => Some(Some(texts)),
            None => None,
        },
    }
}

/// The document that an optional text is written as: the text, or null.
pub open spec fn optional_text_document(text: Option<Seq<char>>) -> DocumentView {
    match text {
        Some(text) => DocumentView::Text(text),
        None => DocumentView::Null,
    }
}

/// The document that a list of texts is written as.
pub open spec fn texts_document(texts: Seq<Seq<char>>) -> DocumentView {
    DocumentView::List(Seq::new(texts.len(), |i: int| DocumentView::Text(texts[i])))
}

/// The document that an optional list of texts is written as: the list, or
/// null.
pub open spec fn optional_texts_document(texts: Option<Seq<Seq<char>>>) -> DocumentView {
    match texts {
        Some(texts) => texts_document(texts),
        None => DocumentView::Null,
    }
}

/// An optional text that was written as a document and is the one value
/// under its key reads back as it was.
pub proof fn lemma_optional_text_round_trip(text: Option<Seq<char>>)
    ensures
        forall|members: Seq<(Seq<char>, DocumentView)>, key: Seq<char>|
            lookup(members, key) == Lookup::Once(optional_text_document(text))
                ==> #[trigger] optional_text(members, key) == Some(text),
{
}

/// An optional list of texts that was written as a document and is the one
/// value under its key reads back as it was.
pub proof fn lemma_optional_texts_round_trip(texts: Option<Seq<Seq<char>>>)
    ensures
        forall|members: Seq<(Seq<char>, DocumentView)>, key: Seq<char>|
            lookup(members, key) == Lookup::Once(optional_texts_document(texts))
                ==> #[trigger] optional_texts(members, key) == Some(texts),
{
    match texts {
        Some(listed) => {
            assert(texts_of(texts_document(listed))->Some_0 =~= listed);
        },
        None => {},
    }
}

/// Writes an optional text as a document.
pub fn write_optional_text(text: &Option<String>) -> (document: Document)
    ensures
        document@ == optional_text_document(text.deep_view()),
{
    match text {
        Some(text) => Document::Text(text.clone()),
        None => Document::Null,
    }
}

/// Writes a list of texts as a document.
pub fn write_texts(texts: &Vec<String>) -> (document: Document)
    ensures
        document@ == texts_document(texts.deep_view()),
{
    let mut items: Vec<Document> = Vec::new();
    let mut i: usize = 0;
    while i < texts.len()
        invariant
            0 <= i <= texts.len(),
            items.len() == i,
            forall|j: int| 0 <= j < i ==> (#[trigger] items@[j])@ == DocumentView::Text(texts@[j]@),
        decreases texts.len() - i,
    {
        items.push(Document::Text(texts[i].clone()));
        i = i + 1;
    }
    proof {
        lemma_list_view(items);
        assert(items_view(items@) =~= texts_document(texts.deep_view())->List_0);
    }
    Document::List(items)
}

/// Writes an optional list of texts as a document.
pub fn write_optional_texts(texts: &Option<Vec<String>>) -> (document: Document)
    ensures
        document@ == optional_texts_document(texts.deep_view()),
{
    match texts {
        Some(texts) => write_texts(texts),
        None => Document::Null,
    }
}

} // verus!
