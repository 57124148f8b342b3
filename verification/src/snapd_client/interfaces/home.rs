//! The `home` interface: access to files below a user's home directory.
//!
//! The constraints of a `home` prompt are the path asked for, the permissions
//! requested on it, and the permissions that the daemon could grant. A filter
//! compares them in that order. Permission lists are compared as sequences:
//! the same permissions in another order do not match.
use crate::document::{
    lemma_lookup_only, lemma_record_view, members_view, optional_text, optional_text_document,
    optional_texts, optional_texts_document, read_optional_text, read_optional_texts,
    write_optional_text, write_optional_texts, Document, DocumentView, Member,
};
use crate::prompt_sequence::filter::{text_failure, PromptFilter, PromptFilterView};
use crate::prompt_sequence::matching::{
    failures_view, text_field_matches, text_mismatch, texts_field_matches, texts_mismatch,
    MatchAttempt, MatchFailure, MatchFailureView,
};
use crate::render::debug_texts;
use crate::snapd_client::{ConstraintsFilter, PromptView, SnapdInterface};
use vstd::prelude::*;

verus! {

/// The `home` interface kind.
#[derive(Debug, Clone, Copy, PartialEq, Eq, Default)]
pub struct HomeInterface;

/// What a `home` prompt asks for.
#[derive(Debug, Clone, PartialEq, Eq)]
pub struct HomeConstraints {
    pub path: String,
    pub permissions: Vec<String>,
    pub available_permissions: Vec<String>,
}

/// The mathematical value of [`HomeConstraints`].
pub struct HomeConstraintsView {
    pub path: Seq<char>,
    pub permissions: Seq<Seq<char>>,
    pub available_permissions: Seq<Seq<char>>,
}

impl View for HomeConstraints {
    type V = HomeConstraintsView;

    open spec fn view(&self) -> HomeConstraintsView {
        HomeConstraintsView {
            path: self.path@,
            permissions: self.permissions.deep_view(),
            available_permissions: self.available_permissions.deep_view(),
        }
    }
}

impl Default for HomeConstraints {
    /// The constraints with an empty path and no permissions.
    fn default() -> (constraints: Self)
        ensures
            constraints@ == (HomeConstraintsView {
                path: Seq::empty(),
                permissions: Seq::empty(),
                available_permissions: Seq::empty(),
            }),
    {
        let constraints = HomeConstraints {
            path: String::new(),
            permissions: Vec::new(),
            available_permissions: Vec::new(),
        };
        assert(constraints@.permissions =~= Seq::empty());
        assert(constraints@.available_permissions =~= Seq::empty());
        constraints
    }
}

/// A filter over [`HomeConstraints`]: each attribute is expected to have the
/// value given, or left unset.
#[derive(Debug, Clone, PartialEq, Eq)]
pub struct HomeConstraintsFilter {
    pub path: Option<String>,
    pub permissions: Option<Vec<String>>,
    pub available_permissions: Option<Vec<String>>,
}

/// The mathematical value of a [`HomeConstraintsFilter`].
pub struct HomeConstraintsFilterView {
    pub path: Option<Seq<char>>,
    pub permissions: Option<Seq<Seq<char>>>,
    pub available_permissions: Option<Seq<Seq<char>>>,
}

impl View for HomeConstraintsFilter {
    type V = HomeConstraintsFilterView;

    open spec fn view(&self) -> HomeConstraintsFilterView {
        HomeConstraintsFilterView {
            path: self.path.deep_view(),
            permissions: self.permissions.deep_view(),
            available_permissions: self.available_permissions.deep_view(),
        }
    }
}

impl Default for HomeConstraintsFilter {
    /// The filter with every attribute unset.
    fn default() -> (filter: Self)
        ensures
            filter@ == (HomeConstraintsFilterView {
                path: None,
                permissions: None,
                available_permissions: None,
            }),
    {
        HomeConstraintsFilter { path: None, permissions: None, available_permissions: None }
    }
}

/// The members that a `home` filter is written as, unset attributes as null.
pub open spec fn home_filter_members(filter: HomeConstraintsFilterView) -> Seq<
    (Seq<char>, DocumentView),
> {
    seq![
        ("path"@, optional_text_document(filter.path)),
        ("permissions"@, optional_texts_document(filter.permissions)),
        ("available-permissions"@, optional_texts_document(filter.available_permissions)),
    ]
}

impl SnapdInterface for HomeInterface {
    type Constraints = HomeConstraints;

    type ConstraintsFilter = HomeConstraintsFilter;
}

impl ConstraintsFilter for HomeConstraintsFilter {
    type Constraints = HomeConstraints;

    /// The path, then the requested permissions, then the available ones.
    open spec fn mismatches(
        filter: HomeConstraintsFilterView,
        constraints: HomeConstraintsView,
    ) -> Seq<MatchFailureView> {
        text_mismatch("path"@, filter.path, constraints.path) + texts_mismatch(
            "permissions"@,
            filter.permissions,
            constraints.permissions,
        ) + texts_mismatch(
            "available_permissions"@,
            filter.available_permissions,
            constraints.available_permissions,
        )
    }

    /// A record with the optional attributes `path`, a text, and `permissions`
    /// and `available-permissions`, lists of texts. Other keys are ignored.
    open spec fn parse(document: DocumentView) -> Option<HomeConstraintsFilterView> {
        match document {
            DocumentView::Record(members) => match (
                optional_text(members, "path"@),
                optional_texts(members, "permissions"@),
                optional_texts(members, "available-permissions"@),
            ) {
                (Some(path), Some(permissions), Some(available_permissions)) => Some(
                    HomeConstraintsFilterView { path, permissions, available_permissions },
                ),
                _ => None,
            },
            _ => None,
        }
    }

    open spec fn document(filter: HomeConstraintsFilterView) -> DocumentView {
        DocumentView::Record(home_filter_members(filter))
    }

    proof fn lemma_document_parses(filter: HomeConstraintsFilterView) {
        reveal_strlit("path");
        reveal_strlit("permissions");
        reveal_strlit("available-permissions");
        let members = home_filter_members(filter);
        assert(members.len() == 3);
        assert(members[0].0 == "path"@ && members[1].0 == "permissions"@ && members[2].0
            == "available-permissions"@);
        lemma_lookup_only(members, "path"@, 0);
        lemma_lookup_only(members, "permissions"@, 1);
        lemma_lookup_only(members, "available-permissions"@, 2);
        crate::document::lemma_optional_text_round_trip(filter.path);
        crate::document::lemma_optional_texts_round_trip(filter.permissions);
        crate::document::lemma_optional_texts_round_trip(filter.available_permissions);
    }

    fn matches(&self, constraints: &HomeConstraints) -> (attempt: MatchAttempt) {
        let mut failures: Vec<MatchFailure> = Vec::new();
        assert(failures_view(failures@) =~= Seq::empty());
        text_field_matches("path", &self.path, &constraints.path, &mut failures);
        texts_field_matches(
            "permissions",
            &self.permissions,
            &constraints.permissions,
            &mut failures,
        );
        texts_field_matches(
            "available_permissions",
            &self.available_permissions,
            &constraints.available_permissions,
            &mut failures,
        );
        assert(failures_view(failures@) =~= Self::mismatches(self@, constraints@));
        MatchAttempt::from_failures(failures)
    }

    fn from_document(document: &Document) -> (filter: Option<Self>) {
        match document {
            Document::Record(members) => {
                proof {
                    lemma_record_view(*members);
                }
                let path = match read_optional_text(members, "path") {
                    Some(path) => path,
                    None => {
                        return None;
                    },
                };
                let permissions = match read_optional_texts(members, "permissions") {
                    Some(permissions) => permissions,
                    None => {
                        return None;
                    },
                };
                let available_permissions = match read_optional_texts(
                    members,
                    "available-permissions",
                ) {
                    Some(available_permissions) => available_permissions,
                    None => {
                        return None;
                    },
                };
                Some(HomeConstraintsFilter { path, permissions, available_permissions })
            },
            _ => None,
        }
    }

    fn to_document(&self) -> (document: Document) {
        let mut members: Vec<Member> = Vec::new();
        members.push(Member { key: "path".to_owned(), value: write_optional_text(&self.path) });
        members.push(
            Member {
                key: "permissions".to_owned(),
                value: write_optional_texts(&self.permissions),
            },
        );
        members.push(
            Member {
                key: "available-permissions".to_owned(),
                value: write_optional_texts(&self.available_permissions),
            },
        );
        proof {
            lemma_record_view(members);
            assert(members_view(members@) =~= home_filter_members(self@));
        }
        Document::Record(members)
    }
}

/// The entry that a report holds for an attribute that lists texts and
/// disagreed.
pub open spec fn texts_failure(
    field: Seq<char>,
    expected: Seq<Seq<char>>,
    seen: Seq<Seq<char>>,
) -> MatchFailureView {
    MatchFailureView { field, expected: debug_texts(expected), seen: debug_texts(seen) }
}

/// The attributes of `home` constraints are reported in their fixed order:
/// when all three disagree, the report holds the path, then the requested
/// permissions, then the available ones.
pub proof fn lemma_home_report_order(
    filter: HomeConstraintsFilterView,
    constraints: HomeConstraintsView,
    path: Seq<char>,
    permissions: Seq<Seq<char>>,
    available_permissions: Seq<Seq<char>>,
)
    requires
        filter.path == Some(path),
        filter.permissions == Some(permissions),
        filter.available_permissions == Some(available_permissions),
        path != constraints.path,
        permissions != constraints.permissions,
        available_permissions != constraints.available_permissions,
    ensures
        HomeConstraintsFilter::mismatches(filter, constraints) == seq![
            text_failure("path"@, path, constraints.path),
            texts_failure("permissions"@, permissions, constraints.permissions),
            texts_failure(
                "available_permissions"@,
                available_permissions,
                constraints.available_permissions,
            ),
        ],
{
    assert(HomeConstraintsFilter::mismatches(filter, constraints) =~= seq![
        text_failure("path"@, path, constraints.path),
        texts_failure("permissions"@, permissions, constraints.permissions),
        texts_failure(
            "available_permissions"@,
            available_permissions,
            constraints.available_permissions,
        ),
    ]);
}

/// A `home` filter that expects the snap `snap`, matched against a prompt of
/// another snap, reports exactly one entry for `snap`: the first, which shows
/// both names rendered.
pub proof fn lemma_home_snap_reported_once(
    filter: PromptFilterView<HomeConstraintsFilterView>,
    prompt: PromptView<HomeConstraintsView>,
    snap: Seq<char>,
)
    requires
        filter.snap == Some(snap),
        prompt.snap != snap,
    ensures
        ({
            let report = PromptFilter::<HomeInterface>::mismatches(filter, prompt);
            &&& report.len() > 0
            &&& report[0] == text_failure("snap"@, snap, prompt.snap)
            &&& forall|i: int| 0 <= i < report.len() ==> (report[i].field == "snap"@ <==> i == 0)
        }),
{
    reveal_strlit("snap");
    reveal_strlit("interface");
    reveal_strlit("path");
    reveal_strlit("permissions");
    reveal_strlit("available_permissions");
    assert("snap"@.len() == 4 && "interface"@.len() == 9 && "permissions"@.len() == 11
        && "available_permissions"@.len() == 21);
    assert("path"@[0] == 'p' && "snap"@[0] == 's');
}

} // verus!
