//! Conditions on the revision of a document.
//!
//! A request can be made to depend on the revision that the document has when
//! the request arrives. There are two places for such a condition, and a
//! request may use none, one or both of them. The header names a revision
//! that the document must have (`If-Match`) or must not have
//! (`If-None-Match`). The body of a replace or an update names a revision
//! that the document must have, unless the request says that revisions are
//! ignored. Revisions are compared for equality and in no other way.
//!
//! The server decides. The client sends the conditions as they are and never
//! holds a request back. [`ConditionalPolicy::admits`] states the decision
//! that the protocol asks of the server.

use crate::document::types::Revision;
use crate::error::{ApiError, ApiErrorView, ERROR_ARANGO_CONFLICT, STATUS_PRECONDITION_FAILED};
use crate::params::{
    insert_text, new_parameters, no_entries, param_entries, with_optional_text, ParamEntry,
};
use crate::protocol::{HEADER_IF_MATCH, HEADER_IF_NON_MATCH};
use rincon_core::api::method::Parameters;
use vstd::prelude::*;

verus! {

/// The message of the error that answers a request whose condition does not
/// hold.
pub const MESSAGE_PRECONDITION_FAILED: &'static str = "precondition failed";

/// The text of an optional string.
pub open spec fn optional_text(value: Option<String>) -> Option<Seq<char>> {
    match value {
        Some(text) => Some(text@),
        None => None,
    }
}

/// The header parameters of a request with the given conditions: `If-Match`
/// where a revision is asked for, then `If-None-Match` where a revision is
/// ruled out, each with the revision as it was given.
pub open spec fn spec_conditional_header(
    if_match: Option<Seq<char>>,
    if_non_match: Option<Seq<char>>,
) -> Seq<ParamEntry> {
    with_optional_text(
        with_optional_text(no_entries(), HEADER_IF_MATCH@, if_match),
        HEADER_IF_NON_MATCH@,
        if_non_match,
    )
}

/// Builds the header parameters of a request with the given conditions.
pub fn conditional_header(if_match: &Option<String>, if_non_match: &Option<String>) -> (header:
    Parameters)
    ensures
        param_entries(header) == spec_conditional_header(
            optional_text(*if_match),
            optional_text(*if_non_match),
        ),
{
    let mut header = new_parameters();
    match if_match {
        Some(revision) => {
            insert_text(&mut header, HEADER_IF_MATCH, revision.clone());
        },
        None => {},
    }
    match if_non_match {
        Some(revision) => {
            insert_text(&mut header, HEADER_IF_NON_MATCH, revision.clone());
        },
        None => {},
    }
    header
}

/// The conditions of a request, as a mathematical value.
pub struct ConditionalPolicyView {
    /// The revision that the header asks for.
    pub if_match: Option<Seq<char>>,
    /// The revision that the header rules out.
    pub if_non_match: Option<Seq<char>>,
    /// The revision that the body expects.
    pub expected_revision: Option<Seq<char>>,
    /// Whether the revision that the body expects is left unchecked.
    pub ignore_revisions: bool,
}

impl ConditionalPolicyView {
    /// The revision that the body of the request carries: the expected one,
    /// unless revisions are ignored.
    pub open spec fn body_revision(self) -> Option<Seq<char>> {
        if self.ignore_revisions {
            None
        } else {
            self.expected_revision
        }
    }

    /// Whether a document in the revision `current` meets every condition.
    pub open spec fn admits(self, current: Seq<char>) -> bool {
        &&& self.if_match matches Some(revision) ==> revision == current
        &&& self.if_non_match matches Some(revision) ==> revision != current
        &&& self.body_revision() matches Some(revision) ==> revision == current
    }
}

/// The conditions of a request: those of the header and that of the body,
/// each of them there or not.
#[derive(Clone, Debug, PartialEq, Eq)]
pub struct ConditionalPolicy {
    if_match: Option<String>,
    if_non_match: Option<String>,
    expected_revision: Option<Revision>,
    ignore_revisions: bool,
}

impl View for ConditionalPolicy {
    type V = ConditionalPolicyView;

    closed spec fn view(&self) -> ConditionalPolicyView {
        ConditionalPolicyView {
            if_match: optional_text(self.if_match),
            if_non_match: optional_text(self.if_non_match),
            expected_revision: match self.expected_revision {
                Some(revision) => Some(revision@),
                None => None,
            },
            ignore_revisions: self.ignore_revisions,
        }
    }
}

impl ConditionalPolicy {
    /// The policy without any condition.
    pub fn unconditional() -> (policy: Self)
        ensures
            policy@ == (ConditionalPolicyView {
                if_match: None,
                if_non_match: None,
                expected_revision: None,
                ignore_revisions: false,
            }),
    {
        ConditionalPolicy {
            if_match: None,
            if_non_match: None,
            expected_revision: None,
            ignore_revisions: false,
        }
    }

    /// The same policy, with the header asking for the revision `revision`.
    pub fn with_if_match(self, revision: String) -> (policy: Self)
        ensures
            policy@ == (ConditionalPolicyView { if_match: Some(revision@), ..self@ }),
    {
        ConditionalPolicy {
            if_match: Some(revision),
            if_non_match: self.if_non_match,
            expected_revision: self.expected_revision,
            ignore_revisions: self.ignore_revisions,
        }
    }

    /// The same policy, with the header ruling out the revision `revision`.
    pub fn with_if_non_match(self, revision: String) -> (policy: Self)
        ensures
            policy@ == (ConditionalPolicyView { if_non_match: Some(revision@), ..self@ }),
    {
        ConditionalPolicy {
            if_match: self.if_match,
            if_non_match: Some(revision),
            expected_revision: self.expected_revision,
            ignore_revisions: self.ignore_revisions,
        }
    }

    /// The same policy, with the body expecting the revision `revision`.
    pub fn with_expected_revision(self, revision: Revision) -> (policy: Self)
        ensures
            policy@ == (ConditionalPolicyView { expected_revision: Some(revision@), ..self@ }),
    {
        ConditionalPolicy {
            if_match: self.if_match,
            if_non_match: self.if_non_match,
            expected_revision: Some(revision),
            ignore_revisions: self.ignore_revisions,
        }
    }

    /// The same policy, with the revision that the body expects checked or
    /// left unchecked.
    pub fn with_ignore_revisions(self, ignore_revisions: bool) -> (policy: Self)
        ensures
            policy@ == (ConditionalPolicyView { ignore_revisions, ..self@ }),
    {
        ConditionalPolicy {
            if_match: self.if_match,
            if_non_match: self.if_non_match,
            expected_revision: self.expected_revision,
            ignore_revisions,
        }
    }

    /// Returns the header parameters that carry the conditions of the
    /// header.
    pub fn header(&self) -> (header: Parameters)
        ensures
            param_entries(header) == spec_conditional_header(self@.if_match, self@.if_non_match),
    {
        conditional_header(&self.if_match, &self.if_non_match)
    }

    /// Returns the revision that the body of the request carries: the
    /// expected one, unless revisions are ignored.
    pub fn body_revision(&self) -> (revision: Option<&Revision>)
        ensures
            match revision {
                Some(revision) => self@.body_revision() == Some(revision@),
                None => self@.body_revision() is None,
            },
    {
        if self.ignore_revisions {
            None
        } else {
            self.expected_revision.as_ref()
        }
    }

    /// Says whether a document in the revision `current` meets every
    /// condition of the policy.
    pub fn admits(&self, current: &Revision) -> (admitted: bool)
        ensures
            admitted == self@.admits(current@),
    {
        let header_matches = match &self.if_match {
            Some(revision) => current.has_text(revision),
            None => true,
        };
        let header_differs = match &self.if_non_match {
            Some(revision) => !current.has_text(revision),
            None => true,
        };
        let body_matches = match self.body_revision() {
            Some(revision) => *revision == *current,
            None => true,
        };
        header_matches && header_differs && body_matches
    }

    /// Gives the answer to a request on a document in the revision
    /// `current`: nothing where every condition holds, and otherwise the
    /// error of a failed precondition, with the error number of a conflict.
    pub fn check(&self, current: &Revision) -> (result: Result<(), ApiError>)
        ensures
            result is Ok <==> self@.admits(current@),
            result is Err ==> result.unwrap_err()@ == (ApiErrorView {
                status_code: STATUS_PRECONDITION_FAILED,
                error_number: ERROR_ARANGO_CONFLICT,
                message: MESSAGE_PRECONDITION_FAILED@,
            }),
    {
        if self.admits(current) {
            Ok(())
        } else {
            Err(
                ApiError::new(
                    STATUS_PRECONDITION_FAILED,
                    ERROR_ARANGO_CONFLICT,
                    MESSAGE_PRECONDITION_FAILED,
                ),
            )
        }
    }
}

/// A request whose only condition is `If-Match` is admitted exactly where
/// the document has the revision that the header names.
pub proof fn lemma_if_match_admits_equal_revision_only(revision: Seq<char>, current: Seq<char>)
    ensures
        (ConditionalPolicyView {
            if_match: Some(revision),
            if_non_match: None,
            expected_revision: None,
            ignore_revisions: false,
        }).admits(current) <==> revision == current,
{
}

/// A request whose only condition is `If-None-Match` is admitted exactly
/// where the document has another revision than the header names.
pub proof fn lemma_if_non_match_admits_other_revisions_only(
    revision: Seq<char>,
    current: Seq<char>,
)
    ensures
        (ConditionalPolicyView {
            if_match: None,
            if_non_match: Some(revision),
            expected_revision: None,
            ignore_revisions: false,
        }).admits(current) <==> revision != current,
{
}

/// A request whose only condition is the revision in its body is admitted
/// exactly where the document has that revision.
pub proof fn lemma_expected_revision_admits_equal_revision_only(
    revision: Seq<char>,
    current: Seq<char>,
)
    ensures
        (ConditionalPolicyView {
            if_match: None,
            if_non_match: None,
            expected_revision: Some(revision),
            ignore_revisions: false,
        }).admits(current) <==> revision == current,
{
}

/// Where revisions are ignored, the revision that the body expects plays no
/// part: the request is admitted as if none were expected.
pub proof fn lemma_ignored_revision_is_not_checked(policy: ConditionalPolicyView, current: Seq<char>)
    requires
        policy.ignore_revisions,
    ensures
        policy.admits(current) <==> (ConditionalPolicyView {
            expected_revision: None,
            ..policy
        }).admits(current),
{
}

/// The conditions of the header and that of the body are independent: a
/// request is admitted exactly where each of them, taken alone, admits it.
pub proof fn lemma_conditions_are_independent(policy: ConditionalPolicyView, current: Seq<char>)
    ensures
        policy.admits(current) <==> {
            &&& (ConditionalPolicyView {
                if_non_match: None,
                expected_revision: None,
                ..policy
            }).admits(current)
            &&& (ConditionalPolicyView {
                if_match: None,
                expected_revision: None,
                ..policy
            }).admits(current)
            &&& (ConditionalPolicyView { if_match: None, if_non_match: None, ..policy }).admits(
                current,
            )
        },
{
}

} // verus!
