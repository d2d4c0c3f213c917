//! The error taxonomy of the enclave contract.
//!
//! Every backend-specific failure (platform status codes, HSM status codes)
//! must be translated, at the contract boundary, into exactly one
//! [`EnclaveErrorKind`]; no backend-specific error type escapes the
//! contract. An [`EnclaveError`] carries the kind together with an ordered
//! chain of causal context entries, rendered most-recent-first for
//! operators.

use vstd::prelude::*;
use vstd::string::StringExecFns;

verus! {

/// Classification of enclave failures, stable and matchable by callers.
#[derive(Debug, Eq)]
pub enum EnclaveErrorKind {
    /// A connection to the enclave could not be made. Transient or
    /// environmental (network, USB, driver unavailable); safe to retry
    /// with backoff.
    ConnectionFailure {
        /// Description of what failed during the connection
        msg: String,
    },
    /// The supplied credentials were rejected by the enclave. Not safe to
    /// retry without new credentials.
    AccessDenied {
        /// Description of how access was denied
        msg: String,
    },
    /// The requested item does not exist in the keyring. The caller decides
    /// whether to create it.
    ItemNotFound,
    /// Catch-all for failures that do not meet another category. Treat
    /// conservatively; do not retry automatically.
    GeneralError {
        /// Generic message
        msg: String,
    },
}

impl EnclaveErrorKind {
    /// The headline text for this kind, as rendered to operators.
    pub open spec fn spec_message(self) -> Seq<char> {
        match self {
            EnclaveErrorKind::ConnectionFailure { msg } => "An error occurred while connecting to the enclave: "@
                + msg@,
            EnclaveErrorKind::AccessDenied { msg } => "Access was denied to the enclave: "@
                + msg@,
            EnclaveErrorKind::ItemNotFound => "The specified item is not found in the keyring"@,
            EnclaveErrorKind::GeneralError { msg } => msg@,
        }
    }

    /// Renders the headline text for this kind.
    pub fn message(&self) -> (r: String)
        ensures
            r@ == self.spec_message(),
    {
        match self {
            EnclaveErrorKind::ConnectionFailure { msg } => "An error occurred while connecting to the enclave: ".to_owned().concat(
                msg.as_str(),
            ),
            EnclaveErrorKind::AccessDenied { msg } => "Access was denied to the enclave: ".to_owned().concat(
                msg.as_str(),
            ),
            EnclaveErrorKind::ItemNotFound => "The specified item is not found in the keyring".to_owned(),
            EnclaveErrorKind::GeneralError { msg } => msg.clone(),
        }
    }
}

impl Clone for EnclaveErrorKind {
    /// A cheap copy of the classification, for control-flow branching.
    fn clone(&self) -> (r: Self)
        ensures
            r == *self,
    {
        match self {
            EnclaveErrorKind::ConnectionFailure { msg } => EnclaveErrorKind::ConnectionFailure {
                msg: msg.clone(),
            },
            EnclaveErrorKind::AccessDenied { msg } => EnclaveErrorKind::AccessDenied {
                msg: msg.clone(),
            },
            EnclaveErrorKind::ItemNotFound => EnclaveErrorKind::ItemNotFound,
            EnclaveErrorKind::GeneralError { msg } => EnclaveErrorKind::GeneralError {
                msg: msg.clone(),
            },
        }
    }
}

/// Compares two descriptions character for character.
fn str_eq(a: &String, b: &String) -> (r: bool)
    ensures
        r == (a@ == b@),
{
    *a == *b
}

impl PartialEq for EnclaveErrorKind {
    /// Two classifications are equal when they are the same variant with
    /// the same description.
    fn eq(&self, other: &Self) -> (r: bool) {
        match (self, other) {
            (
                EnclaveErrorKind::ConnectionFailure { msg: a },
                EnclaveErrorKind::ConnectionFailure { msg: b },
            ) => str_eq(a, b),
            (
                EnclaveErrorKind::AccessDenied { msg: a },
                EnclaveErrorKind::AccessDenied { msg: b },
            ) => str_eq(a, b),
            (EnclaveErrorKind::ItemNotFound, EnclaveErrorKind::ItemNotFound) => true,
            (
                EnclaveErrorKind::GeneralError { msg: a },
                EnclaveErrorKind::GeneralError { msg: b },
            ) => str_eq(a, b),
            _ => false,
        }
    }
}

impl vstd::std_specs::cmp::PartialEqSpecImpl for EnclaveErrorKind {
    open spec fn obeys_eq_spec() -> bool {
        true
    }

    open spec fn eq_spec(&self, other: &Self) -> bool {
        match (*self, *other) {
            (
                EnclaveErrorKind::ConnectionFailure { msg: a },
                EnclaveErrorKind::ConnectionFailure { msg: b },
            ) => a@ == b@,
            (
                EnclaveErrorKind::AccessDenied { msg: a },
                EnclaveErrorKind::AccessDenied { msg: b },
            ) => a@ == b@,
            (EnclaveErrorKind::ItemNotFound, EnclaveErrorKind::ItemNotFound) => true,
            (
                EnclaveErrorKind::GeneralError { msg: a },
                EnclaveErrorKind::GeneralError { msg: b },
            ) => a@ == b@,
            _ => false,
        }
    }
}

/// Status code with which the operating system's credential store reports
/// that access to an item was denied (the macOS Security framework's
/// authorization-failure code).
pub const OS_STATUS_ACCESS_DENIED: i32 = -128;

/// Status code with which the operating system's credential store reports
/// that a requested item does not exist (the macOS Security framework's
/// item-not-found code).
pub const OS_STATUS_ITEM_NOT_FOUND: i32 = -25300;

/// An enclave failure: an [`EnclaveErrorKind`] classification together with
/// an ordered chain of causal context entries, newest first.
///
/// Constructed at the point a failure is first detected, or where a
/// backend-native failure crosses the contract boundary; immutable
/// thereafter except for [`EnclaveError::wrap`], which preserves the
/// existing error as a cause.
#[derive(Debug)]
pub struct EnclaveError {
    /// The error kind that occurred
    kind: EnclaveErrorKind,
    /// Causal context descriptions, newest first
    contexts: Vec<String>,
}

/// The rendering of a chain's entries up to (excluding) entry `n`: each
/// entry on a line of its own, in chain order.
pub open spec fn spec_rendered_upto(entries: Seq<Seq<char>>, n: int) -> Seq<char>
    decreases n,
{
    if n <= 0 {
        Seq::empty()
    } else {
        spec_rendered_upto(entries, n - 1) + entries[n - 1] + "\n"@
    }
}

impl EnclaveError {
    /// The classification this error carries.
    pub closed spec fn spec_kind(self) -> EnclaveErrorKind {
        self.kind
    }

    /// The causal context descriptions, newest first.
    pub closed spec fn spec_contexts(self) -> Seq<String> {
        self.contexts@
    }

    /// The rendered entries of the causal chain, most recent first: the
    /// headline for the kind, then one entry per context description.
    pub open spec fn spec_entries(self) -> Seq<Seq<char>> {
        Seq::new(
            self.spec_contexts().len() + 1,
            |i: int|
                if i == 0 {
                    "Error: "@ + self.spec_kind().spec_message()
                } else {
                    "Caused by: "@ + self.spec_contexts()[i - 1]@
                },
        )
    }

    /// The full rendering of the error: every chain entry, newest first,
    /// each on a line of its own.
    pub open spec fn spec_rendered(self) -> Seq<char> {
        spec_rendered_upto(self.spec_entries(), self.spec_entries().len() as int)
    }

    /// Creates an error from a kind and a human-readable root-cause message.
    pub fn from_msg(kind: EnclaveErrorKind, msg: String) -> (r: Self)
        ensures
            r.spec_kind() == kind,
            r.spec_contexts() == seq![msg],
    {
        let mut contexts: Vec<String> = Vec::new();
        contexts.push(msg);
        proof {
            assert(contexts@ =~= seq![msg]);
        }
        EnclaveError { kind, contexts }
    }

    /// Creates an error from a kind alone, with no further context.
    pub fn from_kind(kind: EnclaveErrorKind) -> (r: Self)
        ensures
            r.spec_kind() == kind,
            r.spec_contexts() == Seq::<String>::empty(),
    {
        let contexts: Vec<String> = Vec::new();
        proof {
            assert(contexts@ =~= Seq::<String>::empty());
        }
        EnclaveError { kind, contexts }
    }

    /// Extracts a copy of the classification, for control-flow branching by
    /// callers (for example, retry only on `ConnectionFailure`, never on
    /// `AccessDenied`). Unaffected by how often the error was wrapped.
    pub fn kind(&self) -> (r: EnclaveErrorKind)
        ensures
            r == self.spec_kind(),
    {
        self.kind.clone()
    }

    /// Wraps this error with additional context: the new description becomes
    /// the most recent chain entry, the classification and every existing
    /// entry are preserved as the cause.
    pub fn wrap(self, msg: String) -> (r: Self)
        ensures
            r.spec_kind() == self.spec_kind(),
            r.spec_contexts() == seq![msg] + self.spec_contexts(),
    {
        let mut contexts = self.contexts;
        contexts.insert(0, msg);
        proof {
            assert(contexts@ =~= seq![msg] + self.contexts@);
        }
        EnclaveError { kind: self.kind, contexts }
    }

    /// Translates an operating-system credential-store status code into the
    /// contract's taxonomy: the access-denied code classifies as
    /// `AccessDenied` with the given description, the item-not-found code as
    /// `ItemNotFound`, and any unrecognized code as `GeneralError`. The
    /// translation is total: no code can make it fail.
    pub fn from_os_status(code: i32, msg: String) -> (r: Self)
        ensures
            r.spec_contexts() == Seq::<String>::empty(),
            code == OS_STATUS_ACCESS_DENIED ==> r.spec_kind() == (EnclaveErrorKind::AccessDenied {
                msg,
            }),
            code == OS_STATUS_ITEM_NOT_FOUND ==> r.spec_kind()
                == EnclaveErrorKind::ItemNotFound,
            code != OS_STATUS_ACCESS_DENIED && code != OS_STATUS_ITEM_NOT_FOUND ==> (
            r.spec_kind() matches EnclaveErrorKind::GeneralError { msg: m } && m@
                == "Unknown error"@),
    {
        if code == OS_STATUS_ACCESS_DENIED {
            Self::from_kind(EnclaveErrorKind::AccessDenied { msg })
        } else if code == OS_STATUS_ITEM_NOT_FOUND {
            Self::from_kind(EnclaveErrorKind::ItemNotFound)
        } else {
            Self::from_kind(EnclaveErrorKind::GeneralError { msg: "Unknown error".to_owned() })
        }
    }

    /// Renders the causal chain as one entry per element, most recent
    /// first: the headline line for the kind, then each context description
    /// prefixed to mark it as a cause.
    pub fn render_lines(&self) -> (lines: Vec<String>)
        ensures
            lines@.len() == self.spec_entries().len(),
            forall|i: int| 0 <= i < lines@.len() ==> lines@[i]@ == self.spec_entries()[i],
    {
        let mut lines: Vec<String> = Vec::new();
        let headline = self.kind.message();
        lines.push("Error: ".to_owned().concat(headline.as_str()));
        let mut i: usize = 0;
        while i < self.contexts.len()
            invariant
                i <= self.contexts.len(),
                lines@.len() == i + 1,
                forall|j: int| 0 <= j < lines@.len() ==> lines@[j]@ == self.spec_entries()[j],
            decreases self.contexts.len() - i,
        {
            let entry = "Caused by: ".to_owned().concat(self.contexts[i].as_str());
            lines.push(entry);
            i = i + 1;
        }
        lines
    }

    /// Renders the full causal chain as one string, each entry on a line of
    /// its own, most recent first — sufficient for operators to diagnose a
    /// failure without backend-specific documentation.
    pub fn render(&self) -> (r: String)
        ensures
            r@ == self.spec_rendered(),
    {
        let lines = self.render_lines();
        let mut r = String::new();
        let mut i: usize = 0;
        while i < lines.len()
            invariant
                lines@.len() == self.spec_entries().len(),
                forall|j: int| 0 <= j < lines@.len() ==> lines@[j]@ == self.spec_entries()[j],
                i <= lines.len(),
                r@ == spec_rendered_upto(self.spec_entries(), i as int),
            decreases lines.len() - i,
        {
            r.append(lines[i].as_str());
            r.append("\n");
            i = i + 1;
        }
        r
    }
}

/// Law: wrapping an error with one more context description never changes
/// the classification or the headline, renders the new description as the
/// first cause entry, and renders exactly one entry more than before, with
/// every previous cause entry following in its old order.
pub proof fn lemma_wrap_renders_one_more_entry(e: EnclaveError, w: EnclaveError, msg: String)
    requires
        w.spec_kind() == e.spec_kind(),
        w.spec_contexts() == seq![msg] + e.spec_contexts(),
    ensures
        w.spec_entries().len() == e.spec_entries().len() + 1,
        w.spec_entries()[0] == e.spec_entries()[0],
        w.spec_entries()[1] == "Caused by: "@ + msg@,
        forall|i: int|
            1 <= i < e.spec_entries().len() ==> w.spec_entries()[i + 1] == e.spec_entries()[i],
{
    assert(w.spec_contexts()[0] == msg);
    assert forall|i: int|
        1 <= i < e.spec_entries().len() implies w.spec_entries()[i + 1] == e.spec_entries()[i] by {
        assert(w.spec_contexts()[i] == e.spec_contexts()[i - 1]);
    }
}

} // verus!
