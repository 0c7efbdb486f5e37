//! The failures that the registry and the directory report.

use ink::env::Error as InkEnvError;
use ink::LangError;
use vstd::prelude::*;
use vstd::string::StringExecFns;

verus! {

/// `ink::LangError`: a failure of the contract language itself, such as
/// unreadable call input. Its values are carried through, never inspected.
#[verifier::external_type_specification]
#[verifier::external_body]
pub struct ExLangError(LangError);

/// `ink::env::Error`: a failure of the execution environment. Its values are
/// carried through, never inspected.
#[verifier::external_type_specification]
#[verifier::external_body]
pub struct ExInkEnvError(InkEnvError);

/// A failure reported by the group registry.
#[derive(Debug, PartialEq, Eq)]
pub enum AZGroupsError {
    /// A call to another contract failed in the contract language.
    ContractCall(LangError),
    /// The group exists but is disabled.
    GroupDisabled,
    /// The execution environment failed; the text describes how.
    InkEnvError(String),
    /// The account's role in the group is below `Member`.
    NotAMember,
    /// No such record; the text names what was looked for.
    NotFound(String),
    /// The caller's role or relation to the target does not allow the
    /// operation.
    Unauthorised,
    /// The request breaks the named rule.
    UnprocessableEntity(String),
}

/// An `AZGroupsError` with its texts as sequences of characters.
pub enum AZGroupsErrorView {
    ContractCall(LangError),
    GroupDisabled,
    InkEnvError(Seq<char>),
    NotAMember,
    NotFound(Seq<char>),
    Unauthorised,
    UnprocessableEntity(Seq<char>),
}

impl View for AZGroupsError {
    type V = AZGroupsErrorView;

    open spec fn view(&self) -> AZGroupsErrorView {
        match *self {
            AZGroupsError::ContractCall(e) => AZGroupsErrorView::ContractCall(e),
            AZGroupsError::GroupDisabled => AZGroupsErrorView::GroupDisabled,
            AZGroupsError::InkEnvError(s) => AZGroupsErrorView::InkEnvError(s@),
            AZGroupsError::NotAMember => AZGroupsErrorView::NotAMember,
            AZGroupsError::NotFound(s) => AZGroupsErrorView::NotFound(s@),
            AZGroupsError::Unauthorised => AZGroupsErrorView::Unauthorised,
            AZGroupsError::UnprocessableEntity(s) => AZGroupsErrorView::UnprocessableEntity(s@),
        }
    }
}

/// Whether `r` is the failure `failure`.
pub open spec fn fails_with<T>(r: Result<T, AZGroupsError>, failure: AZGroupsErrorView) -> bool {
    match r {
        Ok(_) => false,
        Err(e) => e@ == failure,
    }
}

impl AZGroupsError {
    /// `NotFound` of a record of the name `what`.
    pub fn not_found(what: &str) -> (e: AZGroupsError)
        ensures
            e@ == AZGroupsErrorView::NotFound(what@),
    {
        AZGroupsError::NotFound(String::from_str(what))
    }

    /// `UnprocessableEntity` with the reason `why`.
    pub fn unprocessable(why: &str) -> (e: AZGroupsError)
        ensures
            e@ == AZGroupsErrorView::UnprocessableEntity(why@),
    {
        AZGroupsError::UnprocessableEntity(String::from_str(why))
    }
}

/// Formats an `ink::env::Error` with its `Debug` impl, as `format!("{e:?}")`
/// does.
#[verifier::external_body]
fn describe_env_error(e: &InkEnvError) -> String {
    format!("{e:?}")
}

impl From<InkEnvError> for AZGroupsError {
    fn from(e: InkEnvError) -> (r: AZGroupsError)
        ensures
            r is InkEnvError,
    {
        AZGroupsError::InkEnvError(describe_env_error(&e))
    }
}

impl vstd::std_specs::convert::FromSpecImpl<InkEnvError> for AZGroupsError {
    open spec fn obeys_from_spec() -> bool {
        false
    }

    open spec fn from_spec(e: InkEnvError) -> AZGroupsError {
        arbitrary()
    }
}

impl From<LangError> for AZGroupsError {
    fn from(e: LangError) -> (r: AZGroupsError) {
        AZGroupsError::ContractCall(e)
    }
}

impl vstd::std_specs::convert::FromSpecImpl<LangError> for AZGroupsError {
    open spec fn obeys_from_spec() -> bool {
        true
    }

    open spec fn from_spec(e: LangError) -> AZGroupsError {
        AZGroupsError::ContractCall(e)
    }
}

/// A failure reported by the contract directory.
#[derive(Debug, PartialEq, Eq)]
pub enum AZSmartContractHubError {
    /// A call to another contract failed in the contract language.
    ContractCall(LangError),
    /// The execution environment failed; the text describes how.
    InkEnvError(String),
    /// No such record; the text names what was looked for.
    NotFound(String),
    /// The caller is not the account that the operation is reserved for.
    Unauthorised,
    /// The request would change nothing in the named field.
    Unchanged(String),
    /// The request breaks the named rule.
    UnprocessableEntity(String),
    /// The group registry refused; its failure is kept as it came.
    AZGroupsError(AZGroupsError),
}

/// An `AZSmartContractHubError` with its texts as sequences of characters.
pub enum AZSmartContractHubErrorView {
    ContractCall(LangError),
    InkEnvError(Seq<char>),
    NotFound(Seq<char>),
    Unauthorised,
    Unchanged(Seq<char>),
    UnprocessableEntity(Seq<char>),
    AZGroupsError(AZGroupsErrorView),
}

impl View for AZSmartContractHubError {
    type V = AZSmartContractHubErrorView;

    open spec fn view(&self) -> AZSmartContractHubErrorView {
        match *self {
            AZSmartContractHubError::ContractCall(e) => AZSmartContractHubErrorView::ContractCall(e),
            AZSmartContractHubError::InkEnvError(s) => AZSmartContractHubErrorView::InkEnvError(s@),
            AZSmartContractHubError::NotFound(s) => AZSmartContractHubErrorView::NotFound(s@),
            AZSmartContractHubError::Unauthorised => AZSmartContractHubErrorView::Unauthorised,
            AZSmartContractHubError::Unchanged(s) => AZSmartContractHubErrorView::Unchanged(s@),
            AZSmartContractHubError::UnprocessableEntity(s) => {
                AZSmartContractHubErrorView::UnprocessableEntity(s@)
            },
            AZSmartContractHubError::AZGroupsError(e) => AZSmartContractHubErrorView::AZGroupsError(
                e@,
            ),
        }
    }
}

impl AZSmartContractHubError {
    /// `NotFound` of a record of the name `what`.
    pub fn not_found(what: &str) -> (e: AZSmartContractHubError)
        ensures
            e@ == AZSmartContractHubErrorView::NotFound(what@),
    {
        AZSmartContractHubError::NotFound(String::from_str(what))
    }

    /// `UnprocessableEntity` with the reason `why`.
    pub fn unprocessable(why: &str) -> (e: AZSmartContractHubError)
        ensures
            e@ == AZSmartContractHubErrorView::UnprocessableEntity(why@),
    {
        AZSmartContractHubError::UnprocessableEntity(String::from_str(why))
    }
}

impl From<AZGroupsError> for AZSmartContractHubError {
    fn from(error: AZGroupsError) -> (r: AZSmartContractHubError) {
        AZSmartContractHubError::AZGroupsError(error)
    }
}

impl vstd::std_specs::convert::FromSpecImpl<AZGroupsError> for AZSmartContractHubError {
    open spec fn obeys_from_spec() -> bool {
        true
    }

    open spec fn from_spec(error: AZGroupsError) -> AZSmartContractHubError {
        AZSmartContractHubError::AZGroupsError(error)
    }
}

impl From<InkEnvError> for AZSmartContractHubError {
    fn from(e: InkEnvError) -> (r: AZSmartContractHubError)
        ensures
            r is InkEnvError,
    {
        AZSmartContractHubError::InkEnvError(describe_env_error(&e))
    }
}

impl vstd::std_specs::convert::FromSpecImpl<InkEnvError> for AZSmartContractHubError {
    open spec fn obeys_from_spec() -> bool {
        false
    }

    open spec fn from_spec(e: InkEnvError) -> AZSmartContractHubError {
        arbitrary()
    }
}

impl From<LangError> for AZSmartContractHubError {
    fn from(e: LangError) -> (r: AZSmartContractHubError) {
        AZSmartContractHubError::ContractCall(e)
    }
}

impl vstd::std_specs::convert::FromSpecImpl<LangError> for AZSmartContractHubError {
    open spec fn obeys_from_spec() -> bool {
        true
    }

    open spec fn from_spec(e: LangError) -> AZSmartContractHubError {
        AZSmartContractHubError::ContractCall(e)
    }
}

} // verus!
