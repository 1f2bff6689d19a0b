use crate::config::SiteConfig;
use crate::response::Status;
use crate::store::failure_status;
use crate::store::StoreError;
use crate::text::same_text;
use vstd::prelude::*;

verus! {

/// What is to be done with a submitted article once its sender is known.
#[derive(Debug, Clone, Copy, PartialEq, Eq)]
pub enum SubmitStep {
    /// The article is added to the list, and the outcome decides the answer.
    Append,
    /// Nothing is added; the sender is told this status.
    Respond(Status),
}

/// Whether `username` and `password` are the administrator's, letter for
/// letter and case for case.
pub open spec fn is_admin(config: SiteConfig, username: Seq<char>, password: Seq<char>) -> bool {
    username == config.admin_username@ && password == config.admin_password@
}

/// The status that answers a submission whose article was handed to the
/// list, given how that went.
pub open spec fn outcome_status(outcome: Result<(), StoreError>) -> Status {
    match outcome {
        Ok(_) => Status::Success,
        Err(error) => failure_status(error),
    }
}

/// Checks the credentials of a submission against the administrator's.
pub fn credentials_match(config: &SiteConfig, username: &str, password: &str) -> (admin: bool)
    ensures
        admin == is_admin(*config, username@, password@),
{
    same_text(username, config.admin_username.as_str()) && same_text(
        password,
        config.admin_password.as_str(),
    )
}

/// Decides what to do with a submission from its credentials: only the
/// administrator's article is added to the list. Anyone else is turned
/// away, and the list is left alone.
pub fn begin_submit(config: &SiteConfig, username: &str, password: &str) -> (step: SubmitStep)
    ensures
        is_admin(*config, username@, password@) ==> step == SubmitStep::Append,
        !is_admin(*config, username@, password@) ==> step == SubmitStep::Respond(
            Status::MethodNotAllowed,
        ),
{
    if credentials_match(config, username, password) {
        SubmitStep::Append
    } else {
        SubmitStep::Respond(Status::MethodNotAllowed)
    }
}

/// Decides the answer to a submission from the outcome of adding its
/// article to the list.
pub fn finish_submit(outcome: Result<(), StoreError>) -> (status: Status)
    ensures
        status == outcome_status(outcome),
        outcome is Ok ==> status == Status::Success,
{
    match outcome {
        Ok(_) => Status::Success,
        Err(error) => error.status(),
    }
}

} // verus!
