//! Finding out whether a name belongs to an organisation or to a user, by
//! asking for its repositories one way and then the other.

use crate::client::github::{ApiEndpoints, GitHubUserType, PathParams, PathParamsView};
use crate::client::github_error::{ApiError, ApiErrorView};
use crate::client::models::Repo;
use crate::client::page::{page_request, request_page};
use vstd::prelude::*;

verus! {

/// Where the search for the kind of an account stands.
#[derive(Clone, Copy, Debug, PartialEq, Eq, Structural)]
pub enum ProbeStage {
    /// The organisation's listing is to be asked for.
    Organisation,
    /// The organisation's listing failed; the user's is to be asked for.
    User,
    /// A listing was answered: the account is of this kind.
    Resolved(GitHubUserType),
    /// Both listings failed.
    Unresolved,
}

/// A search for the kind of an account, as plain values.
pub ghost struct ProbeView {
    pub base_url: Seq<char>,
    pub owner: Seq<char>,
    pub stage: ProbeStage,
    /// How many requests were handed out to be sent.
    pub probes: nat,
}

/// What two probes come to: the organisation's listing decides if it was
/// answered; the user's is looked at only if it was not.
pub open spec fn resolution(organisation_ok: bool, user_ok: bool) -> Result<
    GitHubUserType,
    ApiError,
> {
    if organisation_ok {
        Ok(GitHubUserType::Organisation)
    } else if user_ok {
        Ok(GitHubUserType::User)
    } else {
        Err(ApiError::NotFound)
    }
}

impl ProbeView {
    /// The search before its first probe.
    pub open spec fn initial(base_url: Seq<char>, owner: Seq<char>) -> ProbeView {
        ProbeView { base_url, owner, stage: ProbeStage::Organisation, probes: 0 }
    }

    /// The kind of account whose listing is to be asked for next, if any.
    pub open spec fn pending(self) -> Option<GitHubUserType> {
        match self.stage {
            ProbeStage::Organisation => Some(GitHubUserType::Organisation),
            ProbeStage::User => Some(GitHubUserType::User),
            _ => None,
        }
    }

    /// The parameters of the listing that probes for `user_type`.
    pub open spec fn probe_params(self, user_type: GitHubUserType) -> PathParamsView {
        PathParamsView {
            base_url: self.base_url,
            owner: Some(self.owner),
            repo: None,
            user_type: Some(user_type),
        }
    }

    /// The request that probes for `user_type`: the first page, of the
    /// default size, of the repository listing for that kind of account; or
    /// why none can be formed.
    pub open spec fn request_for(self, user_type: GitHubUserType) -> Result<
        Seq<char>,
        ApiErrorView,
    > {
        page_request(ApiEndpoints::ListRepos, self.probe_params(user_type), None, None)
    }

    /// Whether a probe is due whose request cannot be formed.
    pub open spec fn stuck(self) -> bool {
        self.pending() matches Some(user_type) && self.request_for(user_type) is Err
    }

    /// The search after a probe that could not be sent: it counts as
    /// failed, and as no request.
    pub open spec fn skip(self) -> ProbeView {
        match self.stage {
            ProbeStage::Organisation => ProbeView { stage: ProbeStage::User, ..self },
            ProbeStage::User => ProbeView { stage: ProbeStage::Unresolved, ..self },
            _ => self,
        }
    }

    /// The search after every probe that is due and cannot be sent was
    /// passed over.
    pub open spec fn ready(self) -> ProbeView {
        if !self.stuck() {
            self
        } else if !self.skip().stuck() {
            self.skip()
        } else {
            self.skip().skip()
        }
    }

    /// The search after the probe it asked for succeeded or failed. An
    /// answer that comes when nothing was asked changes nothing.
    pub open spec fn receive(self, succeeded: bool) -> ProbeView {
        match self.stage {
            ProbeStage::Organisation => ProbeView {
                stage: if succeeded {
                    ProbeStage::Resolved(GitHubUserType::Organisation)
                } else {
                    ProbeStage::User
                },
                probes: self.probes + 1,
                ..self
            },
            ProbeStage::User => ProbeView {
                stage: if succeeded {
                    ProbeStage::Resolved(GitHubUserType::User)
                } else {
                    ProbeStage::Unresolved
                },
                probes: self.probes + 1,
                ..self
            },
            _ => self,
        }
    }

    /// What holds of every search: it has sent no more requests than its
    /// stage allows, and never more than two.
    pub open spec fn wf(self) -> bool {
        match self.stage {
            ProbeStage::Organisation => self.probes == 0,
            ProbeStage::User => self.probes <= 1,
            ProbeStage::Resolved(GitHubUserType::Organisation) => self.probes == 1,
            ProbeStage::Resolved(GitHubUserType::User) => 1 <= self.probes <= 2,
            ProbeStage::Unresolved => self.probes <= 2,
        }
    }

    /// What a finished search comes to.
    pub open spec fn outcome(self) -> Result<GitHubUserType, ApiError> {
        match self.stage {
            ProbeStage::Resolved(user_type) => Ok(user_type),
            _ => Err(ApiError::NotFound),
        }
    }
}

/// An answered organisation probe settles the search at once, with any
/// number of repositories in the answer: the account is an organisation and
/// the user's listing is never asked for.
pub proof fn lemma_organisation_first(base_url: Seq<char>, owner: Seq<char>)
    ensures
        ProbeView::initial(base_url, owner).pending() == Some(GitHubUserType::Organisation),
        ({
            let end = ProbeView::initial(base_url, owner).receive(true);
            &&& end.pending().is_none()
            &&& end.outcome() == Ok::<GitHubUserType, ApiError>(GitHubUserType::Organisation)
            &&& end.probes == 1
        }),
{
}

/// The search falls back to the user's listing only when the organisation's
/// failed, and then that listing decides: the account is a user if it was
/// answered and cannot be found if not. No search takes a third probe.
pub proof fn lemma_user_is_fallback(base_url: Seq<char>, owner: Seq<char>, user_ok: bool)
    ensures
        ({
            let second = ProbeView::initial(base_url, owner).receive(false);
            let end = second.receive(user_ok);
            &&& second.pending() == Some(GitHubUserType::User)
            &&& end.pending().is_none()
            &&& end.outcome() == resolution(false, user_ok)
            &&& end.probes == 2
        }),
{
}

/// No search sends more than two requests, and a search that has passed
/// over what it cannot send has either a request to hand out or an outcome.
pub proof fn lemma_at_most_two_probes(s: ProbeView)
    requires
        s.wf(),
    ensures
        s.probes <= 2,
        s.ready().wf(),
        !s.ready().stuck(),
        s.ready().probes == s.probes,
{
}

/// A search comes to a user exactly when the organisation probe failed and
/// the user probe succeeded.
pub proof fn lemma_resolution_user(organisation_ok: bool, user_ok: bool)
    ensures
        resolution(organisation_ok, user_ok) == Ok::<GitHubUserType, ApiError>(
            GitHubUserType::User,
        ) <==> !organisation_ok && user_ok,
        resolution(organisation_ok, user_ok) == Ok::<GitHubUserType, ApiError>(
            GitHubUserType::Organisation,
        ) <==> organisation_ok,
        resolution(organisation_ok, user_ok) is Err <==> !organisation_ok && !user_ok,
{
}

/// What two probes come to. See `resolution`.
pub fn resolve(organisation_ok: bool, user_ok: bool) -> (r: Result<GitHubUserType, ApiError>)
    ensures
        r == resolution(organisation_ok, user_ok),
{
    if organisation_ok {
        Ok(GitHubUserType::Organisation)
    } else if user_ok {
        Ok(GitHubUserType::User)
    } else {
        Err(ApiError::NotFound)
    }
}

/// A search for the kind of one account.
pub struct OrgTypeProbe {
    base_url: String,
    owner: String,
    stage: ProbeStage,
    probes: u8,
}

/// What a search asks of its caller next.
pub enum ProbeStep {
    /// Send a GET request to the address `request`, which asks for the
    /// first page of the repository listing for `params`, and tell `probe`
    /// what came back.
    Probe { request: String, params: PathParams, probe: OrgTypeProbe },
    /// The search is over.
    Done(Result<GitHubUserType, ApiError>),
}

impl View for OrgTypeProbe {
    type V = ProbeView;

    closed spec fn view(&self) -> ProbeView {
        ProbeView {
            base_url: self.base_url@,
            owner: self.owner@,
            stage: self.stage,
            probes: self.probes as nat,
        }
    }
}

impl OrgTypeProbe {
    #[verifier::type_invariant]
    spec fn inv(self) -> bool {
        self@.wf()
    }

    /// A search for the kind of the account `owner`, with requests rooted
    /// at `base_url`.
    pub fn new(base_url: &str, owner: &str) -> (probe: OrgTypeProbe)
        ensures
            probe@ == ProbeView::initial(base_url@, owner@),
    {
        OrgTypeProbe {
            base_url: base_url.to_owned(),
            owner: owner.to_owned(),
            stage: ProbeStage::Organisation,
            probes: 0,
        }
    }

    /// The step of a search that is not stuck; a stuck search comes back
    /// with its probe passed over.
    fn step(self) -> (r: Result<ProbeStep, OrgTypeProbe>)
        ensures
            self@.wf(),
            match r {
                Ok(ProbeStep::Probe { request, params, probe }) => {
                    &&& self@.pending() matches Some(user_type) && params@ == self@.probe_params(
                        user_type,
                    ) && self@.request_for(user_type) == Ok::<Seq<char>, ApiErrorView>(request@)
                    &&& probe@ == self@
                },
                Ok(ProbeStep::Done(outcome)) => self@.pending().is_none() && outcome
                    == self@.outcome(),
                Err(passed) => self@.stuck() && passed@ == self@.skip(),
            },
    {
        proof {
            use_type_invariant(&self);
        }
        let (user_type, after) = match self.stage {
            ProbeStage::Organisation => (GitHubUserType::Organisation, ProbeStage::User),
            ProbeStage::User => (GitHubUserType::User, ProbeStage::Unresolved),
            ProbeStage::Resolved(user_type) => {
                return Ok(ProbeStep::Done(Ok(user_type)));
            },
            ProbeStage::Unresolved => {
                return Ok(ProbeStep::Done(Err(ApiError::NotFound)));
            },
        };
        let params = PathParams {
            base_url: self.base_url.clone(),
            owner: Some(self.owner.clone()),
            repo: None,
            user_type: Some(user_type),
        };
        match request_page(&ApiEndpoints::ListRepos, &params, None, None) {
            Ok(request) => Ok(ProbeStep::Probe { request, params, probe: self }),
            Err(_) => Err(
                OrgTypeProbe {
                    base_url: self.base_url,
                    owner: self.owner,
                    stage: after,
                    probes: self.probes,
                },
            ),
        }
    }

    /// Hands over the next thing to do: the request of the probe that is
    /// due, or the outcome. A probe whose request cannot be formed is
    /// passed over as failed, and nothing is sent for it.
    pub fn next(self) -> (step: ProbeStep)
        ensures
            self@.wf(),
            match step {
                ProbeStep::Probe { request, params, probe } => {
                    &&& probe@ == self@.ready()
                    &&& probe@.pending() matches Some(user_type) && params@ == probe@.probe_params(
                        user_type,
                    ) && probe@.request_for(user_type) == Ok::<Seq<char>, ApiErrorView>(request@)
                },
                ProbeStep::Done(outcome) => self@.ready().pending().is_none() && outcome
                    == self@.ready().outcome(),
            },
    {
        match self.step() {
            Ok(step) => step,
            Err(second) => match second.step() {
                Ok(step) => step,
                Err(third) => match third.step() {
                    Ok(step) => step,
                    Err(_) => ProbeStep::Done(Err(ApiError::NotFound)),
                },
            },
        }
    }

    /// Takes the answer to the request that was handed out. Any answered
    /// listing counts as success, an empty one too. An answer that comes
    /// when nothing was asked is dropped.
    pub fn receive(self, response: &Result<Vec<Repo>, ApiError>) -> (probe: OrgTypeProbe)
        ensures
            self@.wf(),
            probe@ == self@.receive(response is Ok),
            probe@.wf(),
    {
        proof {
            use_type_invariant(&self);
        }
        let succeeded = response.is_ok();
        let stage = match self.stage {
            ProbeStage::Organisation => if succeeded {
                ProbeStage::Resolved(GitHubUserType::Organisation)
            } else {
                ProbeStage::User
            },
            ProbeStage::User => if succeeded {
                ProbeStage::Resolved(GitHubUserType::User)
            } else {
                ProbeStage::Unresolved
            },
            _ => {
                return self;
            },
        };
        OrgTypeProbe {
            base_url: self.base_url,
            owner: self.owner,
            stage,
            probes: self.probes + 1,
        }
    }
}

} // verus!
