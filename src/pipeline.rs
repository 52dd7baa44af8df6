//! One verification run: stage decisions, outcome sentences, and the
//! two-phase response protocol.

use vstd::prelude::*;
use vstd::string::StringExecFns;

use crate::endpoints::{
    bearer,
    bearer_header,
    construct_devforum_endpoint,
    construct_roblox_endpoint,
    construct_rover_endpoint,
    cookie,
    devforum_endpoint,
    roblox_endpoint,
    rover_endpoint,
    session_cookie,
};
use crate::roles::{applied_level, contains, updated_roles, RoleConfig};
use crate::tier::{classify, level_name, level_of, TrustLevel};

verus! {

/// What came back from one request to an identity service.
pub enum Reply<T> {
    /// A response arrived with this status; `body` is its payload if it parsed.
    Received { status: u16, body: Option<T> },
    /// No response arrived.
    Unreachable,
}

/// Whether an HTTP status is in the success class.
pub open spec fn is_success(status: u16) -> bool {
    200 <= status && status <= 299
}

/// The payload of a reply, if the reply counts as a success.
pub open spec fn reply_value<T>(r: Reply<T>) -> Option<T> {
    match r {
        Reply::Received { status, body } => if is_success(status) {
            body
        } else {
            None
        },
        Reply::Unreachable => None,
    }
}

/// The HTTP status of a reply, if one arrived.
pub open spec fn reply_status<T>(r: Reply<T>) -> Option<u16> {
    match r {
        Reply::Received { status, .. } => Some(status),
        Reply::Unreachable => None,
    }
}

impl<T> Reply<T> {
    /// The payload, when the status is a success and the payload parsed.
    pub fn into_value(self) -> (r: Option<T>)
        ensures
            r == reply_value(self),
    {
        match self {
            Reply::Received { status, body } => if 200 <= status && status <= 299 {
                body
            } else {
                None
            },
            Reply::Unreachable => None,
        }
    }

    /// The HTTP status, when a response arrived.
    pub fn status(&self) -> (r: Option<u16>)
        ensures
            r == reply_status(*self),
    {
        match self {
            Reply::Received { status, .. } => Some(*status),
            Reply::Unreachable => None,
        }
    }
}

/// The stage at which a verification run failed, with the HTTP status seen
/// there, if any.
#[derive(Clone, Copy, Debug, PartialEq, Eq, Structural)]
pub enum VerifyError {
    MappingLookupFailed { status: Option<u16> },
    ProfileLookupFailed { status: Option<u16> },
    ReputationLookupFailed { status: Option<u16> },
    RoleUpdateFailed,
}

/// The sentence shown to a member who lacks the precondition role.
pub open spec fn rejection_text() -> Seq<char> {
    "You must be verified to use this interaction."@
}

/// The sentence shown to the member at the end of a run.
pub open spec fn outcome_text(outcome: Result<TrustLevel, VerifyError>) -> Seq<char> {
    match outcome {
        Ok(level) => "Successfully updated your roles to match your DevForum trust level: `"@
            + level_name(level) + "`"@,
        Err(VerifyError::MappingLookupFailed { .. }) => "Failed to fetch your RoVer data."@,
        Err(VerifyError::ProfileLookupFailed { .. }) => "Failed to fetch your Roblox username."@,
        Err(VerifyError::ReputationLookupFailed { .. }) => "Failed to fetch your DevForum data."@,
        Err(VerifyError::RoleUpdateFailed) => "Failed to update your roles."@,
    }
}

/// The sentence shown to a member who lacks the precondition role.
pub fn rejection_message() -> (r: String)
    ensures
        r@ == rejection_text(),
{
    String::from_str("You must be verified to use this interaction.")
}

/// The sentence shown to the member at the end of a run: the resolved level
/// on success, or the failed stage, never more detail than that.
pub fn outcome_message(outcome: &Result<TrustLevel, VerifyError>) -> (r: String)
    ensures
        r@ == outcome_text(*outcome),
{
    match outcome {
        Ok(level) => {
            let mut s = String::from_str(
                "Successfully updated your roles to match your DevForum trust level: `",
            );
            s.append(level.name());
            s.append("`");
            s
        },
        Err(VerifyError::MappingLookupFailed { .. }) => String::from_str(
            "Failed to fetch your RoVer data.",
        ),
        Err(VerifyError::ProfileLookupFailed { .. }) => String::from_str(
            "Failed to fetch your Roblox username.",
        ),
        Err(VerifyError::ReputationLookupFailed { .. }) => String::from_str(
            "Failed to fetch your DevForum data.",
        ),
        Err(VerifyError::RoleUpdateFailed) => String::from_str("Failed to update your roles."),
    }
}

/// Whether a member holding `roles` may start a run under `cfg`.
pub open spec fn may_verify(cfg: RoleConfig, roles: Seq<u64>) -> bool {
    match cfg.roblox_verified {
        Some(required) => roles.contains(required),
        None => true,
    }
}

/// Whether a member holding `member_roles` may start a run: true when no
/// precondition role is configured, or when the member holds it.
pub fn is_permitted(cfg: &RoleConfig, member_roles: &Vec<u64>) -> (r: bool)
    ensures
        r == may_verify(*cfg, member_roles@),
{
    match cfg.roblox_verified {
        Some(required) => contains(member_roles, required),
        None => true,
    }
}

/// Process-wide settings shared read-only by every run.
pub struct Settings {
    pub roles: RoleConfig,
    /// Bearer secret for the mapping service.
    pub api_key: String,
    /// Optional session secret for the reputation service's second attempt.
    pub session: Option<String>,
}

/// Where a run stands: which reply it waits for next.
pub enum Phase {
    /// Waiting for the trigger.
    Idle,
    /// Waiting for the deferred acknowledgement to go out.
    AwaitingAck,
    AwaitingMapping,
    AwaitingProfile,
    /// Waiting for the reputation service at `url`; `with_cookie` marks the
    /// second attempt.
    AwaitingReputation { url: String, with_cookie: bool },
    /// Waiting for the member's current roles.
    AwaitingRoles { level: TrustLevel },
    /// Waiting for the role update to be stored.
    AwaitingUpdate { level: TrustLevel },
    /// Waiting for the deferred response to be edited with the outcome.
    AwaitingEdit,
    Done,
}

/// What the surrounding runtime reports back to a run.
pub enum Event {
    /// The member pressed the button while holding `member_roles`.
    Triggered { member_roles: Vec<u64> },
    Acknowledged { ok: bool },
    /// Reply of the mapping service: the member's account id.
    MappingReceived(Reply<u64>),
    /// Reply of the profile service: the account name.
    ProfileReceived(Reply<String>),
    /// Reply of the reputation service: the raw trust level code.
    ReputationReceived(Reply<u64>),
    /// The member's current roles, or `None` when they could not be fetched.
    RolesFetched(Option<Vec<u64>>),
    RolesUpdated { ok: bool },
    ResponseEdited { ok: bool },
}

/// What a run asks the surrounding runtime to do next.
pub enum Action {
    /// Answer the trigger at once with `content`; the run ends.
    Reject { content: String },
    /// Answer the trigger with an ephemeral deferred acknowledgement.
    Defer,
    GetMapping { url: String, authorization: String },
    GetProfile { url: String },
    /// Query the reputation service, sending `cookie` as the cookie header if present.
    GetReputation { url: String, cookie: Option<String> },
    /// Fetch the member's current roles.
    FetchRoles,
    /// Replace the member's roles with `roles`.
    SetRoles { roles: Vec<u64> },
    /// Edit the deferred response to show `content`.
    EditResponse { content: String },
    /// Nothing more to do.
    Stop,
}

/// One verification run for a member of a guild.
pub struct Verification {
    pub guild_id: u64,
    pub user_id: u64,
    pub phase: Phase,
    /// How the run ended, once it has.
    pub outcome: Option<Result<TrustLevel, VerifyError>>,
}

/// The run stops and keeps what it had.
pub open spec fn halts(s: Verification, t: Verification, a: Action) -> bool {
    &&& t.phase == Phase::Done
    &&& t.outcome == s.outcome
    &&& a == Action::Stop
}

/// The run records `outcome` and asks for it to be shown.
pub open spec fn reports(t: Verification, a: Action, outcome: Result<TrustLevel, VerifyError>) -> bool {
    &&& t.phase == Phase::AwaitingEdit
    &&& t.outcome == Some(outcome)
    &&& match a {
        Action::EditResponse { content } => content@ == outcome_text(outcome),
        _ => false,
    }
}

/// The run moves on to `phase` with no outcome yet.
pub open spec fn moves_to(s: Verification, t: Verification, phase: Phase) -> bool {
    t.phase == phase && t.outcome == s.outcome
}

/// How a run in state `s` answers event `e` under `cfg`: `t` is its next
/// state and `a` the action it asks for.
pub open spec fn transition(s: Verification, cfg: Settings, e: Event, t: Verification, a: Action) -> bool {
    &&& t.guild_id == s.guild_id
    &&& t.user_id == s.user_id
    &&& match s.phase {
        Phase::Idle => match e {
            Event::Triggered { member_roles } => if may_verify(cfg.roles, member_roles@) {
                moves_to(s, t, Phase::AwaitingAck) && a == Action::Defer
            } else {
                moves_to(s, t, Phase::Done) && match a {
                    Action::Reject { content } => content@ == rejection_text(),
                    _ => false,
                }
            },
            _ => halts(s, t, a),
        },
        Phase::AwaitingAck => match e {
            Event::Acknowledged { ok } => if ok {
                moves_to(s, t, Phase::AwaitingMapping) && match a {
                    Action::GetMapping { url, authorization } => url@ == rover_endpoint(
                        s.guild_id,
                        s.user_id,
                    ) && authorization@ == bearer_header(cfg.api_key@),
                    _ => false,
                }
            } else {
                halts(s, t, a)
            },
            _ => halts(s, t, a),
        },
        Phase::AwaitingMapping => match e {
            Event::MappingReceived(reply) => match reply_value(reply) {
                Some(id) => moves_to(s, t, Phase::AwaitingProfile) && match a {
                    Action::GetProfile { url } => url@ == roblox_endpoint(id),
                    _ => false,
                },
                None => reports(
                    t,
                    a,
                    Err(VerifyError::MappingLookupFailed { status: reply_status(reply) }),
                ),
            },
            _ => halts(s, t, a),
        },
        Phase::AwaitingProfile => match e {
            Event::ProfileReceived(reply) => match reply_value(reply) {
                Some(name) => {
                    &&& t.outcome == s.outcome
                    &&& match t.phase {
                        Phase::AwaitingReputation { url, with_cookie } => url@ == devforum_endpoint(
                            name@,
                        ) && !with_cookie,
                        _ => false,
                    }
                    &&& match a {
                        Action::GetReputation { url, cookie } => url@ == devforum_endpoint(name@)
                            && cookie.is_none(),
                        _ => false,
                    }
                },
                None => reports(
                    t,
                    a,
                    Err(VerifyError::ProfileLookupFailed { status: reply_status(reply) }),
                ),
            },
            _ => halts(s, t, a),
        },
        Phase::AwaitingReputation { url, with_cookie } => match e {
            Event::ReputationReceived(reply) => match reply_value(reply) {
                Some(code) => moves_to(s, t, Phase::AwaitingRoles { level: level_of(code) }) && a
                    == Action::FetchRoles,
                None => match cfg.session {
                    Some(secret) if !with_cookie => {
                        &&& moves_to(s, t, Phase::AwaitingReputation { url, with_cookie: true })
                        &&& match a {
                            Action::GetReputation { url: retry_url, cookie } => retry_url@ == url@
                                && match cookie {
                                Some(c) => c@ == session_cookie(secret@),
                                None => false,
                            },
                            _ => false,
                        }
                    },
                    _ => reports(
                        t,
                        a,
                        Err(VerifyError::ReputationLookupFailed { status: reply_status(reply) }),
                    ),
                },
            },
            _ => halts(s, t, a),
        },
        Phase::AwaitingRoles { level } => match e {
            Event::RolesFetched(fetched) => match fetched {
                Some(roles) => moves_to(s, t, Phase::AwaitingUpdate { level }) && match a {
                    Action::SetRoles { roles: new_roles } => new_roles@ == applied_level(
                        roles@,
                        level,
                        cfg.roles,
                    ),
                    _ => false,
                },
                None => reports(t, a, Err(VerifyError::RoleUpdateFailed)),
            },
            _ => halts(s, t, a),
        },
        Phase::AwaitingUpdate { level } => match e {
            Event::RolesUpdated { ok } => if ok {
                reports(t, a, Ok(level))
            } else {
                reports(t, a, Err(VerifyError::RoleUpdateFailed))
            },
            _ => halts(s, t, a),
        },
        Phase::AwaitingEdit | Phase::Done => halts(s, t, a),
    }
}

impl Verification {
    /// A run for `user_id` in `guild_id` that waits for its trigger.
    pub fn new(guild_id: u64, user_id: u64) -> (r: Verification)
        ensures
            r.guild_id == guild_id,
            r.user_id == user_id,
            r.phase == Phase::Idle,
            r.outcome.is_none(),
    {
        Verification { guild_id, user_id, phase: Phase::Idle, outcome: None }
    }

    fn halt(self) -> (r: (Verification, Action))
        ensures
            halts(self, r.0, r.1),
            r.0.guild_id == self.guild_id,
            r.0.user_id == self.user_id,
    {
        (Verification { phase: Phase::Done, ..self }, Action::Stop)
    }

    fn report(self, outcome: Result<TrustLevel, VerifyError>) -> (r: (Verification, Action))
        ensures
            reports(r.0, r.1, outcome),
            r.0.guild_id == self.guild_id,
            r.0.user_id == self.user_id,
    {
        let content = outcome_message(&outcome);
        (
            Verification { phase: Phase::AwaitingEdit, outcome: Some(outcome), ..self },
            Action::EditResponse { content },
        )
    }

    fn move_to(self, phase: Phase, action: Action) -> (r: (Verification, Action))
        ensures
            moves_to(self, r.0, phase),
            r.1 == action,
            r.0.guild_id == self.guild_id,
            r.0.user_id == self.user_id,
    {
        (Verification { phase, ..self }, action)
    }

    /// Advances the run by one event and names the next action.
    pub fn step(self, settings: &Settings, event: Event) -> (r: (Verification, Action))
        ensures
            transition(self, *settings, event, r.0, r.1),
    {
        match &self.phase {
            Phase::Idle => match event {
                Event::Triggered { member_roles } => if is_permitted(&settings.roles, &member_roles) {
                    self.move_to(Phase::AwaitingAck, Action::Defer)
                } else {
                    let content = rejection_message();
                    self.move_to(Phase::Done, Action::Reject { content })
                },
                _ => self.halt(),
            },
            Phase::AwaitingAck => match event {
                Event::Acknowledged { ok } => if ok {
                    let url = construct_rover_endpoint(self.guild_id, self.user_id);
                    let authorization = bearer(settings.api_key.as_str());
                    self.move_to(Phase::AwaitingMapping, Action::GetMapping { url, authorization })
                } else {
                    self.halt()
                },
                _ => self.halt(),
            },
            Phase::AwaitingMapping => match event {
                Event::MappingReceived(reply) => {
                    let status = reply.status();
                    match reply.into_value() {
                        Some(id) => {
                            let url = construct_roblox_endpoint(id);
                            self.move_to(Phase::AwaitingProfile, Action::GetProfile { url })
                        },
                        None => self.report(Err(VerifyError::MappingLookupFailed { status })),
                    }
                },
                _ => self.halt(),
            },
            Phase::AwaitingProfile => match event {
                Event::ProfileReceived(reply) => {
                    let status = reply.status();
                    match reply.into_value() {
                        Some(name) => {
                            let url = construct_devforum_endpoint(name.as_str());
                            let request = url.clone();
                            self.move_to(
                                Phase::AwaitingReputation { url, with_cookie: false },
                                Action::GetReputation { url: request, cookie: None },
                            )
                        },
                        None => self.report(Err(VerifyError::ProfileLookupFailed { status })),
                    }
                },
                _ => self.halt(),
            },
            Phase::AwaitingReputation { url, with_cookie } => match event {
                Event::ReputationReceived(reply) => {
                    let status = reply.status();
                    match reply.into_value() {
                        Some(code) => {
                            let level = classify(code);
                            self.move_to(Phase::AwaitingRoles { level }, Action::FetchRoles)
                        },
                        None => match &settings.session {
                            Some(secret) if !*with_cookie => {
                                let request = url.clone();
                                let kept = url.clone();
                                let header = cookie(secret.as_str());
                                self.move_to(
                                    Phase::AwaitingReputation { url: kept, with_cookie: true },
                                    Action::GetReputation { url: request, cookie: Some(header) },
                                )
                            },
                            _ => self.report(Err(VerifyError::ReputationLookupFailed { status })),
                        },
                    }
                },
                _ => self.halt(),
            },
            Phase::AwaitingRoles { level } => match event {
                Event::RolesFetched(fetched) => match fetched {
                    Some(roles) => {
                        let level = *level;
                        let new_roles = updated_roles(roles, level, &settings.roles);
                        self.move_to(
                            Phase::AwaitingUpdate { level },
                            Action::SetRoles { roles: new_roles },
                        )
                    },
                    None => self.report(Err(VerifyError::RoleUpdateFailed)),
                },
                _ => self.halt(),
            },
            Phase::AwaitingUpdate { level } => match event {
                Event::RolesUpdated { ok } => if ok {
                    let level = *level;
                    self.report(Ok(level))
                } else {
                    self.report(Err(VerifyError::RoleUpdateFailed))
                },
                _ => self.halt(),
            },
            Phase::AwaitingEdit | Phase::Done => self.halt(),
        }
    }
}

} // verus!
