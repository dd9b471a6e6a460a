//! Room access tokens: which room a phase is shown in, what each kind of
//! participant may do there, and the signed grant that says so.

use crate::config::Config;
use crate::decimal::{decimal, push_decimal};
use livekit_api::access_token::{AccessToken, AccessTokenError, VideoGrants};
use vstd::prelude::*;
use vstd::string::*;

verus! {

/// The error of the token signer, carried through as it came.
#[verifier::external_type_specification]
#[verifier::external_body]
pub struct ExAccessTokenError(AccessTokenError);

/// A request for a token: the kind of participant and the phase whose room
/// it wants to enter.
#[derive(Debug, PartialEq, Eq)]
pub struct TokenQuery {
    pub kind: String,
    pub phase: String,
}

/// The signed grant and the room it is for. The token is empty when signing
/// failed.
#[derive(Debug, PartialEq, Eq)]
pub struct TokenResponse {
    pub token: String,
    pub room: String,
}

/// What a camera attaches to its stream: the phase, and the game and angle it
/// films where there are any.
#[derive(Debug, Clone, PartialEq, Eq)]
pub struct LiveKitMetadata {
    pub phase: String,
    pub game: Option<String>,
    pub angle: Option<String>,
}

/// The categories of participant.
#[derive(Debug, Clone, Copy, PartialEq, Eq, Structural)]
pub enum Role {
    /// Films and publishes a stream.
    Camera,
    /// Watches and administers the room.
    Admin,
    /// Shows the streams to viewers.
    Output,
    /// Anything else: no access.
    Unrecognized,
}

/// What a participant may do in one room. A permission that is `None` is left
/// to the media platform's default.
#[derive(Debug, PartialEq, Eq)]
pub struct Grants {
    pub room: String,
    pub room_join: bool,
    pub room_admin: bool,
    pub can_publish: Option<bool>,
    pub can_subscribe: Option<bool>,
    pub can_publish_data: Option<bool>,
    pub can_update_own_metadata: Option<bool>,
}

/// What is handed to the signer for one request: who enters, under which
/// name, and what it may do.
#[derive(Debug, PartialEq, Eq)]
pub struct GrantRequest {
    pub identity: String,
    pub name: String,
    pub grants: Grants,
}

/// The room in which a phase is shown.
pub open spec fn room_for_phase(phase: Seq<char>) -> Seq<char> {
    if phase == "semi"@ {
        "basketball-semi"@
    } else if phase == "final"@ {
        "basketball-final"@
    } else {
        "basketball-default"@
    }
}

/// The category that a participant kind names.
pub open spec fn role_of(kind: Seq<char>) -> Role {
    if kind == "camera"@ {
        Role::Camera
    } else if kind == "admin"@ {
        Role::Admin
    } else if kind == "output"@ {
        Role::Output
    } else {
        Role::Unrecognized
    }
}

/// Under which identity a participant enters: its kind, the phase and the
/// time of the request in milliseconds, joined by hyphens.
pub open spec fn identity_text(kind: Seq<char>, phase: Seq<char>, now_millis: nat) -> Seq<char> {
    kind + "-"@ + phase + "-"@ + decimal(now_millis)
}

/// The name a participant is shown under: its kind and the phase, joined by a
/// hyphen.
pub open spec fn name_text(kind: Seq<char>, phase: Seq<char>) -> Seq<char> {
    kind + "-"@ + phase
}

impl Role {
    /// Whether the role may enter its room at all.
    pub open spec fn joins(self) -> bool {
        self != Role::Unrecognized
    }

    /// Whether the role administers its room.
    pub open spec fn administers(self) -> bool {
        self == Role::Admin
    }

    /// Whether the role may publish streams.
    pub open spec fn publishes(self) -> bool {
        self == Role::Camera
    }

    /// Whether the role may subscribe to the streams of others.
    pub open spec fn subscribes(self) -> bool {
        self != Role::Unrecognized
    }

    /// Whether the role may publish data messages; unset for a role without
    /// access.
    pub open spec fn publishes_data(self) -> Option<bool> {
        if self == Role::Unrecognized {
            None
        } else {
            Some(true)
        }
    }

    /// Whether the role may change its own metadata; unset for all but
    /// cameras.
    pub open spec fn updates_own_metadata(self) -> Option<bool> {
        if self == Role::Camera {
            Some(true)
        } else {
            None
        }
    }

    /// The category that `kind` names.
    pub fn parse(kind: &String) -> (role: Role)
        ensures
            role == role_of(kind@),
    {
        if is_text(kind, "camera") {
            Role::Camera
        } else if is_text(kind, "admin") {
            Role::Admin
        } else if is_text(kind, "output") {
            Role::Output
        } else {
            Role::Unrecognized
        }
    }

    /// The permissions of this role in `room`.
    pub fn grants(self, room: String) -> (grants: Grants)
        ensures
            grants.is_for(self, room@),
    {
        match self {
            Role::Camera => Grants {
                room,
                room_join: true,
                room_admin: false,
                can_publish: Some(true),
                can_subscribe: Some(true),
                can_publish_data: Some(true),
                can_update_own_metadata: Some(true),
            },
            Role::Admin => Grants {
                room,
                room_join: true,
                room_admin: true,
                can_publish: Some(false),
                can_subscribe: Some(true),
                can_publish_data: Some(true),
                can_update_own_metadata: None,
            },
            Role::Output => Grants {
                room,
                room_join: true,
                room_admin: false,
                can_publish: Some(false),
                can_subscribe: Some(true),
                can_publish_data: Some(true),
                can_update_own_metadata: None,
            },
            Role::Unrecognized => Grants {
                room,
                room_join: false,
                room_admin: false,
                can_publish: Some(false),
                can_subscribe: Some(false),
                can_publish_data: None,
                can_update_own_metadata: None,
            },
        }
    }
}

impl Grants {
    /// Whether these are the permissions of `role` in `room`, each of them.
    pub open spec fn is_for(self, role: Role, room: Seq<char>) -> bool {
        &&& self.room@ == room
        &&& self.room_join == role.joins()
        &&& self.room_admin == role.administers()
        &&& self.can_publish == Some(role.publishes())
        &&& self.can_subscribe == Some(role.subscribes())
        &&& self.can_publish_data == role.publishes_data()
        &&& self.can_update_own_metadata == role.updates_own_metadata()
    }
}

/// Whether `value` reads exactly as `literal`.
fn is_text(value: &String, literal: &str) -> (same: bool)
    ensures
        same == (value@ == literal@),
{
    let wanted = literal.to_owned();
    *value == wanted
}

/// The name of the room in which `phase` is shown.
pub fn room_name(phase: &String) -> (room: String)
    ensures
        room@ == room_for_phase(phase@),
{
    if is_text(phase, "semi") {
        "basketball-semi".to_owned()
    } else if is_text(phase, "final") {
        "basketball-final".to_owned()
    } else {
        "basketball-default".to_owned()
    }
}

impl TokenQuery {
    /// The identity under which the participant enters, for a request made
    /// `now_millis` milliseconds after the epoch.
    pub fn identity(&self, now_millis: u128) -> (identity: String)
        ensures
            identity@ == identity_text(self.kind@, self.phase@, now_millis as nat),
    {
        let mut identity = self.display_name();
        identity.append("-");
        push_decimal(&mut identity, now_millis);
        identity
    }

    /// The name under which the participant is shown.
    pub fn display_name(&self) -> (name: String)
        ensures
            name@ == name_text(self.kind@, self.phase@),
    {
        let mut name = self.kind.clone();
        name.append("-");
        name.append(self.phase.as_str());
        name
    }

    /// What is handed to the signer for this request, made `now_millis`
    /// milliseconds after the epoch: the participant's identity and name,
    /// and the permissions of its kind in the room of its phase.
    pub fn grant_request(&self, now_millis: u128) -> (request: GrantRequest)
        ensures
            request.identity@ == identity_text(self.kind@, self.phase@, now_millis as nat),
            request.name@ == name_text(self.kind@, self.phase@),
            request.grants.is_for(role_of(self.kind@), room_for_phase(self.phase@)),
    {
        GrantRequest {
            identity: self.identity(now_millis),
            name: self.display_name(),
            grants: Role::parse(&self.kind).grants(room_name(&self.phase)),
        }
    }
}

/// Signs a grant with `AccessToken::with_api_key(..).with_identity(..)
/// .with_name(..).with_grants(..).to_jwt()`. The token carries the time of
/// signing, so nothing is said of its text. The signer refuses an empty key
/// or secret, and a grant to join that names no identity or no room; it reads
/// the clock and gives up the process if that stands before the epoch.
#[verifier::external_body]
fn sign_grants(api_key: &String, api_secret: &String, request: &GrantRequest) -> (signed: Result<
    String,
    AccessTokenError,
>)
    ensures
        api_key@.len() == 0 || api_secret@.len() == 0 ==> signed is Err,
        request.grants.room_join && (request.identity@.len() == 0 || request.grants.room@.len()
            == 0) ==> signed is Err,
{
    let mut video = VideoGrants::default();
    video.room = request.grants.room.clone();
    video.room_join = request.grants.room_join;
    video.room_admin = request.grants.room_admin;
    video.can_publish = request.grants.can_publish;
    video.can_subscribe = request.grants.can_subscribe;
    video.can_publish_data = request.grants.can_publish_data;
    video.can_update_own_metadata = request.grants.can_update_own_metadata;
    AccessToken::with_api_key(api_key, api_secret)
        .with_identity(&request.identity)
        .with_name(&request.name)
        .with_grants(video)
        .to_jwt()
}

/// The text that answers a request, after signing: the token where signing
/// succeeded, the empty text where it failed.
pub open spec fn token_text(signed: Result<String, AccessTokenError>) -> Seq<char> {
    match signed {
        Ok(token) => token@,
        Err(_) => Seq::empty(),
    }
}

/// The answer to a request for `room`, given what the signer returned.
pub fn token_response(room: String, signed: Result<String, AccessTokenError>) -> (response:
    TokenResponse)
    ensures
        response.room@ == room@,
        response.token@ == token_text(signed),
{
    let token = match signed {
        Ok(token) => token,
        Err(_) => String::new(),
    };
    TokenResponse { token, room }
}

/// Answers a request for a token made `now_millis` milliseconds after the
/// epoch: has what `grant_request` gives signed with the configured
/// credentials, and answers with what `token_response` makes of the outcome.
/// The room is answered in any case; the token is empty when signing failed,
/// as it does with an empty key or secret.
pub fn create_token_handler(query: &TokenQuery, config: &Config, now_millis: u128) -> (response:
    TokenResponse)
    ensures
        response.room@ == room_for_phase(query.phase@),
        config.livekit_api_key@.len() == 0 || config.livekit_api_secret@.len() == 0
            ==> response.token@.len() == 0,
{
    let request = query.grant_request(now_millis);
    let signed = sign_grants(&config.livekit_api_key, &config.livekit_api_secret, &request);
    token_response(request.grants.room, signed)
}

} // verus!
