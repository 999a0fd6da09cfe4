//! The users API: its request and response bodies, and the entry points of
//! its handlers. Handlers that wait on the database start a [`Flow`] that the
//! server drives (see `routes::flow`); the others answer at once.
use crate::models::palms;
use crate::models::sea_orm_active_enums::Growth;
use crate::models::users::{opt_text, Model, ModelView};
use crate::routes::flow::{issued_token, Action, ActionView, Flow, FlowView, NewPalm, UserChanges};
use crate::utilities::jwt::token_of;
use crate::utilities::errors::{AppError, AppErrorView, DbError, DbErrorView, INTERNAL_SERVER_ERROR};
use vstd::prelude::*;

verus! {

// ---------------------------------------------------------------------------
// Bodies
// ---------------------------------------------------------------------------
#[derive(Debug, PartialEq, Eq)]
pub struct UserResponse {
    pub data: User,
}

/// A user's profile.
#[derive(Debug, PartialEq, Eq)]
pub struct UserProfileResponse {
    pub id: i32,
    pub name: String,
    pub email: String,
    pub dates: i32,
    pub coins: i32,
}

/// A user's profile with the user's session token and palm trees.
#[derive(Debug, PartialEq, Eq)]
pub struct UserProfileResponseWithTree {
    pub id: i32,
    pub name: String,
    pub email: String,
    pub dates: i32,
    pub coins: i32,
    pub token: Option<String>,
    pub palms: Vec<Palm>,
}
#[derive(Debug, PartialEq, Eq)]
pub struct User {
    pub id: i32,
    pub name: String,
    pub email: String,
    pub dates: i32,
    pub coins: i32,
    pub token: String,
}

/// A palm tree as the API shows it: its growth stage is always known.
#[derive(Clone, Copy, Debug, PartialEq, Eq, Structural)]
pub struct Palm {
    pub id: i32,
    pub dpm: i32,
    pub growth: Growth,
    pub user_id: i32,
}

/// Credentials of a sign-in.
#[derive(Debug, PartialEq, Eq)]
pub struct RequestUser {
    pub email: String,
    pub password: String,
}

/// A new account.
#[derive(Debug, PartialEq, Eq)]
pub struct RequestRegisterUser {
    pub name: String,
    pub email: String,
    pub dates: i32,
    pub password: String,
}

#[derive(Clone, Copy, Debug, PartialEq, Eq, Structural)]
pub struct Coins {
    pub number: i32,
}

#[derive(Clone, Copy, Debug, PartialEq, Eq, Structural)]
pub struct Dates {
    pub number: i32,
}

/// New values for a user's coins and dates; an absent one stays as it is.
#[derive(Clone, Copy, Debug, PartialEq, Eq, Structural)]
pub struct RequestUpdate {
    pub coins: Option<Coins>,
    pub dates: Option<Dates>,
}

/// A palm tree asked for.
#[derive(Clone, Copy, Debug, PartialEq, Eq, Structural)]
pub struct RequestTree {
    pub dpm: i32,
    pub growth: Growth,
}

// ---------------------------------------------------------------------------
// Views
// ---------------------------------------------------------------------------

#[verifier::ext_equal]
pub struct UserProfileResponseView {
    pub id: i32,
    pub name: Seq<char>,
    pub email: Seq<char>,
    pub dates: i32,
    pub coins: i32,
}

impl View for UserProfileResponse {
    type V = UserProfileResponseView;

    open spec fn view(&self) -> UserProfileResponseView {
        UserProfileResponseView {
            id: self.id,
            name: self.name@,
            email: self.email@,
            dates: self.dates,
            coins: self.coins,
        }
    }
}

#[verifier::ext_equal]
pub struct UserProfileResponseWithTreeView {
    pub id: i32,
    pub name: Seq<char>,
    pub email: Seq<char>,
    pub dates: i32,
    pub coins: i32,
    pub token: Option<Seq<char>>,
    pub palms: Seq<Palm>,
}

impl View for UserProfileResponseWithTree {
    type V = UserProfileResponseWithTreeView;

    open spec fn view(&self) -> UserProfileResponseWithTreeView {
        UserProfileResponseWithTreeView {
            id: self.id,
            name: self.name@,
            email: self.email@,
            dates: self.dates,
            coins: self.coins,
            token: opt_text(self.token),
            palms: self.palms@,
        }
    }
}

#[verifier::ext_equal]
pub struct RequestUserView {
    pub email: Seq<char>,
    pub password: Seq<char>,
}

impl View for RequestUser {
    type V = RequestUserView;

    open spec fn view(&self) -> RequestUserView {
        RequestUserView { email: self.email@, password: self.password@ }
    }
}

#[verifier::ext_equal]
pub struct RequestRegisterUserView {
    pub name: Seq<char>,
    pub email: Seq<char>,
    pub dates: i32,
    pub password: Seq<char>,
}

impl View for RequestRegisterUser {
    type V = RequestRegisterUserView;

    open spec fn view(&self) -> RequestRegisterUserView {
        RequestRegisterUserView {
            name: self.name@,
            email: self.email@,
            dates: self.dates,
            password: self.password@,
        }
    }
}

// ---------------------------------------------------------------------------
// What the handlers compute
// ---------------------------------------------------------------------------

/// The profile of a user row.
pub open spec fn profile_of(user: ModelView) -> UserProfileResponseView {
    UserProfileResponseView {
        id: user.id,
        name: user.name,
        email: user.email,
        dates: user.dates,
        coins: user.coins,
    }
}

/// Whether every palm has a growth stage.
pub open spec fn all_grown(palms: Seq<palms::Model>) -> bool {
    forall|i: int| 0 <= i < palms.len() ==> (#[trigger] palms[i]).growth is Some
}

/// A palm row as the API shows it.
pub open spec fn palm_of(p: palms::Model) -> Palm {
    Palm { id: p.id, dpm: p.dpm, growth: p.growth.unwrap(), user_id: p.user_id }
}

/// The profile of a user row with a token and the user's palms.
pub open spec fn profile_with_tree(
    user: ModelView,
    token: Option<Seq<char>>,
    palms: Seq<palms::Model>,
) -> UserProfileResponseWithTreeView {
    UserProfileResponseWithTreeView {
        id: user.id,
        name: user.name,
        email: user.email,
        dates: user.dates,
        coins: user.coins,
        token,
        palms: palms.map_values(|p: palms::Model| palm_of(p)),
    }
}

/// The answer to a failed database operation: always a server error, whose
/// message is the driver's error for a failed query and the whole error
/// otherwise.
pub open spec fn translated(error: DbErrorView) -> AppErrorView {
    match error {
        DbErrorView::Query { query_error, .. } => AppErrorView {
            code: INTERNAL_SERVER_ERROR,
            message: query_error,
        },
        DbErrorView::Other { error } => AppErrorView { code: INTERNAL_SERVER_ERROR, message: error },
    }
}

/// The palm tree that a user gets with a new account and with each tree asked
/// for: three dates per minute, adult.
pub open spec fn new_palm_for(user_id: i32) -> NewPalm {
    NewPalm { dpm: 3, growth: Some(Growth::Adult), user_id }
}

/// The profile of a user.
pub fn user_detalis(user: Model) -> (profile: UserProfileResponse)
    ensures
        profile@ == profile_of(user@),
{
    UserProfileResponse {
        id: user.id,
        name: user.name,
        email: user.email,
        dates: user.dates,
        coins: user.coins,
    }
}

/// The answer to a failed database operation.
pub fn translate_error(error: DbError) -> (answer: AppError)
    ensures
        answer@ == translated(error@),
{
    match error {
        DbError::Query { query_error, .. } => AppError::new(INTERNAL_SERVER_ERROR, query_error),
        DbError::Other { error } => AppError::new(INTERNAL_SERVER_ERROR, error),
    }
}

/// A palm row as the API shows it.
pub fn to_palm(p: palms::Model) -> (palm: Palm)
    requires
        p.growth is Some,
    ensures
        palm == palm_of(p),
{
    Palm { id: p.id, dpm: p.dpm, growth: p.growth.unwrap(), user_id: p.user_id }
}

/// Palm rows as the API shows them.
pub fn palms_json(rows: Vec<palms::Model>) -> (palms: Vec<Palm>)
    requires
        all_grown(rows@),
    ensures
        palms@ == rows@.map_values(|p: palms::Model| palm_of(p)),
{
    let mut palms: Vec<Palm> = Vec::new();
    let n = rows.len();
    let mut i: usize = 0;
    while i < n
        invariant
            n == rows@.len(),
            i <= n,
            all_grown(rows@),
            palms@ == rows@.take(i as int).map_values(|p: palms::Model| palm_of(p)),
        decreases n - i,
    {
        let row = rows[i];
        assert(rows@[i as int].growth is Some);
        palms.push(to_palm(row));
        proof {
            assert(rows@.take(i + 1) =~= rows@.take(i as int).push(row));
            assert(rows@.take(i + 1).map_values(|p: palms::Model| palm_of(p)) =~= rows@.take(
                i as int,
            ).map_values(|p: palms::Model| palm_of(p)).push(palm_of(row)));
        }
        i = i + 1;
    }
    proof {
        assert(rows@.take(n as int) =~= rows@);
    }
    palms
}

/// The profile of a user row with a token and the user's palms.
pub fn with_tree(user: Model, token: Option<String>, rows: Vec<palms::Model>) -> (response:
    UserProfileResponseWithTree)
    requires
        all_grown(rows@),
    ensures
        response@ == profile_with_tree(user@, opt_text(token), rows@),
{
    UserProfileResponseWithTree {
        id: user.id,
        name: user.name,
        email: user.email,
        dates: user.dates,
        coins: user.coins,
        token,
        palms: palms_json(rows),
    }
}

// ---------------------------------------------------------------------------
// Handlers
// ---------------------------------------------------------------------------

/// How account creation starts: it issues a session token for the new e-mail
/// address, signed with `secret` and stamped with the clock reading `now`,
/// and asks for the password's hash.
pub open spec fn create_user_start(
    secret: Seq<char>,
    request: RequestRegisterUserView,
    now: int,
) -> (FlowView, ActionView) {
    (
        FlowView::CreateUserHashing { request, token: token_of(secret, request.email, now) },
        ActionView::HashPassword { password: request.password },
    )
}

/// How a sign-in starts: it looks the e-mail address up, keeping the
/// password and the secret that signs its token.
pub open spec fn sign_in_start(secret: Seq<char>, request: RequestUserView) -> (FlowView, ActionView) {
    (
        FlowView::SignInFinding { password: request.password, secret },
        ActionView::FindUserByEmail { email: request.email },
    )
}

/// The changes that an update asks for: the coins and the dates it names.
pub open spec fn requested_changes(user_id: i32, request: RequestUpdate) -> UserChanges {
    UserChanges {
        id: user_id,
        coins: match request.coins {
            Some(c) => Some(c.number),
            None => None,
        },
        dates: match request.dates {
            Some(d) => Some(d.number),
            None => None,
        },
        clear_token: false,
    }
}

/// How an update starts: it saves the requested changes.
pub open spec fn update_user_start(user: ModelView, request: RequestUpdate) -> (FlowView, ActionView) {
    (FlowView::UpdateUserSaving, ActionView::SaveUser(requested_changes(user.id, request)))
}

/// How a sign-out starts: it clears the user's session token.
pub open spec fn logout_start(user: ModelView) -> (FlowView, ActionView) {
    (
        FlowView::LogoutSaving,
        ActionView::SaveUser(UserChanges { id: user.id, coins: None, dates: None, clear_token: true }),
    )
}

/// How adding a palm tree starts: it inserts the standard palm for the user.
pub open spec fn add_tree_start(user: ModelView) -> (FlowView, ActionView) {
    (FlowView::AddTreeInserting { user }, ActionView::InsertPalm(new_palm_for(user.id)))
}

/// Creates an account; its session token is signed with `secret` and stamped
/// with `now`, the server's clock reading in seconds since the Unix epoch.
pub fn create_user(secret: &str, request: RequestRegisterUser, now: i64) -> (r: (Flow, Action))
    ensures
        (r.0@, r.1@) == create_user_start(secret@, request@, now as int),
{
    let token = issued_token(secret, request.email.as_str(), now);
    let password = request.password.clone();
    (Flow::CreateUserHashing { request, token }, Action::HashPassword { password })
}

/// Signs a user in; the session token it issues is signed with `secret`.
pub fn sign_in(secret: &str, request: RequestUser) -> (r: (Flow, Action))
    ensures
        (r.0@, r.1@) == sign_in_start(secret@, request@),
{
    (
        Flow::SignInFinding { password: request.password, secret: secret.to_owned() },
        Action::FindUserByEmail { email: request.email },
    )
}

/// Sets the coins and the dates of the signed-in user, as far as the request
/// names them.
pub fn update_user(user: Model, request: RequestUpdate) -> (r: (Flow, Action))
    ensures
        (r.0@, r.1@) == update_user_start(user@, request),
{
    let coins = match request.coins {
        Some(c) => Some(c.number),
        None => None,
    };
    let dates = match request.dates {
        Some(d) => Some(d.number),
        None => None,
    };
    (
        Flow::UpdateUserSaving,
        Action::SaveUser(UserChanges { id: user.id, coins, dates, clear_token: false }),
    )
}

/// Signs the signed-in user out.
pub fn logout(user: Model) -> (r: (Flow, Action))
    ensures
        (r.0@, r.1@) == logout_start(user@),
{
    (
        Flow::LogoutSaving,
        Action::SaveUser(UserChanges { id: user.id, coins: None, dates: None, clear_token: true }),
    )
}

/// Gives the signed-in user a new palm tree. The tree is always the standard
/// one: the request's stage and rate are not read.
pub fn add_tree(user: Model, request_tree: RequestTree) -> (r: (Flow, Action))
    ensures
        (r.0@, r.1@) == add_tree_start(user@),
{
    let user_id = user.id;
    (
        Flow::AddTreeInserting { user },
        Action::InsertPalm(NewPalm { dpm: 3, growth: Some(Growth::Adult), user_id }),
    )
}

} // verus!
