//! The handlers that wait on the database, as state machines.
//!
//! A handler starts in a [`Flow`] state together with a first [`Action`]: work
//! that the server performs (a query or a password hash) or the answer to
//! send. Session tokens are issued by the library itself, with
//! `utilities::jwt::create_token`, stamped with the clock reading that the
//! server hands in with the outcome that calls for a token. The server
//! performs the work and hands the outcome back as an [`Event`];
//! [`Flow::step`] gives the next state and action. The answer comes
//! as [`Action::Respond`], and the state is then [`Flow::Finished`].
use crate::models::palms;
use crate::models::sea_orm_active_enums::Growth;
use crate::models::users::{opt_text, Model, ModelView};
use crate::routes::users::{
    all_grown, new_palm_for, profile_of, profile_with_tree, translate_error, translated, user_detalis,
    with_tree, RequestRegisterUser, RequestRegisterUserView, UserProfileResponse,
    UserProfileResponseView, UserProfileResponseWithTree, UserProfileResponseWithTreeView,
};
use crate::utilities::errors::{
    AppError, AppErrorView, DbError, DbErrorView, BAD_REQUEST, INTERNAL_SERVER_ERROR,
};
use crate::utilities::jwt::{create_token, token_of};
use vstd::prelude::*;

verus! {

// ---------------------------------------------------------------------------
// Work, outcomes and answers
// ---------------------------------------------------------------------------

/// A user row to insert.
#[derive(Debug, PartialEq, Eq)]
pub struct NewUser {
    pub name: String,
    pub email: String,
    pub dates: i32,
    pub password: String,
    pub token: Option<String>,
}

/// A palm row to insert.
#[derive(Clone, Copy, Debug, PartialEq, Eq, Structural)]
pub struct NewPalm {
    pub dpm: i32,
    pub growth: Option<Growth>,
    pub user_id: i32,
}

/// Changes to the user row `id`: new coins, new dates, and whether its session
/// token is cleared. The other columns keep their values.
#[derive(Clone, Copy, Debug, PartialEq, Eq, Structural)]
pub struct UserChanges {
    pub id: i32,
    pub coins: Option<i32>,
    pub dates: Option<i32>,
    pub clear_token: bool,
}

/// The answer of a handler.
#[derive(Debug, PartialEq, Eq)]
pub enum Reply {
    Profile(UserProfileResponse),
    ProfileWithTree(UserProfileResponseWithTree),
    Empty,
    Failed(AppError),
}

/// What a handler asks the server for.
#[derive(Debug, PartialEq, Eq)]
pub enum Action {
    /// Hash a password for storage.
    HashPassword { password: String },
    /// Check a password against a stored hash.
    VerifyPassword { password: String, hash: String },
    /// Insert a user row.
    InsertUser(NewUser),
    /// Insert a palm row.
    InsertPalm(NewPalm),
    /// Find the user row with this e-mail address.
    FindUserByEmail { email: String },
    /// Find the palm rows of a user.
    FindPalmsByUser { user_id: i32 },
    /// Write this session token into the user row, after printing it.
    StoreToken { user_id: i32, token: String },
    /// Update a user row.
    SaveUser(UserChanges),
    /// Send the answer.
    Respond(Reply),
}

/// The outcome of the work a handler asked for.
#[derive(Debug, PartialEq, Eq)]
pub enum Event {
    PasswordHashed(Result<String, String>),
    /// The outcome of a password check, with the server's clock reading (in
    /// seconds since the Unix epoch) at that moment.
    PasswordVerified(Result<bool, AppError>, i64),
    UserInserted(Result<Model, DbError>),
    PalmInserted(Result<palms::Model, DbError>),
    UserFound(Result<Option<Model>, DbError>),
    PalmsFound(Result<Vec<palms::Model>, DbError>),
    UserSaved(Result<Model, DbError>),
}

/// Where a handler stands: which outcome it waits for, and what it keeps.
#[derive(Debug, PartialEq, Eq)]
pub enum Flow {
    CreateUserHashing { request: RequestRegisterUser, token: String },
    CreateUserInserting,
    CreateUserAddingPalm { user: Model },
    CreateUserLoadingPalms { user: Model },
    SignInFinding { password: String, secret: String },
    SignInVerifying { user: Model, secret: String },
    SignInStoringToken { user: Model, token: String },
    SignInLoadingPalms { user: Model, token: String },
    UpdateUserSaving,
    LogoutSaving,
    AddTreeInserting { user: Model },
    AddTreeLoadingPalms { user: Model },
    Finished,
}

// ---------------------------------------------------------------------------
// Views
// ---------------------------------------------------------------------------

#[verifier::ext_equal]
pub struct NewUserView {
    pub name: Seq<char>,
    pub email: Seq<char>,
    pub dates: i32,
    pub password: Seq<char>,
    pub token: Option<Seq<char>>,
}

impl View for NewUser {
    type V = NewUserView;

    open spec fn view(&self) -> NewUserView {
        NewUserView {
            name: self.name@,
            email: self.email@,
            dates: self.dates,
            password: self.password@,
            token: opt_text(self.token),
        }
    }
}

pub enum ReplyView {
    Profile(UserProfileResponseView),
    ProfileWithTree(UserProfileResponseWithTreeView),
    Empty,
    Failed(AppErrorView),
}

impl View for Reply {
    type V = ReplyView;

    open spec fn view(&self) -> ReplyView {
        match self {
            Reply::Profile(p) => ReplyView::Profile(p@),
            Reply::ProfileWithTree(p) => ReplyView::ProfileWithTree(p@),
            Reply::Empty => ReplyView::Empty,
            Reply::Failed(e) => ReplyView::Failed(e@),
        }
    }
}

pub enum ActionView {
    HashPassword { password: Seq<char> },
    VerifyPassword { password: Seq<char>, hash: Seq<char> },
    InsertUser(NewUserView),
    InsertPalm(NewPalm),
    FindUserByEmail { email: Seq<char> },
    FindPalmsByUser { user_id: i32 },
    StoreToken { user_id: i32, token: Seq<char> },
    SaveUser(UserChanges),
    Respond(ReplyView),
}

impl View for Action {
    type V = ActionView;

    open spec fn view(&self) -> ActionView {
        match self {
            Action::HashPassword { password } => ActionView::HashPassword { password: password@ },
            Action::VerifyPassword { password, hash } => ActionView::VerifyPassword {
                password: password@,
                hash: hash@,
            },
            Action::InsertUser(u) => ActionView::InsertUser(u@),
            Action::InsertPalm(p) => ActionView::InsertPalm(*p),
            Action::FindUserByEmail { email } => ActionView::FindUserByEmail { email: email@ },
            Action::FindPalmsByUser { user_id } => ActionView::FindPalmsByUser { user_id: *user_id },
            Action::StoreToken { user_id, token } => ActionView::StoreToken {
                user_id: *user_id,
                token: token@,
            },
            Action::SaveUser(c) => ActionView::SaveUser(*c),
            Action::Respond(r) => ActionView::Respond(r@),
        }
    }
}

pub enum EventView {
    PasswordHashed(Result<Seq<char>, Seq<char>>),
    PasswordVerified(Result<bool, AppErrorView>, i64),
    UserInserted(Result<ModelView, DbErrorView>),
    PalmInserted(Result<palms::Model, DbErrorView>),
    UserFound(Result<Option<ModelView>, DbErrorView>),
    PalmsFound(Result<Seq<palms::Model>, DbErrorView>),
    UserSaved(Result<ModelView, DbErrorView>),
}

pub open spec fn text_result(r: Result<String, String>) -> Result<Seq<char>, Seq<char>> {
    match r {
        Ok(t) => Ok(t@),
        Err(e) => Err(e@),
    }
}

pub open spec fn check_result(r: Result<bool, AppError>) -> Result<bool, AppErrorView> {
    match r {
        Ok(b) => Ok(b),
        Err(e) => Err(e@),
    }
}

pub open spec fn row_result(r: Result<Model, DbError>) -> Result<ModelView, DbErrorView> {
    match r {
        Ok(m) => Ok(m@),
        Err(e) => Err(e@),
    }
}

pub open spec fn palm_result(r: Result<palms::Model, DbError>) -> Result<palms::Model, DbErrorView> {
    match r {
        Ok(p) => Ok(p),
        Err(e) => Err(e@),
    }
}

pub open spec fn found_result(r: Result<Option<Model>, DbError>) -> Result<
    Option<ModelView>,
    DbErrorView,
> {
    match r {
        Ok(Some(m)) => Ok(Some(m@)),
        Ok(None) => Ok(None),
        Err(e) => Err(e@),
    }
}

pub open spec fn palms_result(r: Result<Vec<palms::Model>, DbError>) -> Result<
    Seq<palms::Model>,
    DbErrorView,
> {
    match r {
        Ok(ps) => Ok(ps@),
        Err(e) => Err(e@),
    }
}

impl View for Event {
    type V = EventView;

    open spec fn view(&self) -> EventView {
        match self {
            Event::PasswordHashed(r) => EventView::PasswordHashed(text_result(*r)),
            Event::PasswordVerified(r, now) => EventView::PasswordVerified(check_result(*r), *now),
            Event::UserInserted(r) => EventView::UserInserted(row_result(*r)),
            Event::PalmInserted(r) => EventView::PalmInserted(palm_result(*r)),
            Event::UserFound(r) => EventView::UserFound(found_result(*r)),
            Event::PalmsFound(r) => EventView::PalmsFound(palms_result(*r)),
            Event::UserSaved(r) => EventView::UserSaved(row_result(*r)),
        }
    }
}

pub enum FlowView {
    CreateUserHashing { request: RequestRegisterUserView, token: Seq<char> },
    CreateUserInserting,
    CreateUserAddingPalm { user: ModelView },
    CreateUserLoadingPalms { user: ModelView },
    SignInFinding { password: Seq<char>, secret: Seq<char> },
    SignInVerifying { user: ModelView, secret: Seq<char> },
    SignInStoringToken { user: ModelView, token: Seq<char> },
    SignInLoadingPalms { user: ModelView, token: Seq<char> },
    UpdateUserSaving,
    LogoutSaving,
    AddTreeInserting { user: ModelView },
    AddTreeLoadingPalms { user: ModelView },
    Finished,
}

impl View for Flow {
    type V = FlowView;

    open spec fn view(&self) -> FlowView {
        match self {
            Flow::CreateUserHashing { request, token } => FlowView::CreateUserHashing {
                request: request@,
                token: token@,
            },
            Flow::CreateUserInserting => FlowView::CreateUserInserting,
            Flow::CreateUserAddingPalm { user } => FlowView::CreateUserAddingPalm { user: user@ },
            Flow::CreateUserLoadingPalms { user } => FlowView::CreateUserLoadingPalms { user: user@ },
            Flow::SignInFinding { password, secret } => FlowView::SignInFinding {
                password: password@,
                secret: secret@,
            },
            Flow::SignInVerifying { user, secret } => FlowView::SignInVerifying {
                user: user@,
                secret: secret@,
            },
            Flow::SignInStoringToken { user, token } => FlowView::SignInStoringToken {
                user: user@,
                token: token@,
            },
            Flow::SignInLoadingPalms { user, token } => FlowView::SignInLoadingPalms {
                user: user@,
                token: token@,
            },
            Flow::UpdateUserSaving => FlowView::UpdateUserSaving,
            Flow::LogoutSaving => FlowView::LogoutSaving,
            Flow::AddTreeInserting { user } => FlowView::AddTreeInserting { user: user@ },
            Flow::AddTreeLoadingPalms { user } => FlowView::AddTreeLoadingPalms { user: user@ },
            Flow::Finished => FlowView::Finished,
        }
    }
}

// ---------------------------------------------------------------------------
// The transitions
// ---------------------------------------------------------------------------

/// The answer to an unknown e-mail address or a wrong password.
pub open spec fn incorrect_credentials() -> AppErrorView {
    AppErrorView { code: BAD_REQUEST, message: "incorrect email and/or password"@ }
}

/// The answer when the user lookup of a sign-in fails.
pub open spec fn lookup_failed() -> AppErrorView {
    AppErrorView {
        code: INTERNAL_SERVER_ERROR,
        message: "Internal Server error please try again later"@,
    }
}

/// A server error with this message.
pub open spec fn server_error(message: Seq<char>) -> AppErrorView {
    AppErrorView { code: INTERNAL_SERVER_ERROR, message }
}

/// The end of a handler: it answers and is finished.
pub open spec fn answer(reply: ReplyView) -> (FlowView, ActionView) {
    (FlowView::Finished, ActionView::Respond(reply))
}

/// The text of an optional token, the empty text when there is none.
pub open spec fn token_or_empty(token: Option<Seq<char>>) -> Seq<char> {
    match token {
        Some(t) => t,
        None => Seq::empty(),
    }
}

/// Whether `event` is the outcome that `flow` waits for, and not one on which
/// the handler gives up by panicking: a failed insert of a new account's first
/// palm, or a palm row without a growth stage.
pub open spec fn accepts(flow: FlowView, event: EventView) -> bool {
    match (flow, event) {
        (FlowView::CreateUserHashing { .. }, EventView::PasswordHashed(_)) => true,
        (FlowView::CreateUserInserting, EventView::UserInserted(_)) => true,
        (FlowView::CreateUserAddingPalm { .. }, EventView::PalmInserted(r)) => r is Ok,
        (FlowView::CreateUserLoadingPalms { .. }, EventView::PalmsFound(r)) => match r {
            Ok(rows) => all_grown(rows),
            Err(_) => true,
        },
        (FlowView::SignInFinding { .. }, EventView::UserFound(_)) => true,
        (FlowView::SignInVerifying { .. }, EventView::PasswordVerified(..)) => true,
        (FlowView::SignInStoringToken { .. }, EventView::UserSaved(_)) => true,
        (FlowView::SignInLoadingPalms { .. }, EventView::PalmsFound(r)) => match r {
            Ok(rows) => all_grown(rows),
            Err(_) => true,
        },
        (FlowView::UpdateUserSaving, EventView::UserSaved(_)) => true,
        (FlowView::LogoutSaving, EventView::UserSaved(_)) => true,
        (FlowView::AddTreeInserting { .. }, EventView::PalmInserted(_)) => true,
        (FlowView::AddTreeLoadingPalms { .. }, EventView::PalmsFound(r)) => match r {
            Ok(rows) => all_grown(rows),
            Err(_) => true,
        },
        _ => false,
    }
}

/// The next state and action of `flow` on `event` (where `accepts(flow, event)`).
/// A sign-in whose password checks issues a session token for the user's
/// e-mail address, signed with the server's secret and stamped with the clock
/// reading that came with the check.
pub open spec fn next(flow: FlowView, event: EventView) -> (FlowView, ActionView) {
    match (flow, event) {
        // Creating an account (its token is issued at the start): hash, user
        // row, first palm, palms, answer.
        (FlowView::CreateUserHashing { request, token }, EventView::PasswordHashed(r)) => match r {
            Ok(hash) => (
                FlowView::CreateUserInserting,
                ActionView::InsertUser(
                    NewUserView {
                        name: request.name,
                        email: request.email,
                        dates: request.dates,
                        password: hash,
                        token: Some(token),
                    },
                ),
            ),
            Err(message) => answer(ReplyView::Failed(server_error(message))),
        },
        (FlowView::CreateUserInserting, EventView::UserInserted(r)) => match r {
            Ok(user) => (
                FlowView::CreateUserAddingPalm { user },
                ActionView::InsertPalm(new_palm_for(user.id)),
            ),
            Err(e) => answer(ReplyView::Failed(translated(e))),
        },
        (FlowView::CreateUserAddingPalm { user }, EventView::PalmInserted(Ok(_))) => (
            FlowView::CreateUserLoadingPalms { user },
            ActionView::FindPalmsByUser { user_id: user.id },
        ),
        (FlowView::CreateUserLoadingPalms { user }, EventView::PalmsFound(r)) => match r {
            Ok(rows) => answer(
                ReplyView::ProfileWithTree(
                    profile_with_tree(user, Some(token_or_empty(user.token)), rows),
                ),
            ),
            Err(e) => answer(ReplyView::Failed(translated(e))),
        },
        // Signing in: user row, password check, token issued and stored, palms, answer.
        (FlowView::SignInFinding { password, secret }, EventView::UserFound(r)) => match r {
            Ok(Some(user)) => (
                FlowView::SignInVerifying { user, secret },
                ActionView::VerifyPassword { password, hash: user.password },
            ),
            Ok(None) => answer(ReplyView::Failed(incorrect_credentials())),
            Err(_) => answer(ReplyView::Failed(lookup_failed())),
        },
        (FlowView::SignInVerifying { user, secret }, EventView::PasswordVerified(r, now)) => match r {
            Ok(true) => {
                let token = token_of(secret, user.email, now as int);
                (
                    FlowView::SignInStoringToken { user, token },
                    ActionView::StoreToken { user_id: user.id, token },
                )
            },
            Ok(false) => answer(ReplyView::Failed(incorrect_credentials())),
            Err(e) => answer(ReplyView::Failed(e)),
        },
        (FlowView::SignInStoringToken { user, token }, EventView::UserSaved(r)) => match r {
            Ok(_) => (
                FlowView::SignInLoadingPalms { user, token },
                ActionView::FindPalmsByUser { user_id: user.id },
            ),
            Err(e) => answer(ReplyView::Failed(server_error(e.text()))),
        },
        (FlowView::SignInLoadingPalms { user, token }, EventView::PalmsFound(r)) => match r {
            Ok(rows) => answer(ReplyView::ProfileWithTree(profile_with_tree(user, Some(token), rows))),
            Err(e) => answer(ReplyView::Failed(translated(e))),
        },
        // Updating coins and dates.
        (FlowView::UpdateUserSaving, EventView::UserSaved(r)) => match r {
            Ok(saved) => answer(ReplyView::Profile(profile_of(saved))),
            Err(e) => answer(ReplyView::Failed(server_error(e.text()))),
        },
        // Signing out.
        (FlowView::LogoutSaving, EventView::UserSaved(r)) => match r {
            Ok(_) => answer(ReplyView::Empty),
            Err(e) => answer(ReplyView::Failed(server_error(e.text()))),
        },
        // Adding a palm tree.
        (FlowView::AddTreeInserting { user }, EventView::PalmInserted(r)) => match r {
            Ok(_) => (
                FlowView::AddTreeLoadingPalms { user },
                ActionView::FindPalmsByUser { user_id: user.id },
            ),
            Err(e) => answer(ReplyView::Failed(server_error(e.text()))),
        },
        (FlowView::AddTreeLoadingPalms { user }, EventView::PalmsFound(r)) => match r {
            Ok(rows) => answer(ReplyView::ProfileWithTree(profile_with_tree(user, None, rows))),
            Err(e) => answer(ReplyView::Failed(translated(e))),
        },
        _ => answer(ReplyView::Empty),
    }
}

/// The row that `changes` make of `row`: the coins and the dates they name
/// replace the row's, the token is cleared when they say so, and every other
/// column keeps its value. This is what the server's save of
/// [`Action::SaveUser`] is to do to the row: the server's update sets the
/// named columns and no others. Nothing here holds the server to it, so what
/// is proved over `changed_row` holds of the stored row only where the server
/// saves this way.
pub open spec fn changed_row(row: ModelView, changes: UserChanges) -> ModelView {
    ModelView {
        id: row.id,
        name: row.name,
        email: row.email,
        password: row.password,
        token: if changes.clear_token {
            None
        } else {
            row.token
        },
        coins: match changes.coins {
            Some(c) => c,
            None => row.coins,
        },
        dates: match changes.dates {
            Some(d) => d,
            None => row.dates,
        },
    }
}

/// How many outcomes a handler in this state still waits for, at most.
pub open spec fn remaining(flow: FlowView) -> nat {
    match flow {
        FlowView::CreateUserHashing { .. } => 4,
        FlowView::CreateUserInserting => 3,
        FlowView::CreateUserAddingPalm { .. } => 2,
        FlowView::CreateUserLoadingPalms { .. } => 1,
        FlowView::SignInFinding { .. } => 4,
        FlowView::SignInVerifying { .. } => 3,
        FlowView::SignInStoringToken { .. } => 2,
        FlowView::SignInLoadingPalms { .. } => 1,
        FlowView::UpdateUserSaving => 1,
        FlowView::LogoutSaving => 1,
        FlowView::AddTreeInserting { .. } => 2,
        FlowView::AddTreeLoadingPalms { .. } => 1,
        FlowView::Finished => 0,
    }
}

// ---------------------------------------------------------------------------
// Executable transitions
// ---------------------------------------------------------------------------

fn answer_with(reply: Reply) -> (r: (Flow, Action))
    ensures
        (r.0@, r.1@) == answer(reply@),
{
    (Flow::Finished, Action::Respond(reply))
}

fn failed_with(code: u16, message: String) -> (r: (Flow, Action))
    ensures
        (r.0@, r.1@) == answer(ReplyView::Failed(AppErrorView { code, message: message@ })),
{
    answer_with(Reply::Failed(AppError::new(code, message)))
}

fn incorrect_credentials_error() -> (e: AppError)
    ensures
        e@ == incorrect_credentials(),
{
    AppError::new(BAD_REQUEST, "incorrect email and/or password".to_owned())
}

fn lookup_failed_error() -> (e: AppError)
    ensures
        e@ == lookup_failed(),
{
    AppError::new(INTERNAL_SERVER_ERROR, "Internal Server error please try again later".to_owned())
}

fn palms_or_error(
    user: Model,
    token: Option<String>,
    r: Result<Vec<palms::Model>, DbError>,
) -> (out: (Flow, Action))
    requires
        r matches Ok(rows) ==> all_grown(rows@),
    ensures
        (out.0@, out.1@) == match palms_result(r) {
            Ok(rows) => answer(
                ReplyView::ProfileWithTree(profile_with_tree(user@, opt_text(token), rows)),
            ),
            Err(e) => answer(ReplyView::Failed(translated(e))),
        },
{
    match r {
        Ok(rows) => answer_with(Reply::ProfileWithTree(with_tree(user, token, rows))),
        Err(e) => answer_with(Reply::Failed(translate_error(e))),
    }
}

impl Flow {
    /// Whether `event` is an outcome that this state accepts.
    pub fn accepts(&self, event: &Event) -> (b: bool)
        ensures
            b == accepts(self@, event@),
    {
        match (self, event) {
            (Flow::CreateUserHashing { .. }, Event::PasswordHashed(_)) => true,
            (Flow::CreateUserInserting, Event::UserInserted(_)) => true,
            (Flow::CreateUserAddingPalm { .. }, Event::PalmInserted(r)) => r.is_ok(),
            (Flow::CreateUserLoadingPalms { .. }, Event::PalmsFound(r)) => all_rows_grown(r),
            (Flow::SignInFinding { .. }, Event::UserFound(_)) => true,
            (Flow::SignInVerifying { .. }, Event::PasswordVerified(..)) => true,
            (Flow::SignInStoringToken { .. }, Event::UserSaved(_)) => true,
            (Flow::SignInLoadingPalms { .. }, Event::PalmsFound(r)) => all_rows_grown(r),
            (Flow::UpdateUserSaving, Event::UserSaved(_)) => true,
            (Flow::LogoutSaving, Event::UserSaved(_)) => true,
            (Flow::AddTreeInserting { .. }, Event::PalmInserted(_)) => true,
            (Flow::AddTreeLoadingPalms { .. }, Event::PalmsFound(r)) => all_rows_grown(r),
            _ => false,
        }
    }

    /// The next state and action on `event`. A sign-in whose password checks
    /// gets its session token here.
    pub fn step(self, event: Event) -> (r: (Flow, Action))
        requires
            accepts(self@, event@),
        ensures
            (r.0@, r.1@) == next(self@, event@),
            remaining(r.0@) < remaining(self@),
            r.1 is Respond <==> r.0 is Finished,
    {
        match (self, event) {
            (Flow::CreateUserHashing { request, token }, Event::PasswordHashed(r)) => match r {
                Ok(hash) => (
                    Flow::CreateUserInserting,
                    Action::InsertUser(
                        NewUser {
                            name: request.name,
                            email: request.email,
                            dates: request.dates,
                            password: hash,
                            token: Some(token),
                        },
                    ),
                ),
                Err(message) => failed_with(INTERNAL_SERVER_ERROR, message),
            },
            (Flow::CreateUserInserting, Event::UserInserted(r)) => match r {
                Ok(user) => {
                    let user_id = user.id;
                    (
                        Flow::CreateUserAddingPalm { user },
                        Action::InsertPalm(
                            NewPalm { dpm: 3, growth: Some(Growth::Adult), user_id },
                        ),
                    )
                },
                Err(e) => answer_with(Reply::Failed(translate_error(e))),
            },
            (Flow::CreateUserAddingPalm { user }, Event::PalmInserted(_)) => {
                let user_id = user.id;
                (Flow::CreateUserLoadingPalms { user }, Action::FindPalmsByUser { user_id })
            },
            (Flow::CreateUserLoadingPalms { user }, Event::PalmsFound(r)) => {
                let token = match &user.token {
                    Some(t) => t.clone(),
                    None => String::new(),
                };
                palms_or_error(user, Some(token), r)
            },
            (Flow::SignInFinding { password, secret }, Event::UserFound(r)) => match r {
                Ok(Some(user)) => {
                    let hash = user.password.clone();
                    (Flow::SignInVerifying { user, secret }, Action::VerifyPassword { password, hash })
                },
                Ok(None) => answer_with(Reply::Failed(incorrect_credentials_error())),
                Err(_) => answer_with(Reply::Failed(lookup_failed_error())),
            },
            (Flow::SignInVerifying { user, secret }, Event::PasswordVerified(r, now)) => match r {
                Ok(true) => {
                    let token = issued_token(secret.as_str(), user.email.as_str(), now);
                    let user_id = user.id;
                    let stored = token.clone();
                    (
                        Flow::SignInStoringToken { user, token },
                        Action::StoreToken { user_id, token: stored },
                    )
                },
                Ok(false) => answer_with(Reply::Failed(incorrect_credentials_error())),
                Err(e) => answer_with(Reply::Failed(e)),
            },
            (Flow::SignInStoringToken { user, token }, Event::UserSaved(r)) => match r {
                Ok(_) => {
                    let user_id = user.id;
                    (Flow::SignInLoadingPalms { user, token }, Action::FindPalmsByUser { user_id })
                },
                Err(e) => failed_with(INTERNAL_SERVER_ERROR, e.text()),
            },
            (Flow::SignInLoadingPalms { user, token }, Event::PalmsFound(r)) => {
                palms_or_error(user, Some(token), r)
            },
            (Flow::UpdateUserSaving, Event::UserSaved(r)) => match r {
                Ok(saved) => answer_with(Reply::Profile(user_detalis(saved))),
                Err(e) => failed_with(INTERNAL_SERVER_ERROR, e.text()),
            },
            (Flow::LogoutSaving, Event::UserSaved(r)) => match r {
                Ok(_) => answer_with(Reply::Empty),
                Err(e) => failed_with(INTERNAL_SERVER_ERROR, e.text()),
            },
            (Flow::AddTreeInserting { user }, Event::PalmInserted(r)) => match r {
                Ok(_) => {
                    let user_id = user.id;
                    (Flow::AddTreeLoadingPalms { user }, Action::FindPalmsByUser { user_id })
                },
                Err(e) => failed_with(INTERNAL_SERVER_ERROR, e.text()),
            },
            (Flow::AddTreeLoadingPalms { user }, Event::PalmsFound(r)) => {
                palms_or_error(user, None, r)
            },
            _ => {
                assert(false);
                answer_with(Reply::Empty)
            },
        }
    }
}

/// The session token for `username` at second `now`, signed with `secret`.
pub fn issued_token(secret: &str, username: &str, now: i64) -> (token: String)
    ensures
        token@ == token_of(secret@, username@, now as int),
{
    match create_token(secret, username, now) {
        Ok(token) => token,
        Err(_) => {
            assert(false);
            String::new()
        },
    }
}

/// Whether a palm lookup failed or found only rows with a growth stage.
fn all_rows_grown(r: &Result<Vec<palms::Model>, DbError>) -> (b: bool)
    ensures
        b == match palms_result(*r) {
            Ok(rows) => all_grown(rows),
            Err(_) => true,
        },
{
    match r {
        Ok(rows) => {
            let n = rows.len();
            let mut i: usize = 0;
            while i < n
                invariant
                    n == rows@.len(),
                    i <= n,
                    palms_result(*r) == Ok::<Seq<palms::Model>, DbErrorView>(rows@),
                    forall|j: int| 0 <= j < i ==> (#[trigger] rows@[j]).growth is Some,
                decreases n - i,
            {
                if rows[i].growth.is_none() {
                    assert(!(rows@[i as int].growth is Some));
                    assert(!all_grown(rows@));
                    return false;
                }
                i = i + 1;
            }
            true
        },
        Err(_) => true,
    }
}

} // verus!
