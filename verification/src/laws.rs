//! Properties of the handlers that hold across calls.
use crate::models::palms;
use crate::models::sea_orm_active_enums::Growth;
use crate::models::users::ModelView;
use crate::routes::flow::{
    accepts, answer, changed_row, incorrect_credentials, next, remaining, ActionView, EventView,
    FlowView, NewPalm, NewUserView, ReplyView, UserChanges,
};
use crate::routes::users::{
    add_tree_start, all_grown, create_user_start, logout_start, new_palm_for, profile_of,
    profile_with_tree, requested_changes, sign_in_start, update_user_start,
    Palm, RequestRegisterUserView, RequestUpdate, RequestUserView, UserProfileResponseView,
    UserProfileResponseWithTreeView,
};
use crate::utilities::errors::{AppErrorView, DbErrorView, BAD_REQUEST, INTERNAL_SERVER_ERROR};
use crate::utilities::jwt::token_of;
use vstd::prelude::*;

verus! {

/// Every accepted outcome brings a handler closer to its answer: the number
/// of outcomes it may still wait for goes down, and it answers exactly when
/// it finishes. So every handler answers after at most four outcomes.
pub proof fn handlers_always_answer(flow: FlowView, event: EventView)
    requires
        accepts(flow, event),
    ensures
        remaining(next(flow, event).0) < remaining(flow),
        next(flow, event).1 is Respond <==> next(flow, event).0 is Finished,
        remaining(flow) <= 4,
{
}

/// A finished handler waits for nothing.
pub proof fn finished_accepts_nothing(event: EventView)
    ensures
        !accepts(FlowView::Finished, event),
{
}

/// A sign-in with an unknown e-mail address and one with a wrong password are
/// answered alike: status 400, "incorrect email and/or password". The answer
/// does not tell which of the two it was.
pub proof fn refused_sign_ins_look_alike(
    secret: Seq<char>,
    request: RequestUserView,
    user: ModelView,
    now: i64,
)
    ensures
        next(sign_in_start(secret, request).0, EventView::UserFound(Ok(None))) == next(
            FlowView::SignInVerifying { user, secret },
            EventView::PasswordVerified(Ok(false), now)
        ),
        next(sign_in_start(secret, request).0, EventView::UserFound(Ok(None))) == answer(
            ReplyView::Failed(incorrect_credentials()),
        ),
        incorrect_credentials().code == BAD_REQUEST,
{
}

/// A sign-in checks the password it was given against the hash stored for
/// the e-mail address it was given.
pub proof fn sign_in_checks_the_stored_hash(
    secret: Seq<char>,
    request: RequestUserView,
    user: ModelView,
)
    ensures
        sign_in_start(secret, request).1 == (ActionView::FindUserByEmail { email: request.email }),
        next(sign_in_start(secret, request).0, EventView::UserFound(Ok(Some(user)))).1 == (
        ActionView::VerifyPassword { password: request.password, hash: user.password }),
{
}

/// A successful sign-in issues a token for the user's e-mail address, signed
/// with the server's secret and stamped with the clock reading that came with
/// the password check, stores it in the user's row, and answers with that
/// same token, with the profile of the row it found and the user's palms.
pub proof fn sign_in_answers_the_stored_token(
    secret: Seq<char>,
    user: ModelView,
    now: i64,
    saved: ModelView,
    rows: Seq<palms::Model>,
)
    requires
        all_grown(rows),
    ensures
        ({
            let token = token_of(secret, user.email, now as int);
            let (s1, a1) = next(
                FlowView::SignInVerifying { user, secret },
                EventView::PasswordVerified(Ok(true), now)
            );
            let (s2, a2) = next(s1, EventView::UserSaved(Ok(saved)));
            let (s3, a3) = next(s2, EventView::PalmsFound(Ok(rows)));
            &&& a1 == ActionView::StoreToken { user_id: user.id, token }
            &&& a2 == ActionView::FindPalmsByUser { user_id: user.id }
            &&& a3 == ActionView::Respond(
                ReplyView::ProfileWithTree(profile_with_tree(user, Some(token), rows)),
            )
            &&& s3 is Finished
        }),
{
}

/// A new account is stored with a token issued for its e-mail address and
/// signed with the server's secret, and with the hash of its password, never
/// the password itself; it then gets one palm tree, the standard one, owned by
/// the row that was inserted.
pub proof fn new_account_gets_token_hash_and_one_palm(
    secret: Seq<char>,
    request: RequestRegisterUserView,
    now: int,
    hash: Seq<char>,
    user: ModelView,
    palm: palms::Model,
)
    ensures
        ({
            let (s0, a0) = create_user_start(secret, request, now);
            let (s1, a1) = next(s0, EventView::PasswordHashed(Ok(hash)));
            let (s2, a2) = next(s1, EventView::UserInserted(Ok(user)));
            let (s3, a3) = next(s2, EventView::PalmInserted(Ok(palm)));
            &&& a0 == ActionView::HashPassword { password: request.password }
            &&& a1 == ActionView::InsertUser(
                NewUserView {
                    name: request.name,
                    email: request.email,
                    dates: request.dates,
                    password: hash,
                    token: Some(token_of(secret, request.email, now)),
                },
            )
            &&& a2 == ActionView::InsertPalm(new_palm_for(user.id))
            &&& a3 == ActionView::FindPalmsByUser { user_id: user.id }
            &&& new_palm_for(user.id).dpm == 3
        }),
{
}

/// An update saves the coins and the dates that the request names, and only
/// those: a field that the request leaves out keeps its value, and the
/// session token is not touched.
pub proof fn update_changes_only_what_is_named(user: ModelView, request: RequestUpdate)
    ensures
        ({
            let changes = requested_changes(user.id, request);
            let row = changed_row(user, changes);
            &&& changes.id == user.id
            &&& (request.coins is None <==> changes.coins is None)
            &&& (request.dates is None <==> changes.dates is None)
            &&& (request.coins matches Some(c) ==> changes.coins == Some(c.number))
            &&& (request.dates matches Some(d) ==> changes.dates == Some(d.number))
            &&& !changes.clear_token
            &&& row.token == user.token && row.name == user.name && row.email == user.email
            &&& row.password == user.password && row.id == user.id
        }),
{
}

/// An update that names nothing leaves the row as it was and answers with the
/// user's profile. The row is the one `changed_row` gives, the library's
/// statement of what the server's save does; it is the stored row where the
/// server saves that way.
pub proof fn empty_update_keeps_the_row(user: ModelView)
    ensures
        ({
            let request = RequestUpdate { coins: None, dates: None };
            let (s0, a0) = update_user_start(user, request);
            let changes = requested_changes(user.id, request);
            &&& a0 == ActionView::SaveUser(changes)
            &&& changed_row(user, changes) == user
            &&& next(s0, EventView::UserSaved(Ok(changed_row(user, changes)))).1
                == ActionView::Respond(ReplyView::Profile(profile_of(user)))
        }),
{
}

/// Repeating an update changes nothing more and gives the same answer: the
/// second update, on the row the first one saved, saves that same row. The
/// rows are those `changed_row` gives, the library's statement of what the
/// server's save does.
pub proof fn repeated_update_changes_nothing_more(user: ModelView, request: RequestUpdate)
    ensures
        ({
            let first = changed_row(user, requested_changes(user.id, request));
            let second = changed_row(first, requested_changes(first.id, request));
            let (s1, _) = update_user_start(user, request);
            let (s2, _) = update_user_start(first, request);
            &&& second == first
            &&& next(s1, EventView::UserSaved(Ok(first))) == next(
                s2,
                EventView::UserSaved(Ok(second))
            )
        }),
{
}

/// Adding a tree inserts the standard palm, three dates per minute and
/// adult, for the signed-in user, whatever the request asked for.
pub proof fn added_tree_is_the_standard_palm(user: ModelView)
    ensures
        add_tree_start(user).1 == ActionView::InsertPalm(
            NewPalm { dpm: 3, growth: Some(Growth::Adult), user_id: user.id },
        ),
{
}

/// Signing out clears the user's session token and changes nothing else.
pub proof fn logout_clears_only_the_token(user: ModelView)
    ensures
        logout_start(user).1 == ActionView::SaveUser(
            UserChanges { id: user.id, coins: None, dates: None, clear_token: true },
        ),
        ({
            let row = changed_row(user, UserChanges { id: user.id, coins: None, dates: None, clear_token: true });
            &&& row.token is None
            &&& row.id == user.id && row.name == user.name && row.email == user.email
            &&& row.password == user.password && row.coins == user.coins && row.dates == user.dates
        }),
{
}

/// Signing out again keeps the token cleared and answers alike: the second
/// sign-out, on the row the first one saved, saves that same row. The rows
/// are those `changed_row` gives, the library's statement of what the
/// server's save does.
pub proof fn repeated_logout_keeps_the_token_cleared(user: ModelView)
    ensures
        ({
            let first = changed_row(user, logout_start(user).1->SaveUser_0);
            let second = changed_row(first, logout_start(first).1->SaveUser_0);
            &&& first.token is None
            &&& second == first
            &&& next(logout_start(user).0, EventView::UserSaved(Ok(first))) == next(
                logout_start(first).0,
                EventView::UserSaved(Ok(second)),
            )
            &&& next(logout_start(user).0, EventView::UserSaved(Ok(first))).1 == ActionView::Respond(
                ReplyView::Empty,
            )
        }),
{
}

/// Every failure that a handler decides is answered with status 400 or 500;
/// the only failure it passes on unchanged is the one of a password check.
pub proof fn failures_are_400_or_500(flow: FlowView, event: EventView)
    requires
        accepts(flow, event),
        !(event matches EventView::PasswordVerified(Err(_), _)),
        next(flow, event).1 matches ActionView::Respond(ReplyView::Failed(e)),
    ensures
        next(flow, event).1 matches ActionView::Respond(ReplyView::Failed(e)) && (e.code
            == BAD_REQUEST || e.code == INTERNAL_SERVER_ERROR),
{
}

/// Whether `shown` lists the palm rows `rows`, one for one and in their
/// order, each with its id, its dates per minute, its owner and its growth
/// stage.
pub open spec fn lists_rows(shown: Seq<Palm>, rows: Seq<palms::Model>) -> bool {
    &&& shown.len() == rows.len()
    &&& forall|i: int|
        0 <= i < rows.len() ==> {
            &&& (#[trigger] shown[i]).id == rows[i].id
            &&& shown[i].dpm == rows[i].dpm
            &&& shown[i].user_id == rows[i].user_id
            &&& rows[i].growth == Some(shown[i].growth)
        }
}

/// Whether the profile `p` shows the user row `user`: its id, name, e-mail
/// address, dates and coins.
pub open spec fn shows_row(p: UserProfileResponseWithTreeView, user: ModelView) -> bool {
    &&& p.id == user.id
    &&& p.name == user.name
    &&& p.email == user.email
    &&& p.dates == user.dates
    &&& p.coins == user.coins
}

proof fn palms_are_listed(user: ModelView, token: Option<Seq<char>>, rows: Seq<palms::Model>)
    requires
        all_grown(rows),
    ensures
        lists_rows(profile_with_tree(user, token, rows).palms, rows),
        shows_row(profile_with_tree(user, token, rows), user),
        profile_with_tree(user, token, rows).token == token,
{
    let shown = profile_with_tree(user, token, rows).palms;
    assert forall|i: int| 0 <= i < rows.len() implies {
        &&& (#[trigger] shown[i]).id == rows[i].id
        &&& shown[i].dpm == rows[i].dpm
        &&& shown[i].user_id == rows[i].user_id
        &&& rows[i].growth == Some(shown[i].growth)
    } by {
        assert(rows[i].growth is Some);
    }
}

/// Planting a tree answers with the user's profile, no token, and every palm
/// row found for the user after the insert, the new tree among them, in the
/// order they were found.
pub proof fn added_tree_answer_lists_every_palm(
    user: ModelView,
    palm: palms::Model,
    rows: Seq<palms::Model>,
)
    requires
        all_grown(rows),
    ensures
        ({
            let (s1, a1) = next(add_tree_start(user).0, EventView::PalmInserted(Ok(palm)));
            let (s2, a2) = next(s1, EventView::PalmsFound(Ok(rows)));
            &&& a1 == ActionView::FindPalmsByUser { user_id: user.id }
            &&& s2 is Finished
            &&& a2 matches ActionView::Respond(ReplyView::ProfileWithTree(p)) && shows_row(p, user)
                && p.token is None && lists_rows(p.palms, rows)
        }),
{
    palms_are_listed(user, None, rows);
}

/// Registering answers with the row that was inserted: its id, name, e-mail
/// address, dates and coins, the token stored in it (the empty text if it
/// holds none), and every palm row found for it, in order.
pub proof fn new_account_is_answered_with_its_row(
    secret: Seq<char>,
    request: RequestRegisterUserView,
    now: int,
    hash: Seq<char>,
    user: ModelView,
    palm: palms::Model,
    rows: Seq<palms::Model>,
)
    requires
        all_grown(rows),
    ensures
        ({
            let (s0, a0) = create_user_start(secret, request, now);
            let (s1, a1) = next(s0, EventView::PasswordHashed(Ok(hash)));
            let (s2, a2) = next(s1, EventView::UserInserted(Ok(user)));
            let (s3, a3) = next(s2, EventView::PalmInserted(Ok(palm)));
            let (s4, a4) = next(s3, EventView::PalmsFound(Ok(rows)));
            let stored = match user.token {
                Some(t) => t,
                None => Seq::<char>::empty(),
            };
            &&& a2 == ActionView::InsertPalm(
                NewPalm { dpm: 3, growth: Some(Growth::Adult), user_id: user.id },
            )
            &&& a3 == ActionView::FindPalmsByUser { user_id: user.id }
            &&& s4 is Finished
            &&& a4 matches ActionView::Respond(ReplyView::ProfileWithTree(p)) && shows_row(p, user)
                && p.token == Some(stored) && lists_rows(p.palms, rows)
        }),
{
    let stored = match user.token {
        Some(t) => t,
        None => Seq::<char>::empty(),
    };
    palms_are_listed(user, Some(stored), rows);
}

/// A sign-in signs its token with the secret given to it, whatever the row it
/// finds holds: once the password checks, the token is the one for the found
/// row's e-mail address, under that secret, at the clock reading that came
/// with the check; it is stored in that row, and the answer shows the row,
/// that token and every palm row found for the user, in order.
pub proof fn sign_in_signs_with_the_given_secret(
    secret: Seq<char>,
    request: RequestUserView,
    user: ModelView,
    now: i64,
    saved: ModelView,
    rows: Seq<palms::Model>,
)
    requires
        all_grown(rows),
    ensures
        ({
            let token = token_of(secret, user.email, now as int);
            let (s1, a1) = next(sign_in_start(secret, request).0, EventView::UserFound(Ok(Some(user))));
            let (s2, a2) = next(s1, EventView::PasswordVerified(Ok(true), now));
            let (s3, a3) = next(s2, EventView::UserSaved(Ok(saved)));
            let (s4, a4) = next(s3, EventView::PalmsFound(Ok(rows)));
            &&& a1 == (ActionView::VerifyPassword { password: request.password, hash: user.password })
            &&& a2 == ActionView::StoreToken { user_id: user.id, token }
            &&& a3 == ActionView::FindPalmsByUser { user_id: user.id }
            &&& s4 is Finished
            &&& a4 matches ActionView::Respond(ReplyView::ProfileWithTree(p)) && shows_row(p, user)
                && p.token == Some(token) && lists_rows(p.palms, rows)
        }),
{
    palms_are_listed(user, Some(token_of(secret, user.email, now as int)), rows);
}

/// An update answers with the row that the save gave back: its id, name,
/// e-mail address, dates and coins, whatever the request named.
pub proof fn update_answers_with_the_saved_row(
    user: ModelView,
    request: RequestUpdate,
    saved: ModelView,
)
    ensures
        next(update_user_start(user, request).0, EventView::UserSaved(Ok(saved))) == (
        FlowView::Finished,
        ActionView::Respond(
            ReplyView::Profile(
                UserProfileResponseView {
                    id: saved.id,
                    name: saved.name,
                    email: saved.email,
                    dates: saved.dates,
                    coins: saved.coins,
                },
            ),
        )),
{
}

/// A sign-in with an unknown e-mail address is answered with status 400 and
/// the text "incorrect email and/or password"; one whose user lookup fails,
/// with status 500 and "Internal Server error please try again later".
pub proof fn refused_sign_ins_say_why(secret: Seq<char>, request: RequestUserView, e: DbErrorView)
    ensures
        next(sign_in_start(secret, request).0, EventView::UserFound(Ok(None))) == (
        FlowView::Finished,
        ActionView::Respond(
            ReplyView::Failed(
                AppErrorView { code: 400, message: "incorrect email and/or password"@ },
            ),
        )),
        next(sign_in_start(secret, request).0, EventView::UserFound(Err(e))) == (
        FlowView::Finished,
        ActionView::Respond(
            ReplyView::Failed(
                AppErrorView {
                    code: 500,
                    message: "Internal Server error please try again later"@,
                },
            ),
        )),
{
}

/// Failed work is answered with status 500 and the failure's own text: a
/// failed hash with the hasher's message, a failed password check with its
/// error as it came, a failed insert of a new account or a failed palm lookup
/// with the driver's message of a failed query (the whole error otherwise),
/// and a failed save, or a failed insert of a planted tree, with the whole
/// database error.
pub proof fn failed_work_is_answered_with_its_error(
    request: RequestRegisterUserView,
    token: Seq<char>,
    user: ModelView,
    message: Seq<char>,
    check_error: AppErrorView,
    now: i64,
    secret: Seq<char>,
    e: DbErrorView,
)
    ensures
        ({
            let driver = match e {
                DbErrorView::Query { query_error, .. } => query_error,
                DbErrorView::Other { error } => error,
            };
            let whole = match e {
                DbErrorView::Query { error, .. } => error,
                DbErrorView::Other { error } => error,
            };
            let fail = |m: Seq<char>|
                (
                    FlowView::Finished,
                    ActionView::Respond(ReplyView::Failed(AppErrorView { code: 500, message: m })),
                );
            &&& next(
                FlowView::CreateUserHashing { request, token },
                EventView::PasswordHashed(Err(message)),
            ) == fail(message)
            &&& next(
                FlowView::SignInVerifying { user, secret },
                EventView::PasswordVerified(Err(check_error), now),
            ) == (FlowView::Finished, ActionView::Respond(ReplyView::Failed(check_error)))
            &&& next(FlowView::CreateUserInserting, EventView::UserInserted(Err(e))) == fail(driver)
            &&& next(FlowView::CreateUserLoadingPalms { user }, EventView::PalmsFound(Err(e)))
                == fail(driver)
            &&& next(
                FlowView::SignInLoadingPalms { user, token },
                EventView::PalmsFound(Err(e)),
            ) == fail(driver)
            &&& next(FlowView::AddTreeLoadingPalms { user }, EventView::PalmsFound(Err(e))) == fail(
                driver,
            )
            &&& next(
                FlowView::SignInStoringToken { user, token },
                EventView::UserSaved(Err(e)),
            ) == fail(whole)
            &&& next(FlowView::UpdateUserSaving, EventView::UserSaved(Err(e))) == fail(whole)
            &&& next(FlowView::LogoutSaving, EventView::UserSaved(Err(e))) == fail(whole)
            &&& next(FlowView::AddTreeInserting { user }, EventView::PalmInserted(Err(e))) == fail(
                whole,
            )
        }),
{
}

} // verus!
