//! The session: who is using the client, and with which permission level.
//!
//! A session is one value that its owner passes to each operation. Clients can
//! read it and reset it; only a successful sign-in sets it. Each change that
//! observers are told of is queued in the session, in the order of the
//! changes, until the owner takes the queue and delivers it.
use crate::error::ErrorKind;
use crate::text::same_text;
use vstd::prelude::*;
use vstd::string::*;

verus! {

/// The user of the client and their permission level: `none`, `regular` or
/// `admin`. An empty username means that nobody is signed in.
#[derive(Debug)]
pub struct UserState {
    pub username: String,
    pub permission_level: String,
}

/// A user state as a value.
#[verifier::ext_equal]
pub struct UserStateView {
    pub username: Seq<char>,
    pub permission_level: Seq<char>,
}

impl View for UserState {
    type V = UserStateView;

    open spec fn view(&self) -> UserStateView {
        UserStateView { username: self.username@, permission_level: self.permission_level@ }
    }
}

impl Clone for UserState {
    fn clone(&self) -> (copy: Self)
        ensures
            copy == *self,
    {
        UserState {
            username: self.username.clone(),
            permission_level: self.permission_level.clone(),
        }
    }
}

/// The permission levels that a session may carry.
pub open spec fn valid_permission_level(text: Seq<char>) -> bool {
    text == "none"@ || text == "regular"@ || text == "admin"@
}

impl UserStateView {
    /// The state in which nobody is signed in.
    pub open spec fn signed_out() -> UserStateView {
        UserStateView { username: Seq::empty(), permission_level: "none"@ }
    }

    /// Whether somebody is signed in.
    pub open spec fn authenticated(self) -> bool {
        self.permission_level == "regular"@ || self.permission_level == "admin"@
    }
}

/// A session as a value: the current state, and the changes that observers
/// have not been told of yet, oldest first.
#[verifier::ext_equal]
pub struct SessionView {
    pub state: UserStateView,
    pub pending: Seq<UserStateView>,
}

impl SessionView {
    /// The session at the start of the process.
    pub open spec fn initial() -> SessionView {
        SessionView { state: UserStateView::signed_out(), pending: Seq::empty() }
    }

    /// The invariant of a session: its permission level is one of the three.
    pub open spec fn wf(self) -> bool {
        valid_permission_level(self.state.permission_level)
    }

    /// Setting the state: it is replaced and the new state queued for the
    /// observers. Rejected where the permission level is none of the three.
    pub open spec fn set_user_state(
        self,
        username: Seq<char>,
        permission_level: Seq<char>,
    ) -> Result<SessionView, ErrorKind> {
        if valid_permission_level(permission_level) {
            let state = UserStateView { username, permission_level };
            Ok(SessionView { state, pending: self.pending.push(state) })
        } else {
            Err(ErrorKind::InvalidPermissionLevel)
        }
    }

    /// Signing out: the state is reset and the queue left as it is.
    pub open spec fn log_out(self) -> SessionView {
        SessionView { state: UserStateView::signed_out(), ..self }
    }
}

/// The views of a sequence of user states, one by one.
pub open spec fn state_views(states: Seq<UserState>) -> Seq<UserStateView> {
    states.map_values(|s: UserState| s@)
}

/// The session of one process.
pub struct Session {
    state: UserState,
    pending: Vec<UserState>,
}

impl View for Session {
    type V = SessionView;

    closed spec fn view(&self) -> SessionView {
        SessionView { state: self.state@, pending: state_views(self.pending@) }
    }
}

impl Session {
    /// Whether the session meets its invariant. Every session that this crate
    /// hands out does, and every operation keeps it.
    pub open spec fn wf(&self) -> bool {
        self@.wf()
    }

    /// The session at the start of the process: nobody is signed in and
    /// nothing is queued.
    pub fn new() -> (session: Session)
        ensures
            session.wf(),
            session@ == SessionView::initial(),
    {
        Session {
            state: UserState { username: String::new(), permission_level: "none".to_owned() },
            pending: Vec::new(),
        }
    }
}

/// Whether `text` names a permission level.
pub fn is_valid_permission_level(text: &str) -> (valid: bool)
    ensures
        valid == valid_permission_level(text@),
{
    same_text(text, "none") || same_text(text, "regular") || same_text(text, "admin")
}

/// A snapshot of the current state.
pub fn get_user_state(session: &Session) -> (state: UserState)
    ensures
        state@ == session@.state,
{
    session.state.clone()
}

/// Replaces the state and queues the new state for the observers.
///
/// This is for the sign-in alone: clients have no access to it. Refused, with
/// the session left as it was, where the permission level is none of `none`,
/// `regular` and `admin` (`InvalidPermissionLevel`).
pub fn set_user_state(session: &mut Session, username: String, permission_level: String) -> (result:
    Result<(), ErrorKind>)
    requires
        old(session).wf(),
    ensures
        final(session).wf(),
        match old(session)@.set_user_state(username@, permission_level@) {
            Ok(next) => result is Ok && final(session)@ == next,
            Err(e) => result == Err::<(), ErrorKind>(e) && final(session)@ == old(session)@,
        },
{
    if !is_valid_permission_level(permission_level.as_str()) {
        return Err(ErrorKind::InvalidPermissionLevel);
    }
    let state = UserState { username, permission_level };
    session.pending.push(state.clone());
    session.state = state;
    proof {
        assert(session@.pending =~= old(session)@.pending.push(state@));
    }
    Ok(())
}

/// Signs out: whatever the state was, nobody is signed in afterwards. Always
/// succeeds, and queues nothing.
pub fn log_out(session: &mut Session)
    ensures
        final(session).wf(),
        final(session)@ == old(session)@.log_out(),
{
    session.state = UserState { username: String::new(), permission_level: "none".to_owned() };
}

/// Hands out the queued changes, oldest first, for delivery to the observers,
/// and empties the queue. The state stays as it is.
pub fn take_notifications(session: &mut Session) -> (notifications: Vec<UserState>)
    requires
        old(session).wf(),
    ensures
        final(session).wf(),
        state_views(notifications@) == old(session)@.pending,
        final(session)@ == (SessionView { pending: Seq::empty(), ..old(session)@ }),
{
    let mut notifications: Vec<UserState> = Vec::new();
    std::mem::swap(&mut notifications, &mut session.pending);
    proof {
        assert(session@.pending =~= Seq::empty());
    }
    notifications
}

/// What the caller of a sign-in is told once the queued changes were handed
/// to the observers: a failed delivery is a failure of its own, and the
/// change of state stands either way.
pub fn delivery_result(delivered: bool) -> (result: Result<(), ErrorKind>)
    ensures
        delivered ==> result is Ok,
        !delivered ==> result == Err::<(), ErrorKind>(ErrorKind::NotificationDeliveryFailure),
{
    if delivered {
        Ok(())
    } else {
        Err(ErrorKind::NotificationDeliveryFailure)
    }
}

} // verus!
