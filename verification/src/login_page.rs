//! The login page: restoring a saved session, or logging in by scanning a
//! QR code. Every QR attempt has a generation number, and answers that
//! belong to an older attempt are ignored.

use crate::bili_api::{Error, NavUserInfo, PollPassportQrcodeStatusCode};
use crate::cookies::{clear_cookies, stored_cookies};
use cookie_store::CookieStore;
use vstd::multiset::Multiset;
use vstd::prelude::*;

verus! {

/// The signed-in account the dashboard works for.
#[derive(Debug, Clone)]
pub struct UserSession {
    pub name: String,
    pub user_id: u64,
    pub face_url: String,
}

/// The account information does not describe a usable session.
#[derive(Debug, Clone, Copy, PartialEq, Eq, Structural)]
pub struct InvalidSession;

impl InvalidSession {
    /// The text shown for this error.
    pub fn message(&self) -> (text: String)
        ensures
            text@ == "登录会话无效"@,
    {
        String::from_str("登录会话无效")
    }
}

/// The account information describes a usable session: signed in, with an
/// account id and a name.
pub open spec fn usable_session(info: NavUserInfo) -> bool {
    info.is_login && info.mid != 0 && info.uname@.len() > 0
}

impl UserSession {
    /// The session the account information describes, when it is usable.
    pub fn try_from(info: NavUserInfo) -> (session: Result<Self, InvalidSession>)
        ensures
            session is Ok <==> usable_session(info),
            session matches Ok(s) ==> s.name@ == info.uname@ && s.user_id == info.mid
                && s.face_url@ == info.face@,
            info.is_login && info.mid != 0 && info.uname@.len() > 0 ==> (session matches Ok(s)
                && s.user_id == info.mid),
    {
        if !info.is_login || info.mid == 0 || info.uname.as_str().is_empty() {
            return Err(InvalidSession);
        }
        Ok(UserSession { name: info.uname, user_id: info.mid, face_url: info.face })
    }
}

/// What the scanning phone has done with the QR code.
#[derive(Debug, Clone, Copy, PartialEq, Eq, Structural)]
pub enum QrStatus {
    Waiting,
    Confirming,
    Expired,
}

/// Where the login stands, with the generation of the attempt.
#[derive(Debug)]
pub enum LoginState {
    /// Checking whether the saved cookies still sign in.
    RestoringSession { generation: u64 },
    /// Fetching a QR code.
    LoadingQr { generation: u64 },
    /// Showing the QR code (a PNG image) and polling its status.
    Polling { generation: u64, qr: Vec<u8>, status: QrStatus },
    /// The attempt failed with this message.
    Failed { generation: u64, message: String },
}

/// The generation of a state.
pub open spec fn generation_of(state: LoginState) -> u64 {
    match state {
        LoginState::RestoringSession { generation } => generation,
        LoginState::LoadingQr { generation } => generation,
        LoginState::Polling { generation, .. } => generation,
        LoginState::Failed { generation, .. } => generation,
    }
}

impl LoginState {
    /// The generation of the attempt.
    pub fn generation(&self) -> (generation: u64)
        ensures
            generation == generation_of(*self),
    {
        match self {
            LoginState::RestoringSession { generation } => *generation,
            LoginState::LoadingQr { generation } => *generation,
            LoginState::Polling { generation, .. } => *generation,
            LoginState::Failed { generation, .. } => *generation,
        }
    }
}

/// A new attempt makes the previous one stale: the state `start` leaves has
/// a generation other than the one before, so every answer that belongs to
/// the previous attempt finds it not current and changes nothing.
pub proof fn lemma_new_attempt_makes_previous_stale(before: LoginState, after: LoginState)
    requires
        after == (LoginState::LoadingQr { generation: generation_of(before).wrapping_add(1) }),
    ensures
        generation_of(after) != generation_of(before),
{
}

/// The line shown above the QR code: what is being done, the phone's
/// progress while polling, or that loading the code failed.
pub open spec fn headline_of(state: LoginState) -> Seq<char> {
    match state {
        LoginState::RestoringSession { .. } => "正在恢复登录状态"@,
        LoginState::LoadingQr { .. } => "正在加载登录二维码"@,
        LoginState::Polling { status, .. } => match status {
            QrStatus::Waiting => "请使用 B 站 APP 扫码登录"@,
            QrStatus::Confirming => "请在手机上确认登录"@,
            QrStatus::Expired => "二维码已过期，请刷新"@,
        },
        LoginState::Failed { .. } => "二维码加载失败"@,
    }
}

/// The status a poll answer shows: expired and confirming as such, any
/// other as waiting.
pub open spec fn shown_status(code: PollPassportQrcodeStatusCode) -> QrStatus {
    match code {
        PollPassportQrcodeStatusCode::Expired => QrStatus::Expired,
        PollPassportQrcodeStatusCode::Confirming => QrStatus::Confirming,
        _ => QrStatus::Waiting,
    }
}

/// Each poll answer is shown as its own status: only an expired code shows
/// as expired, only a code being confirmed shows as confirming, and every
/// other answer (not scanned yet among them) shows as waiting.
pub proof fn lemma_shown_status_per_code(code: PollPassportQrcodeStatusCode)
    ensures
        (shown_status(code) == QrStatus::Expired) == (code == PollPassportQrcodeStatusCode::Expired),
        (shown_status(code) == QrStatus::Confirming) == (code
            == PollPassportQrcodeStatusCode::Confirming),
        code == PollPassportQrcodeStatusCode::Waiting ==> shown_status(code) == QrStatus::Waiting,
{
}

/// A signed-in account with a non-zero id, whatever its size, and a
/// non-empty name is a usable session; an account lacking any of these is
/// not.
pub proof fn lemma_usable_session_exactly(info: NavUserInfo)
    ensures
        info.is_login && info.mid != 0 && info.uname@.len() > 0 ==> usable_session(info),
        !info.is_login ==> !usable_session(info),
        info.mid == 0 ==> !usable_session(info),
        info.uname@.len() == 0 ==> !usable_session(info),
{
}

/// What the view does after checking the saved session.
#[derive(Debug)]
pub enum RestoreAction {
    /// The saved session is valid: open the dashboard.
    LoggedIn(UserSession),
    /// Start a QR login with this generation.
    StartQr(u64),
    /// The answer is stale: nothing to do.
    Nothing,
}

/// What the polling loop does after a status answer.
#[derive(Debug, Clone, Copy, PartialEq, Eq, Structural)]
pub enum PollStep {
    /// The phone confirmed: fetch the account information.
    Confirmed,
    /// Keep polling while the code is waiting or being confirmed.
    Continue,
}

/// The state of the login page.
pub struct LoginPage {
    state: LoginState,
}

impl LoginPage {
    /// Where the login stands.
    pub closed spec fn current_state(self) -> LoginState {
        self.state
    }

    /// A page checking the saved session (generation zero).
    pub fn new() -> (page: Self)
        ensures
            page.current_state() == (LoginState::RestoringSession { generation: 0 }),
    {
        LoginPage { state: LoginState::RestoringSession { generation: 0 } }
    }

    /// A page after logging out: the session cookies are forgotten and a QR
    /// login starts (generation one).
    pub fn after_logout(store: &mut CookieStore) -> (page: Self)
        ensures
            stored_cookies(*final(store)) =~= Multiset::empty(),
            page.current_state() == (LoginState::LoadingQr { generation: 1 }),
    {
        let mut page = LoginPage { state: LoginState::RestoringSession { generation: 0 } };
        clear_cookies(store);
        page.start();
        page
    }

    /// Where the login stands.
    pub fn state(&self) -> (state: &LoginState)
        ensures
            *state == self.current_state(),
    {
        &self.state
    }

    /// The generation of the current attempt.
    /// The line shown above the QR code.
    pub fn headline(&self) -> (text: &'static str)
        ensures
            text@ == headline_of(self.current_state()),
    {
        match &self.state {
            LoginState::RestoringSession { .. } => "正在恢复登录状态",
            LoginState::LoadingQr { .. } => "正在加载登录二维码",
            LoginState::Polling { status, .. } => match status {
                QrStatus::Waiting => "请使用 B 站 APP 扫码登录",
                QrStatus::Confirming => "请在手机上确认登录",
                QrStatus::Expired => "二维码已过期，请刷新",
            },
            LoginState::Failed { .. } => "二维码加载失败",
        }
    }

    pub fn generation(&self) -> (generation: u64)
        ensures
            generation == generation_of(self.current_state()),
    {
        self.state.generation()
    }

    /// `generation` is the current attempt's.
    pub fn is_current(&self, generation: u64) -> (current: bool)
        ensures
            current == (generation == generation_of(self.current_state())),
    {
        self.state.generation() == generation
    }

    /// Marks attempt `generation` as failed with `message`, when it is the
    /// current one; a stale attempt changes nothing. Whether it failed the
    /// current attempt is returned.
    pub fn fail(&mut self, generation: u64, message: &str) -> (failed: bool)
        ensures
            failed == (generation == generation_of(old(self).current_state())),
            failed ==> (final(self).current_state() matches LoginState::Failed {
                generation: g,
                message: m,
            } && g == generation && m@ == message@),
            !failed ==> *final(self) == *old(self),
    {
        if !self.is_current(generation) {
            return false;
        }
        self.state = LoginState::Failed { generation, message: String::from_str(message) };
        true
    }

    /// Starts a new QR attempt, one generation after the current one
    /// (wrapping around), and returns its generation.
    pub fn start(&mut self) -> (generation: u64)
        ensures
            generation == generation_of(old(self).current_state()).wrapping_add(1),
            final(self).current_state() == (LoginState::LoadingQr { generation }),
    {
        let generation = self.state.generation().wrapping_add(1);
        self.state = LoginState::LoadingQr { generation };
        generation
    }

    /// The saved-session check of attempt `generation` answered. A usable
    /// session of a page still restoring that attempt logs in; an account
    /// that is signed in but unusable starts a QR login when the attempt is
    /// current; any other answer starts one when the page is still
    /// restoring that attempt. Otherwise nothing happens.
    pub fn restore_result(&mut self, generation: u64, info: Result<NavUserInfo, Error>) -> (action:
        RestoreAction)
        ensures
            ({
                let restoring = old(self).current_state() == (LoginState::RestoringSession {
                    generation,
                });
                let current = generation == generation_of(old(self).current_state());
                match info {
                    Ok(i) if i.is_login => if usable_session(i) {
                        &&& *final(self) == *old(self)
                        &&& restoring ==> (action matches RestoreAction::LoggedIn(s) && s.name@
                            == i.uname@ && s.user_id == i.mid && s.face_url@ == i.face@)
                        &&& !restoring ==> action is Nothing
                    } else if current {
                        &&& action == RestoreAction::StartQr(generation.wrapping_add(1))
                        &&& final(self).current_state() == (LoginState::LoadingQr {
                            generation: generation.wrapping_add(1),
                        })
                    } else {
                        action is Nothing && *final(self) == *old(self)
                    },
                    _ => if restoring {
                        &&& action == RestoreAction::StartQr(generation.wrapping_add(1))
                        &&& final(self).current_state() == (LoginState::LoadingQr {
                            generation: generation.wrapping_add(1),
                        })
                    } else {
                        action is Nothing && *final(self) == *old(self)
                    },
                }
            }),
    {
        let restoring = match self.state {
            LoginState::RestoringSession { generation: current } => current == generation,
            _ => false,
        };
        match info {
            Ok(info) if info.is_login => match UserSession::try_from(info) {
                Ok(session) => if restoring {
                    RestoreAction::LoggedIn(session)
                } else {
                    RestoreAction::Nothing
                },
                Err(_) => if self.is_current(generation) {
                    RestoreAction::StartQr(self.start())
                } else {
                    RestoreAction::Nothing
                },
            },
            _ => if restoring {
                RestoreAction::StartQr(self.start())
            } else {
                RestoreAction::Nothing
            },
        }
    }

    /// The QR image of attempt `generation` is ready: a current attempt shows
    /// it and waits for a scan. Whether it is shown is returned.
    pub fn show_qr(&mut self, generation: u64, qr: Vec<u8>) -> (shown: bool)
        ensures
            shown == (generation == generation_of(old(self).current_state())),
            shown ==> final(self).current_state() == (LoginState::Polling {
                generation,
                qr,
                status: QrStatus::Waiting,
            }),
            !shown ==> *final(self) == *old(self),
    {
        if !self.is_current(generation) {
            return false;
        }
        self.state = LoginState::Polling { generation, qr, status: QrStatus::Waiting };
        true
    }

    /// Attempt `generation` is still polling: its code is shown and neither
    /// expired nor replaced.
    pub fn polling_active(&self, generation: u64) -> (active: bool)
        ensures
            active == (self.current_state() matches LoginState::Polling { generation: g, status, .. }
                && g == generation && status != QrStatus::Expired),
    {
        match &self.state {
            LoginState::Polling { generation: current, status, .. } => *current == generation
                && *status != QrStatus::Expired,
            _ => false,
        }
    }

    /// A status answer for attempt `generation`: success moves on to
    /// confirming the account; any other status is shown while that attempt
    /// is the one polling.
    pub fn poll_status(&mut self, generation: u64, code: PollPassportQrcodeStatusCode) -> (step:
        PollStep)
        ensures
            code == PollPassportQrcodeStatusCode::Success ==> step == PollStep::Confirmed
                && *final(self) == *old(self),
            code != PollPassportQrcodeStatusCode::Success ==> step == PollStep::Continue && match old(self).current_state() {
                LoginState::Polling { generation: g, qr, .. } if g == generation => final(self).current_state() == (LoginState::Polling {
                    generation,
                    qr,
                    status: shown_status(code),
                }),
                _ => *final(self) == *old(self),
            },
            ({
                let after = final(self).current_state();
                (old(self).current_state() matches LoginState::Polling { generation: g, .. } && g
                    == generation && code != PollPassportQrcodeStatusCode::Success) ==> (
                after matches LoginState::Polling { generation: g2, status, .. } && g2
                    == generation && (status == QrStatus::Expired <==> code
                    == PollPassportQrcodeStatusCode::Expired) && (status == QrStatus::Confirming
                    <==> code == PollPassportQrcodeStatusCode::Confirming))
            }),
    {
        if code == PollPassportQrcodeStatusCode::Success {
            return PollStep::Confirmed;
        }
        let status = match code {
            PollPassportQrcodeStatusCode::Expired => QrStatus::Expired,
            PollPassportQrcodeStatusCode::Confirming => QrStatus::Confirming,
            _ => QrStatus::Waiting,
        };
        match &mut self.state {
            LoginState::Polling { generation: current, status: current_status, .. } => {
                if *current == generation {
                    *current_status = status;
                }
            },
            _ => {},
        }
        PollStep::Continue
    }

    /// The account information after the phone confirmed attempt
    /// `generation`. A usable session of the current attempt logs in; an
    /// unusable one fails the attempt with a message asking for a new code.
    pub fn login_confirmed(&mut self, generation: u64, info: NavUserInfo) -> (session: Option<
        UserSession,
    >)
        ensures
            generation != generation_of(old(self).current_state()) ==> session is None
                && *final(self) == *old(self),
            generation == generation_of(old(self).current_state()) ==> if usable_session(info) {
                &&& *final(self) == *old(self)
                &&& session matches Some(s) && s.name@ == info.uname@ && s.user_id == info.mid
                    && s.face_url@ == info.face@
            } else {
                &&& session is None
                &&& final(self).current_state() matches LoginState::Failed {
                    generation: g,
                    message: m,
                } && g == generation && m@ == "登录会话无效，请刷新二维码"@
            },
    {
        match UserSession::try_from(info) {
            Ok(session) => if self.is_current(generation) {
                Some(session)
            } else {
                None
            },
            Err(_) => {
                self.fail(generation, "登录会话无效，请刷新二维码");
                None
            },
        }
    }
}

} // verus!
