//! The broadcast panel: starting and stopping a broadcast, holding the push
//! endpoints the server handed out, and the face verification the server
//! may ask for first.

use crate::bili_api::{Error, StartLiveOutcome, StreamProtocol};
use crate::qr::{encode_qr, qr_png, QrImageError};
use crate::room_editor::{EditorError, RoomEditor, StartLiveRequest};
use vstd::prelude::*;
use vstd::utf8::encode_utf8;

verus! {

/// Endpoints one can push to: at least one, each with an address and a
/// stream key.
pub open spec fn usable_protocols(protocols: Seq<StreamProtocol>) -> bool {
    &&& protocols.len() > 0
    &&& forall|i: int|
        0 <= i < protocols.len() ==> #[trigger] protocols[i].addr@.len() > 0
            && protocols[i].code@.len() > 0
}

/// The push endpoints of a running broadcast and the one on display.
pub struct ProtocolSet {
    items: Vec<StreamProtocol>,
    active: usize,
}

impl ProtocolSet {
    /// The endpoints, in the server's order.
    pub closed spec fn protocols(self) -> Seq<StreamProtocol> {
        self.items@
    }

    /// The row of the endpoint on display.
    pub closed spec fn active_index(self) -> int {
        self.active as int
    }

    /// The set is usable and the endpoint on display is one of its rows.
    #[verifier::type_invariant]
    closed spec fn displayed_endpoint_exists(self) -> bool {
        usable_protocols(self.items@) && self.active < self.items@.len()
    }

    /// The endpoints of a start answer, the first on display; none when the
    /// list is empty or an endpoint lacks an address or a stream key.
    pub fn new(protocols: Vec<StreamProtocol>) -> (set: Option<Self>)
        ensures
            set is Some <==> usable_protocols(protocols@),
            set matches Some(s) ==> s.protocols() == protocols@ && s.active_index() == 0,
    {
        let n = protocols.len();
        if n == 0 {
            return None;
        }
        for i in 0..n
            invariant
                n == protocols@.len(),
                forall|j: int|
                    0 <= j < i ==> #[trigger] protocols@[j].addr@.len() > 0
                        && protocols@[j].code@.len() > 0,
        {
            if protocols[i].addr.as_str().is_empty() || protocols[i].code.as_str().is_empty() {
                return None;
            }
        }
        Some(ProtocolSet { items: protocols, active: 0 })
    }

    /// Puts the endpoint at row `index` on display; a row past the end
    /// changes nothing.
    pub fn select(&mut self, index: usize)
        ensures
            final(self).protocols() == old(self).protocols(),
            index < old(self).protocols().len() ==> final(self).active_index() == index,
            index >= old(self).protocols().len() ==> final(self).active_index() == old(self).active_index(),
    {
        proof {
            use_type_invariant(&*self);
        }
        if index < self.items.len() {
            self.active = index;
        }
    }

    /// The endpoint on display: always a row of the set, with an address and
    /// a stream key.
    pub fn active(&self) -> (endpoint: &StreamProtocol)
        ensures
            0 <= self.active_index() < self.protocols().len(),
            *endpoint == self.protocols()[self.active_index()],
            endpoint.addr@.len() > 0,
            endpoint.code@.len() > 0,
    {
        proof {
            use_type_invariant(self);
        }
        &self.items[self.active]
    }

    /// The row of the endpoint on display.
    pub fn active_row(&self) -> (row: usize)
        ensures
            row == self.active_index(),
            row < self.protocols().len(),
    {
        proof {
            use_type_invariant(self);
        }
        self.active
    }

    /// All endpoints, in the server's order.
    pub fn items(&self) -> (items: &Vec<StreamProtocol>)
        ensures
            items@ == self.protocols(),
    {
        &self.items
    }
}

/// Where the broadcast stands.
pub enum BroadcastState {
    /// Not on the air.
    Offline,
    /// A start request is on its way.
    Starting,
    /// The server wants face verification; the PNG image of the QR code to
    /// scan is kept for the prompt.
    AwaitingFaceVerification { qr: Vec<u8> },
    /// On the air, but started elsewhere: the stream keys are unknown.
    LiveWithoutCredentials,
    /// On the air with these push endpoints.
    Living(ProtocolSet),
    /// A stop request is on its way; the endpoints are kept in case it fails.
    Stopping { protocols: Option<ProtocolSet> },
}

/// What the view does when starting is asked for.
pub enum StartDecision {
    /// A start or a broadcast is in progress: nothing happens.
    Ignored,
    /// The editor cannot give its room or area; the error is shown.
    Rejected(EditorError),
    /// Send the start request.
    Launch(StartLiveRequest),
}

/// How a start request ended, for the view to report.
pub enum StartReport {
    /// On the air.
    Started,
    /// The server gave no usable push endpoint; the broadcast is off.
    NoUsableProtocols,
    /// The face-verification prompt is to be shown.
    AwaitingFaceVerification,
    /// The verification QR image could not be made; the broadcast is off.
    QrFailed(QrImageError),
    /// The request failed; the broadcast is off.
    Failed(Error),
}

/// What the view does when stopping is asked for.
pub enum StopDecision {
    /// The editor has no room; the error is shown.
    Rejected(EditorError),
    /// Not on the air, or already starting or stopping: nothing happens.
    Ignored,
    /// Send the stop request for this room.
    Launch(u64),
}

/// How a stop request ended, for the view to report.
pub enum StopReport {
    Stopped,
    Failed(Error),
}

/// A start can be asked for: the panel is idle or waits for face
/// verification.
pub open spec fn can_start(state: BroadcastState) -> bool {
    state is Offline || state is AwaitingFaceVerification
}

/// The room editor is frozen exactly while a start request is on its way.
pub open spec fn editor_lock_agrees(state: BroadcastState, locked: bool) -> bool {
    locked == state is Starting
}

/// The operations on a panel and its room editor, as far as the editor's
/// lock is concerned.
pub enum PanelOperation {
    /// `begin_start`.
    BeginStart,
    /// `finish_start`.
    FinishStart,
    /// `begin_stop`.
    BeginStop,
    /// `finish_stop`.
    FinishStop,
    /// `select_protocol`.
    SelectProtocol,
    /// `live_restored`.
    LiveRestored,
    /// A change of the room editor other than locking or releasing it.
    EditorEdit,
}

/// What operation `op` does to the panel's state and the editor's lock:
/// starting either enters `Starting` and locks, or changes nothing; the end
/// of a start leaves `Starting` and releases; the end of a stop keeps the
/// lock and enters `Starting` only from it; the rest keep the lock and
/// whether the panel is starting.
pub open spec fn lock_step(
    op: PanelOperation,
    before: BroadcastState,
    locked_before: bool,
    after: BroadcastState,
    locked_after: bool,
) -> bool {
    match op {
        PanelOperation::BeginStart => (after is Starting && locked_after) || (after == before
            && locked_after == locked_before),
        PanelOperation::FinishStart => !(after is Starting) && !locked_after,
        PanelOperation::FinishStop => locked_after == locked_before && (!(before is Starting)
            ==> !(after is Starting)),
        _ => locked_after == locked_before && ((after is Starting) == (before is Starting)),
    }
}

/// The editor is locked exactly while a start request is on its way, in
/// every state a panel and its editor reach from a fresh pair (off the air,
/// unlocked) through any run of panel operations and editor edits, as long
/// as the answer to a stop request is applied only while stopping.
pub proof fn lemma_editor_locked_exactly_while_starting(
    ops: Seq<PanelOperation>,
    states: Seq<BroadcastState>,
    locks: Seq<bool>,
)
    requires
        states.len() == ops.len() + 1,
        locks.len() == ops.len() + 1,
        states[0] is Offline,
        !locks[0],
        forall|i: int|
            0 <= i < ops.len() ==> #[trigger] lock_step(
                ops[i],
                states[i],
                locks[i],
                states[i + 1],
                locks[i + 1],
            ),
        forall|i: int| 0 <= i < ops.len() && #[trigger] ops[i] is FinishStop ==> states[i] is Stopping,
    ensures
        forall|i: int| 0 <= i < states.len() ==> editor_lock_agrees(#[trigger] states[i], locks[i]),
    decreases ops.len(),
{
    if ops.len() > 0 {
        let n = ops.len() - 1;
        lemma_editor_locked_exactly_while_starting(
            ops.take(n),
            states.take(n + 1),
            locks.take(n + 1),
        );
        assert(editor_lock_agrees(states.take(n + 1)[n], locks.take(n + 1)[n]));
        assert(lock_step(ops[n], states[n], locks[n], states[n + 1], locks[n + 1]));
        if ops[n] is FinishStop {
            assert(states[n] is Stopping);
        }
        assert forall|i: int| 0 <= i < states.len() implies editor_lock_agrees(
            #[trigger] states[i],
            locks[i],
        ) by {
            if i <= n {
                assert(states.take(n + 1)[i] == states[i]);
                assert(locks.take(n + 1)[i] == locks[i]);
            }
        }
    }
}

/// The state a stop request moves a broadcast to.
pub open spec fn stopping_state(state: BroadcastState) -> BroadcastState {
    match state {
        BroadcastState::Living(p) => BroadcastState::Stopping { protocols: Some(p) },
        BroadcastState::LiveWithoutCredentials => BroadcastState::Stopping { protocols: None },
        other => other,
    }
}

/// The state a failed stop request goes back to.
pub open spec fn stop_failed_state(state: BroadcastState) -> BroadcastState {
    match state {
        BroadcastState::Stopping { protocols: Some(p) } => BroadcastState::Living(p),
        BroadcastState::Stopping { protocols: None } => BroadcastState::LiveWithoutCredentials,
        other => other,
    }
}

/// The displayed row after asking for row `index` of `p`.
pub open spec fn row_after_select(p: ProtocolSet, index: usize) -> int {
    if index < p.protocols().len() {
        index as int
    } else {
        p.active_index()
    }
}

/// The state of the broadcast panel of one account.
pub struct BroadcastPanel {
    user_id: u64,
    state: BroadcastState,
}

impl BroadcastPanel {
    /// The account that broadcasts.
    pub closed spec fn owner(self) -> u64 {
        self.user_id
    }

    /// Where the broadcast stands.
    pub closed spec fn current_state(self) -> BroadcastState {
        self.state
    }

    /// The panel of account `user_id`, off the air.
    pub fn new(user_id: u64) -> (panel: Self)
        ensures
            panel.owner() == user_id,
            panel.current_state() is Offline,
    {
        BroadcastPanel { user_id, state: BroadcastState::Offline }
    }

    /// The account that broadcasts.
    pub fn user_id(&self) -> (id: u64)
        ensures
            id == self.owner(),
    {
        self.user_id
    }

    /// Where the broadcast stands.
    pub fn state(&self) -> (state: &BroadcastState)
        ensures
            *state == self.current_state(),
    {
        &self.state
    }

    /// The editor found the room on the air already: an idle panel shows the
    /// broadcast, without stream keys. Whether the state changed is returned.
    pub fn live_restored(&mut self) -> (changed: bool)
        ensures
            changed == old(self).current_state() is Offline,
            changed ==> final(self).current_state() is LiveWithoutCredentials,
            !changed ==> *final(self) == *old(self),
            final(self).owner() == old(self).owner(),
            forall|locked: bool|
                #[trigger] lock_step(
                    PanelOperation::LiveRestored,
                    old(self).current_state(),
                    locked,
                    final(self).current_state(),
                    locked,
                ),
    {
        if let BroadcastState::Offline = self.state {
            self.state = BroadcastState::LiveWithoutCredentials;
            true
        } else {
            false
        }
    }

    /// Starting is asked for, with `title` for the broadcast. Only an idle
    /// panel or one waiting for face verification starts; then what the
    /// editor gives is asked for: an error is refused, and a request freezes
    /// the editor and is sent.
    pub fn begin_start(&mut self, editor: &mut RoomEditor, title: String) -> (decision:
        StartDecision)
        ensures
            final(self).owner() == old(self).owner(),
            final(editor).current_room() == old(editor).current_room(),
            final(editor).current_areas() == old(editor).current_areas(),
            final(editor).updating() == old(editor).updating(),
            !can_start(old(self).current_state()) ==> {
                &&& decision is Ignored
                &&& *final(self) == *old(self)
                &&& final(editor).locked() == old(editor).locked()
            },
            can_start(old(self).current_state()) ==> match old(editor).start_request_for(title) {
                Err(e) => {
                    &&& decision == StartDecision::Rejected(e)
                    &&& *final(self) == *old(self)
                    &&& final(editor).locked() == old(editor).locked()
                },
                Ok(r) => {
                    &&& decision == StartDecision::Launch(r)
                    &&& final(self).current_state() is Starting
                    &&& final(editor).locked()
                },
            },
            lock_step(
                PanelOperation::BeginStart,
                old(self).current_state(),
                old(editor).locked(),
                final(self).current_state(),
                final(editor).locked(),
            ),
    {
        match self.state {
            BroadcastState::Offline | BroadcastState::AwaitingFaceVerification { .. } => {},
            _ => return StartDecision::Ignored,
        }
        match editor.start_request(title) {
            Err(e) => StartDecision::Rejected(e),
            Ok(r) => {
                self.state = BroadcastState::Starting;
                editor.set_broadcast_locked(true);
                StartDecision::Launch(r)
            },
        }
    }

    /// The start request ended, and the editor is released. Usable
    /// endpoints put the broadcast on the air with the first on display; a
    /// face-verification answer waits with the PNG image of the QR code of
    /// the verification URL; anything else turns the panel off again.
    pub fn finish_start(&mut self, editor: &mut RoomEditor, result: Result<StartLiveOutcome, Error>)
        -> (report: StartReport)
        ensures
            final(self).owner() == old(self).owner(),
            !final(editor).locked(),
            final(editor).current_room() == old(editor).current_room(),
            final(editor).current_areas() == old(editor).current_areas(),
            final(editor).updating() == old(editor).updating(),
            lock_step(
                PanelOperation::FinishStart,
                old(self).current_state(),
                old(editor).locked(),
                final(self).current_state(),
                final(editor).locked(),
            ),
            match result {
                Ok(StartLiveOutcome::Started(endpoints)) => if usable_protocols(endpoints@) {
                    &&& report is Started
                    &&& final(self).current_state() matches BroadcastState::Living(p)
                        && p.protocols() == endpoints@ && p.active_index() == 0
                } else {
                    report is NoUsableProtocols && final(self).current_state() is Offline
                },
                Ok(StartLiveOutcome::FaceVerification(url)) => match qr_png(encode_utf8(url@)) {
                    Some(png) => {
                        &&& report is AwaitingFaceVerification
                        &&& final(self).current_state() matches BroadcastState::AwaitingFaceVerification {
                            qr,
                        } && qr@ == png
                    },
                    None => {
                        &&& report matches StartReport::QrFailed(QrImageError::Encode(_))
                        &&& final(self).current_state() is Offline
                    },
                },
                Err(e) => report == StartReport::Failed(e) && final(self).current_state() is Offline,
            },
    {
        editor.set_broadcast_locked(false);
        match result {
            Ok(StartLiveOutcome::Started(endpoints)) => match ProtocolSet::new(endpoints) {
                Some(set) => {
                    self.state = BroadcastState::Living(set);
                    StartReport::Started
                },
                None => {
                    self.state = BroadcastState::Offline;
                    StartReport::NoUsableProtocols
                },
            },
            Ok(StartLiveOutcome::FaceVerification(url)) => match encode_qr(url.as_str()) {
                Ok(qr) => {
                    self.state = BroadcastState::AwaitingFaceVerification { qr };
                    StartReport::AwaitingFaceVerification
                },
                Err(error) => {
                    self.state = BroadcastState::Offline;
                    StartReport::QrFailed(error)
                },
            },
            Err(error) => {
                self.state = BroadcastState::Offline;
                StartReport::Failed(error)
            },
        }
    }

    /// Stopping is asked for, with the editor's room. A broadcast on the air
    /// goes to stopping, keeping its endpoints; anything else stays as it is.
    pub fn begin_stop(&mut self, room_id: Result<u64, EditorError>) -> (decision: StopDecision)
        ensures
            final(self).owner() == old(self).owner(),
            forall|locked: bool|
                #[trigger] lock_step(
                    PanelOperation::BeginStop,
                    old(self).current_state(),
                    locked,
                    final(self).current_state(),
                    locked,
                ),
            match room_id {
                Err(e) => decision == StopDecision::Rejected(e) && *final(self) == *old(self),
                Ok(id) => if old(self).current_state() is Living || old(self).current_state() is LiveWithoutCredentials {
                    decision == StopDecision::Launch(id) && final(self).current_state()
                        == stopping_state(old(self).current_state())
                } else {
                    (decision is Ignored) && (*final(self) == *old(self))
                },
            },
    {
        let id = match room_id {
            Ok(id) => id,
            Err(e) => return StopDecision::Rejected(e),
        };
        let mut current = BroadcastState::Offline;
        std::mem::swap(&mut current, &mut self.state);
        match current {
            BroadcastState::Living(p) => {
                self.state = BroadcastState::Stopping { protocols: Some(p) };
                StopDecision::Launch(id)
            },
            BroadcastState::LiveWithoutCredentials => {
                self.state = BroadcastState::Stopping { protocols: None };
                StopDecision::Launch(id)
            },
            other => {
                self.state = other;
                StopDecision::Ignored
            },
        }
    }

    /// The stop request ended: on success the panel is off the air; on
    /// failure a stopping broadcast is back on the air as it was.
    pub fn finish_stop(&mut self, result: Result<(), Error>) -> (report: StopReport)
        ensures
            final(self).owner() == old(self).owner(),
            forall|locked: bool|
                #[trigger] lock_step(
                    PanelOperation::FinishStop,
                    old(self).current_state(),
                    locked,
                    final(self).current_state(),
                    locked,
                ),
            match result {
                Ok(_) => report is Stopped && final(self).current_state() is Offline,
                Err(e) => report == StopReport::Failed(e) && final(self).current_state()
                    == stop_failed_state(old(self).current_state()),
            },
    {
        match result {
            Ok(_) => {
                self.state = BroadcastState::Offline;
                StopReport::Stopped
            },
            Err(error) => {
                let mut current = BroadcastState::Offline;
                std::mem::swap(&mut current, &mut self.state);
                self.state = match current {
                    BroadcastState::Stopping { protocols: Some(p) } => BroadcastState::Living(p),
                    BroadcastState::Stopping { protocols: None } =>
                        BroadcastState::LiveWithoutCredentials,
                    other => other,
                };
                StopReport::Failed(error)
            },
        }
    }

    /// Puts endpoint row `index` on display while the endpoints are known.
    pub fn select_protocol(&mut self, index: usize)
        ensures
            final(self).owner() == old(self).owner(),
            forall|locked: bool|
                #[trigger] lock_step(
                    PanelOperation::SelectProtocol,
                    old(self).current_state(),
                    locked,
                    final(self).current_state(),
                    locked,
                ),
            match old(self).current_state() {
                BroadcastState::Living(p) => final(self).current_state() matches BroadcastState::Living(q)
                    && q.protocols() == p.protocols() && q.active_index() == row_after_select(
                    p,
                    index,
                ),
                BroadcastState::Stopping { protocols: Some(p) } => final(self).current_state() matches BroadcastState::Stopping {
                    protocols: Some(q),
                } && q.protocols() == p.protocols() && q.active_index() == row_after_select(
                    p,
                    index,
                ),
                _ => *final(self) == *old(self),
            },
    {
        match &mut self.state {
            BroadcastState::Living(p) => p.select(index),
            BroadcastState::Stopping { protocols: Some(p) } => p.select(index),
            _ => {},
        }
    }
}

/// A stop request that fails puts a broadcast back exactly as it was before
/// stopping was asked for, stream keys included.
pub proof fn lemma_failed_stop_restores_broadcast(state: BroadcastState)
    requires
        state is Living || state is LiveWithoutCredentials,
    ensures
        stop_failed_state(stopping_state(state)) == state,
{
}

} // verus!
