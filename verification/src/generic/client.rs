//! # CLIENT
//!
//! The state of one entity and the steps that it takes. A step is a
//! procedure that the application starts, a message that arrives, a timer
//! that runs out or the loss of the connection. Each step gives back what is
//! to be done: messages to transmit, transactions to complete with their
//! result, data to hand to the application, and the order to disconnect.
use crate::generic::message::DataMessage;
use crate::generic::message::DeselectStatus;
use crate::generic::message::Message;
use crate::generic::message::MessageContents;
use crate::generic::message::MessageID;
use crate::generic::message::RejectReason;
use crate::generic::message::SelectStatus;
use crate::generic::message::SessionType;
use crate::generic::message::decode_fault;
use crate::generic::message::decoded_contents;
use crate::generic::message::decoded_id;
use crate::generic::table::PendingReply;
use crate::generic::table::ProcedureKind;
use crate::generic::table::TransactionTable;
use crate::generic::table::distinct;
use crate::generic::table::first_expired;
use crate::generic::table::index_of;
use crate::generic::table::is_earliest_deadline;
use crate::generic::table::is_pending;
use crate::generic::table::lemma_first_expired;
use crate::generic::table::lemma_index_of;
use crate::generic::table::lemma_index_of_is;
use crate::generic::table::lemma_remove;
use crate::primitive;
use crate::primitive::ConnectionMode;
use crate::primitive::ConnectionState;
use crate::Error;
use vstd::prelude::*;

verus! {

/// ## SELECTION STATE
///
/// Whether the session is established, and whether a procedure that would
/// change that is under way.
#[derive(Clone, Copy, Debug, PartialEq, Eq, Structural)]
pub enum SelectionState {
    /// No session is established. Data messages are rejected.
    NotSelected,
    /// This entity has asked to select and waits for the answer.
    SelectInProgress,
    /// The session is established. Data messages are exchanged.
    Selected,
    /// This entity has asked to deselect and waits for the answer.
    DeselectInProgress,
}

impl SelectionState {
    /// Whether data messages are exchanged in this state: the session is
    /// established, also while the answer to a request to end it is awaited.
    pub open spec fn spec_admits_data(self) -> bool {
        self == SelectionState::Selected || self == SelectionState::DeselectInProgress
    }

    /// Whether data messages are exchanged in this state.
    #[verifier::when_used_as_spec(spec_admits_data)]
    pub fn admits_data(self) -> (r: bool)
        ensures
            r == self.spec_admits_data(),
    {
        match self {
            SelectionState::Selected => true,
            SelectionState::DeselectInProgress => true,
            _ => false,
        }
    }
}

/// ## PARAMETER SETTINGS
///
/// What is configured of an entity. The times are in seconds.
#[derive(Clone, Copy, Debug, PartialEq, Eq, Structural)]
pub struct ParameterSettings {
    /// Whether the entity opens the connection or accepts it.
    pub connect_mode: ConnectionMode,
    /// T3, the reply timeout: how long a data message waits for its reply.
    /// From 1 to 120, 45 by default.
    pub t3: u16,
    /// T5, the connect separation timeout: how long an attempt to connect
    /// may take, and how long to wait between two attempts. From 1 to 240,
    /// 10 by default.
    pub t5: u16,
    /// T6, the control transaction timeout: how long a control message waits
    /// for its answer. From 1 to 240, 5 by default.
    pub t6: u16,
    /// T7, the not selected timeout: how long a connection may stand before
    /// it is selected. From 1 to 240, 10 by default.
    pub t7: u16,
    /// T8, the network intercharacter timeout: how long a read or a write on
    /// the connection may take. From 1 to 120, 5 by default.
    pub t8: u16,
    /// How often the link is tested while the session is established. Zero
    /// turns the test off, and is the default.
    pub linktest_interval: u16,
}

impl ParameterSettings {
    /// Whether every time is within the range that the standard gives it.
    pub open spec fn spec_is_valid(&self) -> bool {
        &&& 1 <= self.t3 <= 120
        &&& 1 <= self.t5 <= 240
        &&& 1 <= self.t6 <= 240
        &&& 1 <= self.t7 <= 240
        &&& 1 <= self.t8 <= 120
    }

    /// Whether every time is within the range that the standard gives it.
    #[verifier::when_used_as_spec(spec_is_valid)]
    pub fn is_valid(&self) -> (r: bool)
        ensures
            r == self.spec_is_valid(),
    {
        1 <= self.t3 && self.t3 <= 120 && 1 <= self.t5 && self.t5 <= 240 && 1 <= self.t6
            && self.t6 <= 240 && 1 <= self.t7 && self.t7 <= 240 && 1 <= self.t8 && self.t8
            <= 120
    }

    /// The settings of a passive entity with the default of every time.
    pub open spec fn defaults() -> ParameterSettings {
        ParameterSettings {
            connect_mode: ConnectionMode::Passive,
            t3: 45,
            t5: 10,
            t6: 5,
            t7: 10,
            t8: 5,
            linktest_interval: 0,
        }
    }
}

impl Default for ParameterSettings {
    fn default() -> (r: ParameterSettings)
        ensures
            r == ParameterSettings::defaults(),
            r.spec_is_valid(),
    {
        ParameterSettings {
            connect_mode: ConnectionMode::Passive,
            t3: 45,
            t5: 10,
            t6: 5,
            t7: 10,
            t8: 5,
            linktest_interval: 0,
        }
    }
}

/// The time that lies a number of seconds after a given time, in
/// milliseconds. Where the clock would run over, it is the last time that
/// the clock can show.
pub open spec fn deadline_after(now: u64, seconds: u16) -> u64 {
    if now + seconds * 1000 <= u64::MAX {
        (now + seconds * 1000) as u64
    } else {
        u64::MAX
    }
}

/// The time that lies a number of seconds after a given time.
pub fn deadline(now: u64, seconds: u16) -> (r: u64)
    ensures
        r == deadline_after(now, seconds),
        r >= now,
{
    let span: u64 = (seconds as u64) * 1000;
    if now <= u64::MAX - span {
        now + span
    } else {
        u64::MAX
    }
}

/// One more than a count, unless the count is the largest there is.
pub open spec fn counted_up(count: u64) -> u64 {
    if count < u64::MAX {
        (count + 1) as u64
    } else {
        count
    }
}

/// The system bytes that follow given system bytes; zero follows the
/// largest.
pub open spec fn next_system(system: u32) -> u32 {
    if system < u32::MAX {
        (system + 1) as u32
    } else {
        0
    }
}

/// ## COMPLETION
///
/// The end of a transaction: which one it is, and its result. A data
/// message that was answered has the answer for its result; every other
/// procedure that succeeds has none.
#[derive(Debug)]
pub struct Completion {
    /// The system bytes under which the transaction was opened.
    pub system: u32,
    /// The procedure that waited.
    pub kind: ProcedureKind,
    /// What came of it.
    pub result: Result<Option<DataMessage>, Error>,
}

/// ## ACTION
///
/// What a step of the client asks of whoever drives it.
#[derive(Debug)]
pub enum Action {
    /// Write this message to the connection.
    Transmit(Message),
    /// Complete this transaction: wake who waits for it, with the result.
    Complete(Completion),
    /// Hand this primary data message to the application.
    Deliver(MessageID, DataMessage),
    /// Close the connection.
    Disconnect,
}

/// ## DECISIONS
///
/// What a profile of the protocol has decided on the requests that a
/// message may make.
#[derive(Clone, Copy, Debug, PartialEq, Eq, Structural)]
pub struct Decisions {
    /// The answer to Select.req. None where the request breaks the rules of
    /// the profile.
    pub select: Option<SelectStatus>,
    /// The answer to Deselect.req. None where the request breaks the rules
    /// of the profile.
    pub deselect: Option<DeselectStatus>,
    /// Whether Separate.req ends the session. None where the request breaks
    /// the rules of the profile.
    pub separate: Option<bool>,
    /// Whether the link is tested only while the session is established.
    pub linktest_needs_selection: bool,
}

/// ## PROCEDURE CALLBACKS
///
/// What a profile of the protocol decides: the answer to a request to
/// select, to deselect and to separate, each from the session id of the
/// request and the number of times that the connection was selected so far.
/// Where a decision is none, the request breaks the rules of the profile:
/// it gets no answer and the connection is closed.
pub trait ProcedureCallbacks {
    /// The answer to Select.req.
    fn select(&self, session_id: u16, selection_count: u64) -> Option<SelectStatus>;

    /// The answer to Deselect.req.
    fn deselect(&self, session_id: u16, selection_count: u64) -> Option<DeselectStatus>;

    /// Whether Separate.req ends the session.
    fn separate(&self, session_id: u16, selection_count: u64) -> Option<bool>;

    /// Whether the link is tested only while the session is established.
    fn restricts_linktest(&self) -> bool;
}

/// Whether decisions are those of a profile on a request with a given
/// session id, on a connection that was selected a given number of times:
/// each is what the callback of the profile for it has returned when it was
/// called with the session id and that number.
pub open spec fn decided_by<C: ProcedureCallbacks>(
    callbacks: C,
    session_id: u16,
    selection_count: u64,
    decisions: Decisions,
) -> bool {
    &&& call_ensures(C::select, (&callbacks, session_id, selection_count), decisions.select)
    &&& call_ensures(C::deselect, (&callbacks, session_id, selection_count), decisions.deselect)
    &&& call_ensures(C::separate, (&callbacks, session_id, selection_count), decisions.separate)
    &&& call_ensures(C::restricts_linktest, (&callbacks,), decisions.linktest_needs_selection)
}

/// The action that rejects a message: Reject.req with the id of the message,
/// the type that is objected to and the reason.
pub open spec fn rejection(id: MessageID, rejected: u8, reason: RejectReason) -> Action {
    Action::Transmit(
        Message { id, contents: MessageContents::RejectRequest(rejected, reason.spec_code()) },
    )
}

/// The action that completes a transaction with a result.
pub open spec fn completion(
    entry: PendingReply,
    result: Result<Option<DataMessage>, Error>,
) -> Action {
    Action::Complete(Completion { system: entry.system, kind: entry.kind, result })
}

/// What is done when the connection goes down: every open transaction is
/// completed, in the order of opening, and the connection is closed. The
/// transaction at a given place, if one is given, fails with a given error;
/// every other transaction fails as disconnected.
pub open spec fn teardown_actions(entries: Seq<PendingReply>, culprit: Option<(int, Error)>) -> Seq<
    Action,
> {
    Seq::new(
        entries.len() + 1,
        |i: int|
            if 0 <= i < entries.len() {
                completion(
                    entries[i],
                    Err(
                        match culprit {
                            Some((place, error)) => if place == i {
                                error
                            } else {
                                Error::Disconnected
                            },
                            None => Error::Disconnected,
                        },
                    ),
                )
            } else {
                Action::Disconnect
            },
    )
}

/// Exactly-one completion, of one step: the transactions that the step
/// completes are those that were open before it and are open no more after
/// it, and it completes each of them once.
pub open spec fn completes_exactly_once(
    before: Seq<PendingReply>,
    after: Seq<PendingReply>,
    actions: Seq<Action>,
) -> bool {
    &&& forall|p: int|
        0 <= p < actions.len() ==> (#[trigger] actions[p] matches Action::Complete(c)
            ==> is_pending(before, c.system) && !is_pending(after, c.system))
    &&& forall|p: int, q: int|
        0 <= p < q < actions.len() ==> (#[trigger] actions[p] matches Action::Complete(c) ==> (
        #[trigger] actions[q] matches Action::Complete(d) ==> c.system != d.system))
    &&& forall|system: u32|
        #![trigger is_pending(before, system)]
        is_pending(before, system) && !is_pending(after, system) ==> exists|p: int|
            0 <= p < actions.len() && (#[trigger] actions[p] matches Action::Complete(c)
                && c.system == system)
}

/// ## CLIENT STATE
///
/// The state of a client as a value.
pub struct ClientState {
    /// Whether a connection stands.
    pub connection: ConnectionState,
    /// Whether the session is established.
    pub selection: SelectionState,
    /// How many times the connection has become selected.
    pub selection_count: u64,
    /// The open transactions, in the order of opening.
    pub pending: Seq<PendingReply>,
    /// How many transactions were opened since the connection was made.
    pub issued: nat,
    /// How many of them were completed.
    pub completed: nat,
    /// The system bytes that were handed out last.
    pub counter: u32,
}

impl ClientState {
    /// Whether the state is one that a client can be in. No two open
    /// transactions share their system bytes; the open transactions are
    /// those that were opened and not completed; and without a connection
    /// no transaction is open and no session established.
    pub open spec fn wf(self) -> bool {
        &&& distinct(self.pending)
        &&& self.pending.len() + self.completed == self.issued
        &&& self.connection == ConnectionState::NotConnected ==> self.pending.len() == 0
            && self.selection == SelectionState::NotSelected
    }

    /// The state of a client that was never connected.
    pub open spec fn initial() -> ClientState {
        ClientState {
            connection: ConnectionState::NotConnected,
            selection: SelectionState::NotSelected,
            selection_count: 0,
            pending: Seq::empty(),
            issued: 0,
            completed: 0,
            counter: 0,
        }
    }

    /// The state at the moment at which a connection is made.
    pub open spec fn connected(self) -> ClientState {
        ClientState {
            connection: ConnectionState::Connected,
            selection: SelectionState::NotSelected,
            selection_count: 0,
            pending: Seq::empty(),
            issued: 0,
            completed: 0,
            counter: self.counter,
        }
    }

    /// The state after the connection went down: every open transaction is
    /// completed and the session is gone.
    pub open spec fn torn_down(self) -> ClientState {
        ClientState {
            connection: ConnectionState::NotConnected,
            selection: SelectionState::NotSelected,
            pending: Seq::empty(),
            completed: self.completed + self.pending.len(),
            ..self
        }
    }

    /// The state after a transaction was opened.
    pub open spec fn opened(self, entry: PendingReply) -> ClientState {
        ClientState { pending: self.pending.push(entry), issued: self.issued + 1, ..self }
    }

    /// The state after the transaction at a given place was completed.
    pub open spec fn completed_at(self, place: int) -> ClientState {
        ClientState {
            pending: self.pending.remove(place),
            completed: self.completed + 1,
            ..self
        }
    }

    /// The place of the open transaction with given system bytes and of a
    /// given kind; none where no transaction with these system bytes is open
    /// or the one that is open is of another kind.
    pub open spec fn awaited(self, system: u32, kind: ProcedureKind) -> Option<int> {
        let place = index_of(self.pending, system);
        if place < self.pending.len() && self.pending[place].kind == kind {
            Some(place)
        } else {
            None
        }
    }

    /// Why a procedure that opens a transaction under given system bytes
    /// cannot start; none where it can. It needs a connection, and the
    /// system bytes must not be those of an open transaction.
    pub open spec fn open_fault(self, system: u32) -> Option<Error> {
        if self.connection == ConnectionState::NotConnected {
            Some(Error::NotConnected)
        } else if is_pending(self.pending, system) {
            Some(Error::TransactionOpen)
        } else {
            None
        }
    }

    /// Why the select procedure cannot start; none where it can. It needs
    /// a connection on which no session is established and none is being
    /// established or ended.
    pub open spec fn select_fault(self, system: u32) -> Option<Error> {
        if self.connection == ConnectionState::NotConnected {
            Some(Error::NotConnected)
        } else if self.selection == SelectionState::Selected {
            Some(Error::AlreadyConnected)
        } else if self.selection != SelectionState::NotSelected {
            Some(Error::TransactionOpen)
        } else if is_pending(self.pending, system) {
            Some(Error::TransactionOpen)
        } else {
            None
        }
    }

    /// Why the deselect procedure cannot start; none where it can. It needs
    /// an established session that is not being ended already.
    pub open spec fn deselect_fault(self, system: u32) -> Option<Error> {
        if self.connection == ConnectionState::NotConnected {
            Some(Error::NotConnected)
        } else if self.selection == SelectionState::DeselectInProgress {
            Some(Error::TransactionOpen)
        } else if self.selection != SelectionState::Selected {
            Some(Error::NotSelected)
        } else if is_pending(self.pending, system) {
            Some(Error::TransactionOpen)
        } else {
            None
        }
    }

    /// Why a data message cannot be sent; none where it can. It needs an
    /// established session, and where it expects a reply its system bytes
    /// must not be those of an open transaction.
    pub open spec fn data_fault(self, system: u32, w: bool) -> Option<Error> {
        if self.connection == ConnectionState::NotConnected {
            Some(Error::NotConnected)
        } else if self.selection != SelectionState::Selected {
            Some(Error::NotSelected)
        } else if w && is_pending(self.pending, system) {
            Some(Error::TransactionOpen)
        } else {
            None
        }
    }

    /// Why the separate procedure cannot start; none where it can. It needs
    /// an established session.
    pub open spec fn separate_fault(self) -> Option<Error> {
        if self.connection == ConnectionState::NotConnected {
            Some(Error::NotConnected)
        } else if self.selection != SelectionState::Selected {
            Some(Error::NotSelected)
        } else {
            None
        }
    }

    /// Select.req has arrived and the profile has decided on it.
    ///
    /// While a session is established the answer is that one is active
    /// already. Else the answer is what the profile decided, and where that
    /// is the good status the session is established. Where the profile
    /// decided nothing, no answer is sent and the connection goes down.
    pub open spec fn on_select_request(self, id: MessageID, decision: Option<SelectStatus>) -> (
        ClientState,
        Seq<Action>,
    ) {
        if self.selection.spec_admits_data() {
            (
                self,
                seq![
                    Action::Transmit(
                        Message {
                            id,
                            contents: MessageContents::SelectResponse(
                                SelectStatus::AlreadyActive.spec_code(),
                            ),
                        },
                    ),
                ],
            )
        } else {
            match decision {
                Some(status) => (
                    if status == SelectStatus::Okay {
                        ClientState {
                            selection: SelectionState::Selected,
                            selection_count: counted_up(self.selection_count),
                            ..self
                        }
                    } else {
                        self
                    },
                    seq![
                        Action::Transmit(
                            Message {
                                id,
                                contents: MessageContents::SelectResponse(status.spec_code()),
                            },
                        ),
                    ],
                ),
                None => (self.torn_down(), teardown_actions(self.pending, None)),
            }
        }
    }

    /// Select.rsp has arrived.
    ///
    /// Where a select procedure waits under the system bytes of the answer,
    /// it is completed: with success where the status is good, and the
    /// session is then established; rejected with the status otherwise, and
    /// the session is then not established. Where none waits, the answer is
    /// rejected, since no such transaction is open.
    pub open spec fn on_select_response(self, id: MessageID, status: u8) -> (
        ClientState,
        Seq<Action>,
    ) {
        match self.awaited(id.system, ProcedureKind::Select) {
            Some(place) => {
                let entry = self.pending[place];
                let done = self.completed_at(place);
                if status == 0 {
                    (
                        ClientState {
                            selection: SelectionState::Selected,
                            selection_count: if self.selection.spec_admits_data() {
                                self.selection_count
                            } else {
                                counted_up(self.selection_count)
                            },
                            ..done
                        },
                        seq![completion(entry, Ok(None))],
                    )
                } else {
                    (
                        ClientState {
                            selection: if self.selection == SelectionState::SelectInProgress {
                                SelectionState::NotSelected
                            } else {
                                self.selection
                            },
                            ..done
                        },
                        seq![completion(entry, Err(Error::ProcedureRejected(status)))],
                    )
                }
            },
            None => (
                self,
                seq![
                    rejection(
                        id,
                        SessionType::SelectResponse.spec_code(),
                        RejectReason::TransactionNotOpen,
                    ),
                ],
            ),
        }
    }

    /// Deselect.req has arrived and the profile has decided on it.
    ///
    /// While no session is established the answer is that none is. Else the
    /// answer is what the profile decided, and where that is the good status
    /// the session is ended. Where the profile decided nothing, no answer is
    /// sent and the connection goes down.
    pub open spec fn on_deselect_request(
        self,
        id: MessageID,
        decision: Option<DeselectStatus>,
    ) -> (ClientState, Seq<Action>) {
        if !self.selection.spec_admits_data() {
            (
                self,
                seq![
                    Action::Transmit(
                        Message {
                            id,
                            contents: MessageContents::DeselectResponse(
                                DeselectStatus::NotEstablished.spec_code(),
                            ),
                        },
                    ),
                ],
            )
        } else {
            match decision {
                Some(status) => (
                    if status == DeselectStatus::Okay {
                        ClientState { selection: SelectionState::NotSelected, ..self }
                    } else {
                        self
                    },
                    seq![
                        Action::Transmit(
                            Message {
                                id,
                                contents: MessageContents::DeselectResponse(status.spec_code()),
                            },
                        ),
                    ],
                ),
                None => (self.torn_down(), teardown_actions(self.pending, None)),
            }
        }
    }

    /// Deselect.rsp has arrived.
    ///
    /// Where a deselect procedure waits under the system bytes of the
    /// answer, it is completed: with success where the status is good, and
    /// the session is then ended; rejected with the status otherwise, and
    /// the session then stays. Where none waits, the answer is rejected.
    pub open spec fn on_deselect_response(self, id: MessageID, status: u8) -> (
        ClientState,
        Seq<Action>,
    ) {
        match self.awaited(id.system, ProcedureKind::Deselect) {
            Some(place) => {
                let entry = self.pending[place];
                let done = self.completed_at(place);
                if status == 0 {
                    (
                        ClientState { selection: SelectionState::NotSelected, ..done },
                        seq![completion(entry, Ok(None))],
                    )
                } else {
                    (
                        ClientState {
                            selection: if self.selection == SelectionState::DeselectInProgress {
                                SelectionState::Selected
                            } else {
                                self.selection
                            },
                            ..done
                        },
                        seq![completion(entry, Err(Error::ProcedureRejected(status)))],
                    )
                }
            },
            None => (
                self,
                seq![
                    rejection(
                        id,
                        SessionType::DeselectResponse.spec_code(),
                        RejectReason::TransactionNotOpen,
                    ),
                ],
            ),
        }
    }

    /// Separate.req has arrived and the profile has decided on it.
    ///
    /// Where the profile accepts it, an established session is ended. Where
    /// the profile declines it, nothing happens. Where the profile decided
    /// nothing, the connection goes down. No answer is sent in any case.
    pub open spec fn on_separate_request(self, decision: Option<bool>) -> (
        ClientState,
        Seq<Action>,
    ) {
        match decision {
            Some(accepted) => (
                if accepted && self.selection.spec_admits_data() {
                    ClientState { selection: SelectionState::NotSelected, ..self }
                } else {
                    self
                },
                Seq::empty(),
            ),
            None => (self.torn_down(), teardown_actions(self.pending, None)),
        }
    }

    /// Linktest.req has arrived.
    ///
    /// The answer is Linktest.rsp with the system bytes of the request.
    /// Where the profile tests the link only while the session is
    /// established and it is not, the request is rejected instead.
    pub open spec fn on_linktest_request(self, id: MessageID, needs_selection: bool) -> (
        ClientState,
        Seq<Action>,
    ) {
        if needs_selection && self.selection != SelectionState::Selected {
            (
                self,
                seq![
                    rejection(
                        id,
                        SessionType::LinktestRequest.spec_code(),
                        RejectReason::EntityNotSelected,
                    ),
                ],
            )
        } else {
            (
                self,
                seq![Action::Transmit(Message { id, contents: MessageContents::LinktestResponse })],
            )
        }
    }

    /// Linktest.rsp has arrived.
    ///
    /// Where a linktest procedure waits under the system bytes of the
    /// answer, it is completed with success. Where none waits, the answer is
    /// rejected.
    pub open spec fn on_linktest_response(self, id: MessageID) -> (ClientState, Seq<Action>) {
        match self.awaited(id.system, ProcedureKind::Linktest) {
            Some(place) => (
                self.completed_at(place),
                seq![completion(self.pending[place], Ok(None))],
            ),
            None => (
                self,
                seq![
                    rejection(
                        id,
                        SessionType::LinktestResponse.spec_code(),
                        RejectReason::TransactionNotOpen,
                    ),
                ],
            ),
        }
    }

    /// A data message has arrived.
    ///
    /// While no session is established it is rejected. A primary message is
    /// handed to the application with its id. A reply completes the data
    /// procedure that waits under its system bytes, which has the reply for
    /// its result; where none waits, the reply is rejected.
    pub open spec fn on_data(self, id: MessageID, data: DataMessage) -> (ClientState, Seq<Action>) {
        if !self.selection.spec_admits_data() {
            (
                self,
                seq![
                    rejection(
                        id,
                        SessionType::DataMessage.spec_code(),
                        RejectReason::EntityNotSelected,
                    ),
                ],
            )
        } else if data.spec_is_primary() {
            (self, seq![Action::Deliver(id, data)])
        } else {
            match self.awaited(id.system, ProcedureKind::Data) {
                Some(place) => (
                    self.completed_at(place),
                    seq![completion(self.pending[place], Ok(Some(data)))],
                ),
                None => (
                    self,
                    seq![
                        rejection(
                            id,
                            SessionType::DataMessage.spec_code(),
                            RejectReason::TransactionNotOpen,
                        ),
                    ],
                ),
            }
        }
    }

    /// Reject.req has arrived.
    ///
    /// The transaction that is open under its system bytes is completed: a
    /// data procedure as a rejected message, with the type that was objected
    /// to and the reason; a control procedure as a rejected procedure, with
    /// the reason. A session that the procedure was about to establish is
    /// then not established, and one that it was about to end stays. Where
    /// no transaction is open under the system bytes, nothing happens: a
    /// rejection is never rejected.
    pub open spec fn on_reject(self, id: MessageID, rejected: u8, reason: u8) -> (
        ClientState,
        Seq<Action>,
    ) {
        let place = index_of(self.pending, id.system);
        if place < self.pending.len() {
            let entry = self.pending[place];
            let done = self.completed_at(place);
            match entry.kind {
                ProcedureKind::Data => (
                    done,
                    seq![completion(entry, Err(Error::MessageRejected(rejected, reason)))],
                ),
                ProcedureKind::Select => (
                    ClientState {
                        selection: if self.selection == SelectionState::SelectInProgress {
                            SelectionState::NotSelected
                        } else {
                            self.selection
                        },
                        ..done
                    },
                    seq![completion(entry, Err(Error::ProcedureRejected(reason)))],
                ),
                ProcedureKind::Deselect => (
                    ClientState {
                        selection: if self.selection == SelectionState::DeselectInProgress {
                            SelectionState::Selected
                        } else {
                            self.selection
                        },
                        ..done
                    },
                    seq![completion(entry, Err(Error::ProcedureRejected(reason)))],
                ),
                ProcedureKind::Linktest => (
                    done,
                    seq![completion(entry, Err(Error::ProcedureRejected(reason)))],
                ),
            }
        } else {
            (self, Seq::empty())
        }
    }

    /// A message has arrived, and the profile has given its decisions.
    /// Without a connection nothing is done with it.
    pub open spec fn on_message(self, decisions: Decisions, message: Message) -> (
        ClientState,
        Seq<Action>,
    ) {
        let id = message.id;
        if self.connection == ConnectionState::NotConnected {
            (self, Seq::empty())
        } else {
            match message.contents {
                MessageContents::DataMessage(data) => self.on_data(id, data),
                MessageContents::SelectRequest => self.on_select_request(id, decisions.select),
                MessageContents::SelectResponse(status) => self.on_select_response(id, status),
                MessageContents::DeselectRequest => self.on_deselect_request(
                    id,
                    decisions.deselect,
                ),
                MessageContents::DeselectResponse(status) => self.on_deselect_response(id, status),
                MessageContents::LinktestRequest => self.on_linktest_request(
                    id,
                    decisions.linktest_needs_selection,
                ),
                MessageContents::LinktestResponse => self.on_linktest_response(id),
                MessageContents::RejectRequest(rejected, reason) => self.on_reject(
                    id,
                    rejected,
                    reason,
                ),
                MessageContents::SeparateRequest => self.on_separate_request(decisions.separate),
            }
        }
    }

    /// A primitive message has arrived. One that is no message of HSMS is
    /// rejected with the reason, and with the type that is objected to: the
    /// presentation type where that is not SECS-II, else the session type.
    /// The state does not change then.
    pub open spec fn on_primitive(self, decisions: Decisions, message: primitive::Message) -> (
        ClientState,
        Seq<Action>,
    ) {
        if self.connection == ConnectionState::NotConnected {
            (self, Seq::empty())
        } else {
            match decode_fault(message.header) {
                Some(reason) => (
                    self,
                    seq![
                        rejection(
                            decoded_id(message.header),
                            if reason == RejectReason::PresentationTypeUnsupported {
                                message.header.presentation_type
                            } else {
                                message.header.session_type
                            },
                            reason,
                        ),
                    ],
                ),
                None => self.on_message(
                    decisions,
                    Message {
                        id: decoded_id(message.header),
                        contents: decoded_contents(message.header, message.text),
                    },
                ),
            }
        }
    }

    /// The system bytes that are handed out next: the first after those
    /// handed out last under which no transaction is open. None where a
    /// transaction is open under every value.
    pub open spec fn fresh_system(self) -> Option<u32> {
        self.first_free(next_system(self.counter), 0x1_0000_0000)
    }

    /// The system bytes under which the link is tested when the linktest
    /// timer runs out; none where it is not tested then. The link is tested
    /// at a given interval while the session is established; an interval of
    /// zero turns the test off.
    pub open spec fn timed_linktest(self, interval: u16) -> Option<u32> {
        if interval == 0 || self.connection == ConnectionState::NotConnected || self.selection
            != SelectionState::Selected {
            None
        } else {
            self.fresh_system()
        }
    }

    /// The first system bytes, from given ones on and through at most a
    /// given number of tries, under which no transaction is open.
    pub open spec fn first_free(self, candidate: u32, tries: nat) -> Option<u32>
        decreases tries,
    {
        if tries == 0 {
            None
        } else if !is_pending(self.pending, candidate) {
            Some(candidate)
        } else {
            self.first_free(next_system(candidate), (tries - 1) as nat)
        }
    }
}

/// The culprit of a teardown as a value: the place of the transaction that
/// fails with an error of its own, and that error.
pub open spec fn culprit_at(culprit: Option<(usize, Error)>) -> Option<(int, Error)> {
    match culprit {
        Some((place, error)) => Some((place as int, error)),
        None => None,
    }
}

/// A step that completes nothing and leaves the open transactions as they
/// are completes each transaction that it closes exactly once.
pub proof fn lemma_no_completion(entries: Seq<PendingReply>, actions: Seq<Action>)
    requires
        forall|p: int| 0 <= p < actions.len() ==> !(#[trigger] actions[p] is Complete),
    ensures
        completes_exactly_once(entries, entries, actions),
{
}

/// A step that completes the transaction at one place, and takes it out of
/// the open transactions, completes each transaction that it closes exactly
/// once.
pub proof fn lemma_one_completion(
    entries: Seq<PendingReply>,
    place: int,
    result: Result<Option<DataMessage>, Error>,
)
    requires
        distinct(entries),
        0 <= place < entries.len(),
    ensures
        completes_exactly_once(
            entries,
            entries.remove(place),
            seq![completion(entries[place], result)],
        ),
        distinct(entries.remove(place)),
{
    let after = entries.remove(place);
    let actions = seq![completion(entries[place], result)];
    let system = entries[place].system;
    lemma_remove(entries, place, system);
    lemma_index_of(entries, system);
    if index_of(entries, system) >= entries.len() {
        assert(entries[place].system != system);
    }
    assert forall|other: u32|
        #![trigger is_pending(entries, other)]
        is_pending(entries, other) && !is_pending(after, other) implies exists|p: int|
        0 <= p < actions.len() && (#[trigger] actions[p] matches Action::Complete(c) && c.system
            == other) by {
        lemma_remove(entries, place, other);
        assert(other == system);
        assert(actions[0] matches Action::Complete(c) && c.system == other);
    }
}

/// A teardown completes each open transaction exactly once, and leaves none
/// open.
pub proof fn lemma_teardown_completes_once(
    entries: Seq<PendingReply>,
    culprit: Option<(int, Error)>,
)
    requires
        distinct(entries),
    ensures
        completes_exactly_once(
            entries,
            Seq::<PendingReply>::empty(),
            teardown_actions(entries, culprit),
        ),
{
    let actions = teardown_actions(entries, culprit);
    let after = Seq::<PendingReply>::empty();
    assert forall|p: int| 0 <= p < actions.len() implies (
    #[trigger] actions[p] matches Action::Complete(c) ==> is_pending(entries, c.system)
        && !is_pending(after, c.system)) by {
        if p < entries.len() {
            let system = entries[p].system;
            lemma_index_of(entries, system);
            if index_of(entries, system) >= entries.len() {
                assert(entries[p].system != system);
            }
        }
    }
    assert forall|p: int, q: int| 0 <= p < q < actions.len() implies (
    #[trigger] actions[p] matches Action::Complete(c) ==> (
    #[trigger] actions[q] matches Action::Complete(d) ==> c.system != d.system)) by {
        if q < entries.len() {
            assert(entries[p].system != entries[q].system);
        }
    }
    assert forall|system: u32|
        #![trigger is_pending(entries, system)]
        is_pending(entries, system) && !is_pending(after, system) implies exists|p: int|
        0 <= p < actions.len() && (#[trigger] actions[p] matches Action::Complete(c) && c.system
            == system) by {
        lemma_index_of(entries, system);
        let p = index_of(entries, system);
        assert(actions[p] matches Action::Complete(c) && c.system == system);
    }
}

/// Expiry: where the transaction at one place has expired, the teardown
/// completes that transaction as timed out and no other; every other open
/// transaction is completed as disconnected, and the connection is closed.
pub proof fn lemma_expiry_times_out_one(entries: Seq<PendingReply>, place: int, p: int)
    requires
        0 <= place < entries.len(),
        0 <= p < entries.len(),
    ensures
        teardown_actions(entries, Some((place, Error::TimedOut))).len() == entries.len() + 1,
        teardown_actions(entries, Some((place, Error::TimedOut)))[entries.len() as int]
            == Action::Disconnect,
        teardown_actions(entries, Some((place, Error::TimedOut)))[p] == completion(
            entries[p],
            Err(
                if p == place {
                    Error::TimedOut
                } else {
                    Error::Disconnected
                },
            ),
        ),
{
}

/// Disconnect: a teardown without a culprit completes every open
/// transaction as disconnected, all in the one step and so whatever the
/// deadline of each, and closes the connection.
pub proof fn lemma_teardown_disconnects_all(entries: Seq<PendingReply>, p: int)
    requires
        0 <= p < entries.len(),
    ensures
        teardown_actions(entries, None).len() == entries.len() + 1,
        teardown_actions(entries, None)[entries.len() as int] == Action::Disconnect,
        teardown_actions(entries, None)[p] == completion(entries[p], Err(Error::Disconnected)),
{
}

/// Exactly-one completion, from state to state: a step completes no
/// transaction that was not open before it. So a transaction that was
/// completed stays completed until its system bytes are opened anew.
pub proof fn lemma_completes_only_open(
    before: Seq<PendingReply>,
    after: Seq<PendingReply>,
    actions: Seq<Action>,
    p: int,
)
    requires
        completes_exactly_once(before, after, actions),
        0 <= p < actions.len(),
    ensures
        actions[p] matches Action::Complete(c) ==> is_pending(before, c.system) && !is_pending(
            after,
            c.system,
        ),
{
}

/// Exactly-one completion, over two steps: a transaction that one step has
/// completed is not completed by the step that follows it.
pub proof fn lemma_completed_once_for_all(
    first: Seq<PendingReply>,
    second: Seq<PendingReply>,
    third: Seq<PendingReply>,
    earlier: Seq<Action>,
    later: Seq<Action>,
    p: int,
    q: int,
)
    requires
        completes_exactly_once(first, second, earlier),
        completes_exactly_once(second, third, later),
        0 <= p < earlier.len(),
        0 <= q < later.len(),
    ensures
        earlier[p] matches Action::Complete(c) ==> (later[q] matches Action::Complete(d)
            ==> c.system != d.system),
{
}

/// Transaction table bound: in every state that a client can be in, there
/// are no more open transactions than were opened since the connection was
/// made and not completed yet. There are in fact just as many.
pub proof fn lemma_table_bound(state: ClientState)
    requires
        state.wf(),
    ensures
        state.pending.len() <= state.issued - state.completed,
        state.pending.len() == state.issued - state.completed,
{
}

/// System bytes echo: whatever message arrives, every message that the
/// client transmits in answer has the system bytes, and the session id, of
/// the message that arrived; and a transaction that the message completes
/// was opened under those system bytes.
pub proof fn lemma_system_bytes_echo(
    state: ClientState,
    decisions: Decisions,
    message: Message,
    p: int,
)
    requires
        state.wf(),
        0 <= p < state.on_message(decisions, message).1.len(),
    ensures
        state.on_message(decisions, message).1[p] matches Action::Transmit(answer) ==> answer.id
            == message.id,
        state.on_message(decisions, message).1[p] matches Action::Deliver(id, _) ==> id
            == message.id,
        state.on_message(decisions, message).1.len() == 1 ==> (state.on_message(
            decisions,
            message,
        ).1[p] matches Action::Complete(c) ==> c.system == message.id.system),
{
    lemma_index_of(state.pending, message.id.system);
}

/// A single vector of one action.
fn one(action: Action) -> (r: Vec<Action>)
    ensures
        r@ == seq![action],
{
    let mut r: Vec<Action> = Vec::new();
    r.push(action);
    assert(r@ =~= seq![action]);
    r
}

/// No action.
fn nothing() -> (r: Vec<Action>)
    ensures
        r@ == Seq::<Action>::empty(),
{
    Vec::new()
}

/// The action that rejects a message.
fn reject_action(id: MessageID, rejected: u8, reason: RejectReason) -> (r: Action)
    ensures
        r == rejection(id, rejected, reason),
{
    Action::Transmit(
        Message { id, contents: MessageContents::RejectRequest(rejected, reason.code()) },
    )
}

/// The action that completes a transaction with a result.
fn complete_action(entry: PendingReply, result: Result<Option<DataMessage>, Error>) -> (r: Action)
    ensures
        r == completion(entry, result),
{
    Action::Complete(Completion { system: entry.system, kind: entry.kind, result })
}

/// ## CLIENT
///
/// One entity: its settings, the decisions of its profile, and its state.
pub struct Client<C: ProcedureCallbacks> {
    parameter_settings: ParameterSettings,
    callbacks: C,
    connection_state: ConnectionState,
    selection_state: SelectionState,
    selection_count: u64,
    table: TransactionTable,
    counter: u32,
    issued: Ghost<nat>,
    completed: Ghost<nat>,
}

impl<C: ProcedureCallbacks> View for Client<C> {
    type V = ClientState;

    closed spec fn view(&self) -> ClientState {
        ClientState {
            connection: self.connection_state,
            selection: self.selection_state,
            selection_count: self.selection_count,
            pending: self.table@,
            issued: self.issued@,
            completed: self.completed@,
            counter: self.counter,
        }
    }
}

impl<C: ProcedureCallbacks> Client<C> {
    /// The decisions of the profile.
    pub closed spec fn callbacks(&self) -> C {
        self.callbacks
    }

    /// What is configured of the entity.
    pub closed spec fn settings(&self) -> ParameterSettings {
        self.parameter_settings
    }

    /// Whether the client is in a state that a client can be in.
    pub open spec fn wf(&self) -> bool {
        self@.wf()
    }

    /// Whether this client has the settings and the profile of another.
    pub open spec fn configured_as(&self, other: &Self) -> bool {
        self.settings() == other.settings() && self.callbacks() == other.callbacks()
    }

    /// Whether a step has led from one client to another with a given
    /// outcome: the new state and the actions are those of the outcome, the
    /// new state is one that a client can be in, settings and profile are
    /// unchanged, and each transaction that the step has closed is completed
    /// exactly once.
    pub open spec fn steps_to(
        before: Self,
        after: Self,
        actions: Seq<Action>,
        outcome: (ClientState, Seq<Action>),
    ) -> bool {
        &&& after@ == outcome.0
        &&& actions == outcome.1
        &&& after.wf()
        &&& after.configured_as(&before)
        &&& completes_exactly_once(before@.pending, after@.pending, actions)
    }

    /// Whether a procedure has started, or has been refused, as it should:
    /// refused with the fault and without any change where there is one, and
    /// else started with a given message to transmit and a given new state.
    pub open spec fn starts(
        before: Self,
        after: Self,
        result: Result<Message, Error>,
        fault: Option<Error>,
        message: Message,
        state: ClientState,
    ) -> bool {
        &&& after.wf()
        &&& after.configured_as(&before)
        &&& match fault {
            Some(e) => result == Err::<Message, Error>(e) && after@ == before@,
            None => result == Ok::<Message, Error>(message) && after@ == state,
        }
    }

    /// A client that is not connected, with given settings and profile.
    pub fn new(parameter_settings: ParameterSettings, callbacks: C) -> (r: Self)
        ensures
            r@ == ClientState::initial(),
            r.wf(),
            r.settings() == parameter_settings,
            r.callbacks() == callbacks,
    {
        Client {
            parameter_settings,
            callbacks,
            connection_state: ConnectionState::NotConnected,
            selection_state: SelectionState::NotSelected,
            selection_count: 0,
            table: TransactionTable::new(),
            counter: 0,
            issued: Ghost(0),
            completed: Ghost(0),
        }
    }

    /// What is configured of the entity.
    pub fn parameter_settings(&self) -> (r: ParameterSettings)
        ensures
            r == self.settings(),
    {
        self.parameter_settings
    }

    /// Whether a connection stands.
    pub fn connection_state(&self) -> (r: ConnectionState)
        ensures
            r == self@.connection,
    {
        self.connection_state
    }

    /// Whether the session is established.
    pub fn selection_state(&self) -> (r: SelectionState)
        ensures
            r == self@.selection,
    {
        self.selection_state
    }

    /// How many times the connection has become selected.
    pub fn selection_count(&self) -> (r: u64)
        ensures
            r == self@.selection_count,
    {
        self.selection_count
    }

    /// The number of open transactions.
    pub fn pending(&self) -> (r: usize)
        ensures
            r == self@.pending.len(),
    {
        self.table.len()
    }

    /// Whether a transaction is open under given system bytes.
    pub fn is_open(&self, system: u32) -> (r: bool)
        ensures
            r == is_pending(self@.pending, system),
    {
        self.table.find(system).is_some()
    }

    /// Whether a procedure of a given kind waits under given system bytes.
    pub fn awaits(&self, system: u32, kind: ProcedureKind) -> (r: bool)
        ensures
            r == (self@.awaited(system, kind) is Some),
    {
        proof {
            lemma_index_of(self@.pending, system);
        }
        match self.table.find(system) {
            Some(entry) => entry.kind == kind,
            None => false,
        }
    }

    /// The earliest deadline among the open transactions: the time until
    /// which no timer runs out. None where no transaction is open.
    pub fn next_deadline(&self) -> (r: Option<u64>)
        ensures
            match r {
                Some(deadline) => is_earliest_deadline(self@.pending, deadline),
                None => self@.pending.len() == 0,
            },
    {
        self.table.next_deadline()
    }

    /// ### CONNECT PROCEDURE
    ///
    /// Takes note that a connection was made. The client must not be
    /// connected; one that is refuses, and nothing changes. The new
    /// connection has no session, no open transaction, and counts its
    /// transactions and selections from zero.
    pub fn connect(&mut self) -> (r: Result<(), Error>)
        requires
            old(self).wf(),
        ensures
            final(self).wf(),
            final(self).configured_as(old(self)),
            match r {
                Ok(_) => old(self)@.connection == ConnectionState::NotConnected && final(self)@
                    == old(self)@.connected(),
                Err(e) => old(self)@.connection == ConnectionState::Connected && e
                    == Error::AlreadyConnected && final(self)@ == old(self)@,
            },
    {
        match self.connection_state {
            ConnectionState::Connected => {
                return Err(Error::AlreadyConnected);
            },
            ConnectionState::NotConnected => {},
        }
        self.connection_state = ConnectionState::Connected;
        self.selection_state = SelectionState::NotSelected;
        self.selection_count = 0;
        self.issued = Ghost(0);
        self.completed = Ghost(0);
        assert(self.table@ =~= Seq::empty());
        Ok(())
    }

    /// Brings the connection down: completes every open transaction and
    /// orders the disconnect.
    fn teardown(&mut self, culprit: Option<(usize, Error)>) -> (actions: Vec<Action>)
        requires
            old(self).wf(),
            culprit matches Some((place, _)) ==> place < old(self)@.pending.len(),
        ensures
            Self::steps_to(
                *old(self),
                *final(self),
                actions@,
                (old(self)@.torn_down(), teardown_actions(old(self)@.pending, culprit_at(culprit))),
            ),
    {
        let entries = self.table.take_all();
        let ghost wanted = teardown_actions(entries@, culprit_at(culprit));
        let (place, mut error): (usize, Option<Error>) = match culprit {
            Some((place, error)) => (place, Some(error)),
            None => (entries.len(), None),
        };
        let mut actions: Vec<Action> = Vec::new();
        let mut i: usize = 0;
        while i < entries.len()
            invariant
                i <= entries@.len(),
                actions@.len() == i,
                wanted == teardown_actions(entries@, culprit_at(culprit)),
                culprit matches Some((p, e)) ==> p == place && (i <= place ==> error == Some(e)),
                culprit is None ==> place == entries@.len(),
                forall|k: int| 0 <= k < i ==> actions@[k] == wanted[k],
            decreases entries@.len() - i,
        {
            let entry = entries[i];
            let reason = if i == place {
                match error.take() {
                    Some(e) => e,
                    None => Error::Disconnected,
                }
            } else {
                Error::Disconnected
            };
            actions.push(complete_action(entry, Err(reason)));
            i = i + 1;
        }
        actions.push(Action::Disconnect);
        assert(actions@ =~= wanted);
        self.connection_state = ConnectionState::NotConnected;
        self.selection_state = SelectionState::NotSelected;
        self.completed = Ghost(self.completed@ + entries@.len());
        proof {
            lemma_teardown_completes_once(entries@, culprit_at(culprit));
        }
        actions
    }

    /// ### DISCONNECT PROCEDURE
    ///
    /// Ends the connection. The client must be connected; one that is not
    /// refuses. Every open transaction is completed as disconnected, at
    /// once and whatever its deadline, and the connection is to be closed.
    pub fn disconnect(&mut self) -> (r: Result<Vec<Action>, Error>)
        requires
            old(self).wf(),
        ensures
            match r {
                Ok(actions) => old(self)@.connection == ConnectionState::Connected
                    && Self::steps_to(
                    *old(self),
                    *final(self),
                    actions@,
                    (old(self)@.torn_down(), teardown_actions(old(self)@.pending, None)),
                ),
                Err(e) => old(self)@.connection == ConnectionState::NotConnected && e
                    == Error::NotConnected && final(self)@ == old(self)@ && final(self).wf()
                    && final(self).configured_as(old(self)),
            },
    {
        match self.connection_state {
            ConnectionState::NotConnected => Err(Error::NotConnected),
            ConnectionState::Connected => Ok(self.teardown(None)),
        }
    }

    /// Takes note that the connection is lost: the other end has closed it.
    /// Every open transaction is completed as disconnected, and what is
    /// left of the connection is to be closed. Without a connection nothing
    /// is done.
    pub fn connection_lost(&mut self) -> (actions: Vec<Action>)
        requires
            old(self).wf(),
        ensures
            Self::steps_to(
                *old(self),
                *final(self),
                actions@,
                if old(self)@.connection == ConnectionState::NotConnected {
                    (old(self)@, Seq::empty())
                } else {
                    (old(self)@.torn_down(), teardown_actions(old(self)@.pending, None))
                },
            ),
    {
        match self.connection_state {
            ConnectionState::NotConnected => {
                proof {
                    lemma_no_completion(self@.pending, Seq::empty());
                }
                nothing()
            },
            ConnectionState::Connected => self.teardown(None),
        }
    }

    /// Takes note that the connection has failed: a write did not complete
    /// or a read broke off. The transaction that is open under given
    /// system bytes, if there is one, fails with the given error, every
    /// other open transaction as disconnected, and the connection is to be
    /// closed. Without a connection nothing is done.
    pub fn fail(&mut self, system: u32, error: Error) -> (actions: Vec<Action>)
        requires
            old(self).wf(),
        ensures
            Self::steps_to(
                *old(self),
                *final(self),
                actions@,
                if old(self)@.connection == ConnectionState::NotConnected {
                    (old(self)@, Seq::empty())
                } else {
                    (
                        old(self)@.torn_down(),
                        teardown_actions(
                            old(self)@.pending,
                            if is_pending(old(self)@.pending, system) {
                                Some((index_of(old(self)@.pending, system), error))
                            } else {
                                None
                            },
                        ),
                    )
                },
            ),
    {
        match self.connection_state {
            ConnectionState::NotConnected => {
                proof {
                    lemma_no_completion(self@.pending, Seq::empty());
                }
                nothing()
            },
            ConnectionState::Connected => {
                let place = self.table.position(system);
                if place < self.table.len() {
                    self.teardown(Some((place, error)))
                } else {
                    self.teardown(None)
                }
            },
        }
    }

    /// The timers are looked at. Where an open transaction has expired, the
    /// first such in the order of opening is completed as timed out; the
    /// connection then goes down, so every other open transaction is
    /// completed as disconnected and the connection is to be closed. Where
    /// none has expired, and so while the time is at or before every
    /// deadline, nothing happens.
    pub fn expire(&mut self, now: u64) -> (actions: Vec<Action>)
        requires
            old(self).wf(),
        ensures
            Self::steps_to(
                *old(self),
                *final(self),
                actions@,
                if first_expired(old(self)@.pending, now) < old(self)@.pending.len() {
                    (
                        old(self)@.torn_down(),
                        teardown_actions(
                            old(self)@.pending,
                            Some((first_expired(old(self)@.pending, now), Error::TimedOut)),
                        ),
                    )
                } else {
                    (old(self)@, Seq::empty())
                },
            ),
    {
        match self.table.expired(now) {
            Some(entry) => {
                proof {
                    lemma_first_expired(self@.pending, now);
                    let place = first_expired(self@.pending, now);
                    assert forall|k: int| 0 <= k < place implies (
                    #[trigger] self@.pending[k]).system != entry.system by {}
                    lemma_index_of_is(self@.pending, entry.system, place);
                }
                let place = self.table.position(entry.system);
                self.teardown(Some((place, Error::TimedOut)))
            },
            None => {
                proof {
                    lemma_no_completion(self@.pending, Seq::empty());
                }
                nothing()
            },
        }
    }

    /// Hands out system bytes for a new transaction: the first after those
    /// handed out last, with zero after the largest, under which no
    /// transaction is open. None where a transaction is open under every
    /// value.
    pub fn allocate_system(&mut self) -> (r: Option<u32>)
        requires
            old(self).wf(),
        ensures
            final(self).wf(),
            final(self).configured_as(old(self)),
            r == old(self)@.fresh_system(),
            r matches Some(system) ==> !is_pending(old(self)@.pending, system),
            final(self)@ == (ClientState {
                counter: match r {
                    Some(system) => system,
                    None => old(self)@.counter,
                },
                ..old(self)@
            }),
    {
        let mut candidate: u32 = if self.counter < u32::MAX {
            self.counter + 1
        } else {
            0
        };
        let mut tries: u64 = 0;
        while tries < 0x1_0000_0000
            invariant
                tries <= 0x1_0000_0000,
                *self == *old(self),
                self.wf(),
                old(self)@.fresh_system() == old(self)@.first_free(
                    candidate,
                    (0x1_0000_0000 - tries) as nat,
                ),
            decreases 0x1_0000_0000 - tries,
        {
            if self.table.find(candidate).is_none() {
                self.counter = candidate;
                return Some(candidate);
            }
            candidate = if candidate < u32::MAX {
                candidate + 1
            } else {
                0
            };
            tries = tries + 1;
        }
        None
    }

    /// Opens a transaction.
    fn open(&mut self, system: u32, kind: ProcedureKind, deadline: u64)
        requires
            old(self).wf(),
            old(self)@.connection == ConnectionState::Connected,
            !is_pending(old(self)@.pending, system),
        ensures
            final(self).wf(),
            final(self).configured_as(old(self)),
            final(self)@ == old(self)@.opened(PendingReply { system, kind, deadline }),
    {
        self.table.insert(PendingReply { system, kind, deadline });
        self.issued = Ghost(self.issued@ + 1);
    }

    /// ### SELECT PROCEDURE
    ///
    /// Asks to establish the session. Needs a connection on which no session
    /// is established, being established or being ended, and system bytes
    /// under which no transaction is open. Gives the Select.req to transmit;
    /// its answer is due after the time T6.
    pub fn select(&mut self, id: MessageID, now: u64) -> (r: Result<Message, Error>)
        requires
            old(self).wf(),
        ensures
            Self::starts(
                *old(self),
                *final(self),
                r,
                old(self)@.select_fault(id.system),
                Message { id, contents: MessageContents::SelectRequest },
                ClientState {
                    selection: SelectionState::SelectInProgress,
                    ..old(self)@.opened(
                        PendingReply {
                            system: id.system,
                            kind: ProcedureKind::Select,
                            deadline: deadline_after(now, old(self).settings().t6),
                        },
                    )
                },
            ),
    {
        match self.connection_state {
            ConnectionState::NotConnected => {
                return Err(Error::NotConnected);
            },
            ConnectionState::Connected => {},
        }
        match self.selection_state {
            SelectionState::NotSelected => {},
            SelectionState::Selected => {
                return Err(Error::AlreadyConnected);
            },
            _ => {
                return Err(Error::TransactionOpen);
            },
        }
        if self.table.find(id.system).is_some() {
            return Err(Error::TransactionOpen);
        }
        self.open(id.system, ProcedureKind::Select, deadline(now, self.parameter_settings.t6));
        self.selection_state = SelectionState::SelectInProgress;
        Ok(Message { id, contents: MessageContents::SelectRequest })
    }

    /// ### DESELECT PROCEDURE
    ///
    /// Asks to end the session. Needs an established session that is not
    /// being ended already, and system bytes under which no transaction is
    /// open. Gives the Deselect.req to transmit; its answer is due after the
    /// time T6.
    pub fn deselect(&mut self, id: MessageID, now: u64) -> (r: Result<Message, Error>)
        requires
            old(self).wf(),
        ensures
            Self::starts(
                *old(self),
                *final(self),
                r,
                old(self)@.deselect_fault(id.system),
                Message { id, contents: MessageContents::DeselectRequest },
                ClientState {
                    selection: SelectionState::DeselectInProgress,
                    ..old(self)@.opened(
                        PendingReply {
                            system: id.system,
                            kind: ProcedureKind::Deselect,
                            deadline: deadline_after(now, old(self).settings().t6),
                        },
                    )
                },
            ),
    {
        match self.connection_state {
            ConnectionState::NotConnected => {
                return Err(Error::NotConnected);
            },
            ConnectionState::Connected => {},
        }
        match self.selection_state {
            SelectionState::Selected => {},
            SelectionState::DeselectInProgress => {
                return Err(Error::TransactionOpen);
            },
            _ => {
                return Err(Error::NotSelected);
            },
        }
        if self.table.find(id.system).is_some() {
            return Err(Error::TransactionOpen);
        }
        self.open(id.system, ProcedureKind::Deselect, deadline(now, self.parameter_settings.t6));
        self.selection_state = SelectionState::DeselectInProgress;
        Ok(Message { id, contents: MessageContents::DeselectRequest })
    }

    /// ### SEPARATE PROCEDURE
    ///
    /// Ends the session at once. Needs an established session. Gives the
    /// Separate.req to transmit, to which there is no answer.
    pub fn separate(&mut self, id: MessageID) -> (r: Result<Message, Error>)
        requires
            old(self).wf(),
        ensures
            Self::starts(
                *old(self),
                *final(self),
                r,
                old(self)@.separate_fault(),
                Message { id, contents: MessageContents::SeparateRequest },
                ClientState { selection: SelectionState::NotSelected, ..old(self)@ },
            ),
    {
        match self.connection_state {
            ConnectionState::NotConnected => {
                return Err(Error::NotConnected);
            },
            ConnectionState::Connected => {},
        }
        match self.selection_state {
            SelectionState::Selected => {},
            _ => {
                return Err(Error::NotSelected);
            },
        }
        self.selection_state = SelectionState::NotSelected;
        Ok(Message { id, contents: MessageContents::SeparateRequest })
    }

    /// ### LINKTEST PROCEDURE
    ///
    /// Asks the other end for a sign of life. Needs a connection, and system
    /// bytes under which no transaction is open. Gives the Linktest.req to
    /// transmit, with the session id 0xFFFF; its answer is due after the
    /// time T6.
    pub fn linktest(&mut self, system: u32, now: u64) -> (r: Result<Message, Error>)
        requires
            old(self).wf(),
        ensures
            Self::starts(
                *old(self),
                *final(self),
                r,
                old(self)@.open_fault(system),
                Message {
                    id: MessageID { session: 0xFFFF, system },
                    contents: MessageContents::LinktestRequest,
                },
                old(self)@.opened(
                    PendingReply {
                        system,
                        kind: ProcedureKind::Linktest,
                        deadline: deadline_after(now, old(self).settings().t6),
                    },
                ),
            ),
    {
        match self.connection_state {
            ConnectionState::NotConnected => {
                return Err(Error::NotConnected);
            },
            ConnectionState::Connected => {},
        }
        if self.table.find(system).is_some() {
            return Err(Error::TransactionOpen);
        }
        self.open(system, ProcedureKind::Linktest, deadline(now, self.parameter_settings.t6));
        Ok(
            Message {
                id: MessageID { session: 0xFFFF, system },
                contents: MessageContents::LinktestRequest,
            },
        )
    }

    /// The time between two tests of the link, in milliseconds. None where
    /// the link is not tested at intervals.
    pub fn linktest_period(&self) -> (r: Option<u64>)
        ensures
            r == if self.settings().linktest_interval == 0 {
                None
            } else {
                Some((self.settings().linktest_interval * 1000) as u64)
            },
    {
        if self.parameter_settings.linktest_interval == 0 {
            None
        } else {
            Some((self.parameter_settings.linktest_interval as u64) * 1000)
        }
    }

    /// The linktest timer has run out. While the session is established and
    /// the link is tested at intervals, the linktest procedure starts under
    /// the next free system bytes, and the Linktest.req to transmit is
    /// given. Else nothing happens.
    pub fn on_linktest_timer(&mut self, now: u64) -> (r: Option<Message>)
        requires
            old(self).wf(),
        ensures
            final(self).wf(),
            final(self).configured_as(old(self)),
            match old(self)@.timed_linktest(old(self).settings().linktest_interval) {
                Some(system) => r == Some(
                    Message {
                        id: MessageID { session: 0xFFFF, system },
                        contents: MessageContents::LinktestRequest,
                    },
                ) && final(self)@ == (ClientState {
                    counter: system,
                    ..old(self)@.opened(
                        PendingReply {
                            system,
                            kind: ProcedureKind::Linktest,
                            deadline: deadline_after(now, old(self).settings().t6),
                        },
                    )
                }),
                None => r is None && final(self)@ == old(self)@,
            },
    {
        if self.parameter_settings.linktest_interval == 0 {
            return None;
        }
        match self.connection_state {
            ConnectionState::NotConnected => {
                return None;
            },
            ConnectionState::Connected => {},
        }
        match self.selection_state {
            SelectionState::Selected => {},
            _ => {
                return None;
            },
        }
        match self.allocate_system() {
            Some(system) => match self.linktest(system, now) {
                Ok(message) => Some(message),
                Err(_) => None,
            },
            None => None,
        }
    }

    /// ### DATA PROCEDURE
    ///
    /// Sends a data message. Needs an established session. A message that
    /// expects a reply opens a transaction, for which it needs system bytes
    /// under which none is open; the reply is due after the time T3. A
    /// message that expects none opens nothing. Gives the message to
    /// transmit.
    pub fn data(&mut self, id: MessageID, message: DataMessage, now: u64) -> (r: Result<
        Message,
        Error,
    >)
        requires
            old(self).wf(),
        ensures
            Self::starts(
                *old(self),
                *final(self),
                r,
                old(self)@.data_fault(id.system, message.w),
                Message { id, contents: MessageContents::DataMessage(message) },
                if message.w {
                    old(self)@.opened(
                        PendingReply {
                            system: id.system,
                            kind: ProcedureKind::Data,
                            deadline: deadline_after(now, old(self).settings().t3),
                        },
                    )
                } else {
                    old(self)@
                },
            ),
    {
        match self.connection_state {
            ConnectionState::NotConnected => {
                return Err(Error::NotConnected);
            },
            ConnectionState::Connected => {},
        }
        match self.selection_state {
            SelectionState::Selected => {},
            _ => {
                return Err(Error::NotSelected);
            },
        }
        if message.w {
            if self.table.find(id.system).is_some() {
                return Err(Error::TransactionOpen);
            }
            self.open(id.system, ProcedureKind::Data, deadline(now, self.parameter_settings.t3));
        }
        Ok(Message { id, contents: MessageContents::DataMessage(message) })
    }

    /// Answers a primary data message that was handed to the application.
    /// Needs an established session. Gives the reply to transmit: it has the
    /// id of the primary message, so that its system bytes are those that
    /// the other end waits for, and expects no reply itself.
    pub fn respond(&self, id: MessageID, message: DataMessage) -> (r: Result<Message, Error>)
        ensures
            match self@.data_fault(id.system, false) {
                Some(e) => r == Err::<Message, Error>(e),
                None => r == Ok::<Message, Error>(
                    Message {
                        id,
                        contents: MessageContents::DataMessage(
                            DataMessage {
                                stream: message.stream,
                                function: message.function,
                                w: false,
                                text: message.text,
                            },
                        ),
                    },
                ),
            },
    {
        match self.connection_state {
            ConnectionState::NotConnected => {
                return Err(Error::NotConnected);
            },
            ConnectionState::Connected => {},
        }
        match self.selection_state {
            SelectionState::Selected => {},
            _ => {
                return Err(Error::NotSelected);
            },
        }
        Ok(
            Message {
                id,
                contents: MessageContents::DataMessage(
                    DataMessage {
                        stream: message.stream,
                        function: message.function,
                        w: false,
                        text: message.text,
                    },
                ),
            },
        )
    }

    /// ### REJECT PROCEDURE
    ///
    /// Rejects a message that was received. Needs a connection. Gives the
    /// Reject.req to transmit, with the id of the message that is rejected,
    /// the session or presentation type that is objected to, and the reason.
    pub fn reject(&self, id: MessageID, ps_type: u8, reason: RejectReason) -> (r: Result<
        Message,
        Error,
    >)
        ensures
            r == if self@.connection == ConnectionState::NotConnected {
                Err::<Message, Error>(Error::NotConnected)
            } else {
                Ok::<Message, Error>(
                    Message {
                        id,
                        contents: MessageContents::RejectRequest(ps_type, reason.spec_code()),
                    },
                )
            },
    {
        match self.connection_state {
            ConnectionState::NotConnected => Err(Error::NotConnected),
            ConnectionState::Connected => Ok(
                Message { id, contents: MessageContents::RejectRequest(ps_type, reason.code()) },
            ),
        }
    }

    /// Completes the transaction that is open under given system bytes, if
    /// it is of a given kind.
    fn close(&mut self, system: u32, kind: ProcedureKind) -> (r: Option<PendingReply>)
        requires
            old(self).wf(),
        ensures
            final(self).wf(),
            final(self).configured_as(old(self)),
            match old(self)@.awaited(system, kind) {
                Some(place) => r == Some(old(self)@.pending[place])
                    && final(self)@ == old(self)@.completed_at(place),
                None => r is None && final(self)@ == old(self)@,
            },
    {
        proof {
            lemma_index_of(self@.pending, system);
        }
        match self.table.find(system) {
            Some(entry) => {
                if entry.kind == kind {
                    self.table.remove(system);
                    self.completed = Ghost(self.completed@ + 1);
                    Some(entry)
                } else {
                    None
                }
            },
            None => None,
        }
    }

    /// Select.req has arrived and the profile has decided on it.
    pub fn on_select_request(&mut self, id: MessageID, decision: Option<SelectStatus>) -> (actions:
        Vec<Action>)
        requires
            old(self).wf(),
            old(self)@.connection == ConnectionState::Connected,
        ensures
            Self::steps_to(
                *old(self),
                *final(self),
                actions@,
                old(self)@.on_select_request(id, decision),
            ),
    {
        if self.selection_state.admits_data() {
            let answer = Message {
                id,
                contents: MessageContents::SelectResponse(SelectStatus::AlreadyActive.code()),
            };
            proof {
                lemma_no_completion(self@.pending, seq![Action::Transmit(answer)]);
            }
            one(Action::Transmit(answer))
        } else {
            match decision {
                Some(status) => {
                    let answer = Message {
                        id,
                        contents: MessageContents::SelectResponse(status.code()),
                    };
                    if status == SelectStatus::Okay {
                        self.selection_state = SelectionState::Selected;
                        if self.selection_count < u64::MAX {
                            self.selection_count = self.selection_count + 1;
                        }
                    }
                    proof {
                        lemma_no_completion(self@.pending, seq![Action::Transmit(answer)]);
                    }
                    one(Action::Transmit(answer))
                },
                None => self.teardown(None),
            }
        }
    }

    /// Select.rsp has arrived.
    pub fn on_select_response(&mut self, id: MessageID, status: u8) -> (actions: Vec<Action>)
        requires
            old(self).wf(),
            old(self)@.connection == ConnectionState::Connected,
        ensures
            Self::steps_to(
                *old(self),
                *final(self),
                actions@,
                old(self)@.on_select_response(id, status),
            ),
    {
        let selected = self.selection_state.admits_data();
        let in_progress = self.selection_state == SelectionState::SelectInProgress;
        match self.close(id.system, ProcedureKind::Select) {
            Some(entry) => {
                if status == 0 {
                    self.selection_state = SelectionState::Selected;
                    if !selected && self.selection_count < u64::MAX {
                        self.selection_count = self.selection_count + 1;
                    }
                    proof {
                        lemma_index_of(old(self)@.pending, id.system);
                        lemma_one_completion(
                            old(self)@.pending,
                            index_of(old(self)@.pending, id.system),
                            Ok(None),
                        );
                    }
                    one(complete_action(entry, Ok(None)))
                } else {
                    if in_progress {
                        self.selection_state = SelectionState::NotSelected;
                    }
                    proof {
                        lemma_index_of(old(self)@.pending, id.system);
                        lemma_one_completion(
                            old(self)@.pending,
                            index_of(old(self)@.pending, id.system),
                            Err(Error::ProcedureRejected(status)),
                        );
                    }
                    one(complete_action(entry, Err(Error::ProcedureRejected(status))))
                }
            },
            None => {
                let action = reject_action(
                    id,
                    SessionType::SelectResponse.code(),
                    RejectReason::TransactionNotOpen,
                );
                proof {
                    lemma_no_completion(self@.pending, seq![action]);
                }
                one(action)
            },
        }
    }

    /// Deselect.req has arrived and the profile has decided on it.
    pub fn on_deselect_request(
        &mut self,
        id: MessageID,
        decision: Option<DeselectStatus>,
    ) -> (actions: Vec<Action>)
        requires
            old(self).wf(),
            old(self)@.connection == ConnectionState::Connected,
        ensures
            Self::steps_to(
                *old(self),
                *final(self),
                actions@,
                old(self)@.on_deselect_request(id, decision),
            ),
    {
        if !self.selection_state.admits_data() {
            let answer = Message {
                id,
                contents: MessageContents::DeselectResponse(DeselectStatus::NotEstablished.code()),
            };
            proof {
                lemma_no_completion(self@.pending, seq![Action::Transmit(answer)]);
            }
            one(Action::Transmit(answer))
        } else {
            match decision {
                Some(status) => {
                    let answer = Message {
                        id,
                        contents: MessageContents::DeselectResponse(status.code()),
                    };
                    if status == DeselectStatus::Okay {
                        self.selection_state = SelectionState::NotSelected;
                    }
                    proof {
                        lemma_no_completion(self@.pending, seq![Action::Transmit(answer)]);
                    }
                    one(Action::Transmit(answer))
                },
                None => self.teardown(None),
            }
        }
    }

    /// Deselect.rsp has arrived.
    pub fn on_deselect_response(&mut self, id: MessageID, status: u8) -> (actions: Vec<Action>)
        requires
            old(self).wf(),
            old(self)@.connection == ConnectionState::Connected,
        ensures
            Self::steps_to(
                *old(self),
                *final(self),
                actions@,
                old(self)@.on_deselect_response(id, status),
            ),
    {
        let in_progress = self.selection_state == SelectionState::DeselectInProgress;
        match self.close(id.system, ProcedureKind::Deselect) {
            Some(entry) => {
                if status == 0 {
                    self.selection_state = SelectionState::NotSelected;
                    proof {
                        lemma_index_of(old(self)@.pending, id.system);
                        lemma_one_completion(
                            old(self)@.pending,
                            index_of(old(self)@.pending, id.system),
                            Ok(None),
                        );
                    }
                    one(complete_action(entry, Ok(None)))
                } else {
                    if in_progress {
                        self.selection_state = SelectionState::Selected;
                    }
                    proof {
                        lemma_index_of(old(self)@.pending, id.system);
                        lemma_one_completion(
                            old(self)@.pending,
                            index_of(old(self)@.pending, id.system),
                            Err(Error::ProcedureRejected(status)),
                        );
                    }
                    one(complete_action(entry, Err(Error::ProcedureRejected(status))))
                }
            },
            None => {
                let action = reject_action(
                    id,
                    SessionType::DeselectResponse.code(),
                    RejectReason::TransactionNotOpen,
                );
                proof {
                    lemma_no_completion(self@.pending, seq![action]);
                }
                one(action)
            },
        }
    }

    /// Separate.req has arrived and the profile has decided on it.
    pub fn on_separate_request(&mut self, decision: Option<bool>) -> (actions: Vec<Action>)
        requires
            old(self).wf(),
            old(self)@.connection == ConnectionState::Connected,
        ensures
            Self::steps_to(
                *old(self),
                *final(self),
                actions@,
                old(self)@.on_separate_request(decision),
            ),
    {
        match decision {
            Some(accepted) => {
                if accepted && self.selection_state.admits_data() {
                    self.selection_state = SelectionState::NotSelected;
                }
                proof {
                    lemma_no_completion(self@.pending, Seq::empty());
                }
                nothing()
            },
            None => self.teardown(None),
        }
    }

    /// Linktest.req has arrived.
    pub fn on_linktest_request(&mut self, id: MessageID, needs_selection: bool) -> (actions: Vec<
        Action,
    >)
        requires
            old(self).wf(),
            old(self)@.connection == ConnectionState::Connected,
        ensures
            Self::steps_to(
                *old(self),
                *final(self),
                actions@,
                old(self)@.on_linktest_request(id, needs_selection),
            ),
    {
        let action = if needs_selection && self.selection_state != SelectionState::Selected {
            reject_action(id, SessionType::LinktestRequest.code(), RejectReason::EntityNotSelected)
        } else {
            Action::Transmit(Message { id, contents: MessageContents::LinktestResponse })
        };
        proof {
            lemma_no_completion(self@.pending, seq![action]);
        }
        one(action)
    }

    /// Linktest.rsp has arrived.
    pub fn on_linktest_response(&mut self, id: MessageID) -> (actions: Vec<Action>)
        requires
            old(self).wf(),
            old(self)@.connection == ConnectionState::Connected,
        ensures
            Self::steps_to(
                *old(self),
                *final(self),
                actions@,
                old(self)@.on_linktest_response(id),
            ),
    {
        match self.close(id.system, ProcedureKind::Linktest) {
            Some(entry) => {
                proof {
                    lemma_index_of(old(self)@.pending, id.system);
                    lemma_one_completion(
                        old(self)@.pending,
                        index_of(old(self)@.pending, id.system),
                        Ok(None),
                    );
                }
                one(complete_action(entry, Ok(None)))
            },
            None => {
                let action = reject_action(
                    id,
                    SessionType::LinktestResponse.code(),
                    RejectReason::TransactionNotOpen,
                );
                proof {
                    lemma_no_completion(self@.pending, seq![action]);
                }
                one(action)
            },
        }
    }

    /// A data message has arrived.
    pub fn on_data(&mut self, id: MessageID, data: DataMessage) -> (actions: Vec<Action>)
        requires
            old(self).wf(),
            old(self)@.connection == ConnectionState::Connected,
        ensures
            Self::steps_to(*old(self), *final(self), actions@, old(self)@.on_data(id, data)),
    {
        if !self.selection_state.admits_data() {
            let action = reject_action(
                id,
                SessionType::DataMessage.code(),
                RejectReason::EntityNotSelected,
            );
            proof {
                lemma_no_completion(self@.pending, seq![action]);
            }
            one(action)
        } else if data.is_primary() {
            proof {
                lemma_no_completion(self@.pending, seq![Action::Deliver(id, data)]);
            }
            one(Action::Deliver(id, data))
        } else {
            match self.close(id.system, ProcedureKind::Data) {
                Some(entry) => {
                    proof {
                        lemma_index_of(old(self)@.pending, id.system);
                        lemma_one_completion(
                            old(self)@.pending,
                            index_of(old(self)@.pending, id.system),
                            Ok(Some(data)),
                        );
                    }
                    one(complete_action(entry, Ok(Some(data))))
                },
                None => {
                    let action = reject_action(
                        id,
                        SessionType::DataMessage.code(),
                        RejectReason::TransactionNotOpen,
                    );
                    proof {
                        lemma_no_completion(self@.pending, seq![action]);
                    }
                    one(action)
                },
            }
        }
    }

    /// Reject.req has arrived.
    pub fn on_reject(&mut self, id: MessageID, rejected: u8, reason: u8) -> (actions: Vec<Action>)
        requires
            old(self).wf(),
            old(self)@.connection == ConnectionState::Connected,
        ensures
            Self::steps_to(
                *old(self),
                *final(self),
                actions@,
                old(self)@.on_reject(id, rejected, reason),
            ),
    {
        proof {
            lemma_index_of(self@.pending, id.system);
        }
        match self.table.find(id.system) {
            Some(found) => {
                self.close(id.system, found.kind);
                let error = match found.kind {
                    ProcedureKind::Data => Error::MessageRejected(rejected, reason),
                    ProcedureKind::Select => {
                        if self.selection_state == SelectionState::SelectInProgress {
                            self.selection_state = SelectionState::NotSelected;
                        }
                        Error::ProcedureRejected(reason)
                    },
                    ProcedureKind::Deselect => {
                        if self.selection_state == SelectionState::DeselectInProgress {
                            self.selection_state = SelectionState::Selected;
                        }
                        Error::ProcedureRejected(reason)
                    },
                    ProcedureKind::Linktest => Error::ProcedureRejected(reason),
                };
                proof {
                    lemma_index_of(old(self)@.pending, id.system);
                    lemma_one_completion(
                        old(self)@.pending,
                        index_of(old(self)@.pending, id.system),
                        Err(error),
                    );
                }
                one(complete_action(found, Err(error)))
            },
            None => {
                proof {
                    lemma_no_completion(self@.pending, Seq::empty());
                }
                nothing()
            },
        }
    }

    /// Asks the profile for its decisions on a request with a given session
    /// id. Each callback of the profile is called once, with the session id
    /// and the number of times that the connection was selected, and the
    /// decisions are what the callbacks have returned. What they return is
    /// for the profile to say.
    pub fn decide(&self, session_id: u16) -> (decisions: Decisions)
        ensures
            decided_by(self.callbacks(), session_id, self@.selection_count, decisions),
    {
        Decisions {
            select: self.callbacks.select(session_id, self.selection_count),
            deselect: self.callbacks.deselect(session_id, self.selection_count),
            separate: self.callbacks.separate(session_id, self.selection_count),
            linktest_needs_selection: self.callbacks.restricts_linktest(),
        }
    }

    /// A message has arrived, and the profile has decided on what it may
    /// ask for. The step that answers the message is taken. Without a
    /// connection nothing is done.
    pub fn dispatch_with(&mut self, message: Message, decisions: Decisions) -> (actions: Vec<
        Action,
    >)
        requires
            old(self).wf(),
        ensures
            Self::steps_to(
                *old(self),
                *final(self),
                actions@,
                old(self)@.on_message(decisions, message),
            ),
    {
        match self.connection_state {
            ConnectionState::NotConnected => {
                proof {
                    lemma_no_completion(self@.pending, Seq::empty());
                }
                return nothing();
            },
            ConnectionState::Connected => {},
        }
        let id = message.id;
        match message.contents {
            MessageContents::DataMessage(data) => self.on_data(id, data),
            MessageContents::SelectRequest => self.on_select_request(id, decisions.select),
            MessageContents::SelectResponse(status) => self.on_select_response(id, status),
            MessageContents::DeselectRequest => self.on_deselect_request(id, decisions.deselect),
            MessageContents::DeselectResponse(status) => self.on_deselect_response(id, status),
            MessageContents::LinktestRequest => self.on_linktest_request(
                id,
                decisions.linktest_needs_selection,
            ),
            MessageContents::LinktestResponse => self.on_linktest_response(id),
            MessageContents::RejectRequest(rejected, reason) => self.on_reject(
                id,
                rejected,
                reason,
            ),
            MessageContents::SeparateRequest => self.on_separate_request(decisions.separate),
        }
    }

    /// A message has arrived. The profile is asked for its decisions on the
    /// session id of the message, and the step that answers the message
    /// under them is taken.
    pub fn dispatch(&mut self, message: Message) -> (actions: Vec<Action>)
        requires
            old(self).wf(),
        ensures
            exists|decisions: Decisions|
                decided_by(
                    old(self).callbacks(),
                    message.id.session,
                    old(self)@.selection_count,
                    decisions,
                ) && Self::steps_to(
                    *old(self),
                    *final(self),
                    actions@,
                    #[trigger] old(self)@.on_message(decisions, message),
                ),
    {
        let decisions = self.decide(message.id.session);
        self.dispatch_with(message, decisions)
    }

    /// A primitive message has arrived, header and text as they were read
    /// from the connection, and the profile has decided on what it may ask
    /// for. One that is no message of HSMS is rejected; every other is
    /// dispatched.
    pub fn receive_with(&mut self, message: primitive::Message, decisions: Decisions) -> (actions:
        Vec<Action>)
        requires
            old(self).wf(),
        ensures
            Self::steps_to(
                *old(self),
                *final(self),
                actions@,
                old(self)@.on_primitive(decisions, message),
            ),
    {
        match self.connection_state {
            ConnectionState::NotConnected => {
                proof {
                    lemma_no_completion(self@.pending, Seq::empty());
                }
                return nothing();
            },
            ConnectionState::Connected => {},
        }
        let header = message.header;
        match Message::try_from_primitive(message) {
            Ok(read) => self.dispatch_with(read, decisions),
            Err(reason) => {
                let rejected = match reason {
                    RejectReason::PresentationTypeUnsupported => header.presentation_type,
                    _ => header.session_type,
                };
                let action = reject_action(
                    MessageID { session: header.session_id, system: header.system },
                    rejected,
                    reason,
                );
                proof {
                    lemma_no_completion(self@.pending, seq![action]);
                }
                one(action)
            },
        }
    }

    /// A primitive message has arrived. The profile is asked for its
    /// decisions on the session id in the header, and the message is dealt
    /// with under them.
    pub fn receive(&mut self, message: primitive::Message) -> (actions: Vec<Action>)
        requires
            old(self).wf(),
        ensures
            exists|decisions: Decisions|
                decided_by(
                    old(self).callbacks(),
                    message.header.session_id,
                    old(self)@.selection_count,
                    decisions,
                ) && Self::steps_to(
                    *old(self),
                    *final(self),
                    actions@,
                    #[trigger] old(self)@.on_primitive(decisions, message),
                ),
    {
        let decisions = self.decide(message.header.session_id);
        self.receive_with(message, decisions)
    }
}

} // verus!
