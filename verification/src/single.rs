//! # SINGLE SELECTED SESSION SERVICES
//!
//! HSMS between one host and one piece of equipment (HSMS-SS). The profile
//! narrows the generic services:
//!
//! - There is one session, and its id is 0xFFFF.
//! - The active entity selects as soon as it is connected, and only once;
//!   the passive entity waits for that, for the time T7.
//! - The session is never deselected. It ends by Separate.req, upon which
//!   the connection is closed.
//! - The link is tested only while the session is established.
//! - Whatever breaks these rules is a failure of communication, and ends the
//!   connection.
use crate::generic;
use crate::generic::client::completes_exactly_once;
use crate::generic::client::decided_by;
use crate::generic::client::deadline;
use crate::generic::client::deadline_after;
use crate::generic::client::lemma_no_completion;
use crate::generic::client::next_system;
use crate::generic::client::teardown_actions;
use crate::generic::client::Action;
use crate::generic::client::ClientState;
use crate::generic::table::first_expired;
use crate::generic::table::index_of;
use crate::generic::table::is_earliest_deadline;
use crate::generic::table::is_pending;
use crate::generic::table::lemma_empty;
use crate::generic::table::lemma_index_of;
use crate::generic::table::PendingReply;
use crate::generic::table::ProcedureKind;
use crate::generic::DataMessage;
use crate::generic::Decisions;
use crate::generic::DeselectStatus;
use crate::generic::Message;
use crate::generic::ProcedureCallbacks;
use crate::generic::SelectStatus;
use crate::generic::SelectionState;
use crate::primitive;
use crate::primitive::ConnectionState;
use crate::primitive::MessageHeader;
use crate::Error;
use vstd::prelude::*;

pub use crate::generic::MessageContents;
pub use crate::generic::MessageID;
pub use crate::generic::ParameterSettings;
pub use crate::generic::RejectReason;
pub use crate::primitive::ConnectionMode;

verus! {

/// The one session id of HSMS-SS.
pub const SESSION_ID: u16 = 0xFFFF;

/// ## SINGLE SESSION
///
/// The decisions of the profile.
#[derive(Clone, Copy, Debug, PartialEq, Eq, Structural)]
pub struct SingleSession {
    /// Whether the entity opens the connection or accepts it.
    pub connect_mode: ConnectionMode,
}

impl SingleSession {
    /// The answer to Select.req. Only the passive entity is selected, only
    /// once on a connection, and only under the session id 0xFFFF.
    pub open spec fn select_decision(&self, session_id: u16, selection_count: u64) -> Option<
        SelectStatus,
    > {
        if self.connect_mode == ConnectionMode::Passive && selection_count == 0 && session_id
            == 0xFFFF {
            Some(SelectStatus::Okay)
        } else {
            None
        }
    }

    /// What the profile decides on a request with a given session id, on a
    /// connection that was selected a given number of times. The session is
    /// never deselected. Separate.req ends the connection: rightly where it
    /// is valid, and as a failure of communication where it is not. The
    /// link is tested only while the session is established.
    pub open spec fn decisions(&self, session_id: u16, selection_count: u64) -> Decisions {
        Decisions {
            select: self.select_decision(session_id, selection_count),
            deselect: None,
            separate: None,
            linktest_needs_selection: true,
        }
    }

    /// What the profile decides on a request with a given session id, on a
    /// connection that was selected a given number of times.
    pub fn decide(&self, session_id: u16, selection_count: u64) -> (r: Decisions)
        ensures
            r == self.decisions(session_id, selection_count),
    {
        Decisions {
            select: self.select(session_id, selection_count),
            deselect: self.deselect(session_id, selection_count),
            separate: self.separate(session_id, selection_count),
            linktest_needs_selection: self.restricts_linktest(),
        }
    }
}

impl ProcedureCallbacks for SingleSession {
    fn select(&self, session_id: u16, selection_count: u64) -> (r: Option<SelectStatus>)
        ensures
            r == self.select_decision(session_id, selection_count),
    {
        match self.connect_mode {
            ConnectionMode::Passive => {
                if selection_count == 0 && session_id == 0xFFFF {
                    Some(SelectStatus::Okay)
                } else {
                    None
                }
            },
            ConnectionMode::Active => None,
        }
    }

    fn deselect(&self, session_id: u16, selection_count: u64) -> (r: Option<DeselectStatus>)
        ensures
            r is None,
    {
        None
    }

    fn separate(&self, session_id: u16, selection_count: u64) -> (r: Option<bool>)
        ensures
            r is None,
    {
        None
    }

    fn restricts_linktest(&self) -> (r: bool)
        ensures
            r,
    {
        true
    }
}

/// Whatever the callbacks of the profile return on a request is what the
/// profile decides on it.
pub proof fn lemma_profile_decides(
    profile: SingleSession,
    session_id: u16,
    selection_count: u64,
    decisions: Decisions,
)
    requires
        decided_by(profile, session_id, selection_count, decisions),
    ensures
        decisions == profile.decisions(session_id, selection_count),
{
}

/// ## SINGLE STATE
///
/// The state of a client of HSMS-SS as a value.
pub struct SingleState {
    /// The state of the generic services.
    pub client: ClientState,
    /// The time by which a passive entity must have been selected; none for
    /// an active entity, without a connection and once the session is
    /// established.
    pub select_deadline: Option<u64>,
}

impl SingleState {
    /// Whether the state is one that a client can be in.
    pub open spec fn wf(self) -> bool {
        &&& self.client.wf()
        &&& self.select_deadline is Some ==> self.client.connection == ConnectionState::Connected
            && self.client.selection != SelectionState::Selected
    }

    /// The state after a step of the generic services: the wait for the
    /// selection is over once the session is established or the connection
    /// is gone.
    pub open spec fn after(self, client: ClientState) -> SingleState {
        SingleState {
            client,
            select_deadline: if client.connection == ConnectionState::NotConnected
                || client.selection == SelectionState::Selected {
                None
            } else {
                self.select_deadline
            },
        }
    }

    /// The error with which the select procedure of this entity fails when
    /// a message with a given header arrives; none where it does not fail.
    /// It fails where the message is the answer to it with a status that is
    /// not good, or a rejection of it.
    pub open spec fn select_failure(self, header: MessageHeader) -> Option<Error> {
        if header.presentation_type == 0 && self.client.awaited(
            header.system,
            ProcedureKind::Select,
        ) is Some && ((header.session_type == 2 && header.byte_3 != 0) || header.session_type
            == 7) {
            Some(Error::ProcedureRejected(header.byte_3))
        } else {
            None
        }
    }

    /// A primitive message has arrived. Where it makes the select procedure
    /// of this entity fail, the connection goes down: the procedure is
    /// completed as rejected, and every other open transaction as
    /// disconnected. Every other message is dealt with as the generic
    /// services prescribe, under the decisions of the profile.
    pub open spec fn on_primitive(self, profile: SingleSession, message: primitive::Message) -> (
        SingleState,
        Seq<Action>,
    ) {
        if self.client.connection == ConnectionState::NotConnected {
            (self, Seq::empty())
        } else {
            match self.select_failure(message.header) {
                Some(error) => (
                    self.after(self.client.torn_down()),
                    teardown_actions(
                        self.client.pending,
                        Some((index_of(self.client.pending, message.header.system), error)),
                    ),
                ),
                None => {
                    let outcome = self.client.on_primitive(
                        profile.decisions(message.header.session_id, self.client.selection_count),
                        message,
                    );
                    (self.after(outcome.0), outcome.1)
                },
            }
        }
    }

    /// The state and the message with which an active entity starts on a new
    /// connection: it selects, under the session id 0xFFFF and the next
    /// system bytes, and the answer is due after the time T6.
    pub open spec fn connected_active(self, now: u64, t6: u16) -> (SingleState, Message) {
        let system = next_system(self.client.counter);
        (
            SingleState {
                client: ClientState {
                    selection: SelectionState::SelectInProgress,
                    counter: system,
                    ..self.client.connected().opened(
                        PendingReply {
                            system,
                            kind: ProcedureKind::Select,
                            deadline: deadline_after(now, t6),
                        },
                    )
                },
                select_deadline: None,
            },
            Message {
                id: MessageID { session: 0xFFFF, system },
                contents: MessageContents::SelectRequest,
            },
        )
    }

    /// The state with which a passive entity starts on a new connection: it
    /// waits to be selected, for the time T7.
    pub open spec fn connected_passive(self, now: u64, t7: u16) -> SingleState {
        SingleState {
            client: self.client.connected(),
            select_deadline: Some(deadline_after(now, t7)),
        }
    }

    /// The system bytes of the Separate.req with which a disconnect begins;
    /// none where no session is established, so that nothing is to be
    /// separated, or no system bytes are free.
    pub open spec fn separate_system(self) -> Option<u32> {
        if self.client.selection == SelectionState::Selected {
            self.client.fresh_system()
        } else {
            None
        }
    }

    /// What a disconnect does: where a session is established, Separate.req
    /// is transmitted first; then every open transaction is completed as
    /// disconnected and the connection is closed.
    pub open spec fn disconnected(self) -> (SingleState, Seq<Action>) {
        let teardown = teardown_actions(self.client.pending, None);
        match self.separate_system() {
            Some(system) => (
                SingleState {
                    client: ClientState { counter: system, ..self.client.torn_down() },
                    select_deadline: None,
                },
                seq![
                    Action::Transmit(
                        Message {
                            id: MessageID { session: 0xFFFF, system },
                            contents: MessageContents::SeparateRequest,
                        },
                    ),
                ] + teardown,
            ),
            None => (
                SingleState { client: self.client.torn_down(), select_deadline: None },
                teardown,
            ),
        }
    }

    /// Why the link cannot be tested; none where it can. The test needs a
    /// connection, an established session, and system bytes under which no
    /// transaction is open.
    pub open spec fn linktest_fault(self, system: u32) -> Option<Error> {
        if self.client.connection == ConnectionState::NotConnected {
            Some(Error::NotConnected)
        } else if self.client.selection != SelectionState::Selected {
            Some(Error::NotSelected)
        } else if is_pending(self.client.pending, system) {
            Some(Error::TransactionOpen)
        } else {
            None
        }
    }
}

/// An action that completes nothing, put before the actions of a step,
/// leaves each transaction that the step closes completed exactly once.
pub proof fn lemma_transmit_first(
    before: Seq<PendingReply>,
    after: Seq<PendingReply>,
    message: Message,
    actions: Seq<Action>,
)
    requires
        completes_exactly_once(before, after, actions),
    ensures
        completes_exactly_once(before, after, seq![Action::Transmit(message)] + actions),
{
    let all = seq![Action::Transmit(message)] + actions;
    assert forall|p: int| 0 <= p < all.len() implies (#[trigger] all[p] matches Action::Complete(
        c,
    ) ==> is_pending(before, c.system) && !is_pending(after, c.system)) by {
        if p > 0 {
            assert(all[p] == actions[p - 1]);
        }
    }
    assert forall|p: int, q: int| 0 <= p < q < all.len() implies (
    #[trigger] all[p] matches Action::Complete(c) ==> (#[trigger] all[q] matches Action::Complete(
        d,
    ) ==> c.system != d.system)) by {
        if p > 0 {
            assert(all[p] == actions[p - 1]);
            assert(all[q] == actions[q - 1]);
        }
    }
    assert forall|system: u32|
        #![trigger is_pending(before, system)]
        is_pending(before, system) && !is_pending(after, system) implies exists|p: int|
        0 <= p < all.len() && (#[trigger] all[p] matches Action::Complete(c) && c.system
            == system) by {
        let p = choose|p: int|
            0 <= p < actions.len() && (#[trigger] actions[p] matches Action::Complete(c)
                && c.system == system);
        assert(all[p + 1] == actions[p]);
        assert(all[p + 1] matches Action::Complete(c) && c.system == system);
    }
}

/// Disconnect: whatever the state of a client, its disconnect completes
/// every open transaction as disconnected, in this one step and so without
/// regard to the deadline of any, and leaves none open.
pub proof fn lemma_disconnect_completes_all(state: SingleState, place: int)
    requires
        state.wf(),
        0 <= place < state.client.pending.len(),
    ensures
        state.disconnected().0.client.pending.len() == 0,
        exists|p: int|
            0 <= p < state.disconnected().1.len() && #[trigger] state.disconnected().1[p]
                == Action::Complete(
                generic::Completion {
                    system: state.client.pending[place].system,
                    kind: state.client.pending[place].kind,
                    result: Err(Error::Disconnected),
                },
            ),
{
    let teardown = teardown_actions(state.client.pending, None);
    let actions = state.disconnected().1;
    assert(teardown[place] == Action::Complete(
        generic::Completion {
            system: state.client.pending[place].system,
            kind: state.client.pending[place].kind,
            result: Err(Error::Disconnected),
        },
    ));
    match state.separate_system() {
        Some(system) => {
            assert(actions[place + 1] == teardown[place]);
        },
        None => {
            assert(actions[place] == teardown[place]);
        },
    }
}

/// ## CLIENT
///
/// One entity of HSMS-SS: the generic client under the decisions of the
/// profile, and the wait of a passive entity for its selection.
pub struct Client {
    generic_client: generic::Client<SingleSession>,
    select_deadline: Option<u64>,
}

impl View for Client {
    type V = SingleState;

    closed spec fn view(&self) -> SingleState {
        SingleState { client: self.generic_client@, select_deadline: self.select_deadline }
    }
}

impl Client {
    /// What is configured of the entity.
    pub closed spec fn settings(&self) -> ParameterSettings {
        self.generic_client.settings()
    }

    /// Whether the client is in a state that a client can be in, and decides
    /// as the profile prescribes for its connection mode.
    pub closed spec fn wf(&self) -> bool {
        &&& self@.wf()
        &&& self.generic_client.callbacks() == (SingleSession {
            connect_mode: self.generic_client.settings().connect_mode,
        })
    }

    /// The decisions of the profile for this client.
    pub open spec fn profile(&self) -> SingleSession {
        SingleSession { connect_mode: self.settings().connect_mode }
    }

    /// Whether a step has led from one client to another with a given
    /// outcome: the new state and the actions are those of the outcome, the
    /// new state is one that a client can be in, the settings are unchanged,
    /// and each transaction that the step has closed is completed exactly
    /// once.
    pub open spec fn steps_to(
        before: Self,
        after: Self,
        actions: Seq<Action>,
        outcome: (SingleState, Seq<Action>),
    ) -> bool {
        &&& after@ == outcome.0
        &&& actions == outcome.1
        &&& after.wf()
        &&& after.settings() == before.settings()
        &&& completes_exactly_once(before@.client.pending, after@.client.pending, actions)
    }

    /// Whether a procedure has started, or has been refused, as it should:
    /// refused with the fault and without any change where there is one, and
    /// else started with a given message to transmit and a given new state.
    pub open spec fn starts(
        before: Self,
        after: Self,
        result: Result<Message, Error>,
        fault: Option<Error>,
        message: Message,
        state: SingleState,
    ) -> bool {
        &&& after.wf()
        &&& after.settings() == before.settings()
        &&& match fault {
            Some(e) => result == Err::<Message, Error>(e) && after@ == before@,
            None => result == Ok::<Message, Error>(message) && after@ == state,
        }
    }

    /// ### NEW CLIENT
    ///
    /// A client that is not connected, with given settings. What it decides
    /// on the requests that it receives follows from its connection mode.
    pub fn new(parameter_settings: ParameterSettings) -> (r: Client)
        ensures
            r.wf(),
            r.settings() == parameter_settings,
            r@ == (SingleState { client: ClientState::initial(), select_deadline: None }),
    {
        Client {
            generic_client: generic::Client::new(
                parameter_settings,
                SingleSession { connect_mode: parameter_settings.connect_mode },
            ),
            select_deadline: None,
        }
    }

    /// What is configured of the entity.
    pub fn parameter_settings(&self) -> (r: ParameterSettings)
        ensures
            r == self.settings(),
    {
        self.generic_client.parameter_settings()
    }

    /// Whether a connection stands.
    pub fn connection_state(&self) -> (r: ConnectionState)
        ensures
            r == self@.client.connection,
    {
        self.generic_client.connection_state()
    }

    /// Whether the session is established.
    pub fn selection_state(&self) -> (r: SelectionState)
        ensures
            r == self@.client.selection,
    {
        self.generic_client.selection_state()
    }

    /// How many times the connection has become selected.
    pub fn selection_count(&self) -> (r: u64)
        ensures
            r == self@.client.selection_count,
    {
        self.generic_client.selection_count()
    }

    /// The number of open transactions.
    pub fn pending(&self) -> (r: usize)
        ensures
            r == self@.client.pending.len(),
    {
        self.generic_client.pending()
    }

    /// The earliest deadline among the open transactions. None where no
    /// transaction is open.
    pub fn next_deadline(&self) -> (r: Option<u64>)
        ensures
            match r {
                Some(deadline) => is_earliest_deadline(self@.client.pending, deadline),
                None => self@.client.pending.len() == 0,
            },
    {
        self.generic_client.next_deadline()
    }

    /// The time by which a passive entity must have been selected.
    pub fn select_deadline(&self) -> (r: Option<u64>)
        ensures
            r == self@.select_deadline,
    {
        self.select_deadline
    }

    /// Ends the wait for the selection where the session is established or
    /// the connection is gone.
    fn settle(&mut self)
        requires
            old(self).generic_client.wf(),
            old(self).generic_client.callbacks() == (SingleSession {
                connect_mode: old(self).generic_client.settings().connect_mode,
            }),
        ensures
            final(self).wf(),
            final(self).settings() == old(self).settings(),
            final(self)@ == old(self)@.after(old(self)@.client),
    {
        let over = match self.generic_client.connection_state() {
            ConnectionState::NotConnected => true,
            ConnectionState::Connected => self.generic_client.selection_state()
                == SelectionState::Selected,
        };
        if over {
            self.select_deadline = None;
        }
    }

    /// ### CONNECT PROCEDURE
    ///
    /// Takes note that a connection was made, and begins what HSMS-SS ties
    /// to it. The client must not be connected; one that is refuses, and
    /// nothing changes. An active entity selects at once: it gets the
    /// Select.req to transmit, whose answer is due after the time T6. A
    /// passive entity gets nothing to transmit and waits to be selected, for
    /// the time T7.
    pub fn connect(&mut self, now: u64) -> (r: Result<Option<Message>, Error>)
        requires
            old(self).wf(),
        ensures
            final(self).wf(),
            final(self).settings() == old(self).settings(),
            match r {
                Err(e) => old(self)@.client.connection == ConnectionState::Connected && e
                    == Error::AlreadyConnected && final(self)@ == old(self)@,
                Ok(message) => old(self)@.client.connection == ConnectionState::NotConnected
                    && match old(self).settings().connect_mode {
                    ConnectionMode::Active => final(self)@ == old(self)@.connected_active(
                        now,
                        old(self).settings().t6,
                    ).0 && message == Some(
                        old(self)@.connected_active(now, old(self).settings().t6).1,
                    ),
                    ConnectionMode::Passive => final(self)@ == old(self)@.connected_passive(
                        now,
                        old(self).settings().t7,
                    ) && message is None,
                },
            },
    {
        match self.generic_client.connect() {
            Err(e) => {
                return Err(e);
            },
            Ok(_) => {},
        }
        let settings = self.generic_client.parameter_settings();
        match settings.connect_mode {
            ConnectionMode::Passive => {
                self.select_deadline = Some(deadline(now, settings.t7));
                Ok(None)
            },
            ConnectionMode::Active => {
                self.select_deadline = None;
                let ghost connected = self.generic_client@;
                proof {
                    lemma_empty(next_system(connected.counter));
                }
                let system = self.generic_client.allocate_system().unwrap();
                let id = MessageID { session: 0xFFFF, system };
                let message = self.generic_client.select(id, now).unwrap();
                Ok(Some(message))
            },
        }
    }

    /// ### DISCONNECT PROCEDURE
    ///
    /// Ends the connection. The client must be connected; one that is not
    /// refuses. Where the session is established, Separate.req is to be
    /// transmitted first. Every open transaction is then completed as
    /// disconnected, at once and whatever its deadline, and the connection
    /// is to be closed.
    pub fn disconnect(&mut self) -> (r: Result<Vec<Action>, Error>)
        requires
            old(self).wf(),
        ensures
            match r {
                Ok(actions) => old(self)@.client.connection == ConnectionState::Connected
                    && Self::steps_to(
                    *old(self),
                    *final(self),
                    actions@,
                    old(self)@.disconnected(),
                ),
                Err(e) => old(self)@.client.connection == ConnectionState::NotConnected && e
                    == Error::NotConnected && final(self)@ == old(self)@ && final(self).wf()
                    && final(self).settings() == old(self).settings(),
            },
    {
        match self.generic_client.connection_state() {
            ConnectionState::NotConnected => {
                return Err(Error::NotConnected);
            },
            ConnectionState::Connected => {},
        }
        let ghost before = self.generic_client@.pending;
        let separate: Option<Message> = if self.generic_client.selection_state()
            == SelectionState::Selected {
            match self.generic_client.allocate_system() {
                Some(system) => Some(
                    Message {
                        id: MessageID { session: 0xFFFF, system },
                        contents: MessageContents::SeparateRequest,
                    },
                ),
                None => None,
            }
        } else {
            None
        };
        let mut actions = self.generic_client.disconnect().unwrap();
        self.select_deadline = None;
        match separate {
            Some(message) => {
                proof {
                    lemma_transmit_first(before, Seq::empty(), message, actions@);
                }
                let ghost teardown = actions@;
                actions.insert(0, Action::Transmit(message));
                assert(actions@ =~= seq![Action::Transmit(message)] + teardown);
            },
            None => {},
        }
        Ok(actions)
    }

    /// ### DATA PROCEDURE
    ///
    /// Sends a data message, as the generic services prescribe: it needs
    /// the established session, and where it expects a reply it opens a
    /// transaction, whose reply is due after the time T3.
    pub fn data(&mut self, id: MessageID, message: DataMessage, now: u64) -> (r: Result<
        Message,
        Error,
    >)
        requires
            old(self).wf(),
        ensures
            Self::starts(
                *old(self),
                *final(self),
                r,
                old(self)@.client.data_fault(id.system, message.w),
                Message { id, contents: MessageContents::DataMessage(message) },
                SingleState {
                    client: if message.w {
                        old(self)@.client.opened(
                            PendingReply {
                                system: id.system,
                                kind: ProcedureKind::Data,
                                deadline: deadline_after(now, old(self).settings().t3),
                            },
                        )
                    } else {
                        old(self)@.client
                    },
                    select_deadline: old(self)@.select_deadline,
                },
            ),
    {
        self.generic_client.data(id, message, now)
    }

    /// Answers a primary data message that was handed to the application.
    /// The reply has the id of the primary message, so that its system
    /// bytes are those that the other end waits for, and expects no reply
    /// itself.
    pub fn respond(&self, id: MessageID, message: DataMessage) -> (r: Result<Message, Error>)
        ensures
            match self@.client.data_fault(id.system, false) {
                Some(e) => r == Err::<Message, Error>(e),
                None => r == Ok::<Message, Error>(
                    Message {
                        id,
                        contents: MessageContents::DataMessage(
                            DataMessage {
                                stream: message.stream,
                                function: message.function,
                                w: false,
                                text: message.text,
                            },
                        ),
                    },
                ),
            },
    {
        self.generic_client.respond(id, message)
    }

    /// ### LINKTEST PROCEDURE
    ///
    /// Asks the other end for a sign of life. In HSMS-SS the link is tested
    /// only while the session is established: a client that is connected
    /// and not selected refuses, and nothing is transmitted. The answer is
    /// due after the time T6.
    pub fn linktest(&mut self, system: u32, now: u64) -> (r: Result<Message, Error>)
        requires
            old(self).wf(),
        ensures
            Self::starts(
                *old(self),
                *final(self),
                r,
                old(self)@.linktest_fault(system),
                Message {
                    id: MessageID { session: 0xFFFF, system },
                    contents: MessageContents::LinktestRequest,
                },
                SingleState {
                    client: old(self)@.client.opened(
                        PendingReply {
                            system,
                            kind: ProcedureKind::Linktest,
                            deadline: deadline_after(now, old(self).settings().t6),
                        },
                    ),
                    select_deadline: old(self)@.select_deadline,
                },
            ),
    {
        match self.generic_client.connection_state() {
            ConnectionState::NotConnected => {
                return Err(Error::NotConnected);
            },
            ConnectionState::Connected => {},
        }
        match self.generic_client.selection_state() {
            SelectionState::Selected => self.generic_client.linktest(system, now),
            _ => Err(Error::NotSelected),
        }
    }

    /// The time between two tests of the link, in milliseconds. None where
    /// the link is not tested at intervals.
    pub fn linktest_period(&self) -> (r: Option<u64>)
        ensures
            r == if self.settings().linktest_interval == 0 {
                None
            } else {
                Some((self.settings().linktest_interval * 1000) as u64)
            },
    {
        self.generic_client.linktest_period()
    }

    /// The linktest timer has run out. While the session is established and
    /// the link is tested at intervals, the linktest procedure starts under
    /// the next free system bytes, and the Linktest.req to transmit is
    /// given. Else nothing happens.
    pub fn on_linktest_timer(&mut self, now: u64) -> (r: Option<Message>)
        requires
            old(self).wf(),
        ensures
            final(self).wf(),
            final(self).settings() == old(self).settings(),
            match old(self)@.client.timed_linktest(old(self).settings().linktest_interval) {
                Some(system) => r == Some(
                    Message {
                        id: MessageID { session: 0xFFFF, system },
                        contents: MessageContents::LinktestRequest,
                    },
                ) && final(self)@ == (SingleState {
                    client: ClientState {
                        counter: system,
                        ..old(self)@.client.opened(
                            PendingReply {
                                system,
                                kind: ProcedureKind::Linktest,
                                deadline: deadline_after(now, old(self).settings().t6),
                            },
                        )
                    },
                    select_deadline: old(self)@.select_deadline,
                }),
                None => r is None && final(self)@ == old(self)@,
            },
    {
        self.generic_client.on_linktest_timer(now)
    }

    /// ### REJECT PROCEDURE
    ///
    /// Rejects a message that was received. Needs a connection. Gives the
    /// Reject.req to transmit.
    pub fn reject(&self, id: MessageID, ps_type: u8, reason: RejectReason) -> (r: Result<
        Message,
        Error,
    >)
        ensures
            r == if self@.client.connection == ConnectionState::NotConnected {
                Err::<Message, Error>(Error::NotConnected)
            } else {
                Ok::<Message, Error>(
                    Message {
                        id,
                        contents: MessageContents::RejectRequest(ps_type, reason.spec_code()),
                    },
                )
            },
    {
        self.generic_client.reject(id, ps_type, reason)
    }

    /// A primitive message has arrived: header and text as they were read
    /// from the connection.
    pub fn receive(&mut self, message: primitive::Message) -> (actions: Vec<Action>)
        requires
            old(self).wf(),
        ensures
            Self::steps_to(
                *old(self),
                *final(self),
                actions@,
                old(self)@.on_primitive(old(self).profile(), message),
            ),
    {
        match self.generic_client.connection_state() {
            ConnectionState::NotConnected => {
                proof {
                    lemma_no_completion(self@.client.pending, Seq::empty());
                }
                return Vec::new();
            },
            ConnectionState::Connected => {},
        }
        let header = message.header;
        let fails = header.presentation_type == 0 && ((header.session_type == 2 && header.byte_3
            != 0) || header.session_type == 7) && self.generic_client.awaits(
            header.system,
            ProcedureKind::Select,
        );
        let actions = if fails {
            proof {
                lemma_index_of(self@.client.pending, header.system);
            }
            self.generic_client.fail(header.system, Error::ProcedureRejected(header.byte_3))
        } else {
            let profile = SingleSession {
                connect_mode: self.generic_client.parameter_settings().connect_mode,
            };
            let decisions = profile.decide(
                header.session_id,
                self.generic_client.selection_count(),
            );
            self.generic_client.receive_with(message, decisions)
        };
        self.settle();
        actions
    }

    /// The timers of the open transactions are looked at, as the generic
    /// services prescribe: the first that has expired is completed as timed
    /// out, and the connection goes down.
    pub fn expire(&mut self, now: u64) -> (actions: Vec<Action>)
        requires
            old(self).wf(),
        ensures
            Self::steps_to(
                *old(self),
                *final(self),
                actions@,
                if first_expired(old(self)@.client.pending, now) < old(self)@.client.pending.len() {
                    (
                        old(self)@.after(old(self)@.client.torn_down()),
                        teardown_actions(
                            old(self)@.client.pending,
                            Some(
                                (first_expired(old(self)@.client.pending, now), Error::TimedOut),
                            ),
                        ),
                    )
                } else {
                    (old(self)@, Seq::empty())
                },
            ),
    {
        let actions = self.generic_client.expire(now);
        self.settle();
        actions
    }

    /// Takes note that the connection is lost: the other end has closed it.
    /// Every open transaction is completed as disconnected, and what is
    /// left of the connection is to be closed. Nothing is transmitted.
    /// Without a connection nothing is done.
    pub fn connection_lost(&mut self) -> (actions: Vec<Action>)
        requires
            old(self).wf(),
        ensures
            Self::steps_to(
                *old(self),
                *final(self),
                actions@,
                if old(self)@.client.connection == ConnectionState::NotConnected {
                    (old(self)@, Seq::empty())
                } else {
                    (
                        old(self)@.after(old(self)@.client.torn_down()),
                        teardown_actions(old(self)@.client.pending, None),
                    )
                },
            ),
    {
        let actions = self.generic_client.connection_lost();
        self.settle();
        actions
    }

    /// Takes note that the connection has failed. The transaction that is
    /// open under given system bytes, if there is one, fails with the given
    /// error, every other open transaction as disconnected, and the
    /// connection is to be closed. Without a connection nothing is done.
    pub fn fail(&mut self, system: u32, error: Error) -> (actions: Vec<Action>)
        requires
            old(self).wf(),
        ensures
            Self::steps_to(
                *old(self),
                *final(self),
                actions@,
                if old(self)@.client.connection == ConnectionState::NotConnected {
                    (old(self)@, Seq::empty())
                } else {
                    (
                        old(self)@.after(old(self)@.client.torn_down()),
                        teardown_actions(
                            old(self)@.client.pending,
                            if is_pending(old(self)@.client.pending, system) {
                                Some((index_of(old(self)@.client.pending, system), error))
                            } else {
                                None
                            },
                        ),
                    )
                },
            ),
    {
        let actions = self.generic_client.fail(system, error);
        self.settle();
        actions
    }

    /// Looks at the wait of a passive entity for its selection. Says that
    /// the session is established, or that it is not yet and the time T7 has
    /// not run out. Where the time T7 has run out and no session is
    /// established, the connection goes down and the wait fails as timed
    /// out; the actions of the teardown come with the error. Without a
    /// connection the wait fails as not connected.
    pub fn await_select(&mut self, now: u64) -> (r: Result<bool, (Error, Vec<Action>)>)
        requires
            old(self).wf(),
        ensures
            final(self).wf(),
            final(self).settings() == old(self).settings(),
            match r {
                Ok(selected) => old(self)@.client.connection == ConnectionState::Connected
                    && selected == (old(self)@.client.selection == SelectionState::Selected)
                    && (selected || !(old(self)@.select_deadline matches Some(d) && d < now))
                    && final(self)@ == old(self)@,
                Err((error, actions)) => if old(self)@.client.connection
                    == ConnectionState::NotConnected {
                    error == Error::NotConnected && actions@ == Seq::<Action>::empty()
                        && final(self)@ == old(self)@
                } else {
                    old(self)@.client.selection != SelectionState::Selected
                        && (old(self)@.select_deadline matches Some(d) && d < now) && error
                        == Error::TimedOut
                        && Self::steps_to(
                        *old(self),
                        *final(self),
                        actions@,
                        (
                            old(self)@.after(old(self)@.client.torn_down()),
                            teardown_actions(old(self)@.client.pending, None),
                        ),
                    )
                },
            },
    {
        match self.generic_client.connection_state() {
            ConnectionState::NotConnected => {
                return Err((Error::NotConnected, Vec::new()));
            },
            ConnectionState::Connected => {},
        }
        if self.generic_client.selection_state() == SelectionState::Selected {
            return Ok(true);
        }
        let expired = match self.select_deadline {
            Some(d) => d < now,
            None => false,
        };
        if expired {
            let actions = self.generic_client.disconnect().unwrap();
            self.select_deadline = None;
            Err((Error::TimedOut, actions))
        } else {
            Ok(false)
        }
    }
}

} // verus!
