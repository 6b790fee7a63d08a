//! # STREAM 10: TERMINAL SERVICES
//!
//! Messages that show text on a terminal of the equipment, one line or
//! several, and that pass on what an operator has typed.
use crate::semi_e5::Error;
use crate::semi_e5::ItemFormat;
use crate::semi_e5::Message;
use crate::semi_e5::MessageFormat;
use crate::semi_e5::MessageView;
use crate::semi_e5::header_only_fault;
use crate::semi_e5::header_only_message;
use crate::semi_e5::items::AcknowledgeCode10;
use crate::semi_e5::items::TerminalID;
use crate::semi_e5::items::Text;
use crate::semi_e5::message_with_text;
use crate::semi_e5::read_header_only;
use crate::semi_e5::read_text;
use crate::semi_e5::text_fault;
use crate::semi_e5::text_reads;
use vstd::prelude::*;

verus! {

/// ## S10F0
///
/// **Abort Transaction**
///
/// - **SINGLE-BLOCK**
/// - **HOST <-> EQUIPMENT**
/// - **REPLY FORBIDDEN**
///
/// Used in lieu of an expected reply to abort a transaction.
///
/// #### Structure
///
/// Header only.
#[derive(Clone, Copy, Debug, PartialEq, Eq)]
pub struct Abort;

impl MessageFormat for Abort {
    open spec fn message(self) -> MessageView {
        MessageView { stream: 10, function: 0, w: false, text: None }
    }

    open spec fn fault(message: MessageView) -> Option<Error> {
        header_only_fault(message, 10, 0, false)
    }

    open spec fn reads(message: MessageView, value: Self) -> bool {
        true
    }

    open spec fn valid(self) -> bool {
        true
    }

    proof fn lemma_round_trip(self) {
    }

    fn into_message(self) -> (r: Message) {
        header_only_message(10, 0, false)
    }

    fn try_from_message(message: Message) -> (r: Result<Self, Error>) {
        match read_header_only(message, 10, 0, false) {
            Ok(_) => Ok(Abort),
            Err(e) => Err(e),
        }
    }
}

/// ## S10F1
///
/// **Terminal Request**
///
/// - **SINGLE-BLOCK**
/// - **HOST <- EQUIPMENT**
/// - **REPLY EXPECTED**
///
/// Request from equipment to display a message on a terminal.
///
/// #### Structure
///
/// - List - 2
/// 1. [TID]
/// 2. [TEXT]
///
/// [TID]:  TerminalID
/// [TEXT]: Text
#[derive(Debug, PartialEq, Eq)]
pub struct TerminalRequest(pub (TerminalID, Text));

impl MessageFormat for TerminalRequest {
    open spec fn message(self) -> MessageView {
        MessageView { stream: 10, function: 1, w: true, text: Some(self.0.item()) }
    }

    open spec fn fault(message: MessageView) -> Option<Error> {
        text_fault::<(TerminalID, Text)>(message, 10, 1, true)
    }

    open spec fn reads(message: MessageView, value: Self) -> bool {
        text_reads(message, value.0)
    }

    open spec fn valid(self) -> bool {
        self.0.valid()
    }

    proof fn lemma_round_trip(self) {
        self.0.lemma_round_trip();
    }

    fn into_message(self) -> (r: Message) {
        message_with_text(10, 1, true, self.0)
    }

    fn try_from_message(message: Message) -> (r: Result<Self, Error>) {
        match read_text(message, 10, 1, true) {
            Ok(text) => Ok(TerminalRequest(text)),
            Err(e) => Err(e),
        }
    }
}

/// ## S10F2
///
/// **Terminal Acknowledge**
///
/// - **SINGLE-BLOCK**
/// - **HOST -> EQUIPMENT**
/// - **REPLY FORBIDDEN**
///
/// Acknowledge terminal display request.
///
/// #### Structure
///
/// - [ACKC10]
///
/// [ACKC10]: AcknowledgeCode10
#[derive(Debug, PartialEq, Eq)]
pub struct TerminalAcknowledge(pub AcknowledgeCode10);

impl MessageFormat for TerminalAcknowledge {
    open spec fn message(self) -> MessageView {
        MessageView { stream: 10, function: 2, w: false, text: Some(self.0.item()) }
    }

    open spec fn fault(message: MessageView) -> Option<Error> {
        text_fault::<AcknowledgeCode10>(message, 10, 2, false)
    }

    open spec fn reads(message: MessageView, value: Self) -> bool {
        text_reads(message, value.0)
    }

    open spec fn valid(self) -> bool {
        self.0.valid()
    }

    proof fn lemma_round_trip(self) {
        self.0.lemma_round_trip();
    }

    fn into_message(self) -> (r: Message) {
        message_with_text(10, 2, false, self.0)
    }

    fn try_from_message(message: Message) -> (r: Result<Self, Error>) {
        match read_text(message, 10, 2, false) {
            Ok(text) => Ok(TerminalAcknowledge(text)),
            Err(e) => Err(e),
        }
    }
}

/// ## S10F3
///
/// **Terminal Display, Single**
///
/// - **SINGLE-BLOCK**
/// - **HOST -> EQUIPMENT**
/// - **REPLY EXPECTED**
///
/// Request from host to display a message on a single terminal.
///
/// #### Structure
///
/// - List - 2
/// 1. [TID]
/// 2. [TEXT]
///
/// [TID]:  TerminalID
/// [TEXT]: Text
#[derive(Debug, PartialEq, Eq)]
pub struct TerminalDisplaySingle(pub (TerminalID, Text));

impl MessageFormat for TerminalDisplaySingle {
    open spec fn message(self) -> MessageView {
        MessageView { stream: 10, function: 3, w: true, text: Some(self.0.item()) }
    }

    open spec fn fault(message: MessageView) -> Option<Error> {
        text_fault::<(TerminalID, Text)>(message, 10, 3, true)
    }

    open spec fn reads(message: MessageView, value: Self) -> bool {
        text_reads(message, value.0)
    }

    open spec fn valid(self) -> bool {
        self.0.valid()
    }

    proof fn lemma_round_trip(self) {
        self.0.lemma_round_trip();
    }

    fn into_message(self) -> (r: Message) {
        message_with_text(10, 3, true, self.0)
    }

    fn try_from_message(message: Message) -> (r: Result<Self, Error>) {
        match read_text(message, 10, 3, true) {
            Ok(text) => Ok(TerminalDisplaySingle(text)),
            Err(e) => Err(e),
        }
    }
}

/// ## S10F4
///
/// **Terminal Display, Single - Acknowledge**
///
/// - **SINGLE-BLOCK**
/// - **HOST <- EQUIPMENT**
/// - **REPLY FORBIDDEN**
///
/// Acknowledge single terminal display request.
///
/// #### Structure
///
/// - [ACKC10]
///
/// [ACKC10]: AcknowledgeCode10
#[derive(Debug, PartialEq, Eq)]
pub struct TerminalDisplaySingleAcknowledge(pub AcknowledgeCode10);

impl MessageFormat for TerminalDisplaySingleAcknowledge {
    open spec fn message(self) -> MessageView {
        MessageView { stream: 10, function: 4, w: false, text: Some(self.0.item()) }
    }

    open spec fn fault(message: MessageView) -> Option<Error> {
        text_fault::<AcknowledgeCode10>(message, 10, 4, false)
    }

    open spec fn reads(message: MessageView, value: Self) -> bool {
        text_reads(message, value.0)
    }

    open spec fn valid(self) -> bool {
        self.0.valid()
    }

    proof fn lemma_round_trip(self) {
        self.0.lemma_round_trip();
    }

    fn into_message(self) -> (r: Message) {
        message_with_text(10, 4, false, self.0)
    }

    fn try_from_message(message: Message) -> (r: Result<Self, Error>) {
        match read_text(message, 10, 4, false) {
            Ok(text) => Ok(TerminalDisplaySingleAcknowledge(text)),
            Err(e) => Err(e),
        }
    }
}

} // verus!
