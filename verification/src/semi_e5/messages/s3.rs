//! # STREAM 3: MATERIAL STATUS
//!
//! Messages that tell of material and act on it: carriers and material in
//! process, the time that remains until completion, and material that is
//! found or lost where none was expected.
use crate::semi_e5::Error;
use crate::semi_e5::ItemFormat;
use crate::semi_e5::Message;
use crate::semi_e5::MessageFormat;
use crate::semi_e5::MessageView;
use crate::semi_e5::header_only_fault;
use crate::semi_e5::header_only_message;
use crate::semi_e5::items::AccessMode;
use crate::semi_e5::items::AcknowledgeCode3;
use crate::semi_e5::items::AttributeID;
use crate::semi_e5::items::AttributeValue;
use crate::semi_e5::items::CarrierAction;
use crate::semi_e5::items::CarrierActionAcknowledgeCode;
use crate::semi_e5::items::CarrierAttributeID;
use crate::semi_e5::items::CarrierAttributeValue;
use crate::semi_e5::items::CarrierID;
use crate::semi_e5::items::CarrierSpecifier;
use crate::semi_e5::items::Data;
use crate::semi_e5::items::DataID;
use crate::semi_e5::items::DataLength;
use crate::semi_e5::items::DataSegment;
use crate::semi_e5::items::EquivalentMaterialID;
use crate::semi_e5::items::ErrorCode;
use crate::semi_e5::items::ErrorText;
use crate::semi_e5::items::Grant;
use crate::semi_e5::items::InputPortNumber;
use crate::semi_e5::items::JobAction;
use crate::semi_e5::items::LocationCode;
use crate::semi_e5::items::LocationID;
use crate::semi_e5::items::MaterialFormat;
use crate::semi_e5::items::MaterialID;
use crate::semi_e5::items::MaterialIDAcknowledgeCode;
use crate::semi_e5::items::MaterialIDRequestAcknowledgeCode;
use crate::semi_e5::items::OutputPortNumber;
use crate::semi_e5::items::ParameterName;
use crate::semi_e5::items::ParameterValue;
use crate::semi_e5::items::PodID;
use crate::semi_e5::items::PortAction;
use crate::semi_e5::items::PortGroupAction;
use crate::semi_e5::items::PortGroupName;
use crate::semi_e5::items::PortNumber;
use crate::semi_e5::items::Quantity;
use crate::semi_e5::items::ReticleID;
use crate::semi_e5::items::ReticlePlaceInstruction;
use crate::semi_e5::items::ReticlePodManagementAcknowledgeCode;
use crate::semi_e5::items::ReticleRemoveInstruction;
use crate::semi_e5::items::TimeToCompletion;
use crate::semi_e5::items::VecList;
use crate::semi_e5::message_with_text;
use crate::semi_e5::read_header_only;
use crate::semi_e5::read_text;
use crate::semi_e5::text_fault;
use crate::semi_e5::text_reads;
use vstd::prelude::*;

verus! {

/// ## S3F0
///
/// **Abort Transaction**
///
/// - **SINGLE-BLOCK**
/// - **HOST <-> EQUIPMENT**
/// - **REPLY FORBIDDEN**
///
/// #### Description
///
/// Used in lieu of an expected reply to abort a transaction.
///
/// #### Structure
///
/// Header only.
#[derive(Clone, Copy, Debug, PartialEq, Eq)]
pub struct Abort;

impl MessageFormat for Abort {
    open spec fn message(self) -> MessageView {
        MessageView { stream: 3, function: 0, w: false, text: None }
    }

    open spec fn fault(message: MessageView) -> Option<Error> {
        header_only_fault(message, 3, 0, false)
    }

    open spec fn reads(message: MessageView, value: Self) -> bool {
        true
    }

    open spec fn valid(self) -> bool {
        true
    }

    proof fn lemma_round_trip(self) {
    }

    fn into_message(self) -> (r: Message) {
        header_only_message(3, 0, false)
    }

    fn try_from_message(message: Message) -> (r: Result<Self, Error>) {
        match read_header_only(message, 3, 0, false) {
            Ok(_) => Ok(Abort),
            Err(e) => Err(e),
        }
    }
}

/// ## S3F1
///
/// **Material Status Request (MSR)**
///
/// - **SINGLE-BLOCK**
/// - **HOST -> EQUIPMENT**
/// - **REPLY REQUIRED**
///
/// #### Description
///
/// Request to send the status of all material in process.
///
/// #### Structure
///
/// Header only.
#[derive(Clone, Copy, Debug, PartialEq, Eq)]
pub struct MaterialStatusRequest;

impl MessageFormat for MaterialStatusRequest {
    open spec fn message(self) -> MessageView {
        MessageView { stream: 3, function: 1, w: true, text: None }
    }

    open spec fn fault(message: MessageView) -> Option<Error> {
        header_only_fault(message, 3, 1, true)
    }

    open spec fn reads(message: MessageView, value: Self) -> bool {
        true
    }

    open spec fn valid(self) -> bool {
        true
    }

    proof fn lemma_round_trip(self) {
    }

    fn into_message(self) -> (r: Message) {
        header_only_message(3, 1, true)
    }

    fn try_from_message(message: Message) -> (r: Result<Self, Error>) {
        match read_header_only(message, 3, 1, true) {
            Ok(_) => Ok(MaterialStatusRequest),
            Err(e) => Err(e),
        }
    }
}

/// ## S3F2
///
/// **Material Status Data (MSD)**
///
/// - **MULTI-BLOCK**
/// - **HOST <- EQUIPMENT**
/// - **REPLY FORBIDDEN**
///
/// #### Description
///
/// Material-in-process information.
///
/// #### Structure
///
/// - List - 2
/// 1. [MF]
/// 2. List - M
/// - List - 3
/// 1. [LOC]
/// 2. [QUA]
/// 3. [MID]
///
/// M is the number of locations.
///
/// Zero-length M means no such data exists.
///
/// [MF]:  MaterialFormat
/// [LOC]: LocationCode
/// [QUA]: Quantity
/// [MID]: MaterialID
#[derive(Debug, PartialEq, Eq)]
pub struct MaterialStatusData(pub (MaterialFormat, VecList<(LocationCode, Quantity, MaterialID)>));

impl MessageFormat for MaterialStatusData {
    open spec fn message(self) -> MessageView {
        MessageView { stream: 3, function: 2, w: false, text: Some(self.0.item()) }
    }

    open spec fn fault(message: MessageView) -> Option<Error> {
        text_fault::<
            (MaterialFormat, VecList<(LocationCode, Quantity, MaterialID)>),
        >(message, 3, 2, false)
    }

    open spec fn reads(message: MessageView, value: Self) -> bool {
        text_reads(message, value.0)
    }

    open spec fn valid(self) -> bool {
        self.0.valid()
    }

    proof fn lemma_round_trip(self) {
        self.0.lemma_round_trip();
    }

    fn into_message(self) -> (r: Message) {
        message_with_text(3, 2, false, self.0)
    }

    fn try_from_message(message: Message) -> (r: Result<Self, Error>) {
        match read_text(message, 3, 2, false) {
            Ok(text) => Ok(MaterialStatusData(text)),
            Err(e) => Err(e),
        }
    }
}

/// ## S3F3
///
/// **Time To Completion Request (TCR)**
///
/// - **SINGLE-BLOCK**
/// - **HOST -> EQUIPMENT**
/// - **REPLY REQUIRED**
///
/// #### Description
///
/// Request to send the time-to-completion of operations on all material.
///
/// #### Structure
///
/// Header only.
#[derive(Clone, Copy, Debug, PartialEq, Eq)]
pub struct TimeToCompletionRequest;

impl MessageFormat for TimeToCompletionRequest {
    open spec fn message(self) -> MessageView {
        MessageView { stream: 3, function: 3, w: true, text: None }
    }

    open spec fn fault(message: MessageView) -> Option<Error> {
        header_only_fault(message, 3, 3, true)
    }

    open spec fn reads(message: MessageView, value: Self) -> bool {
        true
    }

    open spec fn valid(self) -> bool {
        true
    }

    proof fn lemma_round_trip(self) {
    }

    fn into_message(self) -> (r: Message) {
        header_only_message(3, 3, true)
    }

    fn try_from_message(message: Message) -> (r: Result<Self, Error>) {
        match read_header_only(message, 3, 3, true) {
            Ok(_) => Ok(TimeToCompletionRequest),
            Err(e) => Err(e),
        }
    }
}

/// ## S3F4
///
/// **Time To Completion Data (TCD)**
///
/// - **MULTI-BLOCK**
/// - **HOST <- EQUIPMENT**
/// - **REPLY FORBIDDEN**
///
/// #### Description
///
/// Time-to-completion information.
///
/// #### Structure
///
/// - List - 2
/// 1. [MF]
/// 2. List - M
/// - List - 3
/// 1. [TTC]
/// 2. [QUA]
/// 3. [MID]
///
/// Zero-length M means no such data exists.
///
/// [MF]:  MaterialFormat
/// [TTC]: TimeToCompletion
/// [QUA]: Quantity
/// [MID]: MaterialID
#[derive(Debug, PartialEq, Eq)]
pub struct TimeToCompletionData(
    pub (MaterialFormat, VecList<(TimeToCompletion, Quantity, MaterialID)>),
);

impl MessageFormat for TimeToCompletionData {
    open spec fn message(self) -> MessageView {
        MessageView { stream: 3, function: 4, w: false, text: Some(self.0.item()) }
    }

    open spec fn fault(message: MessageView) -> Option<Error> {
        text_fault::<
            (MaterialFormat, VecList<(TimeToCompletion, Quantity, MaterialID)>),
        >(message, 3, 4, false)
    }

    open spec fn reads(message: MessageView, value: Self) -> bool {
        text_reads(message, value.0)
    }

    open spec fn valid(self) -> bool {
        self.0.valid()
    }

    proof fn lemma_round_trip(self) {
        self.0.lemma_round_trip();
    }

    fn into_message(self) -> (r: Message) {
        message_with_text(3, 4, false, self.0)
    }

    fn try_from_message(message: Message) -> (r: Result<Self, Error>) {
        match read_text(message, 3, 4, false) {
            Ok(text) => Ok(TimeToCompletionData(text)),
            Err(e) => Err(e),
        }
    }
}

/// ## S3F5
///
/// **Material Found Send (MFS)**
///
/// - **SINGLE-BLOCK**
/// - **HOST <- EQUIPMENT**
/// - **REPLY OPTIONAL**
///
/// #### Description
///
/// Advises the host that unsolicited material has appeared at a sensor.
///
/// #### Structure
///
/// - List - 2
/// 1. [MF]
/// 2. [QUA]
///
/// [MF]:  MaterialFormat
/// [QUA]: Quantity
#[derive(Debug, PartialEq, Eq)]
pub struct MaterialFoundSend(pub (MaterialFormat, Quantity));

impl MessageFormat for MaterialFoundSend {
    open spec fn message(self) -> MessageView {
        MessageView { stream: 3, function: 5, w: true, text: Some(self.0.item()) }
    }

    open spec fn fault(message: MessageView) -> Option<Error> {
        text_fault::<(MaterialFormat, Quantity)>(message, 3, 5, true)
    }

    open spec fn reads(message: MessageView, value: Self) -> bool {
        text_reads(message, value.0)
    }

    open spec fn valid(self) -> bool {
        self.0.valid()
    }

    proof fn lemma_round_trip(self) {
        self.0.lemma_round_trip();
    }

    fn into_message(self) -> (r: Message) {
        message_with_text(3, 5, true, self.0)
    }

    fn try_from_message(message: Message) -> (r: Result<Self, Error>) {
        match read_text(message, 3, 5, true) {
            Ok(text) => Ok(MaterialFoundSend(text)),
            Err(e) => Err(e),
        }
    }
}

/// ## S3F6
///
/// **Material Found Acknowledge (MFA)**
///
/// - **SINGLE-BLOCK**
/// - **HOST -> EQUIPMENT**
/// - **REPLY FORBIDDEN**
///
/// #### Description
///
/// Acknowledge or error.
///
/// #### Structure
///
/// - [ACKC3]
///
/// [ACKC3]: AcknowledgeCode3
#[derive(Debug, PartialEq, Eq)]
pub struct MaterialFoundAcknowledge(pub AcknowledgeCode3);

impl MessageFormat for MaterialFoundAcknowledge {
    open spec fn message(self) -> MessageView {
        MessageView { stream: 3, function: 6, w: false, text: Some(self.0.item()) }
    }

    open spec fn fault(message: MessageView) -> Option<Error> {
        text_fault::<AcknowledgeCode3>(message, 3, 6, false)
    }

    open spec fn reads(message: MessageView, value: Self) -> bool {
        text_reads(message, value.0)
    }

    open spec fn valid(self) -> bool {
        self.0.valid()
    }

    proof fn lemma_round_trip(self) {
        self.0.lemma_round_trip();
    }

    fn into_message(self) -> (r: Message) {
        message_with_text(3, 6, false, self.0)
    }

    fn try_from_message(message: Message) -> (r: Result<Self, Error>) {
        match read_text(message, 3, 6, false) {
            Ok(text) => Ok(MaterialFoundAcknowledge(text)),
            Err(e) => Err(e),
        }
    }
}

/// ## S3F7
///
/// **Material Lost Send (MLS)**
///
/// - **SINGLE-BLOCK**
/// - **HOST <- EQUIPMENT**
/// - **REPLY OPTIONAL**
///
/// #### Description
///
/// Advises the host that material has disappeared from the sensors.
///
/// #### Structure
///
/// - List - 3
/// 1. [MF]
/// 2. [QUA]
/// 3. [MID]
///
/// [MF]:  MaterialFormat
/// [QUA]: Quantity
/// [MID]: MaterialID
#[derive(Debug, PartialEq, Eq)]
pub struct MaterialLostSend(pub (MaterialFormat, Quantity, MaterialID));

impl MessageFormat for MaterialLostSend {
    open spec fn message(self) -> MessageView {
        MessageView { stream: 3, function: 7, w: true, text: Some(self.0.item()) }
    }

    open spec fn fault(message: MessageView) -> Option<Error> {
        text_fault::<(MaterialFormat, Quantity, MaterialID)>(message, 3, 7, true)
    }

    open spec fn reads(message: MessageView, value: Self) -> bool {
        text_reads(message, value.0)
    }

    open spec fn valid(self) -> bool {
        self.0.valid()
    }

    proof fn lemma_round_trip(self) {
        self.0.lemma_round_trip();
    }

    fn into_message(self) -> (r: Message) {
        message_with_text(3, 7, true, self.0)
    }

    fn try_from_message(message: Message) -> (r: Result<Self, Error>) {
        match read_text(message, 3, 7, true) {
            Ok(text) => Ok(MaterialLostSend(text)),
            Err(e) => Err(e),
        }
    }
}

/// ## S3F8
///
/// **Material Lost Acknowledge (MFA)**
///
/// - **SINGLE-BLOCK**
/// - **HOST -> EQUIPMENT**
/// - **REPLY FORBIDDEN**
///
/// #### Description
///
/// Acknowledge or error.
///
/// #### Structure
///
/// - [ACKC3]
///
/// [ACKC3]: AcknowledgeCode3
#[derive(Debug, PartialEq, Eq)]
pub struct MaterialLostAcknowledge(pub AcknowledgeCode3);

impl MessageFormat for MaterialLostAcknowledge {
    open spec fn message(self) -> MessageView {
        MessageView { stream: 3, function: 8, w: false, text: Some(self.0.item()) }
    }

    open spec fn fault(message: MessageView) -> Option<Error> {
        text_fault::<AcknowledgeCode3>(message, 3, 8, false)
    }

    open spec fn reads(message: MessageView, value: Self) -> bool {
        text_reads(message, value.0)
    }

    open spec fn valid(self) -> bool {
        self.0.valid()
    }

    proof fn lemma_round_trip(self) {
        self.0.lemma_round_trip();
    }

    fn into_message(self) -> (r: Message) {
        message_with_text(3, 8, false, self.0)
    }

    fn try_from_message(message: Message) -> (r: Result<Self, Error>) {
        match read_text(message, 3, 8, false) {
            Ok(text) => Ok(MaterialLostAcknowledge(text)),
            Err(e) => Err(e),
        }
    }
}

/// ## S3F9
///
/// **Material ID Equate Send (IES)**
///
/// - **SINGLE-BLOCK**
/// - **HOST <- EQUIPMENT**
/// - **REPLY REQUIRED**
///
/// #### Description
///
/// Provide an alternative name to be used as equivalent to the original
/// material ID.
///
/// #### Structure
///
/// - List - 2
/// 1. [MID]
/// 2. [EMID]
///
/// [MID]:  MaterialID
/// [EMID]: EquivalentMaterialID
#[derive(Debug, PartialEq, Eq)]
pub struct MaterialIDEquateSend(pub (MaterialID, EquivalentMaterialID));

impl MessageFormat for MaterialIDEquateSend {
    open spec fn message(self) -> MessageView {
        MessageView { stream: 3, function: 9, w: true, text: Some(self.0.item()) }
    }

    open spec fn fault(message: MessageView) -> Option<Error> {
        text_fault::<(MaterialID, EquivalentMaterialID)>(message, 3, 9, true)
    }

    open spec fn reads(message: MessageView, value: Self) -> bool {
        text_reads(message, value.0)
    }

    open spec fn valid(self) -> bool {
        self.0.valid()
    }

    proof fn lemma_round_trip(self) {
        self.0.lemma_round_trip();
    }

    fn into_message(self) -> (r: Message) {
        message_with_text(3, 9, true, self.0)
    }

    fn try_from_message(message: Message) -> (r: Result<Self, Error>) {
        match read_text(message, 3, 9, true) {
            Ok(text) => Ok(MaterialIDEquateSend(text)),
            Err(e) => Err(e),
        }
    }
}

/// ## S3F10
///
/// **Material ID Equate Acknowledge (IEA)**
///
/// - **SINGLE-BLOCK**
/// - **HOST -> EQUIPMENT**
/// - **REPLY FORBIDDEN**
///
/// #### Description
///
/// Acknowledge or error.
///
/// #### Structure
///
/// - [ACKC3]
///
/// [ACKC3]: AcknowledgeCode3
#[derive(Debug, PartialEq, Eq)]
pub struct MaterialIDEquateAcknowledge(pub AcknowledgeCode3);

impl MessageFormat for MaterialIDEquateAcknowledge {
    open spec fn message(self) -> MessageView {
        MessageView { stream: 3, function: 10, w: false, text: Some(self.0.item()) }
    }

    open spec fn fault(message: MessageView) -> Option<Error> {
        text_fault::<AcknowledgeCode3>(message, 3, 10, false)
    }

    open spec fn reads(message: MessageView, value: Self) -> bool {
        text_reads(message, value.0)
    }

    open spec fn valid(self) -> bool {
        self.0.valid()
    }

    proof fn lemma_round_trip(self) {
        self.0.lemma_round_trip();
    }

    fn into_message(self) -> (r: Message) {
        message_with_text(3, 10, false, self.0)
    }

    fn try_from_message(message: Message) -> (r: Result<Self, Error>) {
        match read_text(message, 3, 10, false) {
            Ok(text) => Ok(MaterialIDEquateAcknowledge(text)),
            Err(e) => Err(e),
        }
    }
}

/// ## S3F11
///
/// **Material ID Request (MIDR)**
///
/// - **SINGLE-BLOCK**
/// - **HOST <- EQUIPMENT**
/// - **REPLY REQUIRED**
///
/// #### Description
///
/// Requests the Material ID of the material at the specified port.
///
/// #### Structure
///
/// - [PTN]
///
/// [PTN]: PortNumber
#[derive(Debug, PartialEq, Eq)]
pub struct MaterialIDRequest(pub PortNumber);

impl MessageFormat for MaterialIDRequest {
    open spec fn message(self) -> MessageView {
        MessageView { stream: 3, function: 11, w: true, text: Some(self.0.item()) }
    }

    open spec fn fault(message: MessageView) -> Option<Error> {
        text_fault::<PortNumber>(message, 3, 11, true)
    }

    open spec fn reads(message: MessageView, value: Self) -> bool {
        text_reads(message, value.0)
    }

    open spec fn valid(self) -> bool {
        self.0.valid()
    }

    proof fn lemma_round_trip(self) {
        self.0.lemma_round_trip();
    }

    fn into_message(self) -> (r: Message) {
        message_with_text(3, 11, true, self.0)
    }

    fn try_from_message(message: Message) -> (r: Result<Self, Error>) {
        match read_text(message, 3, 11, true) {
            Ok(text) => Ok(MaterialIDRequest(text)),
            Err(e) => Err(e),
        }
    }
}

/// ## S3F12
///
/// **Material ID Request Acknowledge (MIRA)**
///
/// - **SINGLE-BLOCK**
/// - **HOST -> EQUIPMENT**
/// - **REPLY FORBIDDEN**
///
/// #### Description
///
/// Acknowledges the request for the Material ID
///
/// #### Structure
///
/// - List - 3
/// 1. [PTN]
/// 2. [MIDRA]
/// 3. [MID]
///
/// [PTN]:   PortNumber
/// [MIDRA]: MaterialIDRequestAcknowledgeCode
/// [MID]:   MaterialID
#[derive(Debug, PartialEq, Eq)]
pub struct MaterialIDRequestAcknowledge(
    pub (PortNumber, MaterialIDRequestAcknowledgeCode, MaterialID),
);

impl MessageFormat for MaterialIDRequestAcknowledge {
    open spec fn message(self) -> MessageView {
        MessageView { stream: 3, function: 12, w: false, text: Some(self.0.item()) }
    }

    open spec fn fault(message: MessageView) -> Option<Error> {
        text_fault::<
            (PortNumber, MaterialIDRequestAcknowledgeCode, MaterialID),
        >(message, 3, 12, false)
    }

    open spec fn reads(message: MessageView, value: Self) -> bool {
        text_reads(message, value.0)
    }

    open spec fn valid(self) -> bool {
        self.0.valid()
    }

    proof fn lemma_round_trip(self) {
        self.0.lemma_round_trip();
    }

    fn into_message(self) -> (r: Message) {
        message_with_text(3, 12, false, self.0)
    }

    fn try_from_message(message: Message) -> (r: Result<Self, Error>) {
        match read_text(message, 3, 12, false) {
            Ok(text) => Ok(MaterialIDRequestAcknowledge(text)),
            Err(e) => Err(e),
        }
    }
}

/// ## S3F13
///
/// **Material ID Send (MIS)**
///
/// - **SINGLE-BLOCK**
/// - **HOST -> EQUIPMENT**
/// - **REPLY REQUIRED**
///
/// #### Description
///
/// Send the Material ID of the material at the specified port.
///
/// #### Structure
///
/// - List - 2
/// 1. [PTN]
/// 2. [MID]
///
/// Zero-length [MID] indicates that no [MID] is available.
///
/// [PTN]: PortNumber
/// [MID]: MaterialID
#[derive(Debug, PartialEq, Eq)]
pub struct MaterialIDSend(pub (PortNumber, MaterialID));

impl MessageFormat for MaterialIDSend {
    open spec fn message(self) -> MessageView {
        MessageView { stream: 3, function: 13, w: true, text: Some(self.0.item()) }
    }

    open spec fn fault(message: MessageView) -> Option<Error> {
        text_fault::<(PortNumber, MaterialID)>(message, 3, 13, true)
    }

    open spec fn reads(message: MessageView, value: Self) -> bool {
        text_reads(message, value.0)
    }

    open spec fn valid(self) -> bool {
        self.0.valid()
    }

    proof fn lemma_round_trip(self) {
        self.0.lemma_round_trip();
    }

    fn into_message(self) -> (r: Message) {
        message_with_text(3, 13, true, self.0)
    }

    fn try_from_message(message: Message) -> (r: Result<Self, Error>) {
        match read_text(message, 3, 13, true) {
            Ok(text) => Ok(MaterialIDSend(text)),
            Err(e) => Err(e),
        }
    }
}

/// ## S3F14
///
/// **Material ID Acknowledge (MIA)**
///
/// - **SINGLE-BLOCK**
/// - **HOST <- EQUIPMENT**
/// - **REPLY FORBIDDEN**
///
/// #### Description
///
/// Acknowledge or error.
///
/// #### Structure
///
/// - [MIDAC]
///
/// [MIDAC]: MaterialIDAcknowledgeCode
#[derive(Debug, PartialEq, Eq)]
pub struct MaterialIDAcknowledge(pub MaterialIDAcknowledgeCode);

impl MessageFormat for MaterialIDAcknowledge {
    open spec fn message(self) -> MessageView {
        MessageView { stream: 3, function: 14, w: false, text: Some(self.0.item()) }
    }

    open spec fn fault(message: MessageView) -> Option<Error> {
        text_fault::<MaterialIDAcknowledgeCode>(message, 3, 14, false)
    }

    open spec fn reads(message: MessageView, value: Self) -> bool {
        text_reads(message, value.0)
    }

    open spec fn valid(self) -> bool {
        self.0.valid()
    }

    proof fn lemma_round_trip(self) {
        self.0.lemma_round_trip();
    }

    fn into_message(self) -> (r: Message) {
        message_with_text(3, 14, false, self.0)
    }

    fn try_from_message(message: Message) -> (r: Result<Self, Error>) {
        match read_text(message, 3, 14, false) {
            Ok(text) => Ok(MaterialIDAcknowledge(text)),
            Err(e) => Err(e),
        }
    }
}

/// ## S3F15
///
/// **Materials Multi-Block Inquire (MMBI)**
///
/// - **SINGLE-BLOCK**
/// - **HOST -> EQUIPMENT**
/// - **REPLY REQUIRED**
///
/// #### Description
///
/// Establish that sending a multi-block message is allowed prior to sending
///
/// #### Structure
///
/// - List - 2
/// 1. [DATAID]
/// 2. [DATALENGTH]
///
/// [DATAID]:     DataID
/// [DATALENGTH]: DataLength
#[derive(Debug, PartialEq, Eq)]
pub struct MultiBlockInquire(pub (DataID, DataLength));

impl MessageFormat for MultiBlockInquire {
    open spec fn message(self) -> MessageView {
        MessageView { stream: 3, function: 15, w: true, text: Some(self.0.item()) }
    }

    open spec fn fault(message: MessageView) -> Option<Error> {
        text_fault::<(DataID, DataLength)>(message, 3, 15, true)
    }

    open spec fn reads(message: MessageView, value: Self) -> bool {
        text_reads(message, value.0)
    }

    open spec fn valid(self) -> bool {
        self.0.valid()
    }

    proof fn lemma_round_trip(self) {
        self.0.lemma_round_trip();
    }

    fn into_message(self) -> (r: Message) {
        message_with_text(3, 15, true, self.0)
    }

    fn try_from_message(message: Message) -> (r: Result<Self, Error>) {
        match read_text(message, 3, 15, true) {
            Ok(text) => Ok(MultiBlockInquire(text)),
            Err(e) => Err(e),
        }
    }
}

/// ## S3F16
///
/// **Materials Multi-Block Grant (MMBG)**
///
/// - **SINGLE-BLOCK**
/// - **HOST <- EQUIPMENT**
/// - **REPLY FORBIDDEN**
///
/// #### Description
///
/// Grant permission to send a multi-block message.
///
/// #### Structure
///
/// - [GRANT]
///
/// [GRANT]: Grant
#[derive(Debug, PartialEq, Eq)]
pub struct MultiBlockGrant(pub Grant);

impl MessageFormat for MultiBlockGrant {
    open spec fn message(self) -> MessageView {
        MessageView { stream: 3, function: 16, w: false, text: Some(self.0.item()) }
    }

    open spec fn fault(message: MessageView) -> Option<Error> {
        text_fault::<Grant>(message, 3, 16, false)
    }

    open spec fn reads(message: MessageView, value: Self) -> bool {
        text_reads(message, value.0)
    }

    open spec fn valid(self) -> bool {
        self.0.valid()
    }

    proof fn lemma_round_trip(self) {
        self.0.lemma_round_trip();
    }

    fn into_message(self) -> (r: Message) {
        message_with_text(3, 16, false, self.0)
    }

    fn try_from_message(message: Message) -> (r: Result<Self, Error>) {
        match read_text(message, 3, 16, false) {
            Ok(text) => Ok(MultiBlockGrant(text)),
            Err(e) => Err(e),
        }
    }
}

/// ## S3F17
///
/// **Carrier Action Request**
///
/// - **MULTI-BLOCK**
/// - **HOST -> EQUIPMENT**
/// - **REPLY REQUIRED**
///
/// #### Description
///
/// Requests an action to be performed for a specified carrier.
///
/// #### Structure
///
/// - List - 5
/// 1. [DATAID]
/// 2. [CARRIERACTION]
/// 3. [CARRIERID]
/// 4. [PTN]
/// 5. List - N
/// - List - 2
/// 1. [CATTRID]
/// 2. [CATTRDATA]
///
/// N is the number of carrier attributes.
///
/// If N is zero-length, no carrier attributes are included.
///
/// [DATAID]:        DataID
/// [CARRIERACTION]: CarrierAction
/// [CARRIERID]:     CarrierID
/// [PTN]:           PortNumber
/// [CATTRID]:       CarrierAttributeID
/// [CATTRDATA]:     CarrierAttributeValue
#[derive(Debug, PartialEq, Eq)]
pub struct CarrierActionRequest(
    pub (
        DataID,
        CarrierAction,
        CarrierID,
        PortNumber,
        VecList<(CarrierAttributeID, CarrierAttributeValue)>,
    ),
);

impl MessageFormat for CarrierActionRequest {
    open spec fn message(self) -> MessageView {
        MessageView { stream: 3, function: 17, w: true, text: Some(self.0.item()) }
    }

    open spec fn fault(message: MessageView) -> Option<Error> {
        text_fault::<
            (
                DataID,
                CarrierAction,
                CarrierID,
                PortNumber,
                VecList<(CarrierAttributeID, CarrierAttributeValue)>,
            ),
        >(message, 3, 17, true)
    }

    open spec fn reads(message: MessageView, value: Self) -> bool {
        text_reads(message, value.0)
    }

    open spec fn valid(self) -> bool {
        self.0.valid()
    }

    proof fn lemma_round_trip(self) {
        self.0.lemma_round_trip();
    }

    fn into_message(self) -> (r: Message) {
        message_with_text(3, 17, true, self.0)
    }

    fn try_from_message(message: Message) -> (r: Result<Self, Error>) {
        match read_text(message, 3, 17, true) {
            Ok(text) => Ok(CarrierActionRequest(text)),
            Err(e) => Err(e),
        }
    }
}

/// ## S3F18
///
/// **Carrier Action Acknowledge**
///
/// - **SINGLE-BLOCK**
/// - **HOST <- EQUIPMENT**
/// - **REPLY FORBIDDEN**
///
/// #### Description
///
/// Acknowledges the carrier action request.
///
/// #### Structure
///
/// - List - 2
/// 1. [CAACK]
/// 2. List - N
/// - List - 2
/// 1. [ERRCODE]
/// 2. [ERRTEXT]
///
/// N is the number of errors.
///
/// If N is zero-length, there are no errors.
///
/// [CAACK]:   CarrierActionAcknowledgeCode
/// [ERRCODE]: ErrorCode
/// [ERRTEXT]: ErrorText
#[derive(Debug, PartialEq, Eq)]
pub struct CarrierActionAcknowledge(
    pub (CarrierActionAcknowledgeCode, VecList<(ErrorCode, ErrorText)>),
);

impl MessageFormat for CarrierActionAcknowledge {
    open spec fn message(self) -> MessageView {
        MessageView { stream: 3, function: 18, w: false, text: Some(self.0.item()) }
    }

    open spec fn fault(message: MessageView) -> Option<Error> {
        text_fault::<
            (CarrierActionAcknowledgeCode, VecList<(ErrorCode, ErrorText)>),
        >(message, 3, 18, false)
    }

    open spec fn reads(message: MessageView, value: Self) -> bool {
        text_reads(message, value.0)
    }

    open spec fn valid(self) -> bool {
        self.0.valid()
    }

    proof fn lemma_round_trip(self) {
        self.0.lemma_round_trip();
    }

    fn into_message(self) -> (r: Message) {
        message_with_text(3, 18, false, self.0)
    }

    fn try_from_message(message: Message) -> (r: Result<Self, Error>) {
        match read_text(message, 3, 18, false) {
            Ok(text) => Ok(CarrierActionAcknowledge(text)),
            Err(e) => Err(e),
        }
    }
}

/// ## S3F19
///
/// **Cancel All Carrier Out Request**
///
/// - **SINGLE-BLOCK**
/// - **HOST -> EQUIPMENT**
/// - **REPLY REQUIRED**
///
/// #### Description
///
/// Cancel all pending carrier out requests.
///
/// #### Structure
///
/// Header only.
#[derive(Clone, Copy, Debug, PartialEq, Eq)]
pub struct CancelAllCarrierOutRequest;

impl MessageFormat for CancelAllCarrierOutRequest {
    open spec fn message(self) -> MessageView {
        MessageView { stream: 3, function: 19, w: true, text: None }
    }

    open spec fn fault(message: MessageView) -> Option<Error> {
        header_only_fault(message, 3, 19, true)
    }

    open spec fn reads(message: MessageView, value: Self) -> bool {
        true
    }

    open spec fn valid(self) -> bool {
        true
    }

    proof fn lemma_round_trip(self) {
    }

    fn into_message(self) -> (r: Message) {
        header_only_message(3, 19, true)
    }

    fn try_from_message(message: Message) -> (r: Result<Self, Error>) {
        match read_header_only(message, 3, 19, true) {
            Ok(_) => Ok(CancelAllCarrierOutRequest),
            Err(e) => Err(e),
        }
    }
}

/// ## S3F20
///
/// **Cancel All Carrier Out Acknowledge**
///
/// - **SINGLE-BLOCK**
/// - **HOST <- EQUIPMENT**
/// - **REPLY FORBIDDEN**
///
/// #### Description
///
/// Acknowledges the cancel carrier out request.
///
/// #### Structure
///
/// - List - 2
/// 1. [CAACK]
/// 2. List - N
/// - List - 2
/// 1. [ERRCODE]
/// 2. [ERRTEXT]
///
/// N is the number of errors.
///
/// If N is zero-length, there are no errors.
///
/// [CAACK]:   CarrierActionAcknowledgeCode
/// [ERRCODE]: ErrorCode
/// [ERRTEXT]: ErrorText
#[derive(Debug, PartialEq, Eq)]
pub struct CancelAllCarrierOutAcknowledge(
    pub (CarrierActionAcknowledgeCode, VecList<(ErrorCode, ErrorText)>),
);

impl MessageFormat for CancelAllCarrierOutAcknowledge {
    open spec fn message(self) -> MessageView {
        MessageView { stream: 3, function: 20, w: false, text: Some(self.0.item()) }
    }

    open spec fn fault(message: MessageView) -> Option<Error> {
        text_fault::<
            (CarrierActionAcknowledgeCode, VecList<(ErrorCode, ErrorText)>),
        >(message, 3, 20, false)
    }

    open spec fn reads(message: MessageView, value: Self) -> bool {
        text_reads(message, value.0)
    }

    open spec fn valid(self) -> bool {
        self.0.valid()
    }

    proof fn lemma_round_trip(self) {
        self.0.lemma_round_trip();
    }

    fn into_message(self) -> (r: Message) {
        message_with_text(3, 20, false, self.0)
    }

    fn try_from_message(message: Message) -> (r: Result<Self, Error>) {
        match read_text(message, 3, 20, false) {
            Ok(text) => Ok(CancelAllCarrierOutAcknowledge(text)),
            Err(e) => Err(e),
        }
    }
}

/// ## S3F21
///
/// **Port Group Definition**
///
/// - **SINGLE-BLOCK**
/// - **HOST -> EQUIPMENT**
/// - **REPLY REQUIRED**
///
/// #### Description
///
/// Defines mhe port in a port group and provides the initial port access.
///
/// #### Structure
///
/// - List - 3
/// 1. [PORTGRPNAME]
/// 2. [ACCESSMODE]
/// 3. List - N
/// - [PTN]
///
/// [PORTGRPNAME]: PortGroupName
/// [ACCESSMODE]:  AccessMode
/// [PTN]:         PortNumber
#[derive(Debug, PartialEq, Eq)]
pub struct PortGroupDefinition(pub (PortGroupName, AccessMode, VecList<PortNumber>));

impl MessageFormat for PortGroupDefinition {
    open spec fn message(self) -> MessageView {
        MessageView { stream: 3, function: 21, w: true, text: Some(self.0.item()) }
    }

    open spec fn fault(message: MessageView) -> Option<Error> {
        text_fault::<(PortGroupName, AccessMode, VecList<PortNumber>)>(message, 3, 21, true)
    }

    open spec fn reads(message: MessageView, value: Self) -> bool {
        text_reads(message, value.0)
    }

    open spec fn valid(self) -> bool {
        self.0.valid()
    }

    proof fn lemma_round_trip(self) {
        self.0.lemma_round_trip();
    }

    fn into_message(self) -> (r: Message) {
        message_with_text(3, 21, true, self.0)
    }

    fn try_from_message(message: Message) -> (r: Result<Self, Error>) {
        match read_text(message, 3, 21, true) {
            Ok(text) => Ok(PortGroupDefinition(text)),
            Err(e) => Err(e),
        }
    }
}

/// ## S3F22
///
/// **Port Group Definiton Acknowledge**
///
/// - **SINGLE-BLOCK**
/// - **HOST <- EQUIPMENT**
/// - **REPLY FORBIDDEN**
///
/// #### Description
///
/// Acknowledges the port group definition.
///
/// #### Structure
///
/// - List - 2
/// 1. [CAACK]
/// 2. List - N
/// - List - 2
/// 1. [ERRCODE]
/// 2. [ERRTEXT]
///
/// N is the number of errors.
///
/// If N is zero-length, there are no errors.
///
/// [CAACK]:   CarrierActionAcknowledgeCode
/// [ERRCODE]: ErrorCode
/// [ERRTEXT]: ErrorText
#[derive(Debug, PartialEq, Eq)]
pub struct PortGroupDefinitionAcknowledge(
    pub (CarrierActionAcknowledgeCode, VecList<(ErrorCode, ErrorText)>),
);

impl MessageFormat for PortGroupDefinitionAcknowledge {
    open spec fn message(self) -> MessageView {
        MessageView { stream: 3, function: 22, w: false, text: Some(self.0.item()) }
    }

    open spec fn fault(message: MessageView) -> Option<Error> {
        text_fault::<
            (CarrierActionAcknowledgeCode, VecList<(ErrorCode, ErrorText)>),
        >(message, 3, 22, false)
    }

    open spec fn reads(message: MessageView, value: Self) -> bool {
        text_reads(message, value.0)
    }

    open spec fn valid(self) -> bool {
        self.0.valid()
    }

    proof fn lemma_round_trip(self) {
        self.0.lemma_round_trip();
    }

    fn into_message(self) -> (r: Message) {
        message_with_text(3, 22, false, self.0)
    }

    fn try_from_message(message: Message) -> (r: Result<Self, Error>) {
        match read_text(message, 3, 22, false) {
            Ok(text) => Ok(PortGroupDefinitionAcknowledge(text)),
            Err(e) => Err(e),
        }
    }
}

/// ## S3F23
///
/// **Port Group Action Request**
///
/// - **SINGLE-BLOCK**
/// - **HOST -> EQUIPMENT**
/// - **REPLY REQUIRED**
///
/// #### Description
///
/// Requests an action be performed for a port group. The access mode may be
/// changed or the port group may be deleted.
///
/// #### Structure
///
/// - List - 3
/// 1. [PGRPACTION]
/// 2. [PORTGRPNAME]
/// 3. List - M
/// - List - 2
/// 1. [PARAMNAME]
/// 2. [PARAMVAL]
///
/// If M is zero-length, no parameters are provided.
///
/// [PGRPACTION]: PortGroupAction
/// [PORTGRPNAME]:   PortGroupName
/// [PARAMNAME]:     ParameterName
/// [PARAMVAL]:      ParameterValue
#[derive(Debug, PartialEq, Eq)]
pub struct PortGroupActionRequest(
    pub (PortGroupAction, PortGroupName, VecList<(ParameterName, ParameterValue)>),
);

impl MessageFormat for PortGroupActionRequest {
    open spec fn message(self) -> MessageView {
        MessageView { stream: 3, function: 23, w: true, text: Some(self.0.item()) }
    }

    open spec fn fault(message: MessageView) -> Option<Error> {
        text_fault::<
            (PortGroupAction, PortGroupName, VecList<(ParameterName, ParameterValue)>),
        >(message, 3, 23, true)
    }

    open spec fn reads(message: MessageView, value: Self) -> bool {
        text_reads(message, value.0)
    }

    open spec fn valid(self) -> bool {
        self.0.valid()
    }

    proof fn lemma_round_trip(self) {
        self.0.lemma_round_trip();
    }

    fn into_message(self) -> (r: Message) {
        message_with_text(3, 23, true, self.0)
    }

    fn try_from_message(message: Message) -> (r: Result<Self, Error>) {
        match read_text(message, 3, 23, true) {
            Ok(text) => Ok(PortGroupActionRequest(text)),
            Err(e) => Err(e),
        }
    }
}

/// ## S3F24
///
/// **Port Group Action Acknowledge**
///
/// - **SINGLE-BLOCK**
/// - **HOST <- EQUIPMENT**
/// - **REPLY FORBIDDEN**
///
/// #### Description
///
/// Acknowledges the port group action request.
///
/// #### Structure
///
/// - List - 2
/// 1. [CAACK]
/// 2. List - N
/// - List - 2
/// 1. [ERRCODE]
/// 2. [ERRTEXT]
///
/// N is the number of errors.
///
/// If N is zero-length, there are no errors.
///
/// [CAACK]:   CarrierActionAcknowledgeCode
/// [ERRCODE]: ErrorCode
/// [ERRTEXT]: ErrorText
#[derive(Debug, PartialEq, Eq)]
pub struct PortGroupActionAcknowledge(
    pub (CarrierActionAcknowledgeCode, VecList<(ErrorCode, ErrorText)>),
);

impl MessageFormat for PortGroupActionAcknowledge {
    open spec fn message(self) -> MessageView {
        MessageView { stream: 3, function: 24, w: false, text: Some(self.0.item()) }
    }

    open spec fn fault(message: MessageView) -> Option<Error> {
        text_fault::<
            (CarrierActionAcknowledgeCode, VecList<(ErrorCode, ErrorText)>),
        >(message, 3, 24, false)
    }

    open spec fn reads(message: MessageView, value: Self) -> bool {
        text_reads(message, value.0)
    }

    open spec fn valid(self) -> bool {
        self.0.valid()
    }

    proof fn lemma_round_trip(self) {
        self.0.lemma_round_trip();
    }

    fn into_message(self) -> (r: Message) {
        message_with_text(3, 24, false, self.0)
    }

    fn try_from_message(message: Message) -> (r: Result<Self, Error>) {
        match read_text(message, 3, 24, false) {
            Ok(text) => Ok(PortGroupActionAcknowledge(text)),
            Err(e) => Err(e),
        }
    }
}

/// ## S3F25
///
/// **Port Action Request**
///
/// - **SINGLE-BLOCK**
/// - **HOST -> EQUIPMENT**
/// - **REPLY REQUIRED**
///
/// #### Description
///
/// Requests an action be performed for a port.
///
/// #### Structure
///
/// - List - 3
/// 1. [PORTACTION]
/// 2. [PTN]
/// 3. List - M
/// - List - 2
/// 1. [PARAMNAME]
/// 2. [PARAMVALUE]
///
/// Zero-length M means no parameters are provided.
///
/// [PORTACTION]: PortAction
/// [PTN]:        PortNumber
/// [PARAMNAME]:  ParameterName
/// [PARAMVALUE]: ParameterValue
#[derive(Debug, PartialEq, Eq)]
pub struct PortActionRequest(
    pub (PortAction, PortNumber, VecList<(ParameterName, ParameterValue)>),
);

impl MessageFormat for PortActionRequest {
    open spec fn message(self) -> MessageView {
        MessageView { stream: 3, function: 25, w: true, text: Some(self.0.item()) }
    }

    open spec fn fault(message: MessageView) -> Option<Error> {
        text_fault::<
            (PortAction, PortNumber, VecList<(ParameterName, ParameterValue)>),
        >(message, 3, 25, true)
    }

    open spec fn reads(message: MessageView, value: Self) -> bool {
        text_reads(message, value.0)
    }

    open spec fn valid(self) -> bool {
        self.0.valid()
    }

    proof fn lemma_round_trip(self) {
        self.0.lemma_round_trip();
    }

    fn into_message(self) -> (r: Message) {
        message_with_text(3, 25, true, self.0)
    }

    fn try_from_message(message: Message) -> (r: Result<Self, Error>) {
        match read_text(message, 3, 25, true) {
            Ok(text) => Ok(PortActionRequest(text)),
            Err(e) => Err(e),
        }
    }
}

/// ## S3F26
///
/// **Port Action Acknowledge**
///
/// - **SINGLE-BLOCK**
/// - **HOST <- EQUIPMENT**
/// - **REPLY FORBIDDEN**
///
/// #### Description
///
/// Acknowledges the port action request.
///
/// #### Structure
///
/// - List - 2
/// 1. [CAACK]
/// 2. List - N
/// - List - 2
/// 1. [ERRCODE]
/// 2. [ERRTEXT]
///
/// N is the number of errors.
///
/// If N is zero-length, there are no errors.
///
/// [CAACK]:   CarrierActionAcknowledgeCode
/// [ERRCODE]: ErrorCode
/// [ERRTEXT]: ErrorText
#[derive(Debug, PartialEq, Eq)]
pub struct PortActionAcknowledge(
    pub (CarrierActionAcknowledgeCode, VecList<(ErrorCode, ErrorText)>),
);

impl MessageFormat for PortActionAcknowledge {
    open spec fn message(self) -> MessageView {
        MessageView { stream: 3, function: 26, w: false, text: Some(self.0.item()) }
    }

    open spec fn fault(message: MessageView) -> Option<Error> {
        text_fault::<
            (CarrierActionAcknowledgeCode, VecList<(ErrorCode, ErrorText)>),
        >(message, 3, 26, false)
    }

    open spec fn reads(message: MessageView, value: Self) -> bool {
        text_reads(message, value.0)
    }

    open spec fn valid(self) -> bool {
        self.0.valid()
    }

    proof fn lemma_round_trip(self) {
        self.0.lemma_round_trip();
    }

    fn into_message(self) -> (r: Message) {
        message_with_text(3, 26, false, self.0)
    }

    fn try_from_message(message: Message) -> (r: Result<Self, Error>) {
        match read_text(message, 3, 26, false) {
            Ok(text) => Ok(PortActionAcknowledge(text)),
            Err(e) => Err(e),
        }
    }
}

/// ## S3F27
///
/// **Change Access**
///
/// - **SINGLE-BLOCK**
/// - **HOST -> EQUIPMENT**
/// - **REPLY REQUIRED**
///
/// #### Description
///
/// Request the equipment to change the access mode for the specified load
/// ports.
///
/// If any specified port is already in the specified access mode, then the
/// equipment shall accept the command regardless.
///
/// If the equipment is unable to change one or more of the specified ports to
/// the specified access mode, then it shall accept the command, and shall
/// change the access mode for the ports which it is able to.
///
/// #### Structure
///
/// - List - 2
/// 1. [ACCESSMODE]
/// 2. List - N
/// - [PTN]
///
/// Zero-length N means the command applies to all load ports on the equipment.
///
/// [ACCESSMODE]: AccessMode
/// [PTN]:        PortNumber
#[derive(Debug, PartialEq, Eq)]
pub struct ChangeAccess(pub (AccessMode, VecList<PortNumber>));

impl MessageFormat for ChangeAccess {
    open spec fn message(self) -> MessageView {
        MessageView { stream: 3, function: 27, w: true, text: Some(self.0.item()) }
    }

    open spec fn fault(message: MessageView) -> Option<Error> {
        text_fault::<(AccessMode, VecList<PortNumber>)>(message, 3, 27, true)
    }

    open spec fn reads(message: MessageView, value: Self) -> bool {
        text_reads(message, value.0)
    }

    open spec fn valid(self) -> bool {
        self.0.valid()
    }

    proof fn lemma_round_trip(self) {
        self.0.lemma_round_trip();
    }

    fn into_message(self) -> (r: Message) {
        message_with_text(3, 27, true, self.0)
    }

    fn try_from_message(message: Message) -> (r: Result<Self, Error>) {
        match read_text(message, 3, 27, true) {
            Ok(text) => Ok(ChangeAccess(text)),
            Err(e) => Err(e),
        }
    }
}

/// ## S3F28
///
/// **Port Action Acknowledge**
///
/// - **SINGLE-BLOCK**
/// - **HOST <- EQUIPMENT**
/// - **REPLY FORBIDDEN**
///
/// #### Description
///
/// Acknowledges the change access request.
///
/// #### Structure
///
/// - List - 2
/// 1. [CAACK]
/// 2. List - N
/// - List - 3
/// 1. [PTN]
/// 2. [ERRCODE]
/// 3. [ERRTEXT]
///
/// [CAACK] of 0 and Zero-Length N means the command is successful.
///
/// [CAACK] of 6 and Non-Zero N means the command was successful for some ports.
///
/// [CAACK]:   CarrierActionAcknowledgeCode
/// [PTN]:     PortNumber
/// [ERRCODE]: ErrorCode
/// [ERRTEXT]: ErrorText
#[derive(Debug, PartialEq, Eq)]
pub struct ChangeAccessAcknowledge(
    pub (CarrierActionAcknowledgeCode, VecList<(PortNumber, ErrorCode, ErrorText)>),
);

impl MessageFormat for ChangeAccessAcknowledge {
    open spec fn message(self) -> MessageView {
        MessageView { stream: 3, function: 28, w: false, text: Some(self.0.item()) }
    }

    open spec fn fault(message: MessageView) -> Option<Error> {
        text_fault::<
            (CarrierActionAcknowledgeCode, VecList<(PortNumber, ErrorCode, ErrorText)>),
        >(message, 3, 28, false)
    }

    open spec fn reads(message: MessageView, value: Self) -> bool {
        text_reads(message, value.0)
    }

    open spec fn valid(self) -> bool {
        self.0.valid()
    }

    proof fn lemma_round_trip(self) {
        self.0.lemma_round_trip();
    }

    fn into_message(self) -> (r: Message) {
        message_with_text(3, 28, false, self.0)
    }

    fn try_from_message(message: Message) -> (r: Result<Self, Error>) {
        match read_text(message, 3, 28, false) {
            Ok(text) => Ok(ChangeAccessAcknowledge(text)),
            Err(e) => Err(e),
        }
    }
}

/// ## S3F29
///
/// **Carrier Tag Read Request**
///
/// - **SINGLE-BLOCK**
/// - **HOST -> EQUIPMENT**
/// - **REPLY REQUIRED**
///
/// #### Description
///
/// Requests the equipment to read data from the carrier tag of a carrier. The
/// carrier must be identified by either its location identifier, its carrier
/// identifier, or both.
///
/// #### Structure
///
/// - List - 4
/// 1. [LOCID]
/// 2. [CARRIERSPEC]
/// 3. [DATASEG]
/// 4. [DATALENGTH]
///
/// [LOCID]:       LocationID
/// [CARRIERSPEC]: CarrierSpecifier
/// [DATASEG]:     DataSegment
/// [DATALENGTH]:  DataLength
#[derive(Debug, PartialEq, Eq)]
pub struct CarrierTagReadRequest(pub (LocationID, CarrierSpecifier, DataSegment, DataLength));

impl MessageFormat for CarrierTagReadRequest {
    open spec fn message(self) -> MessageView {
        MessageView { stream: 3, function: 29, w: true, text: Some(self.0.item()) }
    }

    open spec fn fault(message: MessageView) -> Option<Error> {
        text_fault::<(LocationID, CarrierSpecifier, DataSegment, DataLength)>(message, 3, 29, true)
    }

    open spec fn reads(message: MessageView, value: Self) -> bool {
        text_reads(message, value.0)
    }

    open spec fn valid(self) -> bool {
        self.0.valid()
    }

    proof fn lemma_round_trip(self) {
        self.0.lemma_round_trip();
    }

    fn into_message(self) -> (r: Message) {
        message_with_text(3, 29, true, self.0)
    }

    fn try_from_message(message: Message) -> (r: Result<Self, Error>) {
        match read_text(message, 3, 29, true) {
            Ok(text) => Ok(CarrierTagReadRequest(text)),
            Err(e) => Err(e),
        }
    }
}

/// ## S3F30
///
/// **Carrier Tag Read Data (CTRD)**
///
/// - **SINGLE-BLOCK**
/// - **HOST <- EQUIPMENT**
/// - **REPLY FORBIDDEN**
///
/// #### Description
///
/// Returns requested information from the carrier tag of the carrier indicated
/// in the request and acknowledges the results of the request.
///
/// #### Structure
///
/// - List - 2
/// 1. [DATA]
/// 2. List - 2
/// 1. [CAACK]
/// 2. List - S
/// - List - 2
/// 1. [ERRCODE]
/// 2. [ERRTEXT]
///
/// [DATA]:    Data
/// [CAACK]:   CarrierActionAcknowledgeCode
/// [ERRCODE]: ErrorCode
/// [ERRTEXT]: ErrorText
#[derive(Debug, PartialEq, Eq)]
pub struct CarrierTagReadData(
    pub (Data, (CarrierActionAcknowledgeCode, VecList<(ErrorCode, ErrorText)>)),
);

impl MessageFormat for CarrierTagReadData {
    open spec fn message(self) -> MessageView {
        MessageView { stream: 3, function: 30, w: false, text: Some(self.0.item()) }
    }

    open spec fn fault(message: MessageView) -> Option<Error> {
        text_fault::<
            (Data, (CarrierActionAcknowledgeCode, VecList<(ErrorCode, ErrorText)>)),
        >(message, 3, 30, false)
    }

    open spec fn reads(message: MessageView, value: Self) -> bool {
        text_reads(message, value.0)
    }

    open spec fn valid(self) -> bool {
        self.0.valid()
    }

    proof fn lemma_round_trip(self) {
        self.0.lemma_round_trip();
    }

    fn into_message(self) -> (r: Message) {
        message_with_text(3, 30, false, self.0)
    }

    fn try_from_message(message: Message) -> (r: Result<Self, Error>) {
        match read_text(message, 3, 30, false) {
            Ok(text) => Ok(CarrierTagReadData(text)),
            Err(e) => Err(e),
        }
    }
}

/// ## S3F31
///
/// **Carrier Tag Write Data Request (CTWDR)**
///
/// - **SINGLE-BLOCK**
/// - **HOST -> EQUIPMENT**
/// - **REPLY REQUIRED**
///
/// #### Description
///
/// Requests the equipment write data to a carrier tag. The carrier must be
/// identified by either its location identifier, its carrier identifier, or
/// both.
///
/// #### Structure
///
/// - List - 5
/// 1. [LOCID]
/// 2. [CARRIERSPEC]
/// 3. [DATASEG]
/// 4. [DATALENGTH]
/// 5. [DATA]
///
/// [LOCID]:       LocationID
/// [CARRIERSPEC]: CarrierSpecifier
/// [DATASEG]:     DataSegment
/// [DATALENGTH]:  DataLength
/// [DATA]:        Data
#[derive(Debug, PartialEq, Eq)]
pub struct CarrierTagWriteDataRequest(
    pub (LocationID, CarrierSpecifier, DataSegment, DataLength, Data),
);

impl MessageFormat for CarrierTagWriteDataRequest {
    open spec fn message(self) -> MessageView {
        MessageView { stream: 3, function: 31, w: true, text: Some(self.0.item()) }
    }

    open spec fn fault(message: MessageView) -> Option<Error> {
        text_fault::<
            (LocationID, CarrierSpecifier, DataSegment, DataLength, Data),
        >(message, 3, 31, true)
    }

    open spec fn reads(message: MessageView, value: Self) -> bool {
        text_reads(message, value.0)
    }

    open spec fn valid(self) -> bool {
        self.0.valid()
    }

    proof fn lemma_round_trip(self) {
        self.0.lemma_round_trip();
    }

    fn into_message(self) -> (r: Message) {
        message_with_text(3, 31, true, self.0)
    }

    fn try_from_message(message: Message) -> (r: Result<Self, Error>) {
        match read_text(message, 3, 31, true) {
            Ok(text) => Ok(CarrierTagWriteDataRequest(text)),
            Err(e) => Err(e),
        }
    }
}

/// ## S3F32
///
/// **Carrier Tag Write Data Acknowledge (CTWDA)**
///
/// - **SINGLE-BLOCK**
/// - **HOST <- EQUIPMENT**
/// - **REPLY FORBIDDEN**
///
/// #### Description
///
/// Acknowledges success or failure of writing data to the requested carrier
/// tag.
///
/// #### Structure
///
/// - List - 2
/// 1. [CAACK]
/// 2. List - N
/// - List - 2
/// 1. [ERRCODE]
/// 2. [ERRTEXT]
///
/// Zero-length N means there are no errors.
///
/// [CAACK]:   CarrierActionAcknowledgeCode
/// [ERRCODE]: ErrorCode
/// [ERRTEXT]: ErrorText
#[derive(Debug, PartialEq, Eq)]
pub struct CarrierTagWriteDataAcknowledge(
    pub (CarrierActionAcknowledgeCode, VecList<(ErrorCode, ErrorText)>),
);

impl MessageFormat for CarrierTagWriteDataAcknowledge {
    open spec fn message(self) -> MessageView {
        MessageView { stream: 3, function: 32, w: false, text: Some(self.0.item()) }
    }

    open spec fn fault(message: MessageView) -> Option<Error> {
        text_fault::<
            (CarrierActionAcknowledgeCode, VecList<(ErrorCode, ErrorText)>),
        >(message, 3, 32, false)
    }

    open spec fn reads(message: MessageView, value: Self) -> bool {
        text_reads(message, value.0)
    }

    open spec fn valid(self) -> bool {
        self.0.valid()
    }

    proof fn lemma_round_trip(self) {
        self.0.lemma_round_trip();
    }

    fn into_message(self) -> (r: Message) {
        message_with_text(3, 32, false, self.0)
    }

    fn try_from_message(message: Message) -> (r: Result<Self, Error>) {
        match read_text(message, 3, 32, false) {
            Ok(text) => Ok(CarrierTagWriteDataAcknowledge(text)),
            Err(e) => Err(e),
        }
    }
}

/// ## S3F33
///
/// **Cancel All Pod Out Request**
///
/// - **SINGLE-BLOCK**
/// - **HOST <-> EQUIPMENT**
/// - **REPLY REQUIRED**
///
/// #### Description
///
/// Cancels all pending pod out requests.
///
/// #### Structure
///
/// Header only.
#[derive(Clone, Copy, Debug, PartialEq, Eq)]
pub struct CancelAllPodOutRequest;

impl MessageFormat for CancelAllPodOutRequest {
    open spec fn message(self) -> MessageView {
        MessageView { stream: 3, function: 33, w: true, text: None }
    }

    open spec fn fault(message: MessageView) -> Option<Error> {
        header_only_fault(message, 3, 33, true)
    }

    open spec fn reads(message: MessageView, value: Self) -> bool {
        true
    }

    open spec fn valid(self) -> bool {
        true
    }

    proof fn lemma_round_trip(self) {
    }

    fn into_message(self) -> (r: Message) {
        header_only_message(3, 33, true)
    }

    fn try_from_message(message: Message) -> (r: Result<Self, Error>) {
        match read_header_only(message, 3, 33, true) {
            Ok(_) => Ok(CancelAllPodOutRequest),
            Err(e) => Err(e),
        }
    }
}

/// ## S3F34
///
/// **Cancel All Pod Out Acknowledge**
///
/// - **SINGLE-BLOCK**
/// - **HOST <-> EQUIPMENT**
/// - **REPLY FORBIDDEN**
///
/// #### Description
///
/// Acknowledges the cancel pod out request.
///
/// #### Structure
///
/// - List - 2
/// 1. [CAACK]
/// 2. List - N
/// - List - 2
/// 1. [ERRCODE]
/// 2. [ERRTEXT]
///
/// Zero-length N means no errors exist.
///
/// [CAACK]:   CarrierActionAcknowledgeCode
/// [ERRCODE]: ErrorCode
/// [ERRTEXT]: ErrorText
#[derive(Debug, PartialEq, Eq)]
pub struct CancelAllPodOutAcknowledge(
    pub (CarrierActionAcknowledgeCode, VecList<(ErrorCode, ErrorText)>),
);

impl MessageFormat for CancelAllPodOutAcknowledge {
    open spec fn message(self) -> MessageView {
        MessageView { stream: 3, function: 34, w: false, text: Some(self.0.item()) }
    }

    open spec fn fault(message: MessageView) -> Option<Error> {
        text_fault::<
            (CarrierActionAcknowledgeCode, VecList<(ErrorCode, ErrorText)>),
        >(message, 3, 34, false)
    }

    open spec fn reads(message: MessageView, value: Self) -> bool {
        text_reads(message, value.0)
    }

    open spec fn valid(self) -> bool {
        self.0.valid()
    }

    proof fn lemma_round_trip(self) {
        self.0.lemma_round_trip();
    }

    fn into_message(self) -> (r: Message) {
        message_with_text(3, 34, false, self.0)
    }

    fn try_from_message(message: Message) -> (r: Result<Self, Error>) {
        match read_text(message, 3, 34, false) {
            Ok(text) => Ok(CancelAllPodOutAcknowledge(text)),
            Err(e) => Err(e),
        }
    }
}

/// ## S3F35
///
/// **Reticle Transfer Job Request**
///
/// - **HOST <-> EQUIPMENT**
/// - **REPLY REQUIRED**
///
/// #### Description
///
/// Requests a reticle transfer job be performed or cancelled for a particular
/// pod.
///
/// #### Structure
///
/// - List - 7
/// 1. [JOBACTION]
/// 2. [PODID]
/// 3. [INPTN]
/// 4. [OUTPTN]
/// 5. List - N
/// - List - 2
/// 1. [ATTRID]
/// 2. [ATTRDATA]
/// 6. List - M
/// - List - 3
/// 1. [RETICLEID]
/// 2. [RETREMOVEINSTR]
/// 3. List - R
/// - List - 2
/// 1. [ATTRID]
/// 2. [ATTRDATA]
/// 7. List - K
/// - List - 2
/// 1. [RETICLEID]
/// 2. [RETPLACEINSTR]
///
/// If [JOBACTION] = CancelReticleTransferJob, M and N may be zero-length.
///
/// [JOBACTION]:      JobAction
/// [PODID]:          PodID
/// [INPTN]:          InputPortNumber
/// [OUTPTN]:         OutputPortNumber
/// [ATTRID]:         AttributeID
/// [ATTRDATA]:       AttributeValue
/// [RETICLEID]:      ReticleID
/// [RETREMOVEINSTR]: ReticleRemoveInstruction
/// [RETPLACEINSTR]:  ReticlePlaceInstruction
#[derive(Debug, PartialEq, Eq)]
pub struct ReticleTransferJobRequest(
    pub (
        JobAction,
        PodID,
        InputPortNumber,
        OutputPortNumber,
        VecList<(AttributeID, AttributeValue)>,
        VecList<
            (ReticleID, ReticleRemoveInstruction, VecList<(AttributeID, AttributeValue)>),
        >,
        VecList<(ReticleID, ReticlePlaceInstruction)>,
    ),
);

impl MessageFormat for ReticleTransferJobRequest {
    open spec fn message(self) -> MessageView {
        MessageView { stream: 3, function: 35, w: true, text: Some(self.0.item()) }
    }

    open spec fn fault(message: MessageView) -> Option<Error> {
        text_fault::<
            (
                JobAction,
                PodID,
                InputPortNumber,
                OutputPortNumber,
                VecList<(AttributeID, AttributeValue)>,
                VecList<
                    (
                        ReticleID,
                        ReticleRemoveInstruction,
                        VecList<(AttributeID, AttributeValue)>,
                    ),
                >,
                VecList<(ReticleID, ReticlePlaceInstruction)>,
            ),
        >(message, 3, 35, true)
    }

    open spec fn reads(message: MessageView, value: Self) -> bool {
        text_reads(message, value.0)
    }

    open spec fn valid(self) -> bool {
        self.0.valid()
    }

    proof fn lemma_round_trip(self) {
        self.0.lemma_round_trip();
    }

    fn into_message(self) -> (r: Message) {
        message_with_text(3, 35, true, self.0)
    }

    fn try_from_message(message: Message) -> (r: Result<Self, Error>) {
        match read_text(message, 3, 35, true) {
            Ok(text) => Ok(ReticleTransferJobRequest(text)),
            Err(e) => Err(e),
        }
    }
}

/// ## S3F36
///
/// **Reticle Transfer Job Acknowledgement**
///
/// - **HOST <-> EQUIPMENT**
/// - **REPLY FORBIDDEN**
///
/// #### Description
///
/// Acknowledges the reticle transfer job request.
///
/// #### Structure
///
/// - List - 2
/// 1. [RPMACK]
/// 2. List - N
/// - List - 2
/// 1. [ERRCODE]
/// 2. [ERRTEXT]
///
/// [RPMACK]:  ReticlePodManagementAcknowledgeCode
/// [ERRCODE]: ErrorCode
/// [ERRTEXT]: ErrorText
#[derive(Debug, PartialEq, Eq)]
pub struct ReticleTransferJobAcknowledge(
    pub (ReticlePodManagementAcknowledgeCode, VecList<(ErrorCode, ErrorText)>),
);

impl MessageFormat for ReticleTransferJobAcknowledge {
    open spec fn message(self) -> MessageView {
        MessageView { stream: 3, function: 36, w: false, text: Some(self.0.item()) }
    }

    open spec fn fault(message: MessageView) -> Option<Error> {
        text_fault::<
            (ReticlePodManagementAcknowledgeCode, VecList<(ErrorCode, ErrorText)>),
        >(message, 3, 36, false)
    }

    open spec fn reads(message: MessageView, value: Self) -> bool {
        text_reads(message, value.0)
    }

    open spec fn valid(self) -> bool {
        self.0.valid()
    }

    proof fn lemma_round_trip(self) {
        self.0.lemma_round_trip();
    }

    fn into_message(self) -> (r: Message) {
        message_with_text(3, 36, false, self.0)
    }

    fn try_from_message(message: Message) -> (r: Result<Self, Error>) {
        match read_text(message, 3, 36, false) {
            Ok(text) => Ok(ReticleTransferJobAcknowledge(text)),
            Err(e) => Err(e),
        }
    }
}

} // verus!
