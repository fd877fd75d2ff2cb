//! Plain-value forms of the protocol messages that a connection consumes
//! and produces, each with its mathematical view.
//!
//! Framing and byte encoding are the codec's business. A connection only
//! decides which messages go out, in which order, and with which contents;
//! these types hold exactly that.

use crate::session::Parameters;
use vstd::prelude::*;

verus! {

/// Whether a value travels as text or in binary.
#[derive(Clone, Copy, Debug, PartialEq, Eq, Structural)]
pub enum Format {
    Text,
    Binary,
}

#[derive(Clone, Copy, Debug, PartialEq, Eq, Structural)]
pub enum ErrorSeverity {
    Error,
    Fatal,
}

#[derive(Clone, Copy, Debug, PartialEq, Eq, Structural)]
pub enum ErrorCode {
    FeatureNotSupported,
    InvalidAuthorizationSpecification,
    InvalidPassword,
    InvalidSqlStatement,
    InvalidCursorName,
    InternalError,
}

/// The server never opens a transaction block, so it only ever reports
/// `Idle`.
#[derive(Clone, Copy, Debug, PartialEq, Eq, Structural)]
pub enum TransactionStatus {
    Idle,
}

#[derive(Clone, Copy, Debug, PartialEq, Eq, Structural)]
pub enum DescribeType {
    Statement,
    Portal,
}

#[derive(Clone, Copy, Debug, PartialEq, Eq, Structural)]
pub enum CloseType {
    Statement,
    Portal,
}

#[derive(Clone, Copy, Debug, PartialEq, Eq, Structural)]
pub struct ProtocolVersion {
    pub major: u16,
    pub minor: u16,
}

/// One column of a row description: its name and the OID of its type.
#[derive(Clone, Debug, PartialEq, Eq)]
pub struct RowDescriptionField {
    pub name: String,
    pub type_oid: u32,
}

pub struct FieldView {
    pub name: Seq<char>,
    pub type_oid: u32,
}

impl View for RowDescriptionField {
    type V = FieldView;

    open spec fn view(&self) -> FieldView {
        FieldView { name: self.name@, type_oid: self.type_oid }
    }
}

impl RowDescriptionField {
    pub fn new(name: String, type_oid: u32) -> (field: Self)
        ensures
            field@ == (FieldView { name: name@, type_oid }),
    {
        RowDescriptionField { name, type_oid }
    }

    /// A second field with the same name and type.
    pub fn duplicate(&self) -> (copy: Self)
        ensures
            copy@ == self@,
    {
        RowDescriptionField { name: self.name.clone(), type_oid: self.type_oid }
    }
}

/// The views of a run of fields, in order.
pub open spec fn field_views(fields: Seq<RowDescriptionField>) -> Seq<FieldView> {
    fields.map_values(|field: RowDescriptionField| field@)
}

/// The shape of the rows that a statement or portal returns.
#[derive(Clone, Debug, PartialEq, Eq)]
pub struct RowDescription {
    pub fields: Vec<RowDescriptionField>,
}

impl View for RowDescription {
    type V = Seq<FieldView>;

    open spec fn view(&self) -> Seq<FieldView> {
        field_views(self.fields@)
    }
}

impl RowDescription {
    pub fn new(fields: Vec<RowDescriptionField>) -> (description: Self)
        ensures
            description@ == field_views(fields@),
    {
        RowDescription { fields }
    }

    pub fn len(&self) -> (n: usize)
        ensures
            n == self@.len(),
    {
        self.fields.len()
    }

    /// A second description with the same fields in the same order.
    pub fn duplicate(&self) -> (copy: Self)
        ensures
            copy@ == self@,
    {
        let mut fields: Vec<RowDescriptionField> = Vec::new();
        let mut i: usize = 0;
        while i < self.fields.len()
            invariant
                i <= self.fields.len(),
                field_views(fields@) == field_views(self.fields@).take(i as int),
            decreases self.fields.len() - i,
        {
            let ghost before = fields@;
            fields.push(self.fields[i].duplicate());
            assert(field_views(fields@) =~= field_views(before).push(self.fields@[i as int]@));
            assert(field_views(self.fields@).take(i + 1) =~= field_views(self.fields@).take(
                i as int,
            ).push(self.fields@[i as int]@));
            i += 1;
        }
        assert(field_views(self.fields@).take(i as int) =~= field_views(self.fields@));
        RowDescription { fields }
    }
}

/// The type OIDs of a statement's parameters, in placeholder order.
#[derive(Clone, Debug, PartialEq, Eq)]
pub struct ParameterDescription {
    pub parameters: Vec<u32>,
}

impl View for ParameterDescription {
    type V = Seq<u32>;

    open spec fn view(&self) -> Seq<u32> {
        self.parameters@
    }
}

impl ParameterDescription {
    pub fn new(parameters: Vec<u32>) -> (description: Self)
        ensures
            description@ == parameters@,
    {
        ParameterDescription { parameters }
    }

    /// A second description with the same OIDs in the same order.
    pub fn duplicate(&self) -> (copy: Self)
        ensures
            copy@ == self@,
    {
        let mut parameters: Vec<u32> = Vec::new();
        let mut i: usize = 0;
        while i < self.parameters.len()
            invariant
                i <= self.parameters.len(),
                parameters@ == self.parameters@.take(i as int),
            decreases self.parameters.len() - i,
        {
            parameters.push(self.parameters[i]);
            assert(parameters@ =~= self.parameters@.take(i + 1));
            i += 1;
        }
        assert(self.parameters@.take(i as int) =~= self.parameters@);
        ParameterDescription { parameters }
    }
}

/// The tag that closes a command.
#[derive(Clone, Debug, PartialEq, Eq)]
pub enum CommandComplete {
    Select(u32),
    Plain(String),
}

pub enum CommandCompleteView {
    Select(u32),
    Plain(Seq<char>),
}

impl View for CommandComplete {
    type V = CommandCompleteView;

    open spec fn view(&self) -> CommandCompleteView {
        match self {
            CommandComplete::Select(rows) => CommandCompleteView::Select(*rows),
            CommandComplete::Plain(tag) => CommandCompleteView::Plain(tag@),
        }
    }
}

/// How one run of a portal ended: all rows sent, or stopped at the row
/// limit with more to come.
#[derive(Clone, Debug, PartialEq, Eq)]
pub enum PortalCompletion {
    Complete(CommandComplete),
    Suspended,
}

pub enum PortalCompletionView {
    Complete(CommandCompleteView),
    Suspended,
}

impl View for PortalCompletion {
    type V = PortalCompletionView;

    open spec fn view(&self) -> PortalCompletionView {
        match self {
            PortalCompletion::Complete(tag) => PortalCompletionView::Complete(tag@),
            PortalCompletion::Suspended => PortalCompletionView::Suspended,
        }
    }
}

/// Everything the server puts on the wire.
#[derive(Clone, Debug, PartialEq, Eq)]
pub enum BackendMessage {
    /// The single byte that declines an SSL request.
    SSLResponse,
    ErrorResponse { severity: ErrorSeverity, code: ErrorCode, message: String },
    /// Asks the client for its password in clear text.
    AuthenticationCleartextPassword,
    /// Tells the client that it is authenticated.
    AuthenticationOk,
    ParameterStatus { name: String, value: String },
    ReadyForQuery(TransactionStatus),
    ParseComplete,
    BindComplete,
    CloseComplete,
    ParameterDescription(ParameterDescription),
    RowDescription(RowDescription),
    NoData,
    EmptyQueryResponse,
    CommandComplete(CommandComplete),
    PortalSuspended,
    /// Row data that the row writer has already framed; it goes out as it
    /// is, with no header of its own.
    DataRows(Vec<u8>),
}

pub enum MessageView {
    SSLResponse,
    ErrorResponse { severity: ErrorSeverity, code: ErrorCode, message: Seq<char> },
    AuthenticationCleartextPassword,
    AuthenticationOk,
    ParameterStatus { name: Seq<char>, value: Seq<char> },
    ReadyForQuery(TransactionStatus),
    ParseComplete,
    BindComplete,
    CloseComplete,
    ParameterDescription(Seq<u32>),
    RowDescription(Seq<FieldView>),
    NoData,
    EmptyQueryResponse,
    CommandComplete(CommandCompleteView),
    PortalSuspended,
    DataRows(Seq<u8>),
}

impl View for BackendMessage {
    type V = MessageView;

    open spec fn view(&self) -> MessageView {
        match self {
            BackendMessage::SSLResponse => MessageView::SSLResponse,
            BackendMessage::ErrorResponse { severity, code, message } => MessageView::ErrorResponse {
                severity: *severity,
                code: *code,
                message: message@,
            },
            BackendMessage::AuthenticationCleartextPassword => {
                MessageView::AuthenticationCleartextPassword
            },
            BackendMessage::AuthenticationOk => MessageView::AuthenticationOk,
            BackendMessage::ParameterStatus { name, value } => MessageView::ParameterStatus {
                name: name@,
                value: value@,
            },
            BackendMessage::ReadyForQuery(status) => MessageView::ReadyForQuery(*status),
            BackendMessage::ParseComplete => MessageView::ParseComplete,
            BackendMessage::BindComplete => MessageView::BindComplete,
            BackendMessage::CloseComplete => MessageView::CloseComplete,
            BackendMessage::ParameterDescription(description) => MessageView::ParameterDescription(
                description@,
            ),
            BackendMessage::RowDescription(description) => MessageView::RowDescription(
                description@,
            ),
            BackendMessage::NoData => MessageView::NoData,
            BackendMessage::EmptyQueryResponse => MessageView::EmptyQueryResponse,
            BackendMessage::CommandComplete(tag) => MessageView::CommandComplete(tag@),
            BackendMessage::PortalSuspended => MessageView::PortalSuspended,
            BackendMessage::DataRows(bytes) => MessageView::DataRows(bytes@),
        }
    }
}

/// The views of a run of messages, in order.
pub open spec fn message_views(messages: Seq<BackendMessage>) -> Seq<MessageView> {
    messages.map_values(|message: BackendMessage| message@)
}

impl PortalCompletion {
    /// The message that reports this completion to the client.
    pub fn into_message(self) -> (message: BackendMessage)
        ensures
            message@ == completion_message(self@),
    {
        match self {
            PortalCompletion::Complete(tag) => BackendMessage::CommandComplete(tag),
            PortalCompletion::Suspended => BackendMessage::PortalSuspended,
        }
    }
}

pub open spec fn completion_message(completion: PortalCompletionView) -> MessageView {
    match completion {
        PortalCompletionView::Complete(tag) => MessageView::CommandComplete(tag),
        PortalCompletionView::Suspended => MessageView::PortalSuspended,
    }
}

/// The first packet of a connection: the protocol version that the client
/// speaks and its named parameters.
pub struct StartupMessage {
    pub protocol_version: ProtocolVersion,
    pub parameters: Parameters,
}

#[derive(Clone, Debug, PartialEq, Eq)]
pub struct PasswordMessage {
    pub password: String,
}

#[derive(Clone, Debug, PartialEq, Eq)]
pub struct Query {
    pub query: String,
}

/// Asks for a prepared statement `name` (empty: the unnamed one) made from
/// `query`.
#[derive(Clone, Debug, PartialEq, Eq)]
pub struct Parse {
    pub name: String,
    pub query: String,
    pub param_types: Vec<u32>,
}

/// Asks for a portal `portal` made from the prepared statement `statement`.
#[derive(Clone, Debug, PartialEq, Eq)]
pub struct Bind {
    pub portal: String,
    pub statement: String,
    pub parameter_formats: Vec<Format>,
    pub parameter_values: Vec<Option<Vec<u8>>>,
    pub result_formats: Vec<Format>,
}

#[derive(Clone, Debug, PartialEq, Eq)]
pub struct Describe {
    pub typ: DescribeType,
    pub name: String,
}

/// Asks for rows of a portal; `max_rows` of zero means no limit.
#[derive(Clone, Debug, PartialEq, Eq)]
pub struct Execute {
    pub portal: String,
    pub max_rows: i32,
}

#[derive(Clone, Debug, PartialEq, Eq)]
pub struct Close {
    pub typ: CloseType,
    pub name: String,
}

/// Everything a client sends once the startup packet is through.
#[derive(Clone, Debug, PartialEq, Eq)]
pub enum FrontendMessage {
    PasswordMessage(PasswordMessage),
    Query(Query),
    Parse(Parse),
    Bind(Bind),
    Describe(Describe),
    Execute(Execute),
    Close(Close),
    Terminate,
    Sync,
}

} // verus!
