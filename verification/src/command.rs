//! The command grammar of the planner's replies.
//!
//! A reply is one JSON object. `{"cmd":"noop"}` asks for nothing.
//! `{"cmd":"publish","topic":..,<one data field>}` asks for one envelope,
//! whose payload is given by exactly one of `data_f32`, `data_i64` and
//! `data_str`. Everything else is an error, and nothing is published.
//!
//! A 32-bit float travels through this library as its IEEE-754 bit pattern.

use vstd::prelude::*;
use vstd::string::StrSliceExecFns;
use vstd::utf8::encode_utf8;
use crate::envelope::{Envelope, EnvelopeView, text_eq};

verus! {

/// The fields of a reply that the grammar knows, as they were read from
/// the reply's JSON object. A field that is absent or `null` is `None`.
#[derive(Clone, Debug)]
pub struct Reply {
    pub cmd: String,
    pub topic: Option<String>,
    /// The bit pattern of the number, as a 32-bit float.
    pub data_f32: Option<u32>,
    pub data_i64: Option<i64>,
    pub data_str: Option<String>,
}

/// The mathematical value of a reply.
pub struct ReplyView {
    pub cmd: Seq<char>,
    pub topic: Option<Seq<char>>,
    pub data_f32: Option<u32>,
    pub data_i64: Option<i64>,
    pub data_str: Option<Seq<char>>,
}

/// The view of an optional text.
pub open spec fn text_view(t: Option<String>) -> Option<Seq<char>> {
    match t {
        Some(s) => Some(s@),
        None => None,
    }
}

impl View for Reply {
    type V = ReplyView;

    open spec fn view(&self) -> ReplyView {
        ReplyView {
            cmd: self.cmd@,
            topic: text_view(self.topic),
            data_f32: self.data_f32,
            data_i64: self.data_i64,
            data_str: text_view(self.data_str),
        }
    }
}

/// What a publish command carries.
#[derive(Clone, Debug)]
pub enum Payload {
    /// A 32-bit float, by its bit pattern.
    F32(u32),
    I64(i64),
    Str(String),
}

/// The mathematical value of a payload.
pub enum PayloadView {
    F32(u32),
    I64(i64),
    Str(Seq<char>),
}

impl View for Payload {
    type V = PayloadView;

    open spec fn view(&self) -> PayloadView {
        match self {
            Payload::F32(b) => PayloadView::F32(*b),
            Payload::I64(v) => PayloadView::I64(*v),
            Payload::Str(s) => PayloadView::Str(s@),
        }
    }
}

/// A command of the planner.
#[derive(Clone, Debug)]
pub enum Command {
    Publish { topic: String, payload: Payload },
    Noop,
}

/// The mathematical value of a command.
pub enum CommandView {
    Publish { topic: Seq<char>, payload: PayloadView },
    Noop,
}

impl View for Command {
    type V = CommandView;

    open spec fn view(&self) -> CommandView {
        match self {
            Command::Publish { topic, payload } => CommandView::Publish {
                topic: topic@,
                payload: payload@,
            },
            Command::Noop => CommandView::Noop,
        }
    }
}

/// Why a reply is no command.
#[derive(Clone, Copy, Debug, PartialEq, Eq, Structural)]
pub enum ReplyError {
    /// The reply is not a JSON object with the grammar's fields.
    Malformed,
    /// `cmd` is neither `publish` nor `noop`.
    UnknownCommand,
    /// A publish command without a topic.
    MissingTopic,
    /// A publish command without a data field.
    NoData,
    /// A publish command with more than one data field.
    AmbiguousData,
}

impl ReplyError {
    /// The error in words.
    pub fn message(&self) -> (text: &'static str)
        ensures
            text@ == match self {
                ReplyError::Malformed => "assistant replied with non-JSON content"@,
                ReplyError::UnknownCommand => "unknown command"@,
                ReplyError::MissingTopic => "publish command without a topic"@,
                ReplyError::NoData => "publish command without a data field"@,
                ReplyError::AmbiguousData => "publish command with more than one data field"@,
            },
    {
        match self {
            ReplyError::Malformed => "assistant replied with non-JSON content",
            ReplyError::UnknownCommand => "unknown command",
            ReplyError::MissingTopic => "publish command without a topic",
            ReplyError::NoData => "publish command without a data field",
            ReplyError::AmbiguousData => "publish command with more than one data field",
        }
    }
}

/// How many of the three data fields a reply fills.
pub open spec fn data_fields(r: ReplyView) -> nat {
    (if r.data_f32 is Some { 1nat } else { 0nat }) + (if r.data_i64 is Some { 1nat } else { 0nat })
        + (if r.data_str is Some { 1nat } else { 0nat })
}

/// The payload of a reply that fills exactly one data field.
pub open spec fn single_payload(r: ReplyView) -> PayloadView {
    if r.data_f32 is Some {
        PayloadView::F32(r.data_f32->0)
    } else if r.data_i64 is Some {
        PayloadView::I64(r.data_i64->0)
    } else {
        PayloadView::Str(r.data_str->0)
    }
}

/// The command that a reply stands for, or why it stands for none.
/// `None` is a reply that could not be read as a JSON object.
pub open spec fn interpret_spec(parsed: Option<ReplyView>) -> Result<CommandView, ReplyError> {
    match parsed {
        None => Err(ReplyError::Malformed),
        Some(r) => if r.cmd == "noop"@ {
            Ok(CommandView::Noop)
        } else if r.cmd != "publish"@ {
            Err(ReplyError::UnknownCommand)
        } else if r.topic is None {
            Err(ReplyError::MissingTopic)
        } else if data_fields(r) == 0 {
            Err(ReplyError::NoData)
        } else if data_fields(r) > 1 {
            Err(ReplyError::AmbiguousData)
        } else {
            Ok(CommandView::Publish { topic: r.topic->0, payload: single_payload(r) })
        },
    }
}

/// The view of an outcome of `interpret`.
pub open spec fn outcome_view(o: Result<Command, ReplyError>) -> Result<CommandView, ReplyError> {
    match o {
        Ok(c) => Ok(c@),
        Err(e) => Err(e),
    }
}

/// Reads a reply as a command.
pub fn interpret(parsed: Option<Reply>) -> (outcome: Result<Command, ReplyError>)
    ensures
        outcome_view(outcome) == interpret_spec(
            match parsed {
                Some(r) => Some(r@),
                None => None,
            },
        ),
{
    proof {
        reveal_strlit("noop");
        reveal_strlit("publish");
    }
    let r = match parsed {
        Some(r) => r,
        None => {
            return Err(ReplyError::Malformed);
        },
    };
    if text_eq(r.cmd.as_str(), "noop") {
        return Ok(Command::Noop);
    }
    if !text_eq(r.cmd.as_str(), "publish") {
        return Err(ReplyError::UnknownCommand);
    }
    let topic = match r.topic {
        Some(t) => t,
        None => {
            return Err(ReplyError::MissingTopic);
        },
    };
    match (r.data_f32, r.data_i64, r.data_str) {
        (None, None, None) => Err(ReplyError::NoData),
        (Some(bits), None, None) => Ok(Command::Publish { topic, payload: Payload::F32(bits) }),
        (None, Some(v), None) => Ok(Command::Publish { topic, payload: Payload::I64(v) }),
        (None, None, Some(s)) => Ok(Command::Publish { topic, payload: Payload::Str(s) }),
        _ => Err(ReplyError::AmbiguousData),
    }
}

/// The four bytes of a 32-bit word, lowest first.
pub open spec fn le_bytes_u32(x: u32) -> Seq<u8> {
    seq![x as u8, (x >> 8) as u8, (x >> 16) as u8, (x >> 24) as u8]
}

/// The eight bytes of a 64-bit word, lowest first.
pub open spec fn le_bytes_u64(x: u64) -> Seq<u8> {
    seq![
        x as u8,
        (x >> 8) as u8,
        (x >> 16) as u8,
        (x >> 24) as u8,
        (x >> 32) as u8,
        (x >> 40) as u8,
        (x >> 48) as u8,
        (x >> 56) as u8,
    ]
}

/// The 32-bit word that four bytes spell, lowest first.
pub open spec fn u32_of_le_bytes(b: Seq<u8>) -> u32
    recommends
        b.len() == 4,
{
    (b[0] as u32) | ((b[1] as u32) << 8) | ((b[2] as u32) << 16) | ((b[3] as u32) << 24)
}

/// The four bytes of a 32-bit word, lowest first.
pub fn u32_to_le(x: u32) -> (bytes: Vec<u8>)
    ensures
        bytes@ == le_bytes_u32(x),
{
    let mut bytes: Vec<u8> = Vec::new();
    bytes.push(#[verifier::truncate] (x as u8));
    bytes.push(#[verifier::truncate] ((x >> 8) as u8));
    bytes.push(#[verifier::truncate] ((x >> 16) as u8));
    bytes.push(#[verifier::truncate] ((x >> 24) as u8));
    assert(bytes@ =~= le_bytes_u32(x));
    bytes
}

/// The eight bytes of a 64-bit word, lowest first.
pub fn u64_to_le(x: u64) -> (bytes: Vec<u8>)
    ensures
        bytes@ == le_bytes_u64(x),
{
    let mut bytes: Vec<u8> = Vec::new();
    bytes.push(#[verifier::truncate] (x as u8));
    bytes.push(#[verifier::truncate] ((x >> 8) as u8));
    bytes.push(#[verifier::truncate] ((x >> 16) as u8));
    bytes.push(#[verifier::truncate] ((x >> 24) as u8));
    bytes.push(#[verifier::truncate] ((x >> 32) as u8));
    bytes.push(#[verifier::truncate] ((x >> 40) as u8));
    bytes.push(#[verifier::truncate] ((x >> 48) as u8));
    bytes.push(#[verifier::truncate] ((x >> 56) as u8));
    assert(bytes@ =~= le_bytes_u64(x));
    bytes
}

/// The 32-bit word that four bytes spell, lowest first.
pub fn u32_from_le(b: &Vec<u8>) -> (x: u32)
    requires
        b@.len() == 4,
    ensures
        x == u32_of_le_bytes(b@),
        le_bytes_u32(x) == b@,
{
    let b0 = b[0];
    let b1 = b[1];
    let b2 = b[2];
    let b3 = b[3];
    let x: u32 = (b0 as u32) | ((b1 as u32) << 8) | ((b2 as u32) << 16) | ((b3 as u32) << 24);
    assert(x as u8 == b0 && (x >> 8) as u8 == b1 && (x >> 16) as u8 == b2 && (x >> 24) as u8 == b3)
        by (bit_vector)
        requires
            x == (b0 as u32) | ((b1 as u32) << 8) | ((b2 as u32) << 16) | ((b3 as u32) << 24),
    ;
    assert(le_bytes_u32(x) =~= b@);
    x
}

/// The bytes that a payload puts into an envelope: a float's four bytes
/// and an integer's eight, lowest first, and a text's UTF-8 encoding.
pub open spec fn payload_bytes(p: PayloadView) -> Seq<u8> {
    match p {
        PayloadView::F32(bits) => le_bytes_u32(bits),
        PayloadView::I64(v) => le_bytes_u64(v as u64),
        PayloadView::Str(s) => encode_utf8(s),
    }
}

/// The envelope that a command asks for, if it asks for one.
pub open spec fn command_envelope(c: CommandView) -> Option<EnvelopeView> {
    match c {
        CommandView::Publish { topic, payload } => Some(
            EnvelopeView { topic, data: payload_bytes(payload) },
        ),
        CommandView::Noop => None,
    }
}

impl Payload {
    /// The payload as the bytes of an envelope. Nothing is scaled or
    /// clamped: that is the receiver's part.
    pub fn into_bytes(self) -> (bytes: Vec<u8>)
        ensures
            bytes@ == payload_bytes(self@),
    {
        match self {
            Payload::F32(bits) => u32_to_le(bits),
            Payload::I64(v) => u64_to_le(v as u64),
            Payload::Str(s) => s.as_str().as_bytes_vec(),
        }
    }
}

impl Command {
    /// The envelope that the command asks for, if it asks for one.
    pub fn into_envelope(self) -> (env: Option<Envelope>)
        ensures
            match env {
                Some(e) => Some(e@),
                None => None,
            } == command_envelope(self@),
    {
        match self {
            Command::Publish { topic, payload } => {
                let data = payload.into_bytes();
                Some(Envelope { topic, data })
            },
            Command::Noop => None,
        }
    }
}

} // verus!
