//! CAN frames as they travel over a serial line (SLCAN), and the command
//! frames of the motor.
//!
//! A frame is one line of text: a letter for its kind (`t` and `T` for
//! data frames with a standard and an extended id, `r` and `R` for the
//! remote frames of the two), the id in three or eight hex digits, one
//! character for the number of data bytes, and for a data frame two hex
//! digits for each byte.

use vstd::prelude::*;
use vstd::slice::slice_subrange;
use vstd::string::StringExecFns;
use crate::command::{le_bytes_u32, u32_to_le};

verus! {

/// The bit rates of the bus.
#[derive(Clone, Copy, Debug, PartialEq, Eq, Structural)]
pub enum Bitrate {
    B10k,
    B20k,
    B50k,
    B100k,
    B125k,
    B250k,
    B500k,
    B800k,
    B1M,
}

impl Bitrate {
    /// The command that sets the adapter to the bit rate.
    pub open spec fn slcan_code(self) -> Seq<char> {
        match self {
            Bitrate::B10k => "S0"@,
            Bitrate::B20k => "S1"@,
            Bitrate::B50k => "S2"@,
            Bitrate::B100k => "S3"@,
            Bitrate::B125k => "S4"@,
            Bitrate::B250k => "S5"@,
            Bitrate::B500k => "S6"@,
            Bitrate::B800k => "S7"@,
            Bitrate::B1M => "S8"@,
        }
    }

    /// The command that sets the adapter to the bit rate.
    pub fn to_slcan_code(self) -> (code: &'static str)
        ensures
            code@ == self.slcan_code(),
    {
        match self {
            Bitrate::B10k => "S0",
            Bitrate::B20k => "S1",
            Bitrate::B50k => "S2",
            Bitrate::B100k => "S3",
            Bitrate::B125k => "S4",
            Bitrate::B250k => "S5",
            Bitrate::B500k => "S6",
            Bitrate::B800k => "S7",
            Bitrate::B1M => "S8",
        }
    }
}

/// A CAN frame.
#[derive(Clone, Debug)]
pub struct CanFrame {
    pub id: u32,
    pub data: Vec<u8>,
    pub extended: bool,
    pub rtr: bool,
}

/// The mathematical value of a frame.
pub struct CanFrameView {
    pub id: u32,
    pub data: Seq<u8>,
    pub extended: bool,
    pub rtr: bool,
}

impl View for CanFrame {
    type V = CanFrameView;

    open spec fn view(&self) -> CanFrameView {
        CanFrameView { id: self.id, data: self.data@, extended: self.extended, rtr: self.rtr }
    }
}

/// Why a line is no frame.
#[derive(Clone, Copy, Debug, PartialEq, Eq, Structural)]
pub enum ParseError {
    /// The line is empty.
    Empty,
    /// The line begins with a letter that names no kind of frame.
    UnknownFrameType(u8),
    /// The line ends before the id does.
    ShortId,
    /// The id is no hex number.
    BadId,
    /// The line ends after the id.
    MissingDlc,
    /// The character for the number of data bytes comes before `0`.
    BadDlc,
    /// The line ends before the data do.
    ShortData,
    /// The data are no hex digits.
    BadData,
}

/// The value of a hex digit, of either case.
pub open spec fn hex_value(c: u8) -> Option<u8> {
    if 0x30 <= c <= 0x39 {
        Some((c - 0x30) as u8)
    } else if 0x41 <= c <= 0x46 {
        Some((c - 0x41 + 10) as u8)
    } else if 0x61 <= c <= 0x66 {
        Some((c - 0x61 + 10) as u8)
    } else {
        None
    }
}

/// Whether every byte is a hex digit.
pub open spec fn all_hex(s: Seq<u8>) -> bool {
    forall|i: int| 0 <= i < s.len() ==> (#[trigger] hex_value(s[i])) is Some
}

/// The bytes that an even number of hex digits spell, two digits a byte,
/// the high digit first.
pub open spec fn hex_decode_spec(s: Seq<u8>) -> Seq<u8> {
    Seq::new(
        s.len() / 2,
        |i: int| (hex_value(s[2 * i])->0 * 16 + hex_value(s[2 * i + 1])->0) as u8,
    )
}

/// The number that hex digits spell, the highest digit first.
pub open spec fn hex_number(s: Seq<u8>) -> nat
    decreases s.len(),
{
    if s.len() == 0 {
        0
    } else {
        hex_number(s.drop_last()) * 16 + hex_value(s.last())->0 as nat
    }
}

/// The id that an id field spells: its hex digits, which a `+` may precede.
pub open spec fn id_spec(field: Seq<u8>) -> Option<u32> {
    let digits = if field.len() > 0 && field[0] == 0x2b {
        field.skip(1)
    } else {
        field
    };
    if 0 < digits.len() <= 8 && all_hex(digits) {
        Some(hex_number(digits) as u32)
    } else {
        None
    }
}

/// `hex::FromHex::from_hex` for `Vec<u8>`: the bytes that the digits
/// spell, where the text has an even length and holds hex digits alone,
/// and nothing where it does not.
#[verifier::external_body]
fn decode_hex(text: &[u8]) -> (bytes: Option<Vec<u8>>)
    ensures
        bytes is Some == (text@.len() % 2 == 0 && all_hex(text@)),
        bytes is Some ==> bytes->0@ == hex_decode_spec(text@),
{
    hex::FromHex::from_hex(text).ok()
}

fn hex_digit(c: u8) -> (v: Option<u8>)
    ensures
        v == hex_value(c),
{
    if 0x30 <= c && c <= 0x39 {
        Some(c - 0x30)
    } else if 0x41 <= c && c <= 0x46 {
        Some(c - 0x41 + 10)
    } else if 0x61 <= c && c <= 0x66 {
        Some(c - 0x61 + 10)
    } else {
        None
    }
}

/// Sixteen to the power of `n`.
pub open spec fn pow16(n: nat) -> nat
    decreases n,
{
    if n == 0 {
        1
    } else {
        16 * pow16((n - 1) as nat)
    }
}

fn parse_id(field: &[u8]) -> (id: Option<u32>)
    requires
        field@.len() <= 8,
    ensures
        id == id_spec(field@),
{
    let start: usize = if field.len() > 0 && field[0] == 0x2b { 1 } else { 0 };
    let ghost digits = if start == 1 { field@.skip(1) } else { field@ };
    if start == field.len() {
        return None;
    }
    let mut acc: u64 = 0;
    let mut i: usize = start;
    while i < field.len()
        invariant
            start <= i <= field@.len() <= 8,
            digits.len() == field@.len() - start,
            digits == (if field@.len() > 0 && field@[0] == 0x2b {
                field@.skip(1)
            } else {
                field@
            }),
            forall|k: int| 0 <= k < digits.len() ==> digits[k] == field@[k + start],
            forall|k: int| 0 <= k < i - start ==> (#[trigger] hex_value(digits[k])) is Some,
            acc == hex_number(digits.take(i - start)),
            acc < pow16((i - start) as nat),
            pow16((i - start) as nat) <= 0x1_0000_0000,
        decreases field@.len() - i,
    {
        let ghost j = i - start;
        match hex_digit(field[i]) {
            None => {
                assert(digits[j] == field@[i as int]);
                assert(hex_value(digits[j]) is None);
                assert(!all_hex(digits));
                return None;
            },
            Some(v) => {
                assert(digits.take(j + 1).drop_last() =~= digits.take(j));
                assert(digits.take(j + 1).last() == digits[j]);
                assert(pow16((j + 1) as nat) == 16 * pow16(j as nat));
                assert(pow16((j + 1) as nat) <= 0x1_0000_0000) by {
                    reveal_with_fuel(pow16, 10);
                }
                acc = acc * 16 + v as u64;
            },
        }
        i = i + 1;
    }
    assert(digits.take(digits.len() as int) =~= digits);
    assert(all_hex(digits));
    Some(acc as u32)
}

/// Whether a letter names a kind of frame.
pub open spec fn is_kind(c: u8) -> bool {
    c == 0x74 || c == 0x54 || c == 0x72 || c == 0x52
}

/// The frame that a line spells, or why it spells none.
pub open spec fn parse_line_spec(line: Seq<u8>) -> Result<CanFrameView, ParseError> {
    if line.len() == 0 {
        Err(ParseError::Empty)
    } else if !is_kind(line[0]) {
        Err(ParseError::UnknownFrameType(line[0]))
    } else {
        let extended = line[0] == 0x54 || line[0] == 0x52;
        let rtr = line[0] == 0x72 || line[0] == 0x52;
        let n: int = if extended { 8 } else { 3 };
        if line.len() < 1 + n {
            Err(ParseError::ShortId)
        } else if id_spec(line.subrange(1, 1 + n)) is None {
            Err(ParseError::BadId)
        } else if line.len() <= 1 + n {
            Err(ParseError::MissingDlc)
        } else if line[1 + n] < 0x30 {
            Err(ParseError::BadDlc)
        } else {
            let id = id_spec(line.subrange(1, 1 + n))->0;
            let dlc = line[1 + n] - 0x30;
            if rtr {
                Ok(CanFrameView { id, data: Seq::empty(), extended, rtr })
            } else if line.len() < 2 + n + 2 * dlc {
                Err(ParseError::ShortData)
            } else if !all_hex(line.subrange(2 + n, 2 + n + 2 * dlc)) {
                Err(ParseError::BadData)
            } else {
                Ok(
                    CanFrameView {
                        id,
                        data: hex_decode_spec(line.subrange(2 + n, 2 + n + 2 * dlc)),
                        extended,
                        rtr,
                    },
                )
            }
        }
    }
}

/// The view of what parsing a line gave.
pub open spec fn parsed_view(r: Result<CanFrame, ParseError>) -> Result<CanFrameView, ParseError> {
    match r {
        Ok(f) => Ok(f@),
        Err(e) => Err(e),
    }
}

/// Reads a line, without its line end, as a frame.
pub fn parse_line(line: &[u8]) -> (frame: Result<CanFrame, ParseError>)
    ensures
        parsed_view(frame) == parse_line_spec(line@),
{
    if line.len() == 0 {
        return Err(ParseError::Empty);
    }
    let kind = line[0];
    let (extended, rtr) = if kind == 0x74 {
        (false, false)
    } else if kind == 0x54 {
        (true, false)
    } else if kind == 0x72 {
        (false, true)
    } else if kind == 0x52 {
        (true, true)
    } else {
        return Err(ParseError::UnknownFrameType(kind));
    };
    let n: usize = if extended { 8 } else { 3 };
    if line.len() < 1 + n {
        return Err(ParseError::ShortId);
    }
    let id = match parse_id(slice_subrange(line, 1, 1 + n)) {
        Some(id) => id,
        None => {
            return Err(ParseError::BadId);
        },
    };
    if line.len() <= 1 + n {
        return Err(ParseError::MissingDlc);
    }
    if line[1 + n] < 0x30 {
        return Err(ParseError::BadDlc);
    }
    let dlc: usize = (line[1 + n] - 0x30) as usize;
    if rtr {
        return Ok(CanFrame { id, data: Vec::new(), extended, rtr });
    }
    if line.len() - (2 + n) < 2 * dlc {
        return Err(ParseError::ShortData);
    }
    match decode_hex(slice_subrange(line, 2 + n, 2 + n + 2 * dlc)) {
        Some(data) => Ok(CanFrame { id, data, extended, rtr }),
        None => Err(ParseError::BadData),
    }
}

/// The hex digit, in upper case, of a number below 16.
pub open spec fn hex_upper(n: u8) -> u8 {
    if n < 10 {
        (0x30 + n) as u8
    } else {
        (0x41 + (n - 10)) as u8
    }
}

/// The lowest `width` hex digits of an id, the highest first.
pub open spec fn id_digits(id: u32, width: nat) -> Seq<u8> {
    Seq::new(width, |i: int| hex_upper(((id >> ((4 * (width - 1 - i)) as u32)) & 0xf) as u8))
}

/// Two hex digits for each byte, the high digit first.
pub open spec fn data_digits(data: Seq<u8>) -> Seq<u8> {
    Seq::new(
        2 * data.len(),
        |i: int|
            if i % 2 == 0 {
                hex_upper(data[i / 2] >> 4)
            } else {
                hex_upper(data[i / 2] & 0xf)
            },
    )
}

/// The letter that names a frame's kind.
pub open spec fn kind_letter(extended: bool, rtr: bool) -> u8 {
    if rtr {
        if extended { 0x52u8 } else { 0x72u8 }
    } else {
        if extended { 0x54u8 } else { 0x74u8 }
    }
}

/// The line that spells a frame, without its line end. An id is cut to
/// the 29 or 11 bits that its kind has room for, and data to eight bytes;
/// a remote frame spells no data.
pub open spec fn encode_spec(f: CanFrameView) -> Seq<u8> {
    let dlc: int = if f.data.len() < 8 { f.data.len() as int } else { 8 };
    seq![kind_letter(f.extended, f.rtr)] + (if f.extended {
        id_digits(f.id & 0x1FFF_FFFF, 8)
    } else {
        id_digits(f.id & 0x7FF, 3)
    }) + seq![(0x30 + dlc) as u8] + (if f.rtr {
        Seq::empty()
    } else {
        data_digits(f.data.take(dlc))
    })
}

fn upper_digit(n: u8) -> (c: u8)
    requires
        n < 16,
    ensures
        c == hex_upper(n),
{
    if n < 10 {
        0x30 + n
    } else {
        0x41 + (n - 10)
    }
}

/// Spells a frame as a line, without its line end.
pub fn encode_frame(frame: &CanFrame) -> (line: Vec<u8>)
    ensures
        line@ == encode_spec(frame@),
{
    let mut line: Vec<u8> = Vec::new();
    let letter: u8 = if frame.rtr {
        if frame.extended { 0x52 } else { 0x72 }
    } else {
        if frame.extended { 0x54 } else { 0x74 }
    };
    line.push(letter);
    let width: usize = if frame.extended { 8 } else { 3 };
    let id: u32 = if frame.extended { frame.id & 0x1FFF_FFFF } else { frame.id & 0x7FF };
    let mut i: usize = 0;
    while i < width
        invariant
            i <= width <= 8,
            line@ =~= seq![letter] + id_digits(id, width as nat).take(i as int),
        decreases width - i,
    {
        let shift: u32 = (4 * (width - 1 - i)) as u32;
        let nibble: u32 = (id >> shift) & 0xf;
        assert(nibble < 16) by (bit_vector)
            requires
                nibble == (id >> shift) & 0xf,
        ;
        line.push(upper_digit(nibble as u8));
        assert(id_digits(id, width as nat).take(i + 1) =~= id_digits(id, width as nat).take(
            i as int,
        ).push(id_digits(id, width as nat)[i as int]));
        i = i + 1;
    }
    assert(id_digits(id, width as nat).take(width as int) =~= id_digits(id, width as nat));
    let dlc: usize = if frame.data.len() < 8 { frame.data.len() } else { 8 };
    line.push(0x30 + dlc as u8);
    let ghost head = line@;
    if !frame.rtr {
        let ghost shown = frame.data@.take(dlc as int);
        let mut k: usize = 0;
        while k < dlc
            invariant
                k <= dlc <= frame.data@.len(),
                shown == frame.data@.take(dlc as int),
                line@ =~= head + data_digits(shown).take(2 * k),
            decreases dlc - k,
        {
            let b = frame.data[k];
            let hi: u8 = b >> 4;
            let lo: u8 = b & 0xf;
            assert(hi < 16 && lo < 16) by (bit_vector)
                requires
                    hi == b >> 4,
                    lo == b & 0xf,
            ;
            line.push(upper_digit(hi));
            line.push(upper_digit(lo));
            assert(data_digits(shown).take(2 * k + 2) =~= data_digits(shown).take(2 * k).push(
                data_digits(shown)[2 * k],
            ).push(data_digits(shown)[2 * k + 1]));
            k = k + 1;
        }
        assert(data_digits(shown).take(2 * dlc) =~= data_digits(shown));
    }
    line
}

/// A hex digit spells the number that it was made from.
pub proof fn lemma_hex_upper_value(n: u8)
    requires
        n < 16,
    ensures
        hex_value(hex_upper(n)) == Some(n),
        hex_upper(n) != 0x2b,
{
}

/// The digits of an id spell the id.
pub proof fn lemma_id_digits_number(id: u32, width: nat)
    requires
        1 <= width <= 8,
        width < 8 ==> id < pow16(width),
    ensures
        all_hex(id_digits(id, width)),
        hex_number(id_digits(id, width)) == id,
        id_spec(id_digits(id, width)) == Some(id),
{
    let d = id_digits(id, width);
    assert forall|i: int| 0 <= i < d.len() implies (#[trigger] hex_value(d[i])) is Some && d[i]
        != 0x2b by {
        let shift = (4 * (width - 1 - i)) as u32;
        let nib = (id >> shift) & 0xf;
        assert(nib < 16) by (bit_vector)
            requires
                nib == (id >> shift) & 0xf,
        ;
        lemma_hex_upper_value(nib as u8);
    }
    lemma_digits_prefix(id, width, width);
    assert(d.take(width as int) =~= d);
    assert((id >> 0u32) == id) by (bit_vector);
    assert(hex_number(d) == id);
    assert(hex_value(d[0]) is Some && d[0] != 0x2b);
    assert(all_hex(d));
}

/// The first `k` digits of an id spell what is left of the id when its
/// other digits are shifted out.
proof fn lemma_digits_prefix(id: u32, width: nat, k: nat)
    requires
        1 <= width <= 8,
        k <= width,
        width < 8 ==> id < pow16(width),
    ensures
        k >= 1 ==> hex_number(id_digits(id, width).take(k as int)) == (id >> ((4 * (width
            - k)) as u32)),
        k == 0 ==> hex_number(id_digits(id, width).take(k as int)) == 0,
    decreases k,
{
    let d = id_digits(id, width);
    if k > 0 {
        lemma_digits_prefix(id, width, (k - 1) as nat);
        let shift = (4 * (width - k)) as u32;
        let nib = (id >> shift) & 0xf;
        assert(nib < 16) by (bit_vector)
            requires
                nib == (id >> shift) & 0xf,
        ;
        lemma_hex_upper_value(nib as u8);
        assert(d.take(k as int).drop_last() =~= d.take(k - 1));
        assert(d.take(k as int).last() == d[k - 1]);
        assert(d[k - 1] == hex_upper(nib as u8));
        if k == 1 {
            reveal_with_fuel(pow16, 10);
            assert(shift == 28 || id < pow16(width));
            assert((id >> shift) == (id >> shift) & 0xf) by (bit_vector)
                requires
                    shift == 28 || (shift == 24 && id < 0x1000_0000) || (shift == 20 && id
                        < 0x100_0000) || (shift == 16 && id < 0x10_0000) || (shift == 12 && id
                        < 0x1_0000) || (shift == 8 && id < 0x1000) || (shift == 4 && id < 0x100)
                        || (shift == 0 && id < 0x10),
            ;
        } else {
            let up = (4 * (width - (k - 1))) as u32;
            assert(up == shift + 4);
            assert((id >> shift) == (id >> up) * 16 + ((id >> shift) & 0xf)) by (bit_vector)
                requires
                    up == shift + 4,
                    shift <= 24,
            ;
        }
    }
}

/// Two hex digits spell the byte that they were made from.
pub proof fn lemma_data_digits_decode(data: Seq<u8>)
    ensures
        data_digits(data).len() == 2 * data.len(),
        all_hex(data_digits(data)),
        hex_decode_spec(data_digits(data)) == data,
{
    let d = data_digits(data);
    assert forall|i: int| 0 <= i < d.len() implies (#[trigger] hex_value(d[i])) is Some by {
        let b = data[i / 2];
        assert(b >> 4 < 16 && b & 0xf < 16) by (bit_vector);
        lemma_hex_upper_value(b >> 4);
        lemma_hex_upper_value(b & 0xf);
    }
    assert forall|i: int| 0 <= i < data.len() implies hex_decode_spec(d)[i] == data[i] by {
        let b = data[i];
        assert(b >> 4 < 16 && b & 0xf < 16 && (b >> 4) * 16 + (b & 0xf) == b) by (bit_vector);
        lemma_hex_upper_value(b >> 4);
        lemma_hex_upper_value(b & 0xf);
        assert(d[2 * i] == hex_upper(data[(2 * i) / 2] >> 4));
        assert(d[2 * i + 1] == hex_upper(data[(2 * i + 1) / 2] & 0xf));
    }
    assert(hex_decode_spec(d) =~= data);
}

/// What is left of a frame on the line: its id cut to the bits that its
/// kind has room for, and its data cut to eight bytes, or to none for a
/// remote frame.
pub open spec fn as_sent(f: CanFrameView) -> CanFrameView {
    CanFrameView {
        id: if f.extended { f.id & 0x1FFF_FFFF } else { f.id & 0x7FF },
        data: if f.rtr {
            Seq::empty()
        } else if f.data.len() < 8 {
            f.data
        } else {
            f.data.take(8)
        },
        extended: f.extended,
        rtr: f.rtr,
    }
}

/// Round trip. The line that spells a frame is read back as that frame,
/// as far as the line has room for it.
#[verifier::rlimit(60)]
pub proof fn lemma_encode_then_parse(f: CanFrameView)
    ensures
        parse_line_spec(encode_spec(f)) == Ok::<CanFrameView, ParseError>(as_sent(f)),
{
    let line = encode_spec(f);
    let n: int = if f.extended { 8 } else { 3 };
    let id: u32 = if f.extended { f.id & 0x1FFF_FFFF } else { f.id & 0x7FF };
    let dlc: int = if f.data.len() < 8 { f.data.len() as int } else { 8 };
    let shown = f.data.take(dlc);
    let id_field = id_digits(id, n as nat);
    let data_field: Seq<u8> = if f.rtr { Seq::empty() } else { data_digits(shown) };
    assert(id < 0x800 || f.extended) by {
        let raw = f.id;
        assert(raw & 0x7FF < 0x800) by (bit_vector);
    }
    assert(pow16(3) == 0x1000) by {
        reveal_with_fuel(pow16, 5);
    }
    lemma_id_digits_number(id, n as nat);
    lemma_data_digits_decode(shown);
    assert(line.len() == 2 + n + data_field.len());
    assert(line[0] == kind_letter(f.extended, f.rtr));
    assert(line.subrange(1, 1 + n) =~= id_field);
    assert(line[1 + n] == (0x30 + dlc) as u8);
    if !f.rtr {
        assert(line.subrange(2 + n, 2 + n + 2 * dlc) =~= data_field);
        assert(shown =~= as_sent(f).data);
    }
}

/// What the adapter has answered to a command so far.
#[derive(Clone, Copy, Debug, PartialEq, Eq, Structural)]
pub enum Response {
    /// A carriage return came first: the command was accepted.
    Ack,
    /// A bell came first: the command was refused.
    Nak,
    /// Neither has come yet.
    Pending,
}

/// The byte that accepts a command: a carriage return.
pub const ACK_BYTE: u8 = 0x0d;

/// The byte that refuses a command: a bell.
pub const NAK_BYTE: u8 = 0x07;

/// What the bytes that came after a command say: the first carriage
/// return or bell among them decides, and every other byte is passed over
/// as echo or noise.
pub open spec fn response_spec(seen: Seq<u8>) -> Response
    decreases seen.len(),
{
    if seen.len() == 0 {
        Response::Pending
    } else if seen[0] == ACK_BYTE {
        Response::Ack
    } else if seen[0] == NAK_BYTE {
        Response::Nak
    } else {
        response_spec(seen.skip(1))
    }
}

/// What the bytes that came after a command say.
pub fn scan_response(seen: &[u8]) -> (answer: Response)
    ensures
        answer == response_spec(seen@),
{
    let mut i: usize = 0;
    assert(seen@.skip(0) =~= seen@);
    while i < seen.len()
        invariant
            i <= seen@.len(),
            response_spec(seen@) == response_spec(seen@.skip(i as int)),
        decreases seen@.len() - i,
    {
        let ghost rest = seen@.skip(i as int);
        assert(rest[0] == seen@[i as int]);
        assert(rest.skip(1) =~= seen@.skip(i + 1));
        if seen[i] == ACK_BYTE {
            return Response::Ack;
        }
        if seen[i] == NAK_BYTE {
            return Response::Nak;
        }
        i = i + 1;
    }
    Response::Pending
}

/// Whether a byte ends a line: a carriage return or a line feed.
pub open spec fn ends_line(b: u8) -> bool {
    b == 0x0d || b == 0x0a
}

/// Where the first line of what has come ends: the place of the first
/// byte that ends a line, if there is one.
pub fn line_end(seen: &[u8]) -> (end: Option<usize>)
    ensures
        match end {
            Some(k) => k < seen@.len() && ends_line(seen@[k as int]) && forall|i: int|
                0 <= i < k ==> !ends_line(#[trigger] seen@[i]),
            None => forall|i: int| 0 <= i < seen@.len() ==> !ends_line(#[trigger] seen@[i]),
        },
{
    let mut i: usize = 0;
    while i < seen.len()
        invariant
            i <= seen@.len(),
            forall|k: int| 0 <= k < i ==> !ends_line(#[trigger] seen@[k]),
        decreases seen@.len() - i,
    {
        if seen[i] == 0x0d || seen[i] == 0x0a {
            return Some(i);
        }
        i = i + 1;
    }
    None
}

/// The command byte of a speed command.
pub const SPEED_COMMAND: u8 = 0xA2;

/// The command byte of a position command.
pub const POSITION_COMMAND: u8 = 0xA4;

/// The eight bytes of a motor command that carries one 32-bit value: the
/// command byte, three zeros, and the value's four bytes, lowest first.
pub open spec fn command_bytes(cmd: u8, value: i32) -> Seq<u8> {
    seq![cmd, 0u8, 0u8, 0u8] + le_bytes_u32(value as u32)
}

fn build_command_bytes(cmd: u8, value: i32) -> (v: Vec<u8>)
    ensures
        v@ == command_bytes(cmd, value),
{
    let mut v: Vec<u8> = Vec::new();
    v.push(cmd);
    v.push(0);
    v.push(0);
    v.push(0);
    let mut tail = u32_to_le(value as u32);
    v.append(&mut tail);
    assert(v@ =~= command_bytes(cmd, value));
    v
}

/// The data of a speed command; the speed is in hundredths of a degree a
/// second.
pub fn build_speed_bytes(speed_x100: i32) -> (v: Vec<u8>)
    ensures
        v@ == command_bytes(SPEED_COMMAND, speed_x100),
{
    build_command_bytes(SPEED_COMMAND, speed_x100)
}

/// The data of a position command; the angle is in hundredths of a degree.
pub fn build_pos_bytes(angle_x100: i32) -> (v: Vec<u8>)
    ensures
        v@ == command_bytes(POSITION_COMMAND, angle_x100),
{
    build_command_bytes(POSITION_COMMAND, angle_x100)
}

/// The direction of a frame, seen from the host: `TX` for a frame to the
/// motor, `RX` for one from it, `--` for any other.
pub open spec fn direction_spec(id: u32, motor_id: u32) -> Seq<char> {
    if id == 0x140 + motor_id {
        "TX"@
    } else if id == 0x240 + motor_id {
        "RX"@
    } else {
        "--"@
    }
}

fn direction(id: u32, motor_id: u32) -> (dir: &'static str)
    ensures
        dir@ == direction_spec(id, motor_id),
{
    if id as u64 == 0x140 + motor_id as u64 {
        "TX"
    } else if id as u64 == 0x240 + motor_id as u64 {
        "RX"
    } else {
        "--"
    }
}

/// What the frame table calls a frame, by its command byte.
pub open spec fn row_kind_spec(data: Seq<u8>) -> Seq<char> {
    if data.len() == 0 {
        ""@
    } else if data[0] == 0x92 {
        "angle(0x92)"@
    } else if data[0] == 0x9A {
        "status1(0x9A)"@
    } else if data[0] == 0x9C {
        "status2(0x9C)"@
    } else if data[0] == 0xA2 {
        "speed(0xA2)"@
    } else if data[0] == 0xA4 {
        "pos(0xA4)"@
    } else if data[0] == 0x77 {
        "brake_release(0x77)"@
    } else if data[0] == 0x78 {
        "brake_lock(0x78)"@
    } else if data[0] == 0x81 {
        "stop(0x81)"@
    } else {
        "other"@
    }
}

/// The direction and the kind of a frame, for a row of the frame table.
pub fn classify_row(id: u32, motor_id: u32, data: &[u8]) -> (row: (&'static str, String))
    ensures
        row.0@ == direction_spec(id, motor_id),
        row.1@ == row_kind_spec(data@),
{
    let dir = direction(id, motor_id);
    let kind: &'static str = if data.len() == 0 {
        ""
    } else if data[0] == 0x92 {
        "angle(0x92)"
    } else if data[0] == 0x9A {
        "status1(0x9A)"
    } else if data[0] == 0x9C {
        "status2(0x9C)"
    } else if data[0] == 0xA2 {
        "speed(0xA2)"
    } else if data[0] == 0xA4 {
        "pos(0xA4)"
    } else if data[0] == 0x77 {
        "brake_release(0x77)"
    } else if data[0] == 0x78 {
        "brake_lock(0x78)"
    } else if data[0] == 0x81 {
        "stop(0x81)"
    } else {
        "other"
    };
    (dir, String::from_str(kind))
}

/// What the dashboard calls a frame, by its command byte.
pub open spec fn frame_kind_spec(data: Seq<u8>) -> Seq<char> {
    if data.len() == 0 {
        ""@
    } else if data[0] == 0x92 {
        "angle"@
    } else if data[0] == 0x9A {
        "status1"@
    } else if data[0] == 0x9C {
        "status2"@
    } else if data[0] == 0xA2 {
        "speed"@
    } else if data[0] == 0xA4 {
        "position"@
    } else if data[0] == 0x77 {
        "brake_rel"@
    } else if data[0] == 0x78 {
        "brake_lock"@
    } else if data[0] == 0x81 {
        "stop"@
    } else if data[0] == 0xB6 {
        "active_reply"@
    } else {
        "other"@
    }
}

/// The direction and the kind of a frame, for the dashboard.
pub fn classify_frame(id: u32, motor_id: u32, data: &[u8]) -> (row: (&'static str, String))
    ensures
        row.0@ == direction_spec(id, motor_id),
        row.1@ == frame_kind_spec(data@),
{
    let dir = direction(id, motor_id);
    let kind: &'static str = if data.len() == 0 {
        ""
    } else if data[0] == 0x92 {
        "angle"
    } else if data[0] == 0x9A {
        "status1"
    } else if data[0] == 0x9C {
        "status2"
    } else if data[0] == 0xA2 {
        "speed"
    } else if data[0] == 0xA4 {
        "position"
    } else if data[0] == 0x77 {
        "brake_rel"
    } else if data[0] == 0x78 {
        "brake_lock"
    } else if data[0] == 0x81 {
        "stop"
    } else if data[0] == 0xB6 {
        "active_reply"
    } else {
        "other"
    };
    (dir, String::from_str(kind))
}

} // verus!
