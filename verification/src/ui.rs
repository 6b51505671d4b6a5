//! The record that the pipeline produces for each frame, and the text that a
//! display shows for it.

use vstd::prelude::*;
use crate::text::{chars_of, decimal, push_char, push_decimal};

verus! {

/// A point in time: whole seconds since 1970-01-01 00:00:00 UTC, and the
/// nanoseconds past that second.
#[derive(Clone, Copy, Debug, PartialEq, Eq, Structural)]
pub struct Timestamp {
    /// Whole seconds since the start of the epoch.
    pub secs: i64,
    /// Nanoseconds past the second.
    pub nanos: u32,
}

impl Default for Timestamp {
    /// The start of the epoch.
    fn default() -> (t: Timestamp)
        ensures
            t == (Timestamp { secs: 0, nanos: 0 }),
    {
        Timestamp { secs: 0, nanos: 0 }
    }
}

/// Whether `chrono::DateTime::from_timestamp` accepts these seconds and
/// nanoseconds as a point in time.
pub uninterp spec fn is_instant(secs: i64, nanos: u32) -> bool;

/// Asks `chrono::DateTime::from_timestamp` whether it accepts the two numbers.
/// It refuses seconds beyond the years that it can represent, and nanoseconds
/// that do not fit a second; which seconds those are is left to it.
#[verifier::external_body]
fn accepted_instant(secs: i64, nanos: u32) -> (r: bool)
    ensures
        r == is_instant(secs, nanos),
{
    chrono::DateTime::from_timestamp(secs, nanos).is_some()
}

/// The most microseconds whose nanoseconds fit 32 bits.
pub const MAX_MICROSECONDS: i64 = 4_294_967;

/// The time that a capture header gives, or the start of the epoch where its
/// seconds and microseconds are no point in time.
pub open spec fn capture_time(seconds: i64, microseconds: i64) -> Timestamp {
    if 0 <= microseconds <= MAX_MICROSECONDS && is_instant(
        seconds,
        (microseconds * 1000) as u32,
    ) {
        Timestamp { secs: seconds, nanos: (microseconds * 1000) as u32 }
    } else {
        Timestamp { secs: 0, nanos: 0 }
    }
}

impl Timestamp {
    /// The time of a frame from the seconds and microseconds of its capture header.
    pub fn from_capture(seconds: i64, microseconds: i64) -> (t: Timestamp)
        ensures
            t == capture_time(seconds, microseconds),
    {
        if 0 <= microseconds && microseconds <= MAX_MICROSECONDS {
            let nanos: u32 = (microseconds * 1000) as u32;
            if accepted_instant(seconds, nanos) {
                return Timestamp { secs: seconds, nanos };
            }
        }
        Timestamp { secs: 0, nanos: 0 }
    }
}

/// What was learnt of one captured frame.
#[derive(Clone, Debug)]
pub struct PacketInfo {
    /// When the frame was captured.
    pub timestamp: Timestamp,
    /// The deepest layer that could be decoded.
    pub protocol: String,
    /// Where the frame came from: an address, with `:port` where the transport has ports.
    pub source: String,
    /// Where the frame went, in the same form.
    pub destination: String,
    /// The length of the frame on the wire.
    pub length: usize,
    /// A summary of the deepest layer, or the reason why decoding stopped.
    pub info: String,
    /// The captured bytes.
    pub raw_data: Vec<u8>,
}

/// A record as contracts see it: texts as character sequences, bytes as a sequence.
#[verifier::ext_equal]
pub struct PacketInfoView {
    pub timestamp: Timestamp,
    pub protocol: Seq<char>,
    pub source: Seq<char>,
    pub destination: Seq<char>,
    pub length: usize,
    pub info: Seq<char>,
    pub raw_data: Seq<u8>,
}

impl View for PacketInfo {
    type V = PacketInfoView;

    open spec fn view(&self) -> PacketInfoView {
        PacketInfoView {
            timestamp: self.timestamp,
            protocol: self.protocol@,
            source: self.source@,
            destination: self.destination@,
            length: self.length,
            info: self.info@,
            raw_data: self.raw_data@,
        }
    }
}

/// The character that stands for a hexadecimal digit, in lower case.
pub open spec fn hex_digit(d: int) -> char {
    seq!['0', '1', '2', '3', '4', '5', '6', '7', '8', '9', 'a', 'b', 'c', 'd', 'e', 'f'][d]
}

/// The hexadecimal numeral of `n`, without leading zeros.
pub open spec fn hex(n: nat) -> Seq<char>
    decreases n,
{
    if n < 16 {
        seq![hex_digit(n as int)]
    } else {
        hex(n / 16).push(hex_digit((n % 16) as int))
    }
}

/// `count` times the character `c`.
pub open spec fn repeated(c: char, count: int) -> Seq<char> {
    Seq::new(if count > 0 { count as nat } else { 0 }, |i: int| c)
}

/// A numeral with zeros in front, so that it has at least `width` characters.
pub open spec fn zero_padded(numeral: Seq<char>, width: int) -> Seq<char> {
    repeated('0', width - numeral.len()) + numeral
}

/// The two hexadecimal digits of a byte.
pub open spec fn byte_hex(byte: u8) -> Seq<char> {
    seq![hex_digit(byte as int / 16), hex_digit(byte as int % 16)]
}

/// Whether a byte is a printable ASCII character other than the space.
pub open spec fn is_graphic(byte: u8) -> bool {
    0x21 <= byte <= 0x7e
}

/// The bytes of a row in hexadecimal, with a space behind every second one.
pub open spec fn hex_cells(row: Seq<u8>) -> Seq<char>
    decreases row.len(),
{
    if row.len() == 0 {
        Seq::empty()
    } else {
        hex_cells(row.drop_last()) + byte_hex(row.last()) + (if row.len() % 2 == 0 {
            seq![' ']
        } else {
            Seq::empty()
        })
    }
}

/// What stands for one byte that a short row lacks: two spaces, and a third one
/// where the row holds an even number of bytes.
pub open spec fn gap(row_len: int) -> Seq<char> {
    if row_len % 2 == 0 {
        seq![' ', ' ', ' ']
    } else {
        seq![' ', ' ']
    }
}

/// `count` gaps of a row of `row_len` bytes.
pub open spec fn gaps(row_len: int, count: int) -> Seq<char>
    decreases count,
{
    if count <= 0 {
        Seq::empty()
    } else {
        gaps(row_len, count - 1) + gap(row_len)
    }
}

/// The bytes of a row as characters, with a dot for each that is not graphic.
pub open spec fn ascii_cells(row: Seq<u8>) -> Seq<char> {
    Seq::new(row.len(), |i: int| if is_graphic(row[i]) { row[i] as char } else { '.' })
}

/// One row of a hex dump: the offset, the bytes in hexadecimal, the gaps of a
/// short row, and the bytes as characters between bars.
pub open spec fn hex_row(offset: int, row: Seq<u8>) -> Seq<char> {
    zero_padded(hex(offset as nat), 8) + seq![' ', ' '] + hex_cells(row) + gaps(
        row.len() as int,
        16 - row.len(),
    ) + seq![' ', '|'] + ascii_cells(row) + seq!['|', '\n']
}

/// The rows of a hex dump from the byte at `start` on, sixteen bytes to a row.
pub open spec fn hex_rows(data: Seq<u8>, start: int) -> Seq<char>
    decreases (if start < data.len() { data.len() - start } else { 0 }),
{
    if start < 0 || start >= data.len() {
        Seq::empty()
    } else {
        let end = if start + 16 <= data.len() { start + 16 } else { data.len() as int };
        hex_row(start, data.subrange(start, end)) + hex_rows(data, start + 16)
    }
}

/// The hex dump of some bytes; empty where there are none.
pub open spec fn hex_dump(data: Seq<u8>) -> Seq<char> {
    hex_rows(data, 0)
}

fn hex_digit_of(d: u8) -> (c: char)
    requires
        d < 16,
    ensures
        c == hex_digit(d as int),
{
    if d < 10 {
        (d + 48) as char
    } else {
        (d + 87) as char
    }
}

fn push_hex(s: &mut String, n: usize)
    ensures
        final(s)@ == old(s)@ + hex(n as nat),
    decreases n,
{
    if n >= 16 {
        push_hex(s, n / 16);
    }
    push_char(s, hex_digit_of((n % 16) as u8));
}

fn push_repeated(s: &mut String, c: char, count: usize)
    ensures
        final(s)@ == old(s)@ + repeated(c, count as int),
{
    let mut i: usize = 0;
    while i < count
        invariant
            i <= count,
            s@ == old(s)@ + repeated(c, i as int),
        decreases count - i,
    {
        push_char(s, c);
        proof {
            assert(old(s)@ + repeated(c, i + 1) =~= (old(s)@ + repeated(c, i as int)).push(c));
        }
        i += 1;
    }
}

fn push_offset(s: &mut String, offset: usize)
    ensures
        final(s)@ == old(s)@ + zero_padded(hex(offset as nat), 8),
{
    let mut numeral = String::new();
    push_hex(&mut numeral, offset);
    let digits = chars_of(numeral.as_str());
    if digits.len() < 8 {
        push_repeated(s, '0', 8 - digits.len());
    }
    s.append(numeral.as_str());
    proof {
        assert(numeral@ =~= hex(offset as nat));
        assert(s@ =~= old(s)@ + zero_padded(hex(offset as nat), 8));
    }
}

fn push_hex_cells(s: &mut String, data: &[u8], start: usize, end: usize)
    requires
        start <= end <= data.len(),
    ensures
        final(s)@ == old(s)@ + hex_cells(data@.subrange(start as int, end as int)),
{
    let mut i: usize = start;
    while i < end
        invariant
            start <= i <= end <= data.len(),
            s@ == old(s)@ + hex_cells(data@.subrange(start as int, i as int)),
        decreases end - i,
    {
        let byte = data[i];
        push_char(s, hex_digit_of(byte / 16));
        push_char(s, hex_digit_of(byte % 16));
        if (i - start) % 2 == 1 {
            push_char(s, ' ');
        }
        proof {
            let before = data@.subrange(start as int, i as int);
            let after = data@.subrange(start as int, i + 1);
            assert(after.drop_last() =~= before);
            assert(after.last() == byte);
            assert(s@ =~= old(s)@ + hex_cells(after));
        }
        i += 1;
    }
}

fn push_gaps(s: &mut String, row_len: usize, count: usize)
    ensures
        final(s)@ == old(s)@ + gaps(row_len as int, count as int),
{
    let mut i: usize = 0;
    while i < count
        invariant
            i <= count,
            s@ == old(s)@ + gaps(row_len as int, i as int),
        decreases count - i,
    {
        push_char(s, ' ');
        push_char(s, ' ');
        if row_len % 2 == 0 {
            push_char(s, ' ');
        }
        proof {
            assert(s@ =~= old(s)@ + gaps(row_len as int, i + 1));
        }
        i += 1;
    }
}

fn push_ascii_cells(s: &mut String, data: &[u8], start: usize, end: usize)
    requires
        start <= end <= data.len(),
    ensures
        final(s)@ == old(s)@ + ascii_cells(data@.subrange(start as int, end as int)),
{
    let mut i: usize = start;
    while i < end
        invariant
            start <= i <= end <= data.len(),
            s@ == old(s)@ + ascii_cells(data@.subrange(start as int, i as int)),
        decreases end - i,
    {
        let byte = data[i];
        if 0x21 <= byte && byte <= 0x7e {
            push_char(s, byte as char);
        } else {
            push_char(s, '.');
        }
        proof {
            assert(s@ =~= old(s)@ + ascii_cells(data@.subrange(start as int, i + 1)));
        }
        i += 1;
    }
}

fn push_hex_row(s: &mut String, data: &[u8], start: usize, end: usize)
    requires
        start <= end <= data.len(),
        end - start <= 16,
    ensures
        final(s)@ == old(s)@ + hex_row(start as int, data@.subrange(start as int, end as int)),
{
    push_offset(s, start);
    push_char(s, ' ');
    push_char(s, ' ');
    push_hex_cells(s, data, start, end);
    push_gaps(s, end - start, 16 - (end - start));
    push_char(s, ' ');
    push_char(s, '|');
    push_ascii_cells(s, data, start, end);
    push_char(s, '|');
    push_char(s, '\n');
    proof {
        assert(s@ =~= old(s)@ + hex_row(start as int, data@.subrange(start as int, end as int)));
    }
}

/// The hex dump of some bytes: for every sixteen bytes a row with their offset,
/// their hexadecimal digits in pairs of bytes, and their characters.
pub fn format_hex_dump(data: &[u8]) -> (output: String)
    ensures
        output@ == hex_dump(data@),
{
    let mut output = String::new();
    let mut start: usize = 0;
    while start < data.len()
        invariant
            start <= data.len(),
            hex_dump(data@) == output@ + hex_rows(data@, start as int),
        decreases data.len() - start,
    {
        let ghost before = output@;
        if data.len() - start < 16 {
            push_hex_row(&mut output, data, start, data.len());
            proof {
                assert(hex_rows(data@, start + 16) =~= Seq::empty());
                assert(output@ =~= before + hex_rows(data@, start as int));
            }
            return output;
        }
        push_hex_row(&mut output, data, start, start + 16);
        proof {
            assert(output@ + hex_rows(data@, start + 16) =~= before + hex_rows(data@, start as int));
        }
        start += 16;
    }
    output
}

/// The time of day of a point in time as `chrono` writes it with the format
/// `%H:%M:%S%.3f`: hours, minutes, seconds and milliseconds in UTC.
pub uninterp spec fn clock_text(secs: i64, nanos: u32) -> Seq<char>;

/// A point in time as `chrono` displays it: date, time of day and `UTC`.
pub uninterp spec fn date_time_text(secs: i64, nanos: u32) -> Seq<char>;

/// Writes the time of day with `chrono::DateTime::format`. Numbers that are no
/// point in time are written as the start of the epoch.
#[verifier::external_body]
fn clock_string(time: Timestamp) -> (r: String)
    ensures
        r@ == clock_text(time.secs, time.nanos),
{
    chrono::DateTime::from_timestamp(time.secs, time.nanos).unwrap_or_default().format("%H:%M:%S%.3f").to_string()
}

/// Writes date and time as the `Display` of `chrono::DateTime` does. Numbers that
/// are no point in time are written as the start of the epoch.
#[verifier::external_body]
fn date_time_string(time: Timestamp) -> (r: String)
    ensures
        r@ == date_time_text(time.secs, time.nanos),
{
    chrono::DateTime::from_timestamp(time.secs, time.nanos).unwrap_or_default().to_string()
}

/// The line of a record in the list, behind the time of day.
pub open spec fn list_line(clock: Seq<char>, record: PacketInfoView) -> Seq<char> {
    clock + " "@ + record.protocol + " "@ + record.source + " -> "@ + record.destination + " ["@
        + decimal(record.length as nat) + "] "@ + record.info
}

/// The details of a record, line by line, behind its date and time.
pub open spec fn details(date_time: Seq<char>, record: PacketInfoView) -> Seq<char> {
    "Timestamp: "@ + date_time + "\nProtocol: "@ + record.protocol + "\nSource: "@ + record.source
        + "\nDestination: "@ + record.destination + "\nLength: "@ + decimal(record.length as nat)
        + " bytes\nInfo: "@ + record.info + "\n\nRaw Data (hex):\n"@ + hex_dump(record.raw_data)
}

/// The line of a record in the list, given the text of its time of day.
pub fn format_list_line(clock: &str, packet: &PacketInfo) -> (line: String)
    ensures
        line@ == list_line(clock@, packet@),
{
    let mut line = clock.to_string();
    line.append(" ");
    line.append(packet.protocol.as_str());
    line.append(" ");
    line.append(packet.source.as_str());
    line.append(" -> ");
    line.append(packet.destination.as_str());
    line.append(" [");
    push_decimal(&mut line, packet.length as u64);
    line.append("] ");
    line.append(packet.info.as_str());
    line
}

/// The details of a record, given the text of its date and time.
pub fn format_details(date_time: &str, packet: &PacketInfo) -> (text: String)
    ensures
        text@ == details(date_time@, packet@),
{
    let mut text = "Timestamp: ".to_string();
    text.append(date_time);
    text.append("\nProtocol: ");
    text.append(packet.protocol.as_str());
    text.append("\nSource: ");
    text.append(packet.source.as_str());
    text.append("\nDestination: ");
    text.append(packet.destination.as_str());
    text.append("\nLength: ");
    push_decimal(&mut text, packet.length as u64);
    text.append(" bytes\nInfo: ");
    text.append(packet.info.as_str());
    text.append("\n\nRaw Data (hex):\n");
    let dump = format_hex_dump(packet.raw_data.as_slice());
    text.append(dump.as_str());
    text
}

impl PacketInfo {
    /// The line that the list shows for the record: time of day, label,
    /// endpoints, length and summary.
    pub fn list_line(&self) -> (line: String)
        ensures
            line@ == list_line(clock_text(self.timestamp.secs, self.timestamp.nanos), self@),
    {
        let clock = clock_string(self.timestamp);
        format_list_line(clock.as_str(), self)
    }

    /// What the detail pane shows for the record: its fields line by line, then
    /// the hex dump of its bytes.
    pub fn details(&self) -> (text: String)
        ensures
            text@ == details(date_time_text(self.timestamp.secs, self.timestamp.nanos), self@),
    {
        let date_time = date_time_string(self.timestamp);
        format_details(date_time.as_str(), self)
    }
}

/// The selection after a step down a list of `count` records: the next record,
/// the first one where nothing was selected, and no change at the end of the
/// list or in an empty list.
pub open spec fn next_selection(selected: Option<usize>, count: usize) -> Option<usize> {
    match selected {
        Some(i) => if i + 1 < count {
            Some((i + 1) as usize)
        } else {
            selected
        },
        None => if count > 0 {
            Some(0usize)
        } else {
            None
        },
    }
}

/// The selection after a step up: the record before, and no change at the top
/// or where nothing was selected.
pub open spec fn previous_selection(selected: Option<usize>) -> Option<usize> {
    match selected {
        Some(i) => if i > 0 {
            Some((i - 1) as usize)
        } else {
            selected
        },
        None => None,
    }
}

/// Moves the selection one record down.
pub fn select_next(selected: Option<usize>, count: usize) -> (r: Option<usize>)
    ensures
        r == next_selection(selected, count),
        selected matches Some(i) ==> i < count ==> (r matches Some(j) && j < count),
{
    match selected {
        Some(i) => {
            if count > 0 && i < count - 1 {
                Some(i + 1)
            } else {
                selected
            }
        },
        None => {
            if count > 0 {
                Some(0)
            } else {
                None
            }
        },
    }
}

/// Moves the selection one record up.
pub fn select_previous(selected: Option<usize>) -> (r: Option<usize>)
    ensures
        r == previous_selection(selected),
{
    match selected {
        Some(i) => {
            if i > 0 {
                Some(i - 1)
            } else {
                selected
            }
        },
        None => None,
    }
}

} // verus!
