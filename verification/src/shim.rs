//! Native shim layer: what the native reimplementations of guest entry
//! points report, the bridge from system call numbers to names, and the
//! registry values of a prefix as read from its registry file.

use crate::template::text_map;
use crate::text::{chars_of, find, first_match, lemma_first_match, matches_at, slice_string};
use vstd::hash_map::StringHashMap;
use vstd::prelude::*;
use vstd::string::StringExecFns;

verus! {

/// Handle that the desktop-window query answers with.
pub const DESKTOP_WINDOW_HANDLE: usize = 0xDEAD_BEEF;

/// Number of bytes that the system-information query writes.
pub const SYSTEM_INFO_SIZE: usize = 48;

/// Number of processors that the system-information query reports.
pub const REPORTED_PROCESSORS: u8 = 8;

/// The name of a system call of the guest, or `Unknown`.
pub open spec fn sys_call_name(call_id: u32) -> Seq<char> {
    if call_id == 1 {
        "NtCreateProcess"@
    } else if call_id == 2 {
        "NtTerminateProcess"@
    } else {
        "Unknown"@
    }
}

/// The name of a system call of the guest, or `Unknown`.
pub fn translate_sys_call(call_id: u32) -> (name: &'static str)
    ensures
        name@ == sys_call_name(call_id),
{
    if call_id == 1 {
        "NtCreateProcess"
    } else if call_id == 2 {
        "NtTerminateProcess"
    } else {
        "Unknown"
    }
}

/// The handle of the desktop window: one fixed value.
pub fn desktop_window() -> (handle: usize)
    ensures
        handle == DESKTOP_WINDOW_HANDLE,
{
    DESKTOP_WINDOW_HANDLE
}

/// The record that the system-information query writes: 48 bytes, little
/// endian. Processor architecture 9 (x64) at offset 0, page size 4096 at
/// offset 4, lowest application address 0x10000 at offset 8, highest
/// application address 0x7FFFFFFEFFFF at offset 16, the mask of eight active
/// processors at offset 24, their number at offset 32, processor type 8664
/// at offset 36, allocation granularity 0x10000 at offset 40, processor level
/// 6 at offset 44; every other byte zero.
pub open spec fn system_info_record() -> Seq<u8> {
    seq![
        9u8, 0, 0, 0,
        0, 0x10, 0, 0,
        0, 0, 1, 0, 0, 0, 0, 0,
        0xFF, 0xFF, 0xFE, 0xFF, 0xFF, 0x7F, 0, 0,
        0xFF, 0, 0, 0, 0, 0, 0, 0,
        REPORTED_PROCESSORS, 0, 0, 0,
        0xD8, 0x21, 0, 0,
        0, 0, 1, 0,
        6, 0, 0, 0,
    ]
}

/// The buffer after the system-information query: the record at its start,
/// the rest untouched. A buffer too short for the record is left alone.
pub open spec fn system_info_written(buffer: Seq<u8>) -> Seq<u8> {
    if buffer.len() < SYSTEM_INFO_SIZE {
        buffer
    } else {
        system_info_record() + buffer.subrange(SYSTEM_INFO_SIZE as int, buffer.len() as int)
    }
}

/// The system-information query: writes the record of the synthesized
/// processor into the caller's buffer and touches nothing else. Returns
/// whether the buffer was long enough to be written.
pub fn write_system_info(buffer: &mut Vec<u8>) -> (written: bool)
    ensures
        written == (old(buffer)@.len() >= SYSTEM_INFO_SIZE),
        final(buffer)@ == system_info_written(old(buffer)@),
{
    if buffer.len() < SYSTEM_INFO_SIZE {
        return false;
    }
    let record: [u8; 48] = [
        9, 0, 0, 0,
        0, 0x10, 0, 0,
        0, 0, 1, 0, 0, 0, 0, 0,
        0xFF, 0xFF, 0xFE, 0xFF, 0xFF, 0x7F, 0, 0,
        0xFF, 0, 0, 0, 0, 0, 0, 0,
        REPORTED_PROCESSORS, 0, 0, 0,
        0xD8, 0x21, 0, 0,
        0, 0, 1, 0,
        6, 0, 0, 0,
    ];
    assert(record@ =~= system_info_record());
    let mut i: usize = 0;
    while i < SYSTEM_INFO_SIZE
        invariant
            i <= SYSTEM_INFO_SIZE,
            record@ == system_info_record(),
            buffer.len() == old(buffer).len(),
            buffer.len() >= SYSTEM_INFO_SIZE,
            forall|k: int| 0 <= k < i ==> buffer@[k] == record@[k],
            forall|k: int| i <= k < buffer.len() ==> buffer@[k] == old(buffer)@[k],
        decreases SYSTEM_INFO_SIZE - i,
    {
        buffer.set(i, record[i]);
        i += 1;
    }
    assert(buffer@ =~= system_info_written(old(buffer)@));
    true
}

/// The tick count: milliseconds since the shim layer was started, as last
/// reported.
#[derive(Clone, Copy, Debug, PartialEq, Eq, Structural)]
pub struct TickCounter {
    pub last: u32,
}

/// The tick count reported for a clock reading: the reading, held at the
/// largest value once it is beyond what the count can express, and never
/// less than what was reported before.
pub open spec fn tick_of(last: u32, elapsed_ms: u64) -> u32 {
    let reading = if elapsed_ms > u32::MAX {
        u32::MAX
    } else {
        elapsed_ms as u32
    };
    if reading < last {
        last
    } else {
        reading
    }
}

impl TickCounter {
    /// A counter that has reported nothing yet.
    pub fn new() -> (counter: TickCounter)
        ensures
            counter.last == 0,
    {
        TickCounter { last: 0 }
    }

    /// The tick-count query, given the milliseconds that the host's
    /// monotonic clock counts since the shim layer was started.
    pub fn tick_count(&mut self, elapsed_ms: u64) -> (ticks: u32)
        ensures
            ticks == tick_of(old(self).last, elapsed_ms),
            final(self).last == ticks,
            ticks >= old(self).last,
    {
        let reading: u32 = if elapsed_ms > u32::MAX as u64 {
            u32::MAX
        } else {
            elapsed_ms as u32
        };
        if reading > self.last {
            self.last = reading;
        }
        self.last
    }
}

/// The tick count never decreases: of two queries in a row the second
/// reports at least what the first did, whatever the clock read.
pub proof fn lemma_tick_count_monotonic(last: u32, first_reading: u64, second_reading: u64)
    ensures
        tick_of(last, first_reading) <= tick_of(tick_of(last, first_reading), second_reading),
{
}

/// A text without the quotation marks at its start.
pub open spec fn trim_start_quotes(s: Seq<char>) -> Seq<char>
    decreases s.len(),
{
    if s.len() > 0 && s[0] == '"' {
        trim_start_quotes(s.subrange(1, s.len() as int))
    } else {
        s
    }
}

/// A text without the quotation marks at its end.
pub open spec fn trim_end_quotes(s: Seq<char>) -> Seq<char>
    decreases s.len(),
{
    if s.len() > 0 && s.last() == '"' {
        trim_end_quotes(s.drop_last())
    } else {
        s
    }
}

/// A text without the quotation marks at its start and at its end.
pub open spec fn trim_quotes(s: Seq<char>) -> Seq<char> {
    trim_end_quotes(trim_start_quotes(s))
}

/// A line without the carriage return at its end, if it has one.
pub open spec fn strip_cr(line: Seq<char>) -> Seq<char> {
    if line.len() > 0 && line.last() == '\r' {
        line.drop_last()
    } else {
        line
    }
}

/// What one line of a registry file does to the section in force and to the
/// values read so far. A line in square brackets opens the section that it
/// names. Any other line with an equals sign sets a value: its key is the
/// section, a backslash, and what stands before the first equals sign,
/// without the quotation marks around it; its value is what follows that
/// sign. Every other line does nothing.
pub open spec fn line_step(
    section: Seq<char>,
    values: Map<Seq<char>, Seq<char>>,
    line: Seq<char>,
) -> (Seq<char>, Map<Seq<char>, Seq<char>>) {
    if line.len() > 0 && line[0] == '[' && line.last() == ']' {
        (line.subrange(1, line.len() - 1), values)
    } else {
        match first_match(line, "="@, 0) {
            Some(at) => (
                section,
                values.insert(
                    section + "\\"@ + trim_quotes(line.subrange(0, at)),
                    line.subrange(at + "="@.len(), line.len() as int),
                ),
            ),
            None => (section, values),
        }
    }
}

/// The state of reading a registry file: the section in force, the values
/// read so far, and the characters of the line in hand.
pub struct ScanState {
    pub section: Seq<char>,
    pub values: Map<Seq<char>, Seq<char>>,
    pub line: Seq<char>,
}

/// The state after the first `n` characters of a registry file. A line feed
/// ends the line in hand, which counts without a carriage return before the
/// line feed.
pub open spec fn scan(content: Seq<char>, n: nat) -> ScanState
    decreases n,
{
    if n == 0 {
        ScanState { section: Seq::empty(), values: Map::empty(), line: Seq::empty() }
    } else {
        let before = scan(content, (n - 1) as nat);
        if content[n - 1] == '\n' {
            let after = line_step(before.section, before.values, strip_cr(before.line));
            ScanState { section: after.0, values: after.1, line: Seq::empty() }
        } else {
            ScanState { line: before.line.push(content[n - 1]), ..before }
        }
    }
}

/// The values that a registry file holds: those read when all of it was
/// scanned, a last line without line feed counting as it stands.
pub open spec fn registry_of(content: Seq<char>) -> Map<Seq<char>, Seq<char>> {
    let end = scan(content, content.len());
    if end.line.len() > 0 {
        line_step(end.section, end.values, end.line).1
    } else {
        end.values
    }
}

/// The values of a prefix's registry, by key: section, backslash, name.
pub struct NativeRegistry {
    pub values: StringHashMap<String>,
}

impl View for NativeRegistry {
    type V = Map<Seq<char>, Seq<char>>;

    open spec fn view(&self) -> Map<Seq<char>, Seq<char>> {
        text_map(self.values@)
    }
}

impl NativeRegistry {
    /// The bounds of a range of characters without the quotation marks at
    /// its start and at its end.
    fn trim_range(chars: &Vec<char>, from: usize, to: usize) -> (bounds: (usize, usize))
        requires
            from <= to <= chars.len(),
        ensures
            from <= bounds.0 <= bounds.1 <= to,
            chars@.subrange(bounds.0 as int, bounds.1 as int) == trim_quotes(
                chars@.subrange(from as int, to as int),
            ),
    {
        let mut a: usize = from;
        while a < to && chars[a] == '"'
            invariant
                from <= a <= to <= chars.len(),
                trim_start_quotes(chars@.subrange(from as int, to as int)) == trim_start_quotes(
                    chars@.subrange(a as int, to as int),
                ),
            decreases to - a,
        {
            assert(chars@.subrange(a as int, to as int).subrange(1, to - a) =~= chars@.subrange(
                a + 1,
                to as int,
            ));
            a += 1;
        }
        let mut b: usize = to;
        while b > a && chars[b - 1] == '"'
            invariant
                a <= b <= to <= chars.len(),
                trim_end_quotes(chars@.subrange(a as int, to as int)) == trim_end_quotes(
                    chars@.subrange(a as int, b as int),
                ),
            decreases b - a,
        {
            assert(chars@.subrange(a as int, b as int).drop_last() =~= chars@.subrange(
                a as int,
                b - 1,
            ));
            b -= 1;
        }
        (a, b)
    }

    /// Takes one line of a registry file.
    fn take_line(section: &mut String, values: &mut StringHashMap<String>, line: &Vec<char>)
        ensures
            (final(section)@, text_map(final(values)@)) == line_step(
                old(section)@,
                text_map(old(values)@),
                line@,
            ),
    {
        let n = line.len();
        if n > 0 && line[0] == '[' && line[n - 1] == ']' {
            *section = slice_string(line, 1, n - 1);
            return ;
        }
        let sign = chars_of("=");
        proof {
            lemma_first_match(line@, sign@, 0);
        }
        match find(line, &sign, 0) {
            Some(at) => {
                assert(matches_at(line@, sign@, at as int));
                assert(at + sign.len() <= line.len());
                let (a, b) = Self::trim_range(line, 0, at);
                let mut key = section.clone();
                key.append("\\");
                let name = slice_string(line, a, b);
                key.append(name.as_str());
                let value = slice_string(line, at + sign.len(), n);
                values.insert(key, value);
                assert(text_map(values@) =~= text_map(old(values)@).insert(key@, value@));
            },
            None => {},
        }
    }

    /// Reads the values of a registry file.
    pub fn new(content: &str) -> (registry: NativeRegistry)
        ensures
            registry@ == registry_of(content@),
    {
        let chars = chars_of(content);
        let mut section = String::new();
        let mut values: StringHashMap<String> = StringHashMap::new();
        let mut line: Vec<char> = Vec::new();
        assert(text_map(values@) =~= Map::<Seq<char>, Seq<char>>::empty());
        let mut i: usize = 0;
        while i < chars.len()
            invariant
                i <= chars.len(),
                chars@ == content@,
                scan(content@, i as nat) == (ScanState {
                    section: section@,
                    values: text_map(values@),
                    line: line@,
                }),
            decreases chars.len() - i,
        {
            let c = chars[i];
            if c == '\n' {
                let n = line.len();
                if n > 0 && line[n - 1] == '\r' {
                    line.pop();
                    assert(line@ =~= strip_cr(scan(content@, i as nat).line));
                }
                Self::take_line(&mut section, &mut values, &line);
                line = Vec::new();
            } else {
                line.push(c);
            }
            i += 1;
        }
        if line.len() > 0 {
            Self::take_line(&mut section, &mut values, &line);
        }
        NativeRegistry { values }
    }

    /// The value of a key, if the registry holds one.
    pub fn get(&self, key: &str) -> (value: Option<&String>)
        ensures
            match value {
                Some(v) => self@.contains_key(key@) && self@[key@] == v@,
                None => !self@.contains_key(key@),
            },
    {
        self.values.get(key)
    }
}

} // verus!
