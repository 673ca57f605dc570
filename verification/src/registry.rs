//! Registry files: the text of a registry file for a list of entries.

use crate::template::{EntryText, RegistryEntry, RegistryValueType};
use crate::text::{
    chars_of, decimal_digits, decimal_u32_of, hex_digits, parse_u32, push_char, push_decimal, push_hex,
};
use vstd::prelude::*;
use vstd::string::StringExecFns;

verus! {

/// Writes registry files.
pub struct RegistryManager;

/// A character as it stands inside a quoted registry string: backslash and
/// quotation mark get a backslash before them.
pub open spec fn escape_char(c: char) -> Seq<char> {
    if c == '\\' {
        seq!['\\', '\\']
    } else if c == '"' {
        seq!['\\', '"']
    } else {
        seq![c]
    }
}

/// `acc` followed by the first `n` characters of `s`, escaped.
pub open spec fn escape_onto(acc: Seq<char>, s: Seq<char>, n: nat) -> Seq<char>
    decreases n,
{
    if n == 0 {
        acc
    } else {
        escape_onto(acc, s, (n - 1) as nat) + escape_char(s[n - 1])
    }
}

/// The number that a DWord entry holds: the one that its data spells in
/// decimal, or zero where the data spells none.
pub open spec fn dword_of(data: Seq<char>) -> u32 {
    match decimal_u32_of(data) {
        Some(x) => x,
        None => 0,
    }
}

/// `acc` followed by the line of one entry: its name in quotation marks, an
/// equals sign, and its value. A string value stands escaped in quotation
/// marks; a DWord as `dword:` and eight hexadecimal digits; a binary value as
/// `hex:` and its data as they are.
pub open spec fn line_onto(acc: Seq<char>, entry: EntryText) -> Seq<char> {
    let named = acc + "\""@ + entry.value_name + "\"="@;
    let valued = match entry.value_type {
        RegistryValueType::String => escape_onto(
            named + "\""@,
            entry.value_data,
            entry.value_data.len(),
        ) + "\""@,
        RegistryValueType::DWord => named + "dword:"@ + hex_digits(
            dword_of(entry.value_data) as nat,
            8,
        ),
        RegistryValueType::Binary => named + "hex:"@ + entry.value_data,
    };
    valued + "\n"@
}

/// `acc` followed by the lines of those of the first `n` entries that have
/// the given key, in order.
pub open spec fn group_onto(acc: Seq<char>, entries: Seq<EntryText>, key: Seq<char>, n: nat) -> Seq<
    char,
>
    decreases n,
{
    if n == 0 {
        acc
    } else {
        let before = group_onto(acc, entries, key, (n - 1) as nat);
        if entries[n - 1].key == key {
            line_onto(before, entries[n - 1])
        } else {
            before
        }
    }
}

/// No entry before position `at` has the key of the entry at `at`.
pub open spec fn first_of_key(entries: Seq<EntryText>, at: int) -> bool {
    forall|j: int| 0 <= j < at ==> (#[trigger] entries[j]).key != entries[at].key
}

/// `acc` followed by the groups of the keys that occur first among the first
/// `n` entries: for each such key, in order of first occurrence, the key in
/// square brackets, the lines of all entries of that key, and an empty line.
pub open spec fn groups_onto(acc: Seq<char>, entries: Seq<EntryText>, n: nat) -> Seq<char>
    decreases n,
{
    if n == 0 {
        acc
    } else {
        let before = groups_onto(acc, entries, (n - 1) as nat);
        if first_of_key(entries, n - 1) {
            group_onto(
                before + "["@ + entries[n - 1].key + "]\n"@,
                entries,
                entries[n - 1].key,
                entries.len(),
            ) + "\n"@
        } else {
            before
        }
    }
}

/// The text of the registry file for a list of entries.
pub open spec fn reg_file_of(entries: Seq<EntryText>) -> Seq<char> {
    groups_onto("Windows Registry Editor Version 5.00\n\n"@, entries, entries.len())
}

impl RegistryManager {
    /// Appends a string, escaped.
    fn push_escaped(out: &mut String, data: &str)
        ensures
            final(out)@ == escape_onto(old(out)@, data@, data@.len()),
    {
        let chars = chars_of(data);
        let mut i: usize = 0;
        while i < chars.len()
            invariant
                i <= chars.len(),
                chars@ == data@,
                out@ == escape_onto(old(out)@, data@, i as nat),
            decreases chars.len() - i,
        {
            let c = chars[i];
            let ghost before = out@;
            if c == '\\' {
                push_char(out, '\\');
                push_char(out, '\\');
            } else if c == '"' {
                push_char(out, '\\');
                push_char(out, '"');
            } else {
                push_char(out, c);
            }
            assert(out@ =~= before + escape_char(c));
            i += 1;
        }
    }

    /// Appends the line of one entry.
    fn push_line(out: &mut String, entry: &RegistryEntry)
        ensures
            final(out)@ == line_onto(old(out)@, entry@),
    {
        out.append("\"");
        out.append(entry.value_name.as_str());
        out.append("\"=");
        match entry.value_type {
            RegistryValueType::String => {
                out.append("\"");
                Self::push_escaped(out, entry.value_data.as_str());
                out.append("\"");
            },
            RegistryValueType::DWord => {
                out.append("dword:");
                let number: u32 = match parse_u32(entry.value_data.as_str()) {
                    Some(x) => x,
                    None => 0,
                };
                push_hex(out, number, 8);
            },
            RegistryValueType::Binary => {
                out.append("hex:");
                out.append(entry.value_data.as_str());
            },
        }
        out.append("\n");
    }

    /// Whether no entry before position `at` has the key of the entry at `at`.
    fn is_first_of_key(entries: &[RegistryEntry], at: usize) -> (r: bool)
        requires
            at < entries.len(),
        ensures
            r == first_of_key(entries@.map_values(|e: RegistryEntry| e@), at as int),
    {
        let ghost model = entries@.map_values(|e: RegistryEntry| e@);
        let mut j: usize = 0;
        while j < at
            invariant
                j <= at < entries.len(),
                model == entries@.map_values(|e: RegistryEntry| e@),
                forall|k: int| 0 <= k < j ==> (#[trigger] model[k]).key != model[at as int].key,
            decreases at - j,
        {
            assert(model[j as int].key == entries@[j as int].key@);
            assert(model[at as int].key == entries@[at as int].key@);
            if entries[j].key == entries[at].key {
                return false;
            }
            j += 1;
        }
        true
    }

    /// The text of the registry file for a list of entries: the version line
    /// and an empty line, then one group for each key, in the order in which
    /// the keys first occur. A group is the key in square brackets, one line
    /// for each entry of that key, and an empty line.
    pub fn generate_reg_file(entries: &[RegistryEntry]) -> (content: String)
        ensures
            content@ == reg_file_of(entries@.map_values(|e: RegistryEntry| e@)),
    {
        let ghost model = entries@.map_values(|e: RegistryEntry| e@);
        let mut content = "Windows Registry Editor Version 5.00\n\n".to_owned();
        let mut i: usize = 0;
        while i < entries.len()
            invariant
                i <= entries.len(),
                model == entries@.map_values(|e: RegistryEntry| e@),
                content@ == groups_onto(
                    "Windows Registry Editor Version 5.00\n\n"@,
                    model,
                    i as nat,
                ),
            decreases entries.len() - i,
        {
            if Self::is_first_of_key(entries, i) {
                let key = &entries[i].key;
                assert(model[i as int].key == key@);
                content.append("[");
                content.append(key.as_str());
                content.append("]\n");
                let ghost headed = content@;
                let mut k: usize = 0;
                while k < entries.len()
                    invariant
                        k <= entries.len(),
                        model == entries@.map_values(|e: RegistryEntry| e@),
                        content@ == group_onto(headed, model, key@, k as nat),
                    decreases entries.len() - k,
                {
                    assert(model[k as int] == entries@[k as int]@);
                    if entries[k].key == *key {
                        Self::push_line(&mut content, &entries[k]);
                    }
                    k += 1;
                }
                content.append("\n");
            }
            i += 1;
        }
        content
    }

    /// The name of the registry file that is written at a given time.
    pub fn update_file_name(timestamp: u64) -> (name: String)
        ensures
            name@ == update_file_of(timestamp),
    {
        let mut name = "pancho_update_".to_owned();
        push_decimal(&mut name, timestamp);
        name.append(".reg");
        name
    }

    /// What is written so that a bottle holds the given entries: the name and
    /// the text of a registry file to import, or nothing where there are no
    /// entries.
    pub fn write_entries(entries: &[RegistryEntry], timestamp: u64) -> (file: Option<
        (String, String),
    >)
        ensures
            match file {
                None => entries@.len() == 0,
                Some(f) => entries@.len() > 0 && f.0@ == update_file_of(timestamp) && f.1@
                    == reg_file_of(entries@.map_values(|e: RegistryEntry| e@)),
            },
    {
        if entries.len() == 0 {
            None
        } else {
            Some((Self::update_file_name(timestamp), Self::generate_reg_file(entries)))
        }
    }

    /// The registry entry that sets how one library is loaded.
    pub fn dll_override_entry(dll: &str, mode: &str) -> (entry: RegistryEntry)
        ensures
            entry@ == dll_override_of(dll@, mode@),
    {
        RegistryEntry {
            key: "HKEY_CURRENT_USER\\Software\\Wine\\DllOverrides".to_owned(),
            value_name: dll.to_owned(),
            value_type: RegistryValueType::String,
            value_data: mode.to_owned(),
        }
    }
}

/// The name of the registry file that is written at a given time.
pub open spec fn update_file_of(timestamp: u64) -> Seq<char> {
    "pancho_update_"@ + decimal_digits(timestamp as nat) + ".reg"@
}

/// The registry entry that sets how one library is loaded.
pub open spec fn dll_override_of(dll: Seq<char>, mode: Seq<char>) -> EntryText {
    EntryText {
        key: "HKEY_CURRENT_USER\\Software\\Wine\\DllOverrides"@,
        value_name: dll,
        value_type: RegistryValueType::String,
        value_data: mode,
    }
}

} // verus!
