//! Registry patches: the text that is appended to the registry file of a
//! prefix for a list of keys.

use crate::text::{matches_at, starts_with};
use vstd::prelude::*;
use vstd::string::StringExecFns;

verus! {

/// One key to set: section, name, value.
pub type RegistryKey = (&'static str, &'static str, &'static str);

/// Mathematical model of a `RegistryKey`.
pub type KeyText = (Seq<char>, Seq<char>, Seq<char>);

/// The model of a list of keys.
pub open spec fn keys_text(keys: Seq<RegistryKey>) -> Seq<KeyText> {
    keys.map_values(|k: RegistryKey| (k.0@, k.1@, k.2@))
}

/// `acc` followed by the line of one key. A value that begins with four
/// zeroes is written as a DWord, any other as a string between spaces.
pub open spec fn key_line_onto(acc: Seq<char>, name: Seq<char>, value: Seq<char>) -> Seq<char> {
    if matches_at(value, "0000"@, 0) {
        acc + "\""@ + name + "\" = dword:"@ + value + "\n"@
    } else {
        acc + "\""@ + name + "\"=\" "@ + value + " \"\n"@
    }
}

/// The section in force after the first `n` keys: that of the last of them,
/// or the empty one before any.
pub open spec fn section_after(keys: Seq<KeyText>, n: nat) -> Seq<char> {
    if n == 0 {
        Seq::empty()
    } else {
        keys[n - 1].0
    }
}

/// `acc` followed by the text of the first `n` keys: each key has its line,
/// and before it, where its section is not the one in force, an empty line
/// and the section in square brackets.
pub open spec fn keys_onto(acc: Seq<char>, keys: Seq<KeyText>, n: nat) -> Seq<char>
    decreases n,
{
    if n == 0 {
        acc
    } else {
        let before = keys_onto(acc, keys, (n - 1) as nat);
        let key = keys[n - 1];
        let headed = if key.0 != section_after(keys, (n - 1) as nat) {
            before + "\n["@ + key.0 + "]\n"@
        } else {
            before
        };
        key_line_onto(headed, key.1, key.2)
    }
}

/// The text that is appended to a registry file for a list of keys.
pub open spec fn patch_text(keys: Seq<KeyText>) -> Seq<char> {
    keys_onto(Seq::empty(), keys, keys.len())
}

/// What `inject_registry_keys` returns: the patch text for an initialized
/// prefix, an error for any other.
pub open spec fn inject_spec(keys: Seq<KeyText>, prefix_initialized: bool) -> Result<
    Seq<char>,
    Seq<char>,
> {
    if prefix_initialized {
        Ok(patch_text(keys))
    } else {
        Err("Prefix not yet initialized"@)
    }
}

/// A result of text, by its characters.
pub open spec fn text_result(r: Result<String, String>) -> Result<Seq<char>, Seq<char>> {
    match r {
        Ok(text) => Ok(text@),
        Err(e) => Err(e@),
    }
}

/// The text to append to the registry file of a prefix so that it holds the
/// given keys. Fails where the prefix has no registry file yet.
pub fn inject_registry_keys(keys: &Vec<RegistryKey>, prefix_initialized: bool) -> (r: Result<
    String,
    String,
>)
    ensures
        text_result(r) == inject_spec(keys_text(keys@), prefix_initialized),
{
    if !prefix_initialized {
        return Err("Prefix not yet initialized".to_owned());
    }
    let ghost model = keys_text(keys@);
    let mut out = String::new();
    let mut i: usize = 0;
    while i < keys.len()
        invariant
            i <= keys.len(),
            model == keys_text(keys@),
            out@ == keys_onto(Seq::empty(), model, i as nat),
        decreases keys.len() - i,
    {
        let (section, name, value) = keys[i];
        assert(model[i as int] == (section@, name@, value@));
        let differs = if i == 0 {
            !crate::text::same(section, "")
        } else {
            assert(model[i - 1] == (keys@[i - 1].0@, keys@[i - 1].1@, keys@[i - 1].2@));
            !crate::text::same(section, keys[i - 1].0)
        };
        proof {
            reveal_strlit("");
            assert(""@ =~= Seq::<char>::empty());
        }
        if differs {
            out.append("\n[");
            out.append(section);
            out.append("]\n");
        }
        out.append("\"");
        out.append(name);
        if starts_with(value, "0000") {
            out.append("\" = dword:");
            out.append(value);
            out.append("\n");
        } else {
            out.append("\"=\" ");
            out.append(value);
            out.append(" \"\n");
        }
        i += 1;
    }
    Ok(out)
}

} // verus!
