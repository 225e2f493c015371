//! Which input devices the daemon takes over.
use vstd::prelude::*;
use vstd::utf8::is_ascii_chars;

verus! {

/// What the daemon does with a device it found.
#[derive(Clone, Copy, Debug, PartialEq, Eq, Structural)]
pub enum DeviceRole {
    /// A pointing device: grab it exclusively and translate its events.
    Pointer,
    /// A keyboard: watch it, without grabbing, for disable-while-typing.
    Keyboard,
    /// Anything else: leave it alone.
    Other,
}

/// A device's role and its lower-cased name.
pub struct DeviceIdentity {
    pub role: DeviceRole,
    pub name: String,
}

/// The lower-case form of a string, as `str::to_lowercase` gives it.
pub uninterp spec fn lowercase(s: Seq<char>) -> Seq<char>;

/// An ASCII character in lower case: `A` to `Z` become `a` to `z`, every
/// other character stays.
pub open spec fn ascii_lower_char(c: char) -> char {
    if 'A' <= c && c <= 'Z' {
        ((c as u32) + 32) as char
    } else {
        c
    }
}

/// A string of characters with `ascii_lower_char` applied to each.
pub open spec fn ascii_lowercase(s: Seq<char>) -> Seq<char> {
    s.map_values(|c: char| ascii_lower_char(c))
}

/// `str::to_lowercase`. Its result is taken to be a function of the
/// string's characters alone (named `lowercase`). For an all-ASCII string
/// it is stated to map `A` to `Z` onto `a` to `z` and keep every other
/// character (the Unicode lower-case mapping of the ASCII range); what it
/// does to other characters is left open.
#[verifier::external_body]
fn to_lowercase(s: &str) -> (r: String)
    ensures
        r@ == lowercase(s@),
        is_ascii_chars(s@) ==> r@ == ascii_lowercase(s@),
{
    s.to_lowercase()
}

/// `needle` occurs in `hay` as a run of consecutive characters.
pub open spec fn occurs_in(hay: Seq<char>, needle: Seq<char>) -> bool {
    exists|i: int|
        0 <= i && i + needle.len() <= hay.len() && #[trigger] hay.subrange(i, i + needle.len())
            == needle
}

/// A name that marks a pointing device.
pub open spec fn names_pointer(name: Seq<char>) -> bool {
    ||| occurs_in(name, "touchpad"@)
    ||| occurs_in(name, "trackpoint"@)
    ||| occurs_in(name, "elan"@)
    ||| occurs_in(name, "synaptics"@)
    ||| occurs_in(name, "mouse"@)
}

/// The name a device goes by: its own, or "Unknown".
pub open spec fn reported_name(name: Option<&str>) -> Seq<char> {
    match name {
        Some(n) => n@,
        None => "Unknown"@,
    }
}

/// The role of a device by its lower-cased name and its keys: a name that
/// marks a pointer wins, else a device with keys and `KEY_A` is a keyboard.
pub open spec fn role_of(lower_name: Seq<char>, has_keys: bool, has_key_a: bool) -> DeviceRole {
    if names_pointer(lower_name) {
        DeviceRole::Pointer
    } else if has_keys && has_key_a {
        DeviceRole::Keyboard
    } else {
        DeviceRole::Other
    }
}

/// Whether `needle` occurs in `hay`.
pub fn contains_text(hay: &str, needle: &str) -> (b: bool)
    ensures
        b == occurs_in(hay@, needle@),
{
    let hay_len = hay.unicode_len();
    let needle_len = needle.unicode_len();
    if needle_len > hay_len {
        proof {
            assert forall|i: int|
                0 <= i && i + needle@.len() <= hay@.len() implies #[trigger] hay@.subrange(
                i,
                i + needle@.len(),
            ) != needle@ by {}
        }
        return false;
    }
    let last = hay_len - needle_len;
    let mut i: usize = 0;
    while i <= last
        invariant
            hay_len == hay@.len(),
            needle_len == needle@.len(),
            last == hay_len - needle_len,
            i <= last + 1,
            forall|k: int|
                0 <= k < i ==> #[trigger] hay@.subrange(k, k + needle@.len()) != needle@,
        decreases last + 1 - i,
    {
        let mut j: usize = 0;
        let mut same = true;
        while j < needle_len
            invariant
                hay_len == hay@.len(),
                needle_len == needle@.len(),
                i <= last,
                last == hay_len - needle_len,
                j <= needle_len,
                same ==> forall|m: int| 0 <= m < j ==> hay@[i + m] == needle@[m],
                !same ==> hay@.subrange(i as int, i + needle@.len()) != needle@,
            decreases needle_len - j,
        {
            if hay.get_char(i + j) != needle.get_char(j) {
                if same {
                    assert(hay@.subrange(i as int, i + needle@.len())[j as int] != needle@[j as int]);
                }
                same = false;
            }
            j = j + 1;
        }
        if same {
            assert(hay@.subrange(i as int, i + needle@.len()) =~= needle@);
            return true;
        }
        if i == last {
            return false;
        }
        i = i + 1;
    }
    false
}

/// Whether the daemon keeps a device it opened: a pointer only when it
/// could be grabbed exclusively, a keyboard always (it is only watched),
/// anything else never.
pub fn keeps_device(role: DeviceRole, grabbed: bool) -> (keep: bool)
    ensures
        keep == ((role == DeviceRole::Pointer && grabbed) || role == DeviceRole::Keyboard),
{
    match role {
        DeviceRole::Pointer => grabbed,
        DeviceRole::Keyboard => true,
        DeviceRole::Other => false,
    }
}

/// The role of a device from its lower-cased name and its keys (see `role_of`).
pub fn role_from_lower_name(lower_name: &str, has_keys: bool, has_key_a: bool) -> (role: DeviceRole)
    ensures
        role == role_of(lower_name@, has_keys, has_key_a),
{
    let is_pointer = contains_text(lower_name, "touchpad") || contains_text(
        lower_name,
        "trackpoint",
    ) || contains_text(lower_name, "elan") || contains_text(lower_name, "synaptics")
        || contains_text(lower_name, "mouse");
    if is_pointer {
        DeviceRole::Pointer
    } else if has_keys && has_key_a {
        DeviceRole::Keyboard
    } else {
        DeviceRole::Other
    }
}

/// Classifies a device from the name it reports (if any) and its keys.
/// An ASCII name is lower-cased letter by letter.
pub fn classify_device(name: Option<&str>, has_keys: bool, has_key_a: bool) -> (id: DeviceIdentity)
    ensures
        id.name@ == lowercase(reported_name(name)),
        id.role == role_of(lowercase(reported_name(name)), has_keys, has_key_a),
        is_ascii_chars(reported_name(name)) ==> id.name@ == ascii_lowercase(reported_name(name)),
        is_ascii_chars(reported_name(name)) ==> id.role == role_of(
            ascii_lowercase(reported_name(name)),
            has_keys,
            has_key_a,
        ),
{
    let raw = match name {
        Some(n) => n,
        None => "Unknown",
    };
    let lower = to_lowercase(raw);
    let role = role_from_lower_name(lower.as_str(), has_keys, has_key_a);
    DeviceIdentity { role, name: lower }
}

} // verus!
