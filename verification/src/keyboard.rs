//! Keyboard encoder: logical keys to usage codes, and six-key rollover.

use vstd::prelude::*;
use crate::gadget::{IpcCommand, IpcCommandView};
use crate::hid::{lemma_keyboard_round_trip, KeyboardReport};

verus! {

/// Whether a key went down or up.
#[derive(Clone, Copy, Debug, PartialEq, Eq, Structural)]
pub enum ElementState {
    Pressed,
    Released,
}

/// A key that has a name instead of a character.
#[derive(Clone, Copy, Debug, PartialEq, Eq, Structural)]
pub enum NamedKey {
    Enter,
    Escape,
    Backspace,
    Tab,
    Space,
    Other,
}

/// The meaning of a key under the active layout.
#[derive(Clone, Debug, PartialEq, Eq)]
pub enum Key {
    Named(NamedKey),
    Character(String),
    Unidentified,
}

/// One key transition as the windowing layer reports it.
#[derive(Clone, Debug, PartialEq, Eq)]
pub struct KeyEvent {
    pub logical_key: Key,
    pub state: ElementState,
    pub repeat: bool,
}

/// The lower-case form of a string as `str::to_lowercase` computes it.
pub uninterp spec fn lowercase_of(s: Seq<char>) -> Seq<char>;

/// Calls `str::to_lowercase`, which returns the lower-case equivalent of the string as a new
/// `String`; the result depends on the characters alone.
#[verifier::external_body]
fn to_lowercase(s: &str) -> (lower: String)
    ensures
        lower@ == lowercase_of(s@),
{
    s.to_lowercase()
}

/// Usage code of a character on a US layout: letters, digits, and the punctuation that
/// shares the digit row and the five keys right of it, shifted or not.
pub open spec fn char_usage(c: char) -> Option<u8> {
    if 'a' <= c <= 'z' {
        Some((0x04 + (c as int - 'a' as int)) as u8)
    } else if '1' <= c <= '9' {
        Some((0x1E + (c as int - '1' as int)) as u8)
    } else if c == '!' {
        Some(0x1Eu8)
    } else if c == '@' {
        Some(0x1Fu8)
    } else if c == '#' {
        Some(0x20u8)
    } else if c == '$' {
        Some(0x21u8)
    } else if c == '%' {
        Some(0x22u8)
    } else if c == '^' {
        Some(0x23u8)
    } else if c == '&' {
        Some(0x24u8)
    } else if c == '*' {
        Some(0x25u8)
    } else if c == '(' {
        Some(0x26u8)
    } else if c == ')' || c == '0' {
        Some(0x27u8)
    } else if c == '_' || c == '-' {
        Some(0x2Du8)
    } else if c == '=' || c == '+' {
        Some(0x2Eu8)
    } else if c == '[' || c == '{' {
        Some(0x2Fu8)
    } else if c == ']' || c == '}' {
        Some(0x30u8)
    } else if c == '\\' || c == '|' {
        Some(0x31u8)
    } else {
        None
    }
}

/// Usage code of a named key.
pub open spec fn named_usage(key: NamedKey) -> Option<u8> {
    match key {
        NamedKey::Enter => Some(0x28u8),
        NamedKey::Escape => Some(0x29u8),
        NamedKey::Backspace => Some(0x2Au8),
        NamedKey::Tab => Some(0x2Bu8),
        NamedKey::Space => Some(0x2Cu8),
        NamedKey::Other => None,
    }
}

/// Usage code of the first character of an already lower-cased text.
pub open spec fn text_usage(lower: Seq<char>) -> Option<u8> {
    if lower.len() == 0 {
        None
    } else {
        char_usage(lower[0])
    }
}

/// Usage code of a logical key: a character key goes by the first character of its
/// lower-cased text.
pub open spec fn key_usage(key: Key) -> Option<u8> {
    match key {
        Key::Named(named) => named_usage(named),
        Key::Character(text) => text_usage(lowercase_of(text@)),
        Key::Unidentified => None,
    }
}

/// Maps a lower-case character to its USB keyboard usage code, if it has one.
pub fn usage_for_char(c: char) -> (code: Option<u8>)
    ensures
        code == char_usage(c),
{
    if c >= 'a' && c <= 'z' {
        let offset: u32 = c as u32 - 'a' as u32;
        Some(0x04 + offset as u8)
    } else if c >= '1' && c <= '9' {
        let offset: u32 = c as u32 - '1' as u32;
        Some(0x1E + offset as u8)
    } else if c == '!' {
        Some(0x1E)
    } else if c == '@' {
        Some(0x1F)
    } else if c == '#' {
        Some(0x20)
    } else if c == '$' {
        Some(0x21)
    } else if c == '%' {
        Some(0x22)
    } else if c == '^' {
        Some(0x23)
    } else if c == '&' {
        Some(0x24)
    } else if c == '*' {
        Some(0x25)
    } else if c == '(' {
        Some(0x26)
    } else if c == ')' || c == '0' {
        Some(0x27)
    } else if c == '_' || c == '-' {
        Some(0x2D)
    } else if c == '=' || c == '+' {
        Some(0x2E)
    } else if c == '[' || c == '{' {
        Some(0x2F)
    } else if c == ']' || c == '}' {
        Some(0x30)
    } else if c == '\\' || c == '|' {
        Some(0x31)
    } else {
        None
    }
}

/// Maps a named key to its USB keyboard usage code, if it has one.
pub fn usage_for_named(key: NamedKey) -> (code: Option<u8>)
    ensures
        code == named_usage(key),
{
    match key {
        NamedKey::Enter => Some(0x28),
        NamedKey::Escape => Some(0x29),
        NamedKey::Backspace => Some(0x2A),
        NamedKey::Tab => Some(0x2B),
        NamedKey::Space => Some(0x2C),
        NamedKey::Other => None,
    }
}

/// Usage code of the first character of `lower`, which the caller has lower-cased.
pub fn usage_for_text(lower: &str) -> (code: Option<u8>)
    ensures
        code == text_usage(lower@),
{
    if lower.unicode_len() == 0 {
        None
    } else {
        usage_for_char(lower.get_char(0))
    }
}

/// Maps the logical key of an event to its USB keyboard usage code, if it has one.
pub fn keyboard_usage(key_event: &KeyEvent) -> (code: Option<u8>)
    ensures
        code == key_usage(key_event.logical_key),
{
    match &key_event.logical_key {
        Key::Named(named) => usage_for_named(*named),
        Key::Character(text) => {
            let lower = to_lowercase(text.as_str());
            usage_for_text(lower.as_str())
        },
        Key::Unidentified => None,
    }
}

/// Every usage code the mapping yields is a real key: never the empty-slot value 0.
pub proof fn lemma_usage_nonzero(key: Key)
    ensures
        key_usage(key) matches Some(code) ==> 0x04 <= code <= 0x31,
{
}

/// `index` is the first position of `slots` that holds `value`.
pub open spec fn is_first(slots: Seq<u8>, value: u8, index: int) -> bool {
    &&& 0 <= index < slots.len()
    &&& slots[index] == value
    &&& forall|j: int| 0 <= j < index ==> slots[j] != value
}

/// The first position of `slots` that holds `value`, where there is one.
pub open spec fn first_index(slots: Seq<u8>, value: u8) -> int {
    choose|index: int| is_first(slots, value, index)
}

/// No usage code occupies two slots.
pub open spec fn distinct_keys(slots: Seq<u8>) -> bool {
    forall|i: int, j: int| 0 <= i < j < slots.len() && slots[i] != 0 ==> slots[i] != slots[j]
}

/// Slots after a key with usage `code` goes down: a code that is already held, or that
/// finds every slot taken, changes nothing; a new one takes the first empty slot.
pub open spec fn pressed(slots: Seq<u8>, code: u8) -> Seq<u8> {
    if code == 0 || slots.contains(code) || !slots.contains(0) {
        slots
    } else {
        slots.update(first_index(slots, 0), code)
    }
}

/// Slots after a key with usage `code` goes up: its slot is emptied, if it has one.
pub open spec fn released(slots: Seq<u8>, code: u8) -> Seq<u8> {
    if code == 0 || !slots.contains(code) {
        slots
    } else {
        slots.update(first_index(slots, code), 0)
    }
}

/// Slots after one transition of the key with usage `code`.
pub open spec fn key_applied(slots: Seq<u8>, code: u8, state: ElementState) -> Seq<u8> {
    match state {
        ElementState::Pressed => pressed(slots, code),
        ElementState::Released => released(slots, code),
    }
}

/// Slots after a key event: repeats and keys without a usage code change nothing.
pub open spec fn event_applied(slots: Seq<u8>, key_event: KeyEvent) -> Seq<u8> {
    if key_event.repeat {
        slots
    } else {
        match key_usage(key_event.logical_key) {
            Some(code) => key_applied(slots, code, key_event.state),
            None => slots,
        }
    }
}

/// The first position that holds a value is the only index that `is_first` accepts.
pub proof fn lemma_first_index(slots: Seq<u8>, value: u8, index: int)
    requires
        is_first(slots, value, index),
    ensures
        first_index(slots, value) == index,
{
    let chosen = first_index(slots, value);
    assert(is_first(slots, value, chosen));
    if chosen < index {
        assert(slots[chosen] != value);
    } else if index < chosen {
        assert(slots[index] != value);
    }
}

/// A value that occurs in `slots` has a first position.
pub proof fn lemma_first_exists(slots: Seq<u8>, value: u8)
    requires
        slots.contains(value),
    ensures
        is_first(slots, value, first_index(slots, value)),
    decreases slots.len(),
{
    let k = choose|k: int| 0 <= k < slots.len() && slots[k] == value;
    assert(0 <= k < slots.len() && slots[k] == value);
    if exists|j: int| 0 <= j < k && slots[j] == value {
        let j = choose|j: int| 0 <= j < k && slots[j] == value;
        let shorter = slots.subrange(0, k);
        assert(shorter[j] == value);
        assert(shorter.contains(value));
        lemma_first_exists(shorter, value);
        let f = first_index(shorter, value);
        assert(is_first(slots, value, f)) by {
            assert(slots[f] == shorter[f]);
            assert forall|i: int| 0 <= i < f implies slots[i] != value by {
                assert(slots[i] == shorter[i]);
            }
        }
    } else {
        assert(is_first(slots, value, k));
    }
}

/// The keyboard encoder: the report as the host last saw it, and its wire bytes.
pub struct Keyboard {
    report: KeyboardReport,
    report_buf: Vec<u8>,
}

impl Keyboard {
    #[verifier::type_invariant]
    pub closed spec fn well_formed(self) -> bool {
        &&& self.report.reserved == 0
        &&& self.report.leds == 0
        &&& distinct_keys(self.report.keycodes@)
        &&& self.report_buf@ == self.report.wire()
    }

    /// The six key slots.
    pub closed spec fn slots(self) -> Seq<u8> {
        self.report.keycodes@
    }

    /// The modifier byte.
    pub closed spec fn modifier(self) -> u8 {
        self.report.modifier
    }

    /// The LED byte. Nothing sets it, so it is always 0.
    pub closed spec fn leds(self) -> u8 {
        self.report.leds
    }

    /// The bytes of the report that was serialized last.
    pub closed spec fn buffer(self) -> Seq<u8> {
        self.report_buf@
    }

    /// A keyboard with nothing held and an all-zero report buffer.
    pub fn new() -> (keyboard: Keyboard)
        ensures
            keyboard.slots() == Seq::new(6, |i: int| 0u8),
            keyboard.modifier() == 0,
            keyboard.leds() == 0,
            keyboard.buffer() == Seq::new(8, |i: int| 0u8),
    {
        let report = KeyboardReport::new();
        let report_buf: Vec<u8> = vec![0u8; 8];
        assert(report_buf@ =~= report.wire());
        assert(report_buf@ =~= Seq::new(8, |i: int| 0u8));
        Keyboard { report, report_buf }
    }

    /// The current report. It is what the bytes serialized last decode to.
    pub fn report(&self) -> (report: KeyboardReport)
        ensures
            report.keycodes@ == self.slots(),
            report.modifier == self.modifier(),
            report.leds == self.leds(),
            report.leds == 0,
            report.reserved == 0,
            distinct_keys(report.keycodes@),
            KeyboardReport::from_wire(self.buffer()) == Some(report),
    {
        proof {
            use_type_invariant(self);
            lemma_keyboard_round_trip(self.report);
        }
        self.report
    }

    /// The bytes of the report that was serialized last: always the wire form of the
    /// current report.
    pub fn report_buf(&self) -> (bytes: &Vec<u8>)
        ensures
            bytes@ == self.buffer(),
            bytes@ == crate::hid::keyboard_wire(self.modifier(), 0, self.slots()),
    {
        proof {
            use_type_invariant(self);
        }
        &self.report_buf
    }

    /// Applies one transition of the key with usage `code`. A report is serialized and
    /// returned exactly when the slots change.
    pub fn apply(&mut self, code: u8, state: ElementState) -> (emitted: Option<IpcCommand>)
        ensures
            final(self).slots() == key_applied(old(self).slots(), code, state),
            final(self).modifier() == old(self).modifier(),
            final(self).leds() == 0,
            final(self).buffer() == crate::hid::keyboard_wire(
                final(self).modifier(),
                0,
                final(self).slots(),
            ),
            distinct_keys(final(self).slots()),
            emitted is Some <==> final(self).slots() != old(self).slots(),
            emitted matches Some(command) ==> command@ == IpcCommandView::KeyboardReport(
                final(self).buffer(),
            ),
    {
        proof {
            use_type_invariant(&*self);
        }
        if code == 0 {
            return None;
        }
        let ghost before = self.report.keycodes@;
        let mut found: Option<usize> = None;
        let mut free: Option<usize> = None;
        let mut i: usize = 0;
        while i < 6
            invariant
                i <= 6,
                code != 0,
                before == self.report.keycodes@,
                before.len() == 6,
                found matches Some(k) ==> is_first(before, code, k as int),
                found is None ==> forall|j: int| 0 <= j < i ==> before[j] != code,
                free matches Some(k) ==> is_first(before, 0, k as int),
                free is None ==> forall|j: int| 0 <= j < i ==> before[j] != 0,
            decreases 6 - i,
        {
            let slot = self.report.keycodes[i];
            if slot == code && found.is_none() {
                found = Some(i);
            } else if slot == 0 && free.is_none() {
                free = Some(i);
            }
            i = i + 1;
        }
        proof {
            if let Some(k) = found {
                lemma_first_index(before, code, k as int);
            }
            if let Some(k) = free {
                lemma_first_index(before, 0, k as int);
            }
        }
        let change: Option<(usize, u8)> = match state {
            ElementState::Pressed => match (found, free) {
                (None, Some(k)) => Some((k, code)),
                _ => None,
            },
            ElementState::Released => match found {
                Some(k) => Some((k, 0)),
                None => None,
            },
        };
        match change {
            None => {
                assert(key_applied(before, code, state) == before);
                None
            },
            Some((k, value)) => {
                let mut report = self.report;
                report.keycodes[k] = value;
                let mut report_buf: Vec<u8> = vec![0u8; 8];
                report.write_to(&mut report_buf);
                let bytes = report_buf.clone();
                proof {
                    assert(report.keycodes@ == before.update(k as int, value));
                    assert(report.keycodes@ == key_applied(before, code, state));
                    assert(report.keycodes@[k as int] != before[k as int]);
                    assert(report_buf@ =~= report.wire());
                    assert(bytes@ =~= report_buf@);
                    assert(distinct_keys(report.keycodes@)) by {
                        assert forall|a: int, b: int|
                            0 <= a < b < 6 && report.keycodes@[a] != 0 implies report.keycodes@[a]
                            != report.keycodes@[b] by {
                            assert(before[a] != 0 ==> before[a] != before[b]);
                        }
                    }
                }
                *self = Keyboard { report, report_buf };
                Some(IpcCommand::KeyboardReport(bytes))
            },
        }
    }

    /// Handles one key event. Auto-repeat and keys without a usage code are ignored;
    /// otherwise the key's code is applied to the slots. A report is serialized and
    /// returned exactly when the slots change.
    pub fn handle_input(&mut self, key_event: KeyEvent) -> (emitted: Option<IpcCommand>)
        ensures
            final(self).slots() == event_applied(old(self).slots(), key_event),
            final(self).modifier() == old(self).modifier(),
            final(self).leds() == 0,
            final(self).buffer() == crate::hid::keyboard_wire(
                final(self).modifier(),
                0,
                final(self).slots(),
            ),
            distinct_keys(final(self).slots()),
            emitted is Some <==> final(self).slots() != old(self).slots(),
            emitted matches Some(command) ==> command@ == IpcCommandView::KeyboardReport(
                final(self).buffer(),
            ),
    {
        proof {
            use_type_invariant(&*self);
        }
        if key_event.repeat {
            return None;
        }
        match keyboard_usage(&key_event) {
            Some(code) => self.apply(code, key_event.state),
            None => None,
        }
    }
}

} // verus!
