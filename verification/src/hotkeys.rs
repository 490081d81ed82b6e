//! Global-shortcut bookkeeping.
//!
//! A shortcut is modeled as a pair of plain strings: a modifier name such as
//! `CONTROL` and a key-code name such as `KeyE`. The front end turns each
//! pair into a registered system-wide hotkey and hands the events back. A
//! `CustomizeHotkey` carries a user's request to rebind one slot: the slot
//! index, a modifier word as the settings panel spells it, and the bare key
//! letter.

use vstd::prelude::*;
use vstd::string::*;
use vstd::std_specs::vec::vec_index_mut;

verus! {

/// A request to rebind the shortcut in slot `id` to `modifier` plus the key
/// named by `code`.
pub struct CustomizeHotkey {
    id: usize,
    modifier: String,
    code: String,
}

impl Default for CustomizeHotkey {
    /// The empty request: an out-of-range slot and the settings panel's
    /// placeholder words.
    fn default() -> (r: CustomizeHotkey)
        ensures
            r.spec_id() == usize::MAX,
            r.spec_modifier() == "modifier"@,
            r.spec_code() == "Key"@,
    {
        CustomizeHotkey {
            id: usize::MAX,
            modifier: String::from_str("modifier"),
            code: String::from_str("Key"),
        }
    }
}

impl PartialEq for CustomizeHotkey {
    fn eq(&self, other: &Self) -> (r: bool) {
        self.id == other.id && self.modifier == other.modifier && self.code == other.code
    }
}

impl vstd::std_specs::cmp::PartialEqSpecImpl for CustomizeHotkey {
    open spec fn obeys_eq_spec() -> bool {
        true
    }

    closed spec fn eq_spec(&self, other: &Self) -> bool {
        self.id == other.id && self.modifier@ == other.modifier@ && self.code@ == other.code@
    }
}

impl CustomizeHotkey {
    pub fn new(id: usize, modifier: String, code: String) -> (r: Self)
        ensures
            r.spec_id() == id,
            r.spec_modifier() == modifier@,
            r.spec_code() == code@,
    {
        CustomizeHotkey { id: id, modifier: modifier, code: code }
    }

    pub closed spec fn spec_id(&self) -> usize {
        self.id
    }

    pub closed spec fn spec_modifier(&self) -> Seq<char> {
        self.modifier@
    }

    pub closed spec fn spec_code(&self) -> Seq<char> {
        self.code@
    }

    /// The slot this request targets.
    pub fn id(&self) -> (r: usize)
        ensures
            r == self.spec_id(),
    {
        self.id
    }

    /// The modifier word as the settings panel spells it.
    pub fn modifier(&self) -> (r: &String)
        ensures
            r@ == self.spec_modifier(),
    {
        &self.modifier
    }

    /// The bare key letter.
    pub fn code(&self) -> (r: &String)
        ensures
            r@ == self.spec_code(),
    {
        &self.code
    }
}

/// A shortcut as the library holds it: a modifier name the hotkey registry
/// understands and a full key-code name.
pub struct HotkeyBinding {
    modifier: String,
    code: String,
}

impl HotkeyBinding {
    pub fn new(modifier: String, code: String) -> (r: Self)
        ensures
            r.spec_modifier() == modifier@,
            r.spec_code() == code@,
    {
        HotkeyBinding { modifier, code }
    }

    pub closed spec fn spec_modifier(&self) -> Seq<char> {
        self.modifier@
    }

    pub closed spec fn spec_code(&self) -> Seq<char> {
        self.code@
    }

    /// The modifier name, for the front end to parse.
    pub fn modifier(&self) -> (r: &String)
        ensures
            r@ == self.spec_modifier(),
    {
        &self.modifier
    }

    /// The key-code name, for the front end to parse.
    pub fn code(&self) -> (r: &String)
        ensures
            r@ == self.spec_code(),
    {
        &self.code
    }

    fn duplicate(&self) -> (r: HotkeyBinding)
        ensures
            r.spec_modifier() == self.spec_modifier(),
            r.spec_code() == self.spec_code(),
    {
        HotkeyBinding { modifier: self.modifier.clone(), code: self.code.clone() }
    }
}

/// The modifier name a rebinding request resolves to: the settings panel's
/// `alt` and `shift` map to themselves, every other word to `CONTROL`.
pub open spec fn spec_modifier_name(m: Seq<char>) -> Seq<char> {
    if m == "alt"@ {
        "ALT"@
    } else if m == "shift"@ {
        "SHIFT"@
    } else {
        "CONTROL"@
    }
}

/// The six shortcut slots: exit, capture, save, copy, save with a name, and
/// crop, in that order.
pub struct Hotkeys {
    hotkeys_vector: Vec<HotkeyBinding>,
}

impl Hotkeys {
    /// The slots as sequences of modifier-name and key-code-name pairs.
    pub closed spec fn bindings_view(self) -> Seq<(Seq<char>, Seq<char>)> {
        self.hotkeys_vector@.map_values(|b: HotkeyBinding| (b.spec_modifier(), b.spec_code()))
    }

    /// The default bindings: control plus E, D, S, C, A and G.
    pub fn new() -> (r: Self)
        ensures
            r.bindings_view().len() == 6,
            r.bindings_view()[0] == ("CONTROL"@, "KeyE"@),
            r.bindings_view()[1] == ("CONTROL"@, "KeyD"@),
            r.bindings_view()[2] == ("CONTROL"@, "KeyS"@),
            r.bindings_view()[3] == ("CONTROL"@, "KeyC"@),
            r.bindings_view()[4] == ("CONTROL"@, "KeyA"@),
            r.bindings_view()[5] == ("CONTROL"@, "KeyG"@),
    {
        let mut v: Vec<HotkeyBinding> = Vec::new();
        v.push(HotkeyBinding::new(String::from_str("CONTROL"), String::from_str("KeyE")));
        v.push(HotkeyBinding::new(String::from_str("CONTROL"), String::from_str("KeyD")));
        v.push(HotkeyBinding::new(String::from_str("CONTROL"), String::from_str("KeyS")));
        v.push(HotkeyBinding::new(String::from_str("CONTROL"), String::from_str("KeyC")));
        v.push(HotkeyBinding::new(String::from_str("CONTROL"), String::from_str("KeyA")));
        v.push(HotkeyBinding::new(String::from_str("CONTROL"), String::from_str("KeyG")));
        Hotkeys { hotkeys_vector: v }
    }

    /// A copy of the bindings, for the front end to register.
    pub fn get_hotkeys(&self) -> (r: Vec<HotkeyBinding>)
        ensures
            r@.len() == self.bindings_view().len(),
            forall|i: int|
                0 <= i < r@.len() ==> {
                    &&& (#[trigger] r@[i]).spec_modifier() == self.bindings_view()[i].0
                    &&& r@[i].spec_code() == self.bindings_view()[i].1
                },
    {
        let mut out: Vec<HotkeyBinding> = Vec::new();
        let mut i: usize = 0;
        while i < self.hotkeys_vector.len()
            invariant
                0 <= i <= self.hotkeys_vector.len(),
                out@.len() == i,
                forall|k: int|
                    0 <= k < i ==> {
                        &&& (#[trigger] out@[k]).spec_modifier() == self.bindings_view()[k].0
                        &&& out@[k].spec_code() == self.bindings_view()[k].1
                    },
            decreases self.hotkeys_vector.len() - i,
        {
            out.push(self.hotkeys_vector[i].duplicate());
            i += 1;
        }
        out
    }

    /// Rebinds the requested slot: the request's modifier word resolves to a
    /// modifier name, the bare key letter gains the `Key` prefix, and the
    /// slot is replaced.
    pub fn update_hotkey(&mut self, new_hotkey: &CustomizeHotkey)
        requires
            new_hotkey.spec_id() < old(self).bindings_view().len(),
        ensures
            final(self).bindings_view() == old(self).bindings_view().update(
                new_hotkey.spec_id() as int,
                (spec_modifier_name(new_hotkey.spec_modifier()), "Key"@ + new_hotkey.spec_code()),
            ),
    {
        proof {
            reveal_strlit("alt");
            reveal_strlit("ctrl");
            reveal_strlit("shift");
            reveal_strlit("mac_cmd");
            reveal_strlit("command");
            reveal_strlit("ALT");
            reveal_strlit("SHIFT");
            reveal_strlit("CONTROL");
        }
        let mut modifier_name: String = String::from_str("CONTROL");
        if new_hotkey.modifier == String::from_str("alt") {
            modifier_name = String::from_str("ALT");
        } else if new_hotkey.modifier == String::from_str("ctrl") {
            modifier_name = String::from_str("CONTROL");
            proof {
                assert("ctrl"@.len() == 4);
                assert("shift"@.len() == 5);
                assert(new_hotkey.spec_modifier() != "shift"@);
            }
        } else if new_hotkey.modifier == String::from_str("shift") {
            modifier_name = String::from_str("SHIFT");
        } else if new_hotkey.modifier == String::from_str("mac_cmd") {
            modifier_name = String::from_str("CONTROL");
        } else if new_hotkey.modifier == String::from_str("command") {
            modifier_name = String::from_str("CONTROL");
        }
        let code = String::from_str("Key").concat(new_hotkey.code.as_str());
        proof {
            assert(modifier_name@ == spec_modifier_name(new_hotkey.spec_modifier()));
            assert(code@ == "Key"@ + new_hotkey.spec_code());
        }
        let slot = vec_index_mut(&mut self.hotkeys_vector, new_hotkey.id);
        *slot = HotkeyBinding { modifier: modifier_name, code };
        proof {
            assert(self.bindings_view() =~~= old(self).bindings_view().update(
                new_hotkey.spec_id() as int,
                (spec_modifier_name(new_hotkey.spec_modifier()), "Key"@ + new_hotkey.spec_code()),
            ));
        }
    }
}

} // verus!
