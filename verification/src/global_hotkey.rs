use vstd::prelude::*;

use livesplit_hotkey::KeyCode;

use crate::recorder::lemma_modifier_names_distinct;
use crate::text::{keys_view, split_keys, split_on};

verus! {

/// A physical key of the keyboard, as the global hotkey listener names it.
#[verifier::external_type_specification]
#[verifier::external_body]
pub struct ExKeyCode(KeyCode);

/// The key code that `KeyCode::from_str` finds for a key name (such as
/// `KeyT` or `T`), or `None` when the name is not one it knows.
pub uninterp spec fn parsed_key_code(name: Seq<char>) -> Option<KeyCode>;

/// Whether `KeyCode::from_str` knows a key name.
pub open spec fn key_code_accepts(name: Seq<char>) -> bool {
    parsed_key_code(name) is Some
}

/// Calls `livesplit_hotkey::KeyCode::from_str`, which looks the name up in
/// a fixed table of key names and depends on nothing else. Claimed: it
/// returns the key code that `parsed_key_code` gives for the name, and
/// fails exactly when that is `None`.
#[verifier::external_body]
fn parse_key_code(name: &str) -> (r: Result<KeyCode, ()>)
    ensures
        match r {
            Ok(c) => parsed_key_code(name@) == Some(c),
            Err(_) => parsed_key_code(name@) is None,
        },
{
    <KeyCode as core::str::FromStr>::from_str(name)
}

/// The description of a global hotkey: which modifiers it holds and, when
/// its combination names a plain key, that key.
pub struct GlobalHotkey {
    pub control: bool,
    pub alt: bool,
    pub shift: bool,
    /// `None` keeps the key the listener already uses.
    pub key_code: Option<KeyCode>,
}

/// Some key of the combination is not a modifier.
pub open spec fn has_plain_key(keys: Seq<Seq<char>>) -> bool {
    exists|i: int|
        0 <= i < keys.len() && #[trigger] keys[i] != "Control"@ && keys[i] != "Alt"@ && keys[i]
            != "Shift"@
}

/// Some key of the combination is `name`.
pub open spec fn names_key(keys: Seq<Seq<char>>, name: Seq<char>) -> bool {
    exists|i: int| 0 <= i < keys.len() && #[trigger] keys[i] == name
}

/// Adding a key to a combination names `name` when the combination already
/// did or the added key is `name`.
pub proof fn lemma_names_key_push(keys: Seq<Seq<char>>, x: Seq<char>, name: Seq<char>)
    ensures
        names_key(keys.push(x), name) == (names_key(keys, name) || x == name),
{
    let after = keys.push(x);
    if names_key(keys, name) {
        let j = choose|j: int| 0 <= j < keys.len() && #[trigger] keys[j] == name;
        assert(after[j] == keys[j]);
    }
    if x == name {
        assert(after[keys.len() as int] == name);
    }
    if names_key(after, name) && !names_key(keys, name) {
        let j = choose|j: int| 0 <= j < after.len() && #[trigger] after[j] == name;
        if j < keys.len() {
            assert(keys[j] == after[j]);
        }
    }
}

/// Adding a key to a combination gives it a plain key when it already had
/// one or the added key is plain.
pub proof fn lemma_has_plain_key_push(keys: Seq<Seq<char>>, x: Seq<char>)
    ensures
        has_plain_key(keys.push(x)) == (has_plain_key(keys) || (x != "Control"@ && x != "Alt"@
            && x != "Shift"@)),
{
    let after = keys.push(x);
    if has_plain_key(keys) {
        let j = choose|j: int|
            0 <= j < keys.len() && #[trigger] keys[j] != "Control"@ && keys[j] != "Alt"@
                && keys[j] != "Shift"@;
        assert(after[j] == keys[j]);
    }
    if x != "Control"@ && x != "Alt"@ && x != "Shift"@ {
        assert(after[keys.len() as int] == x);
    }
    if has_plain_key(after) && !has_plain_key(keys) {
        let j = choose|j: int|
            0 <= j < after.len() && #[trigger] after[j] != "Control"@ && after[j] != "Alt"@
                && after[j] != "Shift"@;
        if j < keys.len() {
            assert(keys[j] == after[j]);
        }
    }
}

fn token_is(token: &Vec<char>, name: &str) -> (r: bool)
    ensures
        r == (token@ == name@),
{
    let n: usize = name.unicode_len();
    if token.len() != n {
        return false;
    }
    let mut i: usize = 0;
    while i < n
        invariant
            n == name@.len(),
            token@.len() == n,
            i <= n,
            forall|j: int| 0 <= j < i ==> token@[j] == name@[j],
        decreases n - i,
    {
        if token[i] != name.get_char(i) {
            return false;
        }
        i = i + 1;
    }
    assert(token@ =~= name@);
    true
}

/// The hotkey that a combination typed in the customization dialog
/// describes: `Control`, `Alt` and `Shift` among its `+`-separated keys set
/// those modifiers; any other key makes the hotkey use the key code named
/// `key_code` (as `KeyCode::from_str` reads it), which must then be a name
/// the listener knows.
pub fn hotkey_from_combination(combination: &str, key_code: &str) -> (h: GlobalHotkey)
    requires
        has_plain_key(split_on(combination@, '+')) ==> key_code_accepts(key_code@),
    ensures
        h.control == names_key(split_on(combination@, '+'), "Control"@),
        h.alt == names_key(split_on(combination@, '+'), "Alt"@),
        h.shift == names_key(split_on(combination@, '+'), "Shift"@),
        h.key_code == (if has_plain_key(split_on(combination@, '+')) {
            parsed_key_code(key_code@)
        } else {
            None
        }),
{
    let keys = split_keys(combination);
    let ghost k = keys_view(keys@);
    let mut control = false;
    let mut alt = false;
    let mut shift = false;
    let mut plain = false;
    let mut i: usize = 0;
    while i < keys.len()
        invariant
            k == keys_view(keys@),
            k == split_on(combination@, '+'),
            i <= keys.len(),
            control == names_key(k.take(i as int), "Control"@),
            alt == names_key(k.take(i as int), "Alt"@),
            shift == names_key(k.take(i as int), "Shift"@),
            plain == has_plain_key(k.take(i as int)),
        decreases keys.len() - i,
    {
        let ghost before = k.take(i as int);
        let ghost after = k.take(i + 1);
        assert(after =~= before.push(k[i as int]));
        if token_is(&keys[i], "Control") {
            control = true;
            assert(after[i as int] == "Control"@);
        } else if token_is(&keys[i], "Alt") {
            alt = true;
            assert(after[i as int] == "Alt"@);
        } else if token_is(&keys[i], "Shift") {
            shift = true;
            assert(after[i as int] == "Shift"@);
        } else {
            plain = true;
            assert(after[i as int] != "Control"@);
        }
        proof {
            lemma_modifier_names_distinct();
            lemma_names_key_push(before, k[i as int], "Control"@);
            lemma_names_key_push(before, k[i as int], "Alt"@);
            lemma_names_key_push(before, k[i as int], "Shift"@);
            lemma_has_plain_key_push(before, k[i as int]);
        }
        i = i + 1;
    }
    assert(k.take(keys.len() as int) =~= k);
    let key = if plain {
        match parse_key_code(key_code) {
            Ok(code) => Some(code),
            Err(_) => None,
        }
    } else {
        None
    };
    GlobalHotkey { control, alt, shift, key_code: key }
}

/// Like `hotkey_from_combination`, but gives nothing when the combination
/// names a plain key and `key_code` is not a key name the listener knows.
pub fn try_hotkey_from_combination(combination: &str, key_code: &str) -> (h: Option<
    GlobalHotkey,
>)
    ensures
        h is None <==> (has_plain_key(split_on(combination@, '+')) && !key_code_accepts(
            key_code@,
        )),
        h matches Some(g) ==> {
            &&& g.control == names_key(split_on(combination@, '+'), "Control"@)
            &&& g.alt == names_key(split_on(combination@, '+'), "Alt"@)
            &&& g.shift == names_key(split_on(combination@, '+'), "Shift"@)
            &&& g.key_code == (if has_plain_key(split_on(combination@, '+')) {
                parsed_key_code(key_code@)
            } else {
                None
            })
        },
{
    let keys = split_keys(combination);
    let mut plain = false;
    let mut i: usize = 0;
    while i < keys.len()
        invariant
            keys_view(keys@) == split_on(combination@, '+'),
            i <= keys.len(),
            plain == has_plain_key(keys_view(keys@).take(i as int)),
        decreases keys.len() - i,
    {
        let ghost k = keys_view(keys@);
        let ghost before = k.take(i as int);
        let ghost after = k.take(i + 1);
        assert(after =~= before.push(k[i as int]));
        if !token_is(&keys[i], "Control") && !token_is(&keys[i], "Alt") && !token_is(
            &keys[i],
            "Shift",
        ) {
            plain = true;
            assert(after[i as int] != "Control"@);
        }
        proof {
            lemma_has_plain_key_push(before, k[i as int]);
        }
        i = i + 1;
    }
    assert(keys_view(keys@).take(keys.len() as int) =~= keys_view(keys@));
    if plain {
        match parse_key_code(key_code) {
            Ok(_) => Some(hotkey_from_combination(combination, key_code)),
            Err(_) => None,
        }
    } else {
        Some(hotkey_from_combination(combination, key_code))
    }
}

} // verus!
