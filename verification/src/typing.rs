use vstd::prelude::*;

use crate::recorder::{is_modifier, HotKeyController};
use crate::state::ShortcutRecording;
use crate::text::{lemma_split_join, lemma_split_single, split_on};

verus! {

/// What the customization dialog knows of the combination being typed:
/// the recorder's counters and the indicators it shows, with the typed
/// text and the key added last.
pub struct Typing {
    pub flag: bool,
    pub first: bool,
    pub n_ctrl: int,
    pub n_alt: int,
    pub n_shift: int,
    pub with_modifiers: bool,
    pub dup_modifier: bool,
    pub shortcut_order: bool,
    pub one_key: bool,
    pub new_shortcut: Seq<char>,
    pub prec_hotkey: Seq<char>,
}

/// The typing state held by a recorder and its dialog data.
pub open spec fn typing_of(c: HotKeyController, d: ShortcutRecording) -> Typing {
    Typing {
        flag: c.flag,
        first: c.first,
        n_ctrl: c.n_ctrl as int,
        n_alt: c.n_alt as int,
        n_shift: c.n_shift as int,
        with_modifiers: d.with_modifiers,
        dup_modifier: d.dup_modifier,
        shortcut_order: d.shortcut_order,
        one_key: d.one_key,
        new_shortcut: d.new_shortcut@,
        prec_hotkey: d.prec_hotkey@,
    }
}

/// The typing state when the dialog opens: nothing typed, every indicator
/// at its start value.
pub open spec fn typing_start() -> Typing {
    Typing {
        flag: false,
        first: false,
        n_ctrl: 0,
        n_alt: 0,
        n_shift: 0,
        with_modifiers: false,
        dup_modifier: false,
        shortcut_order: true,
        one_key: true,
        new_shortcut: Seq::<char>::empty(),
        prec_hotkey: Seq::<char>::empty(),
    }
}

/// One key press in the dialog: an empty combination restarts the
/// indicators; a key other than the one added last joins the combination
/// and updates them.
pub open spec fn typing_step(s: Typing, key: Seq<char>) -> Typing {
    let reset = s.new_shortcut.len() == 0;
    let fresh = key != s.prec_hotkey;
    let plain = !is_modifier(key);
    let flag0 = !reset && s.flag;
    let first0 = !reset && s.first;
    let n_ctrl = (if reset { 0 } else { s.n_ctrl }) + (if fresh && key == "Control"@ {
        1int
    } else {
        0int
    });
    let n_alt = (if reset { 0 } else { s.n_alt }) + (if fresh && key == "Alt"@ {
        1int
    } else {
        0int
    });
    let n_shift = (if reset { 0 } else { s.n_shift }) + (if fresh && key == "Shift"@ {
        1int
    } else {
        0int
    });
    let flag = (fresh && plain) || flag0;
    Typing {
        flag,
        first: (fresh && plain) || first0,
        n_ctrl,
        n_alt,
        n_shift,
        with_modifiers: (fresh && !plain) || (!reset && s.with_modifiers),
        dup_modifier: (fresh && (n_ctrl > 1 || n_alt > 1 || n_shift > 1)) || (!reset
            && s.dup_modifier),
        shortcut_order: if fresh && !plain && flag {
            false
        } else {
            reset || s.shortcut_order
        },
        one_key: if fresh && plain && first0 {
            false
        } else {
            reset || s.one_key
        },
        new_shortcut: if !fresh {
            s.new_shortcut
        } else if s.prec_hotkey.len() > 0 {
            s.new_shortcut + seq!['+'] + key
        } else {
            s.new_shortcut + key
        },
        prec_hotkey: if fresh {
            key
        } else {
            s.prec_hotkey
        },
    }
}

/// The typing state after a series of key presses.
pub open spec fn typing_run(s: Typing, presses: Seq<Seq<char>>) -> Typing
    decreases presses.len(),
{
    if presses.len() == 0 {
        s
    } else {
        typing_step(typing_run(s, presses.drop_last()), presses.last())
    }
}

/// The keys that a series of presses types: a press that repeats the key
/// typed last (a held key) types nothing.
pub open spec fn typed_keys(presses: Seq<Seq<char>>) -> Seq<Seq<char>>
    decreases presses.len(),
{
    if presses.len() == 0 {
        Seq::<Seq<char>>::empty()
    } else {
        let prev = typed_keys(presses.drop_last());
        if prev.len() > 0 && presses.last() == prev.last() {
            prev
        } else {
            prev.push(presses.last())
        }
    }
}

/// How often `key` occurs among the typed keys.
pub open spec fn count_key(t: Seq<Seq<char>>, key: Seq<char>) -> int
    decreases t.len(),
{
    if t.len() == 0 {
        0
    } else {
        count_key(t.drop_last(), key) + (if t.last() == key {
            1int
        } else {
            0int
        })
    }
}

/// How many of the typed keys are plain keys (not modifiers).
pub open spec fn count_plain(t: Seq<Seq<char>>) -> int
    decreases t.len(),
{
    if t.len() == 0 {
        0
    } else {
        count_plain(t.drop_last()) + (if is_modifier(t.last()) {
            0int
        } else {
            1int
        })
    }
}

/// Some typed key is a plain key.
pub open spec fn has_plain(t: Seq<Seq<char>>) -> bool {
    exists|i: int| 0 <= i < t.len() && !is_modifier(#[trigger] t[i])
}

/// Some typed key is a modifier.
pub open spec fn has_modifier(t: Seq<Seq<char>>) -> bool {
    exists|i: int| 0 <= i < t.len() && is_modifier(#[trigger] t[i])
}

/// No modifier was typed after a plain key.
pub open spec fn modifiers_first(t: Seq<Seq<char>>) -> bool {
    forall|i: int, j: int|
        0 <= i < j < t.len() && !is_modifier(#[trigger] t[i]) ==> !is_modifier(#[trigger] t[j])
}

/// Some modifier was typed twice.
pub open spec fn modifier_repeated(t: Seq<Seq<char>>) -> bool {
    count_key(t, "Control"@) > 1 || count_key(t, "Alt"@) > 1 || count_key(t, "Shift"@) > 1
}

/// What the recorder and the dialog show after the keys `t` were typed.
pub open spec fn shows_typed(s: Typing, t: Seq<Seq<char>>) -> bool {
    &&& s.flag == has_plain(t)
    &&& s.first == has_plain(t)
    &&& s.n_ctrl == count_key(t, "Control"@)
    &&& s.n_alt == count_key(t, "Alt"@)
    &&& s.n_shift == count_key(t, "Shift"@)
    &&& s.with_modifiers == has_modifier(t)
    &&& s.dup_modifier == modifier_repeated(t)
    &&& s.shortcut_order == modifiers_first(t)
    &&& s.one_key == (count_plain(t) <= 1)
    &&& (s.new_shortcut.len() == 0 <==> t.len() == 0)
    &&& (t.len() == 0 ==> s.prec_hotkey.len() == 0)
    &&& (t.len() > 0 ==> s.prec_hotkey == t.last())
    &&& ((t.len() > 0 && forall|i: int| 0 <= i < t.len() ==> !(#[trigger] t[i]).contains('+'))
        ==> split_on(s.new_shortcut, '+') == t)
}

proof fn lemma_count_plain_positive(t: Seq<Seq<char>>)
    ensures
        count_plain(t) >= 0,
        count_plain(t) > 0 <==> has_plain(t),
    decreases t.len(),
{
    if t.len() > 0 {
        let p = t.drop_last();
        lemma_count_plain_positive(p);
        if has_plain(p) {
            let i = choose|i: int| 0 <= i < p.len() && !is_modifier(#[trigger] p[i]);
            assert(t[i] == p[i]);
        }
        if has_plain(t) {
            let i = choose|i: int| 0 <= i < t.len() && !is_modifier(#[trigger] t[i]);
            if i < t.len() - 1 {
                assert(p[i] == t[i]);
            }
        }
        if !is_modifier(t.last()) {
            assert(!is_modifier(t[t.len() - 1]));
        }
    }
}

proof fn lemma_typed_push(t: Seq<Seq<char>>, k: Seq<char>)
    ensures
        has_plain(t.push(k)) == (has_plain(t) || !is_modifier(k)),
        has_modifier(t.push(k)) == (has_modifier(t) || is_modifier(k)),
        modifiers_first(t.push(k)) == (modifiers_first(t) && !(has_plain(t) && is_modifier(k))),
        count_plain(t.push(k)) == count_plain(t) + (if is_modifier(k) {
            0int
        } else {
            1int
        }),
        forall|m: Seq<char>|
            #[trigger] count_key(t.push(k), m) == count_key(t, m) + (if k == m {
                1int
            } else {
                0int
            }),
{
    let u = t.push(k);
    assert(u.drop_last() =~= t);
    assert(u[u.len() - 1] == k);
    assert forall|i: int| 0 <= i < t.len() implies u[i] == t[i] by {}
    if has_plain(t) {
        let i = choose|i: int| 0 <= i < t.len() && !is_modifier(#[trigger] t[i]);
        assert(!is_modifier(u[i]));
    }
    if has_plain(u) {
        let i = choose|i: int| 0 <= i < u.len() && !is_modifier(#[trigger] u[i]);
        if i < t.len() {
            assert(!is_modifier(t[i]));
        }
    }
    if has_modifier(t) {
        let i = choose|i: int| 0 <= i < t.len() && is_modifier(#[trigger] t[i]);
        assert(is_modifier(u[i]));
    }
    if has_modifier(u) {
        let i = choose|i: int| 0 <= i < u.len() && is_modifier(#[trigger] u[i]);
        if i < t.len() {
            assert(is_modifier(t[i]));
        }
    }
    if modifiers_first(t) && !(has_plain(t) && is_modifier(k)) {
        assert forall|i: int, j: int|
            0 <= i < j < u.len() && !is_modifier(#[trigger] u[i]) implies !is_modifier(
            #[trigger] u[j],
        ) by {
            assert(!is_modifier(t[i]));
            if j < t.len() {
                assert(!is_modifier(t[j]));
            } else {
                assert(has_plain(t));
            }
        }
    }
    if modifiers_first(u) {
        assert forall|i: int, j: int|
            0 <= i < j < t.len() && !is_modifier(#[trigger] t[i]) implies !is_modifier(
            #[trigger] t[j],
        ) by {
            assert(!is_modifier(u[i]));
            assert(!is_modifier(u[j]));
        }
        if has_plain(t) && is_modifier(k) {
            let i = choose|i: int| 0 <= i < t.len() && !is_modifier(#[trigger] t[i]);
            assert(!is_modifier(u[i]));
            assert(!is_modifier(u[u.len() - 1]));
        }
    }
}

/// The recorder's law: from the start state, after any series of key
/// presses (each naming a key), the counters and indicators describe the
/// keys typed, a held key typing nothing. A plain key was typed exactly
/// when `flag` (and `first`) are set; each modifier count is how often it
/// was typed; `with_modifiers` says some modifier was typed,
/// `dup_modifier` that one was typed twice, `shortcut_order` that no
/// modifier came after a plain key, and `one_key` that at most one plain
/// key was typed. The combination's `+`-separated pieces are the typed
/// keys (when no key name holds `+`), and the key added last is the last
/// one typed.
pub proof fn lemma_typing_indicators(presses: Seq<Seq<char>>)
    requires
        forall|i: int| 0 <= i < presses.len() ==> (#[trigger] presses[i]).len() > 0,
    ensures
        shows_typed(typing_run(typing_start(), presses), typed_keys(presses)),
        forall|i: int|
            0 <= i < typed_keys(presses).len() ==> (#[trigger] typed_keys(presses)[i]).len() > 0,
    decreases presses.len(),
{
    if presses.len() == 0 {
        let t = typed_keys(presses);
        assert(t =~= Seq::<Seq<char>>::empty());
        assert(modifiers_first(t));
        assert(!has_plain(t));
        assert(!has_modifier(t));
    } else {
        let ps = presses.drop_last();
        assert forall|i: int| 0 <= i < ps.len() implies (#[trigger] ps[i]).len() > 0 by {
            assert(ps[i] == presses[i]);
        }
        lemma_typing_indicators(ps);
        let s = typing_run(typing_start(), ps);
        let t = typed_keys(ps);
        let k = presses.last();
        assert(k == presses[presses.len() - 1]);
        assert(k.len() > 0);
        let s2 = typing_step(s, k);
        assert(s2 == typing_run(typing_start(), presses));
        lemma_count_plain_positive(t);
        if t.len() == 0 {
            let t2 = t.push(k);
            assert(typed_keys(presses) == t2);
            assert(t2 =~= seq![k]);
            assert(k != s.prec_hotkey);
            lemma_typed_push(t, k);
            lemma_count_plain_positive(t2);
            assert(!has_plain(t));
            assert(!has_modifier(t));
            assert(count_key(t, "Control"@) == 0);
            assert(count_key(t, "Alt"@) == 0);
            assert(count_key(t, "Shift"@) == 0);
            assert(s2.new_shortcut =~= k);
            assert(t2.last() == k);
            if forall|i: int| 0 <= i < t2.len() ==> !(#[trigger] t2[i]).contains('+') {
                assert(!t2[0].contains('+'));
                lemma_split_single(k);
            }
            assert forall|i: int| 0 <= i < t2.len() implies (#[trigger] t2[i]).len() > 0 by {
                assert(t2[i] == k);
            }
        } else if k == t.last() {
            assert(typed_keys(presses) == t);
            assert(s2 == s);
        } else {
            let t2 = t.push(k);
            assert(typed_keys(presses) == t2);
            lemma_typed_push(t, k);
            lemma_count_plain_positive(t2);
            assert(t.last() == t[t.len() - 1]);
            assert(s.prec_hotkey.len() > 0);
            assert(t2.last() == k);
            if forall|i: int| 0 <= i < t2.len() ==> !(#[trigger] t2[i]).contains('+') {
                assert(!t2[t.len() as int].contains('+'));
                assert forall|i: int| 0 <= i < t.len() implies !(#[trigger] t[i]).contains('+') by {
                    assert(t2[i] == t[i]);
                }
                lemma_split_join(s.new_shortcut, k);
            }
            assert forall|i: int| 0 <= i < t2.len() implies (#[trigger] t2[i]).len() > 0 by {
                if i < t.len() {
                    assert(t2[i] == t[i]);
                }
            }
        }
    }
}

} // verus!
