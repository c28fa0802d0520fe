use vstd::prelude::*;

use crate::text::{
    chars_equal, keys_equal, keys_view, lemma_split_join, lemma_split_single, split_keys, split_on,
};

verus! {

/// The commands that have a keyboard shortcut.
#[derive(Clone, Copy, PartialEq, Eq, Structural, Debug, Hash)]
pub enum Shortcut {
    Save,
    SaveAs,
    Open,
    Customize,
    Screenshot,
    Capture,
    Quit,
}

/// A persistent hash map of the `im` crate.
#[verifier::external_type_specification]
#[verifier::external_body]
#[verifier::reject_recursive_types(K)]
#[verifier::reject_recursive_types(V)]
#[verifier::reject_recursive_types(S)]
pub struct ExImHashMap<K, V, S>(im::HashMap<K, V, S>);

/// The entries of a map from command numbers to combinations, each
/// combination by its characters.
pub uninterp spec fn combos_in(m: im::HashMap<u64, String>) -> Map<u64, Seq<char>>;

/// Calls `im::HashMap::new`. Claimed: the map is empty.
#[verifier::external_body]
fn combos_new() -> (r: im::HashMap<u64, String>)
    ensures
        combos_in(r) =~= Map::empty(),
{
    im::HashMap::new()
}

/// Calls `im::HashMap::insert` on the given map and hands it back.
/// Claimed: afterwards the key maps to the value and every other entry is
/// unchanged.
#[verifier::external_body]
fn combos_insert(m: im::HashMap<u64, String>, k: u64, v: String) -> (r: im::HashMap<u64, String>)
    ensures
        combos_in(r) == combos_in(m).insert(k, v@),
{
    let mut m = m;
    m.insert(k, v);
    m
}

/// Calls `im::HashMap::get`. Claimed: it finds the value of the key
/// exactly when the map has the key.
#[verifier::external_body]
fn combos_get(m: &im::HashMap<u64, String>, k: u64) -> (r: Option<&String>)
    ensures
        match r {
            Some(v) => combos_in(*m).contains_key(k) && v@ == combos_in(*m)[k],
            None => !combos_in(*m).contains_key(k),
        },
{
    m.get(&k)
}

/// Calls `im::HashMap::clone`. Claimed: the copy has the same entries.
#[verifier::external_body]
fn combos_clone(m: &im::HashMap<u64, String>) -> (r: im::HashMap<u64, String>)
    ensures
        combos_in(r) == combos_in(*m),
{
    m.clone()
}

/// Calls `PartialEq::eq` of `im::HashMap`. Claimed: two maps are equal
/// exactly when they have the same entries.
#[verifier::external_body]
fn combos_eq(a: &im::HashMap<u64, String>, b: &im::HashMap<u64, String>) -> (r: bool)
    ensures
        r == (combos_in(*a) == combos_in(*b)),
{
    a == b
}

/// The number under which a command's combination is kept.
pub open spec fn shortcut_number(s: Shortcut) -> u64 {
    match s {
        Shortcut::Save => 0,
        Shortcut::SaveAs => 1,
        Shortcut::Open => 2,
        Shortcut::Customize => 3,
        Shortcut::Screenshot => 4,
        Shortcut::Capture => 5,
        Shortcut::Quit => 6,
    }
}

fn number_of(s: Shortcut) -> (n: u64)
    ensures
        n == shortcut_number(s),
{
    match s {
        Shortcut::Save => 0,
        Shortcut::SaveAs => 1,
        Shortcut::Open => 2,
        Shortcut::Customize => 3,
        Shortcut::Screenshot => 4,
        Shortcut::Capture => 5,
        Shortcut::Quit => 6,
    }
}

/// The key combination bound to each command, written as key names joined
/// by `+`, such as `Control+s`.
#[derive(Debug)]
pub struct ShortcutTable {
    combos: im::HashMap<u64, String>,
}

/// `Control+` followed by one key character.
pub open spec fn control_plus(c: char) -> Seq<char> {
    seq!['C', 'o', 'n', 't', 'r', 'o', 'l', '+', c]
}

/// The combination bound to each command when the application starts.
pub open spec fn default_combo(s: Shortcut) -> Seq<char> {
    match s {
        Shortcut::Save => control_plus('s'),
        Shortcut::SaveAs => control_plus('a'),
        Shortcut::Open => control_plus('o'),
        Shortcut::Customize => control_plus('k'),
        Shortcut::Screenshot => control_plus('t'),
        Shortcut::Capture => control_plus('y'),
        Shortcut::Quit => control_plus('q'),
    }
}

impl ShortcutTable {
    /// Every command has a combination.
    #[verifier::type_invariant]
    spec fn complete(&self) -> bool {
        forall|s: Shortcut| #[trigger] combos_in(self.combos).contains_key(shortcut_number(s))
    }

    /// The combination bound to a command.
    pub closed spec fn combo(&self, s: Shortcut) -> Seq<char> {
        combos_in(self.combos)[shortcut_number(s)]
    }

    /// The table the application starts with: `Control+s` to save,
    /// `Control+a` to save as, `Control+o` to choose the folder,
    /// `Control+k` to customize, `Control+t` for a screenshot, `Control+y`
    /// to capture an area and `Control+q` to quit.
    pub fn new() -> (t: ShortcutTable)
        ensures
            forall|s: Shortcut| #[trigger] t.combo(s) == default_combo(s),
    {
        let m = combos_new();
        let m = combos_insert(m, 0, String::from_str("Control+s"));
        let m = combos_insert(m, 1, String::from_str("Control+a"));
        let m = combos_insert(m, 2, String::from_str("Control+o"));
        let m = combos_insert(m, 3, String::from_str("Control+k"));
        let m = combos_insert(m, 4, String::from_str("Control+t"));
        let m = combos_insert(m, 5, String::from_str("Control+y"));
        let m = combos_insert(m, 6, String::from_str("Control+q"));
        proof {
            reveal_strlit("Control+s");
            reveal_strlit("Control+a");
            reveal_strlit("Control+o");
            reveal_strlit("Control+k");
            reveal_strlit("Control+t");
            reveal_strlit("Control+y");
            reveal_strlit("Control+q");
            assert("Control+s"@ =~= control_plus('s'));
            assert("Control+a"@ =~= control_plus('a'));
            assert("Control+o"@ =~= control_plus('o'));
            assert("Control+k"@ =~= control_plus('k'));
            assert("Control+t"@ =~= control_plus('t'));
            assert("Control+y"@ =~= control_plus('y'));
            assert("Control+q"@ =~= control_plus('q'));
            assert forall|s: Shortcut|
                #[trigger] combos_in(m).contains_key(shortcut_number(s))
                && combos_in(m)[shortcut_number(s)] == default_combo(s) by {
                match s {
                    Shortcut::Save => {},
                    Shortcut::SaveAs => {},
                    Shortcut::Open => {},
                    Shortcut::Customize => {},
                    Shortcut::Screenshot => {},
                    Shortcut::Capture => {},
                    Shortcut::Quit => {},
                }
            }
        }
        ShortcutTable { combos: m }
    }

    /// The combination bound to a command.
    pub fn get(&self, s: Shortcut) -> (c: &String)
        ensures
            c@ == self.combo(s),
    {
        proof {
            use_type_invariant(self);
        }
        let n = number_of(s);
        let found = combos_get(&self.combos, n);
        assert(combos_in(self.combos).contains_key(shortcut_number(s)));
        found.unwrap()
    }
}

impl Clone for ShortcutTable {
    fn clone(&self) -> (t: Self)
        ensures
            forall|s: Shortcut| #[trigger] t.combo(s) == self.combo(s),
    {
        proof {
            use_type_invariant(self);
        }
        ShortcutTable { combos: combos_clone(&self.combos) }
    }
}

impl PartialEq for ShortcutTable {
    fn eq(&self, other: &Self) -> (r: bool) {
        combos_eq(&self.combos, &other.combos)
    }
}

impl vstd::std_specs::cmp::PartialEqSpecImpl for ShortcutTable {
    open spec fn obeys_eq_spec() -> bool {
        true
    }

    closed spec fn eq_spec(&self, other: &ShortcutTable) -> bool {
        combos_in(self.combos) == combos_in(other.combos)
    }
}

impl Eq for ShortcutTable {}

/// The keys of the combination bound to a command.
pub open spec fn shortcut_keys(t: ShortcutTable, s: Shortcut) -> Seq<Seq<char>> {
    split_on(t.combo(s), '+')
}

/// `small` occurs in `big` as a run of consecutive keys (what
/// `big.windows(small.len()).any(|w| w == small)` tests).
pub open spec fn contains_run(big: Seq<Seq<char>>, small: Seq<Seq<char>>) -> bool {
    exists|i: int|
        0 <= i && i + small.len() <= big.len() && #[trigger] big.subrange(i, i + small.len())
            == small
}

/// The shorter of two key lists occurs as a run inside the longer one.
pub open spec fn overlaps(a: Seq<Seq<char>>, b: Seq<Seq<char>>) -> bool {
    if a.len() >= b.len() {
        contains_run(a, b)
    } else {
        contains_run(b, a)
    }
}

/// `keys` clashes with the combination of `s`: it is that combination, or,
/// when `s` is not the command being customized, one of the two occurs as a
/// run of keys inside the other.
pub open spec fn clashes(
    t: ShortcutTable,
    selected: Shortcut,
    s: Shortcut,
    keys: Seq<Seq<char>>,
) -> bool {
    ||| shortcut_keys(t, s) == keys
    ||| (s != selected && overlaps(shortcut_keys(t, s), keys))
}

/// `keys` clashes with the combination of some command.
pub open spec fn conflicts(t: ShortcutTable, selected: Shortcut, keys: Seq<Seq<char>>) -> bool {
    exists|s: Shortcut| #[trigger] clashes(t, selected, s, keys)
}

fn run_matches(big: &Vec<Vec<char>>, small: &Vec<Vec<char>>, start: usize) -> (r: bool)
    requires
        start + small.len() <= big.len(),
    ensures
        r == (keys_view(big@).subrange(start as int, start + small.len()) == keys_view(small@)),
{
    let mut j: usize = 0;
    while j < small.len()
        invariant
            start + small.len() <= big.len(),
            j <= small.len(),
            forall|k: int| 0 <= k < j ==> keys_view(big@)[start + k] == keys_view(small@)[k],
        decreases small.len() - j,
    {
        if !chars_equal(&big[start + j], &small[j]) {
            assert(keys_view(big@).subrange(start as int, start + small.len())[j as int]
                != keys_view(small@)[j as int]);
            return false;
        }
        j = j + 1;
    }
    assert(keys_view(big@).subrange(start as int, start + small.len()) =~= keys_view(small@));
    true
}

/// Whether `small` occurs as a run of consecutive keys inside `big`.
pub fn has_run(big: &Vec<Vec<char>>, small: &Vec<Vec<char>>) -> (r: bool)
    requires
        small.len() <= big.len(),
    ensures
        r == contains_run(keys_view(big@), keys_view(small@)),
{
    let last: usize = big.len() - small.len();
    let mut i: usize = 0;
    loop
        invariant
            last + small.len() == big.len(),
            i <= last,
            forall|k: int|
                0 <= k < i ==> #[trigger] keys_view(big@).subrange(k, k + small.len())
                    != keys_view(small@),
        decreases last - i,
    {
        if run_matches(big, small, i) {
            assert(keys_view(big@).subrange(i as int, i + keys_view(small@).len())
                == keys_view(small@));
            return true;
        }
        if i == last {
            return false;
        }
        i = i + 1;
    }
}

/// Whether the shorter of two key lists occurs as a run inside the longer.
pub fn keys_overlap(a: &Vec<Vec<char>>, b: &Vec<Vec<char>>) -> (r: bool)
    ensures
        r == overlaps(keys_view(a@), keys_view(b@)),
{
    if a.len() >= b.len() {
        has_run(a, b)
    } else {
        has_run(b, a)
    }
}

fn clash(table: &ShortcutTable, selected: Shortcut, s: Shortcut, keys: &Vec<Vec<char>>) -> (r:
    bool)
    ensures
        r == clashes(*table, selected, s, keys_view(keys@)),
{
    let bound = split_keys(table.get(s).as_str());
    if keys_equal(&bound, keys) {
        true
    } else if s != selected {
        keys_overlap(&bound, keys)
    } else {
        false
    }
}

/// Whether a recorded key list clashes with the combination of any command.
pub fn find_conflict(table: &ShortcutTable, selected: Shortcut, keys: &Vec<Vec<char>>) -> (r: bool)
    ensures
        r == conflicts(*table, selected, keys_view(keys@)),
{
    let ghost k = keys_view(keys@);
    let c0 = clash(table, selected, Shortcut::Save, keys);
    let c1 = clash(table, selected, Shortcut::SaveAs, keys);
    let c2 = clash(table, selected, Shortcut::Open, keys);
    let c3 = clash(table, selected, Shortcut::Customize, keys);
    let c4 = clash(table, selected, Shortcut::Screenshot, keys);
    let c5 = clash(table, selected, Shortcut::Capture, keys);
    let c6 = clash(table, selected, Shortcut::Quit, keys);
    let r = c0 || c1 || c2 || c3 || c4 || c5 || c6;
    proof {
        if !r {
            assert forall|s: Shortcut| !#[trigger] clashes(*table, selected, s, k) by {
                match s {
                    Shortcut::Save => {},
                    Shortcut::SaveAs => {},
                    Shortcut::Open => {},
                    Shortcut::Customize => {},
                    Shortcut::Screenshot => {},
                    Shortcut::Capture => {},
                    Shortcut::Quit => {},
                }
            }
        }
    }
    r
}

/// Whether two strings hold the same characters.
pub fn str_equal(a: &str, b: &str) -> (r: bool)
    ensures
        r == (a@ == b@),
{
    let n: usize = a.unicode_len();
    let m: usize = b.unicode_len();
    if n != m {
        return false;
    }
    let mut i: usize = 0;
    while i < n
        invariant
            n == a@.len(),
            m == b@.len(),
            n == m,
            i <= n,
            forall|j: int| 0 <= j < i ==> a@[j] == b@[j],
        decreases n - i,
    {
        if a.get_char(i) != b.get_char(i) {
            return false;
        }
        i = i + 1;
    }
    assert(a@ =~= b@);
    true
}

/// Whether the shorter of two key lists occurs inside the longer does not
/// depend on their order; lists of one length overlap exactly when equal.
pub proof fn lemma_overlaps_symmetric(a: Seq<Seq<char>>, b: Seq<Seq<char>>)
    ensures
        overlaps(a, b) == overlaps(b, a),
        a.len() == b.len() ==> (overlaps(a, b) <==> a == b),
{
    if a.len() == b.len() {
        if contains_run(a, b) {
            let i = choose|i: int|
                0 <= i && i + b.len() <= a.len() && #[trigger] a.subrange(i, i + b.len()) == b;
            assert(i == 0);
            assert(a.subrange(0, a.len() as int) =~= a);
        }
        if contains_run(b, a) {
            let i = choose|i: int|
                0 <= i && i + a.len() <= b.len() && #[trigger] b.subrange(i, i + a.len()) == a;
            assert(i == 0);
            assert(b.subrange(0, b.len() as int) =~= b);
        }
        if a == b {
            assert(a.subrange(0int, 0int + b.len()) =~= b);
            assert(b.subrange(0int, 0int + a.len()) =~= a);
            assert(contains_run(a, b));
        }
    }
}

/// A combination that is exactly the one of some command always clashes.
pub proof fn lemma_exact_match_conflicts(t: ShortcutTable, selected: Shortcut, s: Shortcut)
    ensures
        conflicts(t, selected, shortcut_keys(t, s)),
{
    assert(clashes(t, selected, s, shortcut_keys(t, s)));
}

/// The key character of each start-up combination.
pub open spec fn default_key(s: Shortcut) -> char {
    match s {
        Shortcut::Save => 's',
        Shortcut::SaveAs => 'a',
        Shortcut::Open => 'o',
        Shortcut::Customize => 'k',
        Shortcut::Screenshot => 't',
        Shortcut::Capture => 'y',
        Shortcut::Quit => 'q',
    }
}

/// The characters of the modifier name `Control`.
pub open spec fn control_name() -> Seq<char> {
    seq!['C', 'o', 'n', 't', 'r', 'o', 'l']
}

/// A start-up combination consists of the two keys `Control` and its key
/// character.
pub proof fn lemma_default_keys(s: Shortcut)
    ensures
        split_on(default_combo(s), '+') == seq![control_name(), seq![default_key(s)]],
{
    assert(!control_name().contains('+')) by {
        if control_name().contains('+') {
            let i = choose|i: int| 0 <= i < control_name().len() && control_name()[i] == '+';
            assert(control_name()[i] == '+');
        }
    }
    assert(!seq![default_key(s)].contains('+')) by {
        if seq![default_key(s)].contains('+') {
            let i = choose|i: int| 0 <= i < 1 && seq![default_key(s)][i] == '+';
            assert(seq![default_key(s)][i] == '+');
        }
    }
    lemma_split_single(control_name());
    lemma_split_join(control_name(), seq![default_key(s)]);
    assert(default_combo(s) =~= control_name() + seq!['+'] + seq![default_key(s)]);
    assert(seq![control_name()].push(seq![default_key(s)]) =~= seq![
        control_name(),
        seq![default_key(s)],
    ]);
}

/// The combinations the application starts with are pairwise different,
/// and none occurs inside another.
pub proof fn lemma_default_table_free_of_clashes(t: ShortcutTable, s: Shortcut, r: Shortcut)
    requires
        forall|k: Shortcut| #[trigger] t.combo(k) == default_combo(k),
        s != r,
    ensures
        shortcut_keys(t, s) != shortcut_keys(t, r),
        !overlaps(shortcut_keys(t, s), shortcut_keys(t, r)),
{
    assert(t.combo(s) == default_combo(s));
    assert(t.combo(r) == default_combo(r));
    lemma_default_keys(s);
    lemma_default_keys(r);
    let a = shortcut_keys(t, s);
    let b = shortcut_keys(t, r);
    assert(default_key(s) != default_key(r)) by {
        match s {
            Shortcut::Save => {},
            Shortcut::SaveAs => {},
            Shortcut::Open => {},
            Shortcut::Customize => {},
            Shortcut::Screenshot => {},
            Shortcut::Capture => {},
            Shortcut::Quit => {},
        }
    }
    assert(a[1][0] != b[1][0]);
    lemma_overlaps_symmetric(a, b);
}

} // verus!
