use vstd::prelude::*;
use vstd::string::StringSliceAdditionalSpecFns;

verus! {

/// The pieces that `str::split` with a one-item separator yields: the parts
/// between the occurrences of `sep`, always at least one (possibly empty).
pub open spec fn split_on<A>(s: Seq<A>, sep: A) -> Seq<Seq<A>>
    decreases s.len(),
{
    if s.len() == 0 {
        seq![Seq::<A>::empty()]
    } else {
        let prev = split_on(s.drop_last(), sep);
        if s.last() == sep {
            prev.push(Seq::<A>::empty())
        } else {
            prev.update(prev.len() - 1, prev.last().push(s.last()))
        }
    }
}

/// The pieces that `str::split_terminator` yields: like `split_on`, but an
/// empty input has no piece and a trailing separator opens no last piece.
pub open spec fn split_terminator_on<A>(s: Seq<A>, sep: A) -> Seq<Seq<A>> {
    if s.len() == 0 {
        Seq::<Seq<A>>::empty()
    } else if s.last() == sep {
        split_on(s.drop_last(), sep)
    } else {
        split_on(s, sep)
    }
}

/// The greatest length among the pieces (0 when there is none).
pub open spec fn max_len<A>(pieces: Seq<Seq<A>>) -> nat
    decreases pieces.len(),
{
    if pieces.len() == 0 {
        0
    } else {
        let rest = max_len(pieces.drop_last());
        if pieces.last().len() > rest {
            pieces.last().len()
        } else {
            rest
        }
    }
}

/// `split_on` always yields at least one piece.
pub proof fn lemma_split_on_nonempty<A>(s: Seq<A>, sep: A)
    ensures
        split_on(s, sep).len() >= 1,
    decreases s.len(),
{
    if s.len() > 0 {
        lemma_split_on_nonempty(s.drop_last(), sep);
    }
}

/// After adding a piece, the greatest length is the larger of the former
/// greatest length and the added piece's length.
pub proof fn lemma_max_len_push<A>(pieces: Seq<Seq<A>>, x: Seq<A>)
    ensures
        max_len(pieces.push(x)) == (if x.len() > max_len(pieces) {
            x.len()
        } else {
            max_len(pieces)
        }),
{
    assert(pieces.push(x).drop_last() =~= pieces);
}

/// Characters with the Unicode `White_Space` property, the set that
/// `char::is_whitespace` and `str::trim` go by.
pub open spec fn is_white_space(c: char) -> bool {
    let u: u32 = c as u32;
    ||| 0x9 <= u <= 0xD
    ||| u == 0x20
    ||| u == 0x85
    ||| u == 0xA0
    ||| u == 0x1680
    ||| 0x2000 <= u <= 0x200A
    ||| u == 0x2028
    ||| u == 0x2029
    ||| u == 0x202F
    ||| u == 0x205F
    ||| u == 0x3000
}

/// The text is not empty once leading and trailing white space is trimmed.
pub open spec fn has_visible(s: Seq<char>) -> bool {
    exists|i: int| 0 <= i < s.len() && !is_white_space(#[trigger] s[i])
}

fn char_is_white_space(c: char) -> (b: bool)
    ensures
        b == is_white_space(c),
{
    let u: u32 = c as u32;
    (0x9 <= u && u <= 0xD) || u == 0x20 || u == 0x85 || u == 0xA0 || u == 0x1680 || (0x2000 <= u
        && u <= 0x200A) || u == 0x2028 || u == 0x2029 || u == 0x202F || u == 0x205F || u == 0x3000
}

/// Whether `s.trim()` is non-empty: some character of `s` is not white space.
pub fn has_visible_char(s: &str) -> (b: bool)
    ensures
        b == has_visible(s@),
{
    let n: usize = s.unicode_len();
    let mut i: usize = 0;
    while i < n
        invariant
            n == s@.len(),
            i <= n,
            forall|j: int| 0 <= j < i ==> is_white_space(#[trigger] s@[j]),
        decreases n - i,
    {
        let c = s.get_char(i);
        if !char_is_white_space(c) {
            return true;
        }
        i = i + 1;
    }
    false
}

/// Calls `String::push`. Claimed: afterwards the string holds its former
/// characters followed by `c`.
#[verifier::external_body]
pub(crate) fn push_char(s: &mut String, c: char)
    ensures
        final(s)@ == old(s)@.push(c),
{
    s.push(c);
}

/// The character sequences held by a list of key names.
pub open spec fn keys_view(keys: Seq<Vec<char>>) -> Seq<Seq<char>> {
    keys.map_values(|k: Vec<char>| k@)
}

/// The keys of a combination such as `Control+Shift+T`: its pieces between `+`.
pub fn split_keys(s: &str) -> (keys: Vec<Vec<char>>)
    ensures
        keys_view(keys@) == split_on(s@, '+'),
{
    let n: usize = s.unicode_len();
    let mut keys: Vec<Vec<char>> = Vec::new();
    keys.push(Vec::new());
    let mut i: usize = 0;
    assert(s@.take(0) =~= Seq::<char>::empty());
    assert(keys_view(keys@) =~= split_on(s@.take(0), '+'));
    while i < n
        invariant
            n == s@.len(),
            i <= n,
            keys_view(keys@) == split_on(s@.take(i as int), '+'),
        decreases n - i,
    {
        let c = s.get_char(i);
        proof {
            assert(s@.take(i + 1).drop_last() =~= s@.take(i as int));
            lemma_split_on_nonempty(s@.take(i as int), '+');
        }
        if c == '+' {
            keys.push(Vec::new());
            assert(keys_view(keys@) =~= split_on(s@.take(i + 1), '+'));
        } else {
            let ghost before = keys_view(keys@);
            let mut last = keys.pop().unwrap();
            last.push(c);
            keys.push(last);
            assert(keys_view(keys@) =~= before.update(
                before.len() - 1,
                before.last().push(c),
            ));
        }
        i = i + 1;
    }
    assert(s@.take(n as int) =~= s@);
    keys
}

/// Whether two sequences of characters are equal.
pub fn chars_equal(a: &Vec<char>, b: &Vec<char>) -> (r: bool)
    ensures
        r == (a@ == b@),
{
    if a.len() != b.len() {
        return false;
    }
    let mut i: usize = 0;
    while i < a.len()
        invariant
            a.len() == b.len(),
            i <= a.len(),
            forall|j: int| 0 <= j < i ==> a@[j] == b@[j],
        decreases a.len() - i,
    {
        if a[i] != b[i] {
            return false;
        }
        i = i + 1;
    }
    assert(a@ =~= b@);
    true
}

/// Whether two key lists are equal.
pub fn keys_equal(a: &Vec<Vec<char>>, b: &Vec<Vec<char>>) -> (r: bool)
    ensures
        r == (keys_view(a@) == keys_view(b@)),
{
    if a.len() != b.len() {
        proof {
            if keys_view(a@) == keys_view(b@) {
                assert(keys_view(a@).len() == keys_view(b@).len());
            }
        }
        return false;
    }
    let mut i: usize = 0;
    while i < a.len()
        invariant
            a.len() == b.len(),
            i <= a.len(),
            forall|j: int| 0 <= j < i ==> keys_view(a@)[j] == keys_view(b@)[j],
        decreases a.len() - i,
    {
        if !chars_equal(&a[i], &b[i]) {
            assert(keys_view(a@)[i as int] != keys_view(b@)[i as int]);
            return false;
        }
        i = i + 1;
    }
    assert(keys_view(a@) =~= keys_view(b@));
    true
}

/// The character a timestamp character becomes in a file name: `.` and `:`
/// become `-`, a space becomes `_`, any other character stays.
pub open spec fn file_name_char(c: char) -> char {
    if c == '.' || c == ':' {
        '-'
    } else if c == ' ' {
        '_'
    } else {
        c
    }
}

/// Turns a printed timestamp into a file name, as the chain
/// `replace(".", "-").replace(":", "-").replace(" ", "_")` does.
pub fn file_name_from_timestamp(stamp: &str) -> (name: String)
    ensures
        name@ == stamp@.map_values(|c: char| file_name_char(c)),
{
    let n: usize = stamp.unicode_len();
    let mut name = String::new();
    let mut i: usize = 0;
    while i < n
        invariant
            n == stamp@.len(),
            i <= n,
            name@ == stamp@.take(i as int).map_values(|c: char| file_name_char(c)),
        decreases n - i,
    {
        let c = stamp.get_char(i);
        let d = if c == '.' || c == ':' {
            '-'
        } else if c == ' ' {
            '_'
        } else {
            c
        };
        push_char(&mut name, d);
        assert(stamp@.take(i + 1).map_values(|c: char| file_name_char(c)) =~= stamp@.take(
            i as int,
        ).map_values(|c: char| file_name_char(c)).push(d));
        i = i + 1;
    }
    assert(stamp@.take(n as int) =~= stamp@);
    name
}

/// The lines of a text box's content as `split_terminator('\n')` yields
/// them, measured in UTF-8 bytes as `str::len` measures them.
pub open spec fn text_lines(bytes: Seq<u8>) -> Seq<Seq<u8>> {
    split_terminator_on(bytes, 10u8)
}

/// The number of lines of a text and the byte length of its longest line.
pub fn text_extent(text: &str) -> (r: (usize, usize))
    ensures
        r.0 == text_lines(text.spec_bytes()).len(),
        r.1 == max_len(text_lines(text.spec_bytes())),
{
    let bytes = text.as_bytes();
    let n: usize = bytes.len();
    if n == 0 {
        return (0, 0);
    }
    let m: usize = if bytes[n - 1] == 10u8 { n - 1 } else { n };
    proof {
        if bytes@.last() == 10u8 {
            assert(bytes@.take(m as int) =~= bytes@.drop_last());
        } else {
            assert(bytes@.take(m as int) =~= bytes@);
        }
    }
    let ghost goal = bytes@.take(m as int);
    let mut closed: usize = 0;
    let mut longest: usize = 0;
    let mut cur: usize = 0;
    let mut i: usize = 0;
    assert(bytes@.take(0) =~= Seq::<u8>::empty());
    proof {
        assert(split_on(bytes@.take(0), 10u8).drop_last() =~= Seq::<Seq<u8>>::empty());
    }
    while i < m
        invariant
            n == bytes@.len(),
            m <= n,
            i <= m,
            closed <= i,
            i > 0 && bytes@[i - 1] != 10u8 ==> closed < i,
            m == n ==> bytes@[n - 1] != 10u8,
            m < n ==> m + 1 == n,
            cur <= i,
            longest <= i,
            closed + 1 == split_on(bytes@.take(i as int), 10u8).len(),
            longest == max_len(split_on(bytes@.take(i as int), 10u8).drop_last()),
            cur == split_on(bytes@.take(i as int), 10u8).last().len(),
        decreases m - i,
    {
        let b: u8 = bytes[i];
        proof {
            assert(bytes@.take(i + 1).drop_last() =~= bytes@.take(i as int));
            lemma_split_on_nonempty(bytes@.take(i as int), 10u8);
        }
        let ghost prev = split_on(bytes@.take(i as int), 10u8);
        if b == 10u8 {
            proof {
                assert(prev.push(Seq::<u8>::empty()).drop_last() =~= prev);
                assert(prev =~= prev.drop_last().push(prev.last()));
                lemma_max_len_push(prev.drop_last(), prev.last());
            }
            if cur > longest {
                longest = cur;
            }
            closed = closed + 1;
            cur = 0;
        } else {
            proof {
                assert(prev.update(prev.len() - 1, prev.last().push(b)).drop_last()
                    =~= prev.drop_last());
            }
            cur = cur + 1;
        }
        i = i + 1;
    }
    proof {
        lemma_split_on_nonempty(goal, 10u8);
        let p = split_on(goal, 10u8);
        assert(p =~= p.drop_last().push(p.last()));
        lemma_max_len_push(p.drop_last(), p.last());
    }
    if cur > longest {
        longest = cur;
    }
    (closed + 1, longest)
}

/// A key name without `+` is a combination of exactly that one key.
pub proof fn lemma_split_single(k: Seq<char>)
    requires
        !k.contains('+'),
    ensures
        split_on(k, '+') == seq![k],
    decreases k.len(),
{
    if k.len() > 0 {
        let p = k.drop_last();
        assert(!p.contains('+')) by {
            if p.contains('+') {
                let i = choose|i: int| 0 <= i < p.len() && p[i] == '+';
                assert(k[i] == '+');
            }
        }
        lemma_split_single(p);
        assert(k[k.len() - 1] != '+');
        assert(p.push(k.last()) =~= k);
    } else {
        assert(k =~= Seq::<char>::empty());
    }
}

/// Joining a key name without `+` to a combination with `+` adds exactly
/// that key to the combination's keys.
pub proof fn lemma_split_join(s: Seq<char>, k: Seq<char>)
    requires
        !k.contains('+'),
    ensures
        split_on(s + seq!['+'] + k, '+') == split_on(s, '+').push(k),
    decreases k.len(),
{
    let t = s + seq!['+'] + k;
    if k.len() == 0 {
        assert(t.drop_last() =~= s);
        assert(t.last() == '+');
        assert(k =~= Seq::<char>::empty());
        assert(split_on(t, '+') == split_on(s, '+').push(Seq::<char>::empty()));
    } else {
        let p = k.drop_last();
        assert(!p.contains('+')) by {
            if p.contains('+') {
                let i = choose|i: int| 0 <= i < p.len() && p[i] == '+';
                assert(k[i] == '+');
            }
        }
        lemma_split_join(s, p);
        assert(t.drop_last() =~= s + seq!['+'] + p);
        assert(k[k.len() - 1] != '+');
        assert(t.last() == k.last());
        lemma_split_on_nonempty(s, '+');
        assert(p.push(k.last()) =~= k);
        let prev = split_on(t.drop_last(), '+');
        assert(prev == split_on(s, '+').push(p));
        assert(split_on(t, '+') == prev.update(prev.len() - 1, prev.last().push(t.last())));
        assert(prev.update(prev.len() - 1, prev.last().push(t.last())) =~= split_on(s, '+').push(
            k,
        ));
    }
}

/// A file name made from a timestamp has the timestamp's length and holds
/// no `.`, `:` or space.
pub proof fn lemma_file_name_clean(stamp: Seq<char>)
    ensures
        ({
            let name = stamp.map_values(|c: char| file_name_char(c));
            &&& name.len() == stamp.len()
            &&& forall|i: int|
                0 <= i < name.len() ==> #[trigger] name[i] != '.' && name[i] != ':' && name[i]
                    != ' '
        }),
{
}

} // verus!
