use vstd::prelude::*;

use crate::view::{press_effect, ViewControl, ViewState};

verus! {

/// How many of the first `k` hit marks are set.
pub open spec fn hits_before(hits: Seq<bool>, k: int) -> int
    decreases k,
{
    if k <= 0 {
        0
    } else {
        hits_before(hits, k - 1) + (if hits[k - 1] {
            1int
        } else {
            0int
        })
    }
}

/// The annotations left after the eraser went through the first `k` hit
/// marks: for each marked position, in increasing order, the item that
/// stands at that position at that moment is removed (earlier removals
/// shift the later items down).
pub open spec fn erased<T>(items: Seq<T>, hits: Seq<bool>, k: int) -> Seq<T>
    decreases k,
{
    if k <= 0 {
        items
    } else {
        let prev = erased(items, hits, k - 1);
        if hits[k - 1] {
            prev.remove(k - 1)
        } else {
            prev
        }
    }
}

/// Each removal of the first `k` marks finds an item at its position and
/// leaves at least one item (the one being drawn) behind.
pub open spec fn erase_fits(len: int, hits: Seq<bool>, k: int) -> bool
    decreases k,
{
    if k <= 0 {
        true
    } else {
        &&& erase_fits(len, hits, k - 1)
        &&& hits[k - 1] ==> {
            &&& k - 1 < len - hits_before(hits, k - 1)
            &&& len - hits_before(hits, k - 1) >= 2
        }
    }
}

/// The first marked position, if any.
pub open spec fn first_hit(hits: Seq<bool>) -> Option<int> {
    if exists|i: int| 0 <= i < hits.len() && hits[i] {
        Some(choose|i: int| 0 <= i < hits.len() && hits[i] && forall|j: int| 0 <= j < i ==> !hits[j])
    } else {
        None
    }
}

/// The annotations of one kind (strokes, highlights, arrows, circles,
/// squares or texts), in drawing order. The last one is the item being
/// drawn; a layer made by `new` always holds it.
#[derive(Clone, Debug, PartialEq)]
pub struct AnnotationLayer<T> {
    items: Vec<T>,
}

impl<T> View for AnnotationLayer<T> {
    type V = Seq<T>;

    closed spec fn view(&self) -> Seq<T> {
        self.items@
    }
}

impl<T> AnnotationLayer<T> {
    /// A layer that holds only the item about to be drawn.
    pub fn new(open: T) -> (l: AnnotationLayer<T>)
        ensures
            l@ == seq![open],
    {
        let mut items: Vec<T> = Vec::new();
        items.push(open);
        AnnotationLayer { items }
    }

    /// The position of the item being drawn (the last one).
    pub fn open_index(&self) -> (i: usize)
        requires
            self@.len() >= 1,
        ensures
            i == self@.len() - 1,
    {
        self.items.len() - 1
    }

    /// The number of items, the one being drawn included.
    pub fn len(&self) -> (n: usize)
        ensures
            n == self@.len(),
    {
        self.items.len()
    }

    /// The item at a position.
    pub fn get(&self, i: usize) -> (item: &T)
        requires
            i < self@.len(),
        ensures
            *item == self@[i as int],
    {
        &self.items[i]
    }

    /// All items, in drawing order.
    pub fn items(&self) -> (v: &Vec<T>)
        ensures
            v@ == self@,
    {
        &self.items
    }

    /// Replaces the item at a position (such as the item being drawn).
    pub fn set(&mut self, i: usize, item: T)
        requires
            i < old(self)@.len(),
        ensures
            final(self)@ == old(self)@.update(i as int, item),
    {
        self.items.set(i, item);
    }

    /// The item being drawn is finished: `open` is the next one.
    pub fn commit(&mut self, open: T)
        ensures
            final(self)@ == old(self)@.push(open),
    {
        self.items.push(open);
    }

    /// Removes the item at a position; the last item left is never removed.
    pub fn remove(&mut self, i: usize)
        requires
            i < old(self)@.len(),
            old(self)@.len() >= 2,
        ensures
            final(self)@ == old(self)@.remove(i as int),
    {
        self.items.remove(i);
    }

    /// Drops every item: only `open` is left, about to be drawn.
    pub fn clear(&mut self, open: T)
        ensures
            final(self)@ == seq![open],
    {
        *self = AnnotationLayer::new(open);
    }

    /// Whether the eraser can go through these hit marks (one per item,
    /// taken before erasing): each marked position must still hold an item
    /// when it is reached, and the item being drawn must not be the last
    /// one removed.
    pub fn can_erase(&self, hits: &Vec<bool>) -> (ok: bool)
        ensures
            ok == erase_fits(self@.len() as int, hits@, hits@.len() as int),
    {
        let n = self.len();
        let mut removed: usize = 0;
        let mut k: usize = 0;
        while k < hits.len()
            invariant
                k <= hits@.len(),
                n == self@.len(),
                removed == hits_before(hits@, k as int),
                removed <= k,
                erase_fits(n as int, hits@, k as int),
            decreases hits@.len() - k,
        {
            if hits[k] {
                if !(removed < n && k < n - removed && n - removed >= 2) {
                    proof {
                        lemma_erase_fits_stays_false(n as int, hits@, k as int + 1, hits@.len() as int);
                    }
                    return false;
                }
                removed = removed + 1;
            }
            k = k + 1;
        }
        true
    }

    /// The eraser passed over the items marked in `hits` (one mark per item,
    /// taken before erasing): for each marked position, in increasing
    /// order, the item then at that position is removed.
    pub fn erase_hits(&mut self, hits: &Vec<bool>)
        requires
            erase_fits(old(self)@.len() as int, hits@, hits@.len() as int),
        ensures
            final(self)@ == erased(old(self)@, hits@, hits@.len() as int),
            final(self)@.len() == old(self)@.len() - hits_before(hits@, hits@.len() as int),
            old(self)@.len() >= 1 ==> final(self)@.len() >= 1,
    {
        proof {
            if self@.len() >= 1 {
                lemma_erase_keeps_one(self@.len() as int, hits@, hits@.len() as int);
            }
        }
        let ghost start = self@;
        let mut k: usize = 0;
        while k < hits.len()
            invariant
                k <= hits@.len(),
                erase_fits(start.len() as int, hits@, hits@.len() as int),
                self@ == erased(start, hits@, k as int),
                self@.len() == start.len() - hits_before(hits@, k as int),
            decreases hits@.len() - k,
        {
            proof {
                lemma_erase_fits_prefix(start.len() as int, hits@, k as int + 1, hits@.len() as int);
            }
            if hits[k] {
                self.remove(k);
            }
            k = k + 1;
        }
    }

    /// The eraser passed over the items marked in `hits` (one mark per
    /// item): only the first marked item is removed.
    pub fn erase_first_hit(&mut self, hits: &Vec<bool>)
        requires
            hits@.len() == old(self)@.len(),
            first_hit(hits@) is Some ==> old(self)@.len() >= 2,
        ensures
            final(self)@ == (match first_hit(hits@) {
                Some(i) => old(self)@.remove(i),
                None => old(self)@,
            }),
    {
        let mut k: usize = 0;
        while k < hits.len()
            invariant
                k <= hits@.len(),
                hits@.len() == self@.len(),
                self@ == old(self)@,
                forall|j: int| 0 <= j < k ==> !hits@[j],
                first_hit(hits@) is Some ==> self@.len() >= 2,
            decreases hits@.len() - k,
        {
            if hits[k] {
                proof {
                    lemma_first_hit_is(hits@, k as int);
                }
                self.remove(k);
                return;
            }
            k = k + 1;
        }
        assert(!(exists|i: int| 0 <= i < hits@.len() && hits@[i]));
    }
}

impl ViewState {
    /// The "place" text button: `placed` (the typed text, laid out) takes
    /// the place of the text annotation being drawn, `next` is the one
    /// drawn after it, and the typed text is cleared.
    pub fn confirm_text<T>(&mut self, texts: &mut AnnotationLayer<T>, placed: T, next: T)
        requires
            old(texts)@.len() >= 1,
        ensures
            final(texts)@ == old(texts)@.update(old(texts)@.len() - 1, placed).push(next),
            press_effect(*old(self), *final(self), ViewControl::TextConfirm),
    {
        let i = texts.open_index();
        texts.set(i, placed);
        texts.commit(next);
        self.press(ViewControl::TextConfirm);
    }

    /// The "update" text button: `edited` replaces the selected text
    /// annotation, which is then no longer selected.
    pub fn update_text<T>(&mut self, texts: &mut AnnotationLayer<T>, edited: T)
        requires
            0 <= old(self).editing_text < old(texts)@.len(),
        ensures
            final(texts)@ == old(texts)@.update(old(self).editing_text as int, edited),
            press_effect(*old(self), *final(self), ViewControl::TextUpdate),
    {
        let i = self.editing_text as usize;
        texts.set(i, edited);
        self.press(ViewControl::TextUpdate);
    }

    /// The "delete" text button: the selected text annotation goes away and
    /// nothing is selected.
    pub fn delete_text<T>(&mut self, texts: &mut AnnotationLayer<T>)
        requires
            0 <= old(self).editing_text < old(texts)@.len(),
            old(texts)@.len() >= 2,
        ensures
            final(texts)@ == old(texts)@.remove(old(self).editing_text as int),
            press_effect(*old(self), *final(self), ViewControl::TextDelete),
    {
        let i = self.editing_text as usize;
        texts.remove(i);
        self.press(ViewControl::TextDelete);
    }
}

proof fn lemma_first_hit_is(hits: Seq<bool>, k: int)
    requires
        0 <= k < hits.len(),
        hits[k],
        forall|j: int| 0 <= j < k ==> !hits[j],
    ensures
        first_hit(hits) == Some(k),
{
    assert(exists|i: int| 0 <= i < hits.len() && hits[i]);
    let i = choose|i: int| 0 <= i < hits.len() && hits[i] && forall|j: int| 0 <= j < i ==> !hits[j];
    assert(hits[k] && forall|j: int| 0 <= j < k ==> !hits[j]);
    if i < k {
        assert(!hits[i]);
    } else if i > k {
        assert(!hits[k]);
    }
}

proof fn lemma_erase_keeps_one(len: int, hits: Seq<bool>, k: int)
    requires
        len >= 1,
        0 <= k,
        erase_fits(len, hits, k),
    ensures
        len - hits_before(hits, k) >= 1,
    decreases k,
{
    if k > 0 {
        lemma_erase_keeps_one(len, hits, k - 1);
    }
}

proof fn lemma_erase_fits_prefix(len: int, hits: Seq<bool>, k: int, n: int)
    requires
        0 <= k <= n,
        erase_fits(len, hits, n),
    ensures
        erase_fits(len, hits, k),
    decreases n - k,
{
    if k < n {
        lemma_erase_fits_prefix(len, hits, k, n - 1);
    }
}

proof fn lemma_erase_fits_stays_false(len: int, hits: Seq<bool>, k: int, n: int)
    requires
        0 < k <= n,
        !erase_fits(len, hits, k),
    ensures
        !erase_fits(len, hits, n),
    decreases n - k,
{
    if k < n {
        lemma_erase_fits_stays_false(len, hits, k, n - 1);
    }
}

/// When the eraser hits a single item, exactly that item goes and every
/// other item stays in its order.
pub proof fn lemma_single_hit_removes_it<T>(items: Seq<T>, hits: Seq<bool>, i: int)
    requires
        0 <= i < hits.len() <= items.len(),
        hits[i],
        forall|j: int| 0 <= j < hits.len() && j != i ==> !hits[j],
    ensures
        erased(items, hits, hits.len() as int) == items.remove(i),
{
    lemma_erased_single(items, hits, i, hits.len() as int);
}

proof fn lemma_erased_single<T>(items: Seq<T>, hits: Seq<bool>, i: int, k: int)
    requires
        0 <= i < hits.len() <= items.len(),
        0 <= k <= hits.len(),
        hits[i],
        forall|j: int| 0 <= j < hits.len() && j != i ==> !hits[j],
    ensures
        erased(items, hits, k) == (if k > i {
            items.remove(i)
        } else {
            items
        }),
    decreases k,
{
    if k > 0 {
        lemma_erased_single(items, hits, i, k - 1);
    }
}

} // verus!
