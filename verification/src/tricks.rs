//! The trick dictionary: which key sequences are tricks, and what they are worth.

use vstd::prelude::*;
use crate::input::Key;

verus! {

/// One trick: its name, the points it scores and the time in milliseconds
/// the player has to stay in the air for it to count.
#[derive(Clone, Debug)]
pub struct TrickDefinition {
    pub name: String,
    pub points: usize,
    pub takes_ms: usize,
}

/// The mathematical value of a [`TrickDefinition`].
pub struct TrickDefinitionView {
    pub name: Seq<char>,
    pub points: nat,
    pub takes_ms: nat,
}

impl View for TrickDefinition {
    type V = TrickDefinitionView;

    open spec fn view(&self) -> TrickDefinitionView {
        TrickDefinitionView {
            name: self.name@,
            points: self.points as nat,
            takes_ms: self.takes_ms as nat,
        }
    }
}

impl TrickDefinition {
    /// A copy with the same name, points and duration.
    pub fn duplicate(&self) -> (copy: TrickDefinition)
        ensures
            copy@ == self@,
    {
        TrickDefinition { name: self.name.clone(), points: self.points, takes_ms: self.takes_ms }
    }
}

/// One line of the dictionary, as a mathematical value.
pub struct TrickEntry {
    pub keys: Seq<Key>,
    pub trick: TrickDefinitionView,
}

/// Whether `keys` is the beginning of `line`, with more of `line` to come.
pub open spec fn is_proper_prefix(keys: Seq<Key>, line: Seq<Key>) -> bool {
    keys.len() < line.len() && line.take(keys.len() as int) == keys
}

/// Whether the player may still be typing a longer trick: some line of the
/// dictionary begins with the buffer and goes on.
pub open spec fn still_open(dict: Seq<TrickEntry>, keys: Seq<Key>) -> bool {
    exists|j: int| 0 <= j < dict.len() && is_proper_prefix(keys, #[trigger] dict[j].keys)
}

/// Line `i` is the first line that spells the buffer, key for key.
pub open spec fn first_spelling(dict: Seq<TrickEntry>, keys: Seq<Key>, i: int) -> bool {
    &&& 0 <= i < dict.len()
    &&& dict[i].keys == keys
    &&& forall|j: int| 0 <= j < i ==> (#[trigger] dict[j]).keys != keys
}

/// The trick that the buffer is recognised as, if any.
///
/// A buffer is recognised only as a line that spells it key for key: same
/// length, same keys, same order. Longer sequences go first: as long as
/// some line begins with the buffer and goes on, the buffer is not
/// recognised as anything yet. Of several lines that spell the buffer, the
/// first one counts.
pub open spec fn recognised(dict: Seq<TrickEntry>, keys: Seq<Key>) -> Option<TrickDefinitionView> {
    if still_open(dict, keys) {
        None
    } else if exists|i: int| first_spelling(dict, keys, i) {
        Some(dict[choose|i: int| first_spelling(dict, keys, i)].trick)
    } else {
        None
    }
}

/// Whether the lines run from the longest key sequence to the shortest.
pub open spec fn longest_first(dict: Seq<TrickEntry>) -> bool {
    forall|i: int, j: int|
        0 <= i <= j < dict.len() ==> (#[trigger] dict[i]).keys.len() >= (#[trigger] dict[j]).keys.len()
}

/// Only one line can be the first to spell the buffer.
pub proof fn lemma_first_spelling_unique(dict: Seq<TrickEntry>, keys: Seq<Key>, i: int, j: int)
    requires
        first_spelling(dict, keys, i),
        first_spelling(dict, keys, j),
    ensures
        i == j,
{
    if i < j {
        assert(dict[i].keys != keys);
    } else if j < i {
        assert(dict[j].keys != keys);
    }
}

/// Recognition is exact: a recognised trick stands in the dictionary under
/// precisely the keys of the buffer, same length and same order. A line with
/// other keys, be it longer, shorter or in another order, is never what
/// comes back, and a buffer that no line spells is not recognised.
pub proof fn lemma_recognition_is_exact(dict: Seq<TrickEntry>, keys: Seq<Key>)
    ensures
        recognised(dict, keys) matches Some(trick) ==> exists|i: int|
            0 <= i < dict.len() && (#[trigger] dict[i]).keys == keys && dict[i].trick == trick,
        (forall|i: int| 0 <= i < dict.len() ==> (#[trigger] dict[i]).keys != keys) ==> recognised(
            dict,
            keys,
        ) is None,
{
    if !still_open(dict, keys) && exists|i: int| first_spelling(dict, keys, i) {
        let i = choose|i: int| first_spelling(dict, keys, i);
        assert(dict[i].keys == keys);
    }
}

/// Longer sequences go first: while the dictionary holds a line that begins
/// with the buffer and goes on, the buffer is not recognised as anything,
/// so a short trick is never taken while a longer one is on its way.
pub proof fn lemma_longer_line_defers(dict: Seq<TrickEntry>, keys: Seq<Key>, longer: int)
    requires
        0 <= longer < dict.len(),
        is_proper_prefix(keys, dict[longer].keys),
    ensures
        recognised(dict, keys) is None,
{
}

/// The first line that spells the buffer is what the buffer is recognised
/// as, once no line begins with the buffer and goes on.
pub proof fn lemma_first_spelling_wins(dict: Seq<TrickEntry>, keys: Seq<Key>, i: int)
    requires
        first_spelling(dict, keys, i),
        !still_open(dict, keys),
    ensures
        recognised(dict, keys) == Some(dict[i].trick),
{
    let k = choose|k: int| first_spelling(dict, keys, k);
    lemma_first_spelling_unique(dict, keys, i, k);
}

/// Whether two key sequences are the same, key for key.
pub fn same_keys(a: &Vec<Key>, b: &Vec<Key>) -> (same: bool)
    ensures
        same == (a@ == b@),
{
    if a.len() != b.len() {
        return false;
    }
    let mut i: usize = 0;
    while i < a.len()
        invariant
            a.len() == b.len(),
            i <= a.len(),
            forall|k: int| 0 <= k < i ==> a@[k] == b@[k],
        decreases a.len() - i,
    {
        if a[i] != b[i] {
            return false;
        }
        i += 1;
    }
    assert(a@ =~= b@);
    true
}

/// All the tricks of the game: key sequences with their definitions.
#[derive(Clone, Debug)]
pub struct TrickList {
    pub tricks: Vec<(Vec<Key>, TrickDefinition)>,
}

impl View for TrickList {
    type V = Seq<TrickEntry>;

    open spec fn view(&self) -> Seq<TrickEntry> {
        Seq::new(
            self.tricks@.len(),
            |i: int| TrickEntry { keys: self.tricks@[i].0@, trick: self.tricks@[i].1@ },
        )
    }
}

/// Whether `line` begins with `keys` and goes on.
pub fn goes_on_from(line: &Vec<Key>, keys: &Vec<Key>) -> (longer: bool)
    ensures
        longer == is_proper_prefix(keys@, line@),
{
    if line.len() <= keys.len() {
        return false;
    }
    let mut i: usize = 0;
    while i < keys.len()
        invariant
            keys.len() < line.len(),
            i <= keys.len(),
            forall|k: int| 0 <= k < i ==> line@[k] == keys@[k],
        decreases keys.len() - i,
    {
        if line[i] != keys[i] {
            assert(line@.take(keys.len() as int)[i as int] == line@[i as int]);
            return false;
        }
        i += 1;
    }
    assert(line@.take(keys.len() as int) =~= keys@);
    true
}

impl TrickList {
    /// Looks the buffer up: the trick it is recognised as, or nothing.
    pub fn find_trick(&self, keys: &Vec<Key>) -> (found: Option<&TrickDefinition>)
        ensures
            match found {
                Some(trick) => recognised(self@, keys@) == Some(trick@),
                None => recognised(self@, keys@) is None,
            },
    {
        let ghost dict = self@;
        let mut first: Option<usize> = None;
        let mut i: usize = 0;
        while i < self.tricks.len()
            invariant
                dict == self@,
                i <= self.tricks.len(),
                forall|j: int| 0 <= j < i ==> !is_proper_prefix(keys@, #[trigger] dict[j].keys),
                match first {
                    Some(f) => f < i && first_spelling(dict, keys@, f as int),
                    None => forall|j: int| 0 <= j < i ==> (#[trigger] dict[j]).keys != keys@,
                },
            decreases self.tricks.len() - i,
        {
            let entry = &self.tricks[i];
            assert(dict[i as int].keys == entry.0@);
            if goes_on_from(&entry.0, keys) {
                return None;
            }
            if first.is_none() && same_keys(&entry.0, keys) {
                first = Some(i);
            }
            i += 1;
        }
        match first {
            Some(f) => {
                proof {
                    lemma_first_spelling_wins(dict, keys@, f as int);
                }
                Some(&self.tricks[f].1)
            },
            None => {
                proof {
                    if exists|k: int| first_spelling(dict, keys@, k) {
                        let k = choose|k: int| first_spelling(dict, keys@, k);
                        assert(dict[k].keys == keys@);
                    }
                }
                None
            },
        }
    }
}

/// Line `j` of the old order has a place in the new one.
pub open spec fn has_place(origin: Seq<int>, j: int) -> bool {
    exists|k: int| 0 <= k < origin.len() && origin[k] == j
}

/// `after` holds the lines of `before` in another order, line `k` of
/// `after` being line `origin[k]` of `before`, and lines of the same length
/// stand in the order they stood in before.
pub open spec fn is_stable_arrangement(
    after: Seq<TrickEntry>,
    before: Seq<TrickEntry>,
    origin: Seq<int>,
) -> bool {
    &&& after.len() == before.len()
    &&& origin.len() == before.len()
    &&& forall|k: int|
        0 <= k < origin.len() ==> 0 <= #[trigger] origin[k] < before.len() && after[k]
            == before[origin[k]]
    &&& forall|a: int, b: int|
        0 <= a < b < origin.len() ==> #[trigger] origin[a] != #[trigger] origin[b]
    &&& forall|a: int, b: int|
        0 <= a < b < origin.len() && after[a].keys.len() == after[b].keys.len()
            ==> #[trigger] origin[a] < #[trigger] origin[b]
    &&& forall|j: int| 0 <= j < before.len() ==> #[trigger] has_place(origin, j)
}

/// Putting the lines in another order, with lines of the same length
/// keeping theirs, changes nothing about what a buffer is recognised as.
pub proof fn lemma_order_does_not_matter(
    after: Seq<TrickEntry>,
    before: Seq<TrickEntry>,
    origin: Seq<int>,
    keys: Seq<Key>,
)
    requires
        is_stable_arrangement(after, before, origin),
    ensures
        recognised(after, keys) == recognised(before, keys),
{
    if still_open(before, keys) {
        let j = choose|j: int| 0 <= j < before.len() && is_proper_prefix(keys, #[trigger] before[j].keys);
        assert(has_place(origin, j));
        let k = choose|k: int| 0 <= k < origin.len() && origin[k] == j;
        assert(after[k] == before[j]);
        assert(is_proper_prefix(keys, after[k].keys));
    }
    if still_open(after, keys) {
        let k = choose|k: int| 0 <= k < after.len() && is_proper_prefix(keys, #[trigger] after[k].keys);
        assert(after[k] == before[origin[k]]);
        assert(is_proper_prefix(keys, before[origin[k]].keys));
    }
    if !still_open(before, keys) {
        if exists|i: int| first_spelling(after, keys, i) {
            let i = choose|i: int| first_spelling(after, keys, i);
            let j = origin[i];
            assert(after[i] == before[j]);
            assert forall|m: int| 0 <= m < j implies (#[trigger] before[m]).keys != keys by {
                if before[m].keys == keys {
                    assert(has_place(origin, m));
                    let k = choose|k: int| 0 <= k < origin.len() && origin[k] == m;
                    assert(after[k] == before[m]);
                    assert(after[k].keys.len() == after[i].keys.len());
                    if k < i {
                        assert(after[k].keys != keys);
                    } else if i < k {
                        assert(origin[i] < origin[k]);
                    }
                }
            }
            assert(first_spelling(before, keys, j));
            lemma_first_spelling_wins(before, keys, j);
            lemma_first_spelling_wins(after, keys, i);
        } else if exists|j: int| first_spelling(before, keys, j) {
            let j = choose|j: int| first_spelling(before, keys, j);
            assert(has_place(origin, j));
            let k = choose|k: int| 0 <= k < origin.len() && origin[k] == j;
            assert(after[k] == before[j]);
            lemma_some_spelling_has_a_first(after, keys, k);
        }
    }
}

/// Where some line spells the buffer, some line is the first to do so.
pub proof fn lemma_some_spelling_has_a_first(dict: Seq<TrickEntry>, keys: Seq<Key>, k: int)
    requires
        0 <= k < dict.len(),
        dict[k].keys == keys,
    ensures
        exists|i: int| first_spelling(dict, keys, i),
    decreases k,
{
    if exists|j: int| 0 <= j < k && (#[trigger] dict[j]).keys == keys {
        let j = choose|j: int| 0 <= j < k && (#[trigger] dict[j]).keys == keys;
        lemma_some_spelling_has_a_first(dict, keys, j);
    } else {
        assert(first_spelling(dict, keys, k));
    }
}

impl TrickList {
    /// Puts the lines in order, longest key sequence first. No line is
    /// lost or made up, and lines of the same length keep their order.
    pub fn sort_longest_first(&mut self)
        ensures
            longest_first(final(self)@),
            exists|origin: Seq<int>| is_stable_arrangement(final(self)@, old(self)@, origin),
    {
        let ghost before = self.tricks@;
        let ghost before_view = self@;
        let mut rest: Vec<(Vec<Key>, TrickDefinition)> = Vec::new();
        std::mem::swap(&mut self.tricks, &mut rest);
        let ghost mut origin: Seq<int> = Seq::empty();
        let ghost mut done: int = 0;
        while rest.len() > 0
            invariant
                before_view.len() == before.len(),
                forall|k: int|
                    0 <= k < before.len() ==> (#[trigger] before_view[k]).keys == before[k].0@
                        && before_view[k].trick == before[k].1@,
                0 <= done <= before.len(),
                rest@ == before.skip(done),
                self.tricks@.len() == done,
                origin.len() == done,
                forall|k: int|
                    0 <= k < done ==> 0 <= #[trigger] origin[k] < done && self.tricks@[k]
                        == before[origin[k]],
                forall|a: int, b: int|
                    0 <= a < b < done ==> #[trigger] origin[a] != #[trigger] origin[b],
                forall|a: int, b: int|
                    0 <= a < b < done && self.tricks@[a].0@.len() == self.tricks@[b].0@.len()
                        ==> #[trigger] origin[a] < #[trigger] origin[b],
                forall|a: int, b: int|
                    0 <= a <= b < done ==> (#[trigger] self.tricks@[a]).0@.len() >= (
                    #[trigger] self.tricks@[b]).0@.len(),
                forall|j: int| 0 <= j < done ==> #[trigger] has_place(origin, j),
            decreases rest.len(),
        {
            let entry = rest.remove(0);
            assert(entry == before[done]);
            assert(rest@ =~= before.skip(done + 1));
            let length = entry.0.len();
            let mut place: usize = 0;
            while place < self.tricks.len() && self.tricks[place].0.len() >= length
                invariant
                    place <= self.tricks.len(),
                    forall|k: int| 0 <= k < place ==> (#[trigger] self.tricks@[k]).0@.len() >= length,
                decreases self.tricks.len() - place,
            {
                place += 1;
            }
            let ghost sorted = self.tricks@;
            let ghost old_origin = origin;
            self.tricks.insert(place, entry);
            proof {
                origin = old_origin.insert(place as int, done);
                let now = self.tricks@;
                assert(now == sorted.insert(place as int, entry));
                assert forall|k: int| 0 <= k < done + 1 implies 0 <= #[trigger] origin[k] < done
                    + 1 && now[k] == before[origin[k]] by {
                    if k < place {
                        assert(origin[k] == old_origin[k]);
                        assert(now[k] == sorted[k]);
                    } else if k == place {
                    } else {
                        assert(origin[k] == old_origin[k - 1]);
                        assert(now[k] == sorted[k - 1]);
                    }
                }
                assert forall|k: int| place < k < done + 1 implies (#[trigger] now[k]).0@.len()
                    < length by {
                    assert(now[k] == sorted[k - 1]);
                    assert(sorted[place as int].0@.len() < length);
                    assert(sorted[place as int].0@.len() >= sorted[k - 1].0@.len());
                }
                assert forall|k: int| 0 <= k < place implies (#[trigger] now[k]).0@.len()
                    >= length by {
                    assert(now[k] == sorted[k]);
                }
                assert forall|a: int, b: int| 0 <= a < b < done + 1 implies #[trigger] origin[a]
                    != #[trigger] origin[b] by {
                    let oa = if a < place { a } else { a - 1 };
                    let ob = if b < place { b } else { b - 1 };
                    if a != place && b != place {
                        assert(origin[a] == old_origin[oa]);
                        assert(origin[b] == old_origin[ob]);
                    } else if a == place {
                        assert(origin[b] == old_origin[ob]);
                    } else {
                        assert(origin[a] == old_origin[oa]);
                    }
                }
                assert forall|a: int, b: int|
                    0 <= a < b < done + 1 && now[a].0@.len() == now[b].0@.len()
                        implies #[trigger] origin[a] < #[trigger] origin[b] by {
                    let oa = if a < place { a } else { a - 1 };
                    let ob = if b < place { b } else { b - 1 };
                    if a != place && b != place {
                        assert(origin[a] == old_origin[oa]);
                        assert(origin[b] == old_origin[ob]);
                        assert(now[a] == sorted[oa]);
                        assert(now[b] == sorted[ob]);
                    } else if a == place {
                        assert(now[b].0@.len() < length);
                    } else {
                        assert(origin[a] == old_origin[oa]);
                    }
                }
                assert forall|a: int, b: int| 0 <= a <= b < done + 1 implies (#[trigger] now[a]).0@.len()
                    >= (#[trigger] now[b]).0@.len() by {
                    let oa = if a < place { a } else { a - 1 };
                    let ob = if b < place { b } else { b - 1 };
                    if a != place && b != place {
                        assert(now[a] == sorted[oa]);
                        assert(now[b] == sorted[ob]);
                    }
                }
                assert forall|j: int| 0 <= j < done + 1 implies #[trigger] has_place(
                    origin,
                    j,
                ) by {
                    if j == done {
                        assert(origin[place as int] == j);
                    } else {
                        assert(has_place(old_origin, j));
                        let k = choose|k: int| 0 <= k < old_origin.len() && old_origin[k] == j;
                        let moved = if k < place { k } else { k + 1 };
                        assert(origin[moved] == j);
                    }
                }
                done = done + 1;
            }
        }
        proof {
            let after = self@;
            assert(done == before.len());
            assert forall|k: int| 0 <= k < origin.len() implies 0 <= #[trigger] origin[k]
                < before_view.len() && after[k] == before_view[origin[k]] by {
                assert(self.tricks@[k] == before[origin[k]]);
            }
            assert forall|a: int, b: int|
                0 <= a < b < origin.len() && after[a].keys.len() == after[b].keys.len()
                    implies #[trigger] origin[a] < #[trigger] origin[b] by {
                assert(self.tricks@[a].0@.len() == self.tricks@[b].0@.len());
            }
            assert(is_stable_arrangement(after, before_view, origin));
            assert forall|i: int, j: int| 0 <= i <= j < after.len() implies (#[trigger] after[i]).keys.len()
                >= (#[trigger] after[j]).keys.len() by {
                assert(self.tricks@[i].0@.len() >= self.tricks@[j].0@.len());
            }
        }
    }
}

/// Makes the dictionary ready for play: the lines are put in order, longest
/// key sequence first.
pub fn initialize_trick_list(trick_list: TrickList) -> (ready: TrickList)
    ensures
        longest_first(ready@),
        exists|origin: Seq<int>| is_stable_arrangement(ready@, trick_list@, origin),
{
    let mut ready = trick_list;
    ready.sort_longest_first();
    ready
}

} // verus!
