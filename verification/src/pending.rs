//! Writes that wait for a flush, and what a flush makes of a file's content.

use vstd::prelude::*;

verus! {

/// One write: the bytes, and the place in the file where they go.
#[derive(Debug)]
pub struct PendingWrite {
    pub id: String,
    pub offset: usize,
    pub data: Vec<u8>,
}

/// What a [`PendingWrite`] stands for.
#[verifier::ext_equal]
pub struct Write {
    pub id: Seq<char>,
    pub offset: int,
    pub data: Seq<u8>,
}

impl Write {
    /// The position after the last byte written.
    pub open spec fn end(self) -> int {
        self.offset + self.data.len()
    }

    /// Whether a file that ends with this write is one that memory can hold.
    pub open spec fn fits(self) -> bool {
        self.end() <= isize::MAX
    }
}

impl View for PendingWrite {
    type V = Write;

    open spec fn view(&self) -> Write {
        Write { id: self.id@, offset: self.offset as int, data: self.data@ }
    }
}

/// The first `len` bytes of `data`, with zeros in place of those that it lacks.
pub open spec fn zero_padded(data: Seq<u8>, len: int) -> Seq<u8> {
    Seq::new(len as nat, |i: int| if i < data.len() { data[i] } else { 0 })
}

/// The content that one write leaves: what lay before the place that is written (with zeros
/// where the file was shorter), then the bytes written. Whatever lay behind them is gone.
pub open spec fn applied(data: Seq<u8>, write: Write) -> Seq<u8> {
    zero_padded(data, write.offset) + write.data
}

/// The content that a sequence of writes leaves, the first one applied first.
pub open spec fn all_applied(data: Seq<u8>, writes: Seq<Write>) -> Seq<u8>
    decreases writes.len(),
{
    if writes.len() == 0 {
        data
    } else {
        applied(all_applied(data, writes.drop_last()), writes.last())
    }
}

/// Whether every write of the sequence fits.
pub open spec fn all_fit(writes: Seq<Write>) -> bool {
    forall|i: int| 0 <= i < writes.len() ==> (#[trigger] writes[i]).fits()
}

/// Whether a collection of waiting writes is one that writing can bring about: a file that has a
/// list has at least one write in it, each write stands in the list of its own file, and no place
/// or length is one that a machine cannot tell.
pub open spec fn well_kept(pending: Map<Seq<char>, Seq<Write>>) -> bool {
    &&& forall|id: Seq<char>| #[trigger] pending.contains_key(id) ==> pending[id].len() > 0
    &&& forall|id: Seq<char>, i: int|
        pending.contains_key(id) && 0 <= i < pending[id].len() ==> {
            let write = #[trigger] pending[id][i];
            &&& write.id == id
            &&& 0 <= write.offset <= usize::MAX
            &&& write.data.len() <= usize::MAX
        }
}

/// Puts one write into effect on the content of a file.
pub fn apply_write(data: &mut Vec<u8>, write: &PendingWrite)
    requires
        write@.fits(),
    ensures
        final(data)@ == applied(old(data)@, write@),
{
    data.resize(write.offset, 0);
    assert(data@ =~= zero_padded(old(data)@, write@.offset));
    data.extend_from_slice(write.data.as_slice());
    assert(data@ =~= applied(old(data)@, write@));
}

/// Writing in two batches, each applied to what the one before it left, gives what writing in
/// one gives: a flush between two writes changes nothing in the file that comes out.
pub proof fn law_batches(data: Seq<u8>, first: Seq<Write>, second: Seq<Write>)
    ensures
        all_applied(data, first + second) == all_applied(all_applied(data, first), second),
    decreases second.len(),
{
    if second.len() == 0 {
        assert(first + second =~= first);
    } else {
        law_batches(data, first, second.drop_last());
        assert((first + second).drop_last() =~= first + second.drop_last());
    }
}

/// A file ends where the last write to it ends, and ends with what that write wrote.
pub proof fn law_last_write_ends_the_file(data: Seq<u8>, writes: Seq<Write>)
    requires
        writes.len() > 0,
        writes.last().offset >= 0,
    ensures
        all_applied(data, writes).len() == writes.last().end(),
        all_applied(data, writes).skip(writes.last().offset) == writes.last().data,
{
    assert(all_applied(data, writes).skip(writes.last().offset) =~= writes.last().data);
}

/// What lies before every place that is written stays as it was.
pub proof fn law_bytes_before_the_writes_stay(data: Seq<u8>, writes: Seq<Write>, n: int)
    requires
        0 <= n <= data.len(),
        forall|i: int| 0 <= i < writes.len() ==> (#[trigger] writes[i]).offset >= n,
    ensures
        all_applied(data, writes).len() >= n,
        all_applied(data, writes).take(n) == data.take(n),
    decreases writes.len(),
{
    if writes.len() > 0 {
        let before = all_applied(data, writes.drop_last());
        assert forall|i: int| 0 <= i < writes.drop_last().len() implies (
        #[trigger] writes.drop_last()[i]).offset >= n by {
            assert(writes.drop_last()[i] == writes[i]);
        }
        law_bytes_before_the_writes_stay(data, writes.drop_last(), n);
        assert(writes.last() == writes[writes.len() - 1]);
        assert(all_applied(data, writes).take(n) =~= before.take(n));
    }
}

/// Once a write starts at the front of the file, nothing of the content that was there before
/// counts any more.
pub proof fn law_write_at_the_front_replaces_the_file(
    data: Seq<u8>,
    other: Seq<u8>,
    writes: Seq<Write>,
    i: int,
)
    requires
        0 <= i < writes.len(),
        writes[i].offset == 0,
    ensures
        all_applied(data, writes) == all_applied(other, writes),
    decreases writes.len(),
{
    if i == writes.len() - 1 {
        let a = all_applied(data, writes.drop_last());
        let b = all_applied(other, writes.drop_last());
        assert(zero_padded(a, 0) =~= zero_padded(b, 0));
    } else {
        assert(writes.drop_last()[i] == writes[i]);
        law_write_at_the_front_replaces_the_file(data, other, writes.drop_last(), i);
    }
}

/// All that a sequence of writes wrote, one after the other.
pub open spec fn written(writes: Seq<Write>) -> Seq<u8>
    decreases writes.len(),
{
    if writes.len() == 0 {
        Seq::empty()
    } else {
        written(writes.drop_last()) + writes.last().data
    }
}

/// Whether each write starts where the one before it ended, and the first one at `start`.
pub open spec fn consecutive(start: int, writes: Seq<Write>) -> bool {
    forall|i: int|
        0 <= i < writes.len() ==> (#[trigger] writes[i]).offset == start + written(
            writes.take(i),
        ).len()
}

/// Writes that follow one another from the place `start` on leave the file with what lay before
/// that place (zeros where the file was shorter), and then all that was written.
pub proof fn law_consecutive_writes(data: Seq<u8>, start: int, writes: Seq<Write>)
    requires
        0 <= start,
        writes.len() > 0,
        consecutive(start, writes),
    ensures
        all_applied(data, writes) == zero_padded(data, start) + written(writes),
    decreases writes.len(),
{
    let last = writes.len() - 1;
    assert(writes.take(last) =~= writes.drop_last());
    assert(writes[last].offset == start + written(writes.drop_last()).len());
    if last == 0 {
        assert(all_applied(data, writes.drop_last()) == data);
        assert(all_applied(data, writes) =~= zero_padded(data, start) + written(writes));
    } else {
        assert forall|i: int| 0 <= i < writes.drop_last().len() implies (
        #[trigger] writes.drop_last()[i]).offset == start + written(
            writes.drop_last().take(i),
        ).len() by {
            assert(writes.drop_last()[i] == writes[i]);
            assert(writes.drop_last().take(i) =~= writes.take(i));
        }
        law_consecutive_writes(data, start, writes.drop_last());
        let before = all_applied(data, writes.drop_last());
        assert(zero_padded(before, before.len() as int) =~= before);
        assert(all_applied(data, writes) =~= zero_padded(data, start) + written(writes));
    }
}

/// The writes that wait, grouped by the file that they go to, in the order in which they came.
#[derive(Debug)]
pub struct PendingWrites {
    groups: Vec<(String, Vec<PendingWrite>)>,
}

/// What a list of writes stands for.
pub open spec fn writes_of(list: Seq<PendingWrite>) -> Seq<Write> {
    list.map_values(|w: PendingWrite| w@)
}

impl PendingWrites {
    /// Whether the group at `i` is that of the file `id`.
    closed spec fn is_at(self, id: Seq<char>, i: int) -> bool {
        0 <= i < self.groups@.len() && self.groups@[i].0@ == id
    }

    /// Where the group of the file `id` is.
    closed spec fn place(self, id: Seq<char>) -> int {
        choose|i: int| self.is_at(id, i)
    }

    /// Each file has one group, no group is empty, and each write stands in the group of its file.
    pub closed spec fn wf(self) -> bool {
        &&& forall|i: int, j: int|
            0 <= i < self.groups@.len() && 0 <= j < self.groups@.len() && i != j
                ==> (#[trigger] self.groups@[i]).0@ != (#[trigger] self.groups@[j]).0@
        &&& forall|i: int, k: int|
            0 <= i < self.groups@.len() && 0 <= k < self.groups@[i].1@.len()
                ==> (#[trigger] self.groups@[i].1@[k]).id@ == self.groups@[i].0@
        &&& forall|i: int|
            0 <= i < self.groups@.len() ==> (#[trigger] self.groups@[i]).1@.len() > 0
    }
}

impl View for PendingWrites {
    type V = Map<Seq<char>, Seq<Write>>;

    closed spec fn view(&self) -> Map<Seq<char>, Seq<Write>> {
        Map::new(
            |id: Seq<char>| exists|i: int| self.is_at(id, i),
            |id: Seq<char>| writes_of(self.groups@[self.place(id)].1@),
        )
    }
}

impl PendingWrites {
    /// What the group at `i` says of the map.
    proof fn lemma_group(self, i: int)
        requires
            self.wf(),
            0 <= i < self.groups@.len(),
        ensures
            self@.contains_key(self.groups@[i].0@),
            self@[self.groups@[i].0@] == writes_of(self.groups@[i].1@),
    {
        let id = self.groups@[i].0@;
        assert(self.is_at(id, i));
        assert(self.is_at(id, self.place(id)));
    }

    /// The writes that wait are always such as writing can bring about: no file has an empty
    /// list, and each write stands in the list of its own file.
    pub proof fn law_well_kept(self)
        requires
            self.wf(),
        ensures
            well_kept(self@),
    {
        assert forall|id: Seq<char>| #[trigger] self@.contains_key(id) implies self@[id].len()
            > 0 by {
            assert(self.is_at(id, self.place(id)));
        }
        assert forall|id: Seq<char>, i: int|
            self@.contains_key(id) && 0 <= i < self@[id].len() implies {
            let write = #[trigger] self@[id][i];
            &&& write.id == id
            &&& 0 <= write.offset <= usize::MAX
            &&& write.data.len() <= usize::MAX
        } by {
            assert(self.is_at(id, self.place(id)));
            let write = self.groups@[self.place(id)].1@[i];
            assert(self@[id][i] == write@);
            assert(write.data@.len() == write.data.len());
        }
    }

    /// Two collections whose groups stand at places that match hold the same map, but for one
    /// file.
    proof fn lemma_agree(
        self,
        other: PendingWrites,
        id: Seq<char>,
        from: spec_fn(int) -> int,
        to: spec_fn(int) -> int,
    )
        requires
            self.wf(),
            other.wf(),
            forall|i: int|
                0 <= i < self.groups@.len() && (#[trigger] self.groups@[i]).0@ != id ==> {
                    &&& 0 <= to(i) < other.groups@.len()
                    &&& other.groups@[to(i)] == self.groups@[i]
                },
            forall|i: int|
                0 <= i < other.groups@.len() && (#[trigger] other.groups@[i]).0@ != id ==> {
                    &&& 0 <= from(i) < self.groups@.len()
                    &&& self.groups@[from(i)] == other.groups@[i]
                },
        ensures
            self@.remove(id) == other@.remove(id),
    {
        assert forall|k: Seq<char>| k != id && #[trigger] self@.contains_key(k) implies
            other@.contains_key(k) && other@[k] == self@[k] by {
            let i = self.place(k);
            assert(self.is_at(k, i));
            self.lemma_group(i);
            other.lemma_group(to(i));
        }
        assert forall|k: Seq<char>| k != id && #[trigger] other@.contains_key(k) implies
            self@.contains_key(k) by {
            let i = other.place(k);
            assert(other.is_at(k, i));
            self.lemma_group(from(i));
        }
        assert(self@.remove(id) =~= other@.remove(id));
    }

    /// No writes.
    pub fn new() -> (r: PendingWrites)
        ensures
            r.wf(),
            r@ == Map::<Seq<char>, Seq<Write>>::empty(),
    {
        let r = PendingWrites { groups: Vec::new() };
        assert(r@ =~= Map::empty());
        r
    }

    /// Where the group of the file `id` is, if it has one.
    fn position(&self, id: &String) -> (r: Option<usize>)
        requires
            self.wf(),
        ensures
            match r {
                Some(i) => i < self.groups@.len() && self.groups@[i as int].0@ == id@
                    && self@.contains_key(id@) && self@[id@] == writes_of(
                    self.groups@[i as int].1@,
                ),
                None => !self@.contains_key(id@) && forall|i: int|
                    0 <= i < self.groups@.len() ==> (#[trigger] self.groups@[i]).0@ != id@,
            },
    {
        let mut i: usize = 0;
        while i < self.groups.len()
            invariant
                self.wf(),
                i <= self.groups@.len(),
                forall|j: int| 0 <= j < i ==> (#[trigger] self.groups@[j]).0@ != id@,
            decreases self.groups@.len() - i,
        {
            if self.groups[i].0 == *id {
                proof {
                    self.lemma_group(i as int);
                }
                return Some(i);
            }
            i = i + 1;
        }
        None
    }

    /// Whether any write to the file `id` waits.
    pub fn contains_key(&self, id: &String) -> (r: bool)
        requires
            self.wf(),
        ensures
            r == self@.contains_key(id@),
    {
        self.position(id).is_some()
    }

    /// Adds a write behind those of the same file that wait already.
    pub fn push(&mut self, write: PendingWrite)
        requires
            old(self).wf(),
        ensures
            final(self).wf(),
            final(self)@ == old(self)@.insert(
                write.id@,
                if old(self)@.contains_key(write.id@) {
                    old(self)@[write.id@].push(write@)
                } else {
                    seq![write@]
                },
            ),
    {
        let ghost id = write.id@;
        match self.position(&write.id) {
            Some(i) => {
                self.groups[i].1.push(write);
                proof {
                    let list = old(self).groups@[i as int].1@;
                    assert(writes_of(list.push(write)) =~= writes_of(list).push(write@));
                    self.lemma_group(i as int);
                    self.lemma_agree(*old(self), id, |j: int| j, |j: int| j);
                    assert(self@ =~= self@.remove(id).insert(id, writes_of(list).push(write@)));
                    assert(self@ =~= old(self)@.remove(id).insert(
                        id,
                        writes_of(list).push(write@),
                    ));
                }
            },
            None => {
                let id = write.id.clone();
                let mut list: Vec<PendingWrite> = Vec::with_capacity(3000);
                list.push(write);
                self.groups.push((id, list));
                proof {
                    let last = self.groups@.len() - 1;
                    assert(writes_of(self.groups@[last].1@) =~= seq![write@]);
                    self.lemma_group(last);
                    self.lemma_agree(*old(self), id@, |j: int| j, |j: int| j);
                    assert(self@ =~= self@.remove(id@).insert(id@, seq![write@]));
                    assert(self@ =~= old(self)@.remove(id@).insert(id@, seq![write@]));
                }
            },
        }
    }

    /// Whether every write to the file `id` that waits fits.
    pub fn fits(&self, id: &String) -> (r: bool)
        requires
            self.wf(),
        ensures
            r == (self@.contains_key(id@) ==> all_fit(self@[id@])),
    {
        match self.position(id) {
            Some(place) => {
                let list = &self.groups[place].1;
                let mut i: usize = 0;
                while i < list.len()
                    invariant
                        self@.contains_key(id@),
                        self@[id@] == writes_of(list@),
                        i <= list@.len(),
                        forall|j: int| 0 <= j < i ==> (#[trigger] writes_of(list@)[j]).fits(),
                    decreases list@.len() - i,
                {
                    assert(writes_of(list@)[i as int] == list@[i as int]@);
                    let limit: usize = isize::MAX as usize;
                    if list[i].offset > limit || list[i].data.len() > limit - list[i].offset {
                        assert(!writes_of(list@)[i as int].fits());
                        return false;
                    }
                    i = i + 1;
                }
                true
            },
            None => true,
        }
    }

    /// Takes out all the writes to the file `id`.
    pub fn take(&mut self, id: &String) -> (r: Vec<PendingWrite>)
        requires
            old(self).wf(),
        ensures
            final(self).wf(),
            final(self)@ == old(self)@.remove(id@),
            writes_of(r@) == if old(self)@.contains_key(id@) {
                old(self)@[id@]
            } else {
                Seq::empty()
            },
            forall|i: int| 0 <= i < r@.len() ==> (#[trigger] r@[i]).id@ == id@,
    {
        match self.position(id) {
            Some(i) => {
                let (_, list) = self.groups.swap_remove(i);
                proof {
                    let last = old(self).groups@.len() - 1;
                    let moved = |j: int| if j == last { i as int } else { j };
                    let back = |j: int| if j == i { last } else { j };
                    old(self).lemma_agree(*self, id@, back, moved);
                    assert(!self@.contains_key(id@)) by {
                        if self@.contains_key(id@) {
                            assert(self.is_at(id@, self.place(id@)));
                        }
                    }
                    assert(self@ =~= self@.remove(id@));
                }
                list
            },
            None => {
                assert(self@ =~= self@.remove(id@));
                Vec::new()
            },
        }
    }
}

/// What a write stands for is told by its three parts, each as it is; a list of writes stands for
/// what each of them stands for, in order.
pub proof fn law_what_writes_stand_for(write: PendingWrite, list: Seq<PendingWrite>)
    ensures
        write@.id == write.id@,
        write@.offset == write.offset,
        write@.data == write.data@,
        writes_of(list).len() == list.len(),
        forall|i: int| 0 <= i < list.len() ==> #[trigger] writes_of(list)[i] == list[i]@,
{
}

/// One write, byte for byte: the file ends where the write ends; from its place on lie the bytes
/// written; before that place the bytes are those that were there, or zeros where there were
/// none.
pub proof fn law_one_write(data: Seq<u8>, write: Write, i: int)
    requires
        0 <= write.offset,
    ensures
        applied(data, write).len() == write.offset + write.data.len(),
        0 <= i < write.offset && i < data.len() ==> applied(data, write)[i] == data[i],
        data.len() <= i < write.offset ==> applied(data, write)[i] == 0,
        0 <= i < write.data.len() ==> applied(data, write)[write.offset + i] == write.data[i],
{
}

/// Writes take effect one after the other: no writes leave a content as it is, and one more write
/// is put into effect on what those before it left.
pub proof fn law_one_more_write(data: Seq<u8>, writes: Seq<Write>, write: Write)
    ensures
        all_applied(data, Seq::empty()) == data,
        all_applied(data, writes.push(write)) == applied(all_applied(data, writes), write),
{
    assert(writes.push(write).drop_last() =~= writes);
}

/// A write right behind the end of a content makes it longer by what is written.
pub proof fn law_append(data: Seq<u8>, write: Write)
    requires
        write.offset == data.len(),
    ensures
        all_applied(data, seq![write]) == data + write.data,
{
    law_one_more_write(data, Seq::empty(), write);
    assert(seq![write] =~= Seq::<Write>::empty().push(write));
    assert(applied(data, write) =~= data + write.data);
}

/// Writes fit if and only if each of them ends within what memory can hold.
pub proof fn law_fitting_writes(writes: Seq<Write>)
    ensures
        all_fit(writes) <==> forall|i: int|
            0 <= i < writes.len() ==> (#[trigger] writes[i]).offset + writes[i].data.len()
                <= isize::MAX,
{
    if all_fit(writes) {
        assert forall|i: int| 0 <= i < writes.len() implies (#[trigger] writes[i]).offset
            + writes[i].data.len() <= isize::MAX by {
            assert(writes[i].fits());
        }
    }
}

} // verus!
