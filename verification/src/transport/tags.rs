//! The table of tagged UAS commands

use crate::subclass::scsi::ScsiCommand;
use crate::transport::uas::UAS_QDEPTH;
use vstd::prelude::*;
use vstd::string::*;

verus! {

/// A command in a [`TagTable`]
#[derive(Copy, Clone, Debug)]
pub struct TagSlot {
    /// The UAS tag of the command
    pub tag: u16,
    /// Logical Unit Number from the Command IU
    pub lun: u8,
    /// The decoded command
    pub kind: ScsiCommand,
}

/// Why [`TagTable::insert`] refused a command
#[derive(Copy, Clone, Debug, PartialEq, Eq, Structural)]
pub enum InsertError {
    /// A command with this tag is already in the table
    Overlapped,
    /// The table holds [`UAS_QDEPTH`] commands
    Full,
}

impl InsertError {
    /// The text of [`InsertError::message`]
    pub open spec fn text(self) -> Seq<char> {
        match self {
            InsertError::Overlapped => "overlapped tag: tag already in table"@,
            InsertError::Full => "tag table full"@,
        }
    }

    /// The error in words
    pub fn message(&self) -> (s: String)
        ensures
            s@ == self.text(),
    {
        match *self {
            InsertError::Overlapped => String::from_str("overlapped tag: tag already in table"),
            InsertError::Full => String::from_str("tag table full"),
        }
    }
}

/// Fixed-capacity FIFO of the UAS commands in flight
///
/// Holds at most [`UAS_QDEPTH`] commands, in the order of their arrival, no two
/// with the same tag. A command whose tag is already there is refused; the
/// device answers it with a Response IU carrying
/// [`RC_OVERLAPPED_TAG`](crate::transport::uas::RC_OVERLAPPED_TAG).
///
/// Its view is the sequence of the commands, oldest first.
pub struct TagTable {
    /// The commands, in no particular order
    slots: [Option<TagSlot>; UAS_QDEPTH],
    /// Ring of tags in order of arrival; `order[head]` is the oldest
    order: [u16; UAS_QDEPTH],
    /// Position in `order` of the oldest tag
    head: usize,
    /// Number of commands
    len: usize,
    /// Position in `slots` of each command, oldest first
    places: Ghost<Seq<int>>,
}

/// The first Read in `queue` from position `from` on, as a block address cut to
/// its lower 32 bits and a block count
pub open spec fn first_read(queue: Seq<TagSlot>, from: int) -> Option<(u32, u32)>
    decreases queue.len() - from,
{
    if from >= queue.len() {
        None
    } else {
        match queue[from].kind {
            ScsiCommand::Read { lba, len } => Some(((lba % 0x1_0000_0000) as u32, len)),
            _ => first_read(queue, from + 1),
        }
    }
}

/// Whether a command with this tag is in `queue`
pub open spec fn has_tag(queue: Seq<TagSlot>, tag: u16) -> bool {
    exists|i: int| 0 <= i < queue.len() && (#[trigger] queue[i]).tag == tag
}

impl View for TagTable {
    type V = Seq<TagSlot>;

    closed spec fn view(&self) -> Seq<TagSlot> {
        Seq::new(self.len as nat, |k: int| self.slots@[self.places@[k]]->0)
    }
}

impl TagTable {
    /// The tag of the `k`-th oldest command
    spec fn tag_at(self, k: int) -> u16 {
        self.order@[(self.head + k) % 32]
    }

    /// The table is consistent: the ring and the slots hold the same commands
    pub closed spec fn wf(self) -> bool {
        &&& self.head < 32
        &&& self.len <= 32
        &&& self.places@.len() == self.len
        &&& self.places@.no_duplicates()
        &&& forall|k: int|
            0 <= k < self.len ==> {
                &&& 0 <= #[trigger] self.places@[k] < 32
                &&& self.slots@[self.places@[k]] is Some
                &&& (self.slots@[self.places@[k]]->0).tag == self.tag_at(k)
            }
        &&& forall|i: int| 0 <= i < 32 && #[trigger] self.slots@[i] is Some ==> self.places@.contains(i)
        &&& forall|j: int, k: int|
            0 <= j < k < self.len ==> #[trigger] self.tag_at(j) != #[trigger] self.tag_at(k)
    }

    /// A consistent table never holds more than [`UAS_QDEPTH`] commands, and no
    /// two of them have the same tag.
    pub proof fn tags_are_distinct(self)
        requires
            self.wf(),
        ensures
            self@.len() <= UAS_QDEPTH,
            forall|i: int, j: int| 0 <= i < j < self@.len() ==> self@[i].tag != self@[j].tag,
    {
        assert forall|i: int, j: int| 0 <= i < j < self@.len() implies self@[i].tag
            != self@[j].tag by {
            assert(self@[i].tag == self.tag_at(i));
            assert(self@[j].tag == self.tag_at(j));
        }
    }

    /// An occupied slot holds the command whose place it is
    proof fn place_of(self, i: int) -> (k: int)
        requires
            self.wf(),
            0 <= i < 32,
            self.slots@[i] is Some,
        ensures
            0 <= k < self.len,
            self.places@[k] == i,
            self@[k] == self.slots@[i]->0,
            (self.slots@[i]->0).tag == self.tag_at(k),
    {
        assert(self.places@.contains(i));
        choose|k: int| 0 <= k < self.len && self.places@[k] == i
    }

    /// A table that is not full has a free slot
    proof fn free_slot_exists(self)
        requires
            self.wf(),
            self.len < 32,
        ensures
            exists|i: int| 0 <= i < 32 && self.slots@[i] is None,
    {
        if forall|i: int| 0 <= i < 32 ==> self.slots@[i] is Some {
            assert forall|i: int| self.places@.to_set().contains(i) <==> vstd::set_lib::set_int_range(
                0,
                32,
            ).contains(i) by {
                if 0 <= i < 32 {
                    assert(self.slots@[i] is Some);
                }
            }
            assert(self.places@.to_set() =~= vstd::set_lib::set_int_range(0, 32));
            vstd::set_lib::lemma_int_range(0, 32);
            self.places@.unique_seq_to_set();
            assert(false);
        }
    }

    /// Creates an empty table
    pub fn new() -> (table: TagTable)
        ensures
            table.wf(),
            table@ == Seq::<TagSlot>::empty(),
    {
        let table = TagTable {
            slots: [
                None, None, None, None, None, None, None, None, None, None, None, None, None, None,
                None, None, None, None, None, None, None, None, None, None, None, None, None, None,
                None, None, None, None,
            ],
            order: [0u16; UAS_QDEPTH],
            head: 0,
            len: 0,
            places: Ghost(Seq::empty()),
        };
        assert(table@ =~= Seq::empty());
        table
    }

    /// The slot that holds the command with this tag, if one does
    fn find(&self, tag: u16) -> (place: Option<usize>)
        requires
            self.wf(),
        ensures
            match place {
                Some(i) => i < 32 && self.slots@[i as int] is Some && (self.slots@[i as int]->0).tag
                    == tag,
                None => !has_tag(self@, tag),
            },
    {
        let mut i: usize = 0;
        while i < UAS_QDEPTH
            invariant
                i <= 32,
                self.wf(),
                forall|j: int|
                    0 <= j < i && #[trigger] self.slots@[j] is Some ==> (self.slots@[j]->0).tag
                        != tag,
            decreases 32 - i,
        {
            if let Some(slot) = &self.slots[i] {
                if slot.tag == tag {
                    return Some(i);
                }
            }
            i = i + 1;
        }
        assert forall|k: int| 0 <= k < self@.len() implies (#[trigger] self@[k]).tag != tag by {
            assert(self.slots@[self.places@[k]] is Some);
        }
        None
    }

    /// Appends a command
    ///
    /// # Errors
    ///
    /// * [`InsertError::Full`] if the table holds [`UAS_QDEPTH`] commands
    /// * [`InsertError::Overlapped`] if it does not, and `tag` is already there
    pub fn insert(&mut self, tag: u16, lun: u8, kind: ScsiCommand) -> (r: Result<(), InsertError>)
        requires
            old(self).wf(),
        ensures
            final(self).wf(),
            r is Ok <==> takes(old(self)@, TagSlot { tag, lun, kind }),
            r == (if old(self)@.len() == UAS_QDEPTH {
                Err::<(), InsertError>(InsertError::Full)
            } else if has_tag(old(self)@, tag) {
                Err(InsertError::Overlapped)
            } else {
                Ok(())
            }),
            final(self)@ == after(old(self)@, (Change::Insert { slot: TagSlot { tag, lun, kind } })),
    {
        proof {
            self.tags_are_distinct();
        }
        if self.len == UAS_QDEPTH {
            return Err(InsertError::Full);
        }
        if let Some(i) = self.find(tag) {
            proof {
                let k = self.place_of(i as int);
                assert(self@[k].tag == tag);
            }
            return Err(InsertError::Overlapped);
        }
        proof {
            self.free_slot_exists();
        }
        let mut idx: usize = 0;
        while self.slots[idx].is_some()
            invariant
                idx < 32,
                exists|i: int| 0 <= i < 32 && self.slots@[i] is None,
                forall|j: int| 0 <= j < idx ==> #[trigger] self.slots@[j] is Some,
            decreases 32 - idx,
        {
            idx = idx + 1;
        }
        let ghost before = *self;
        let end: usize = (self.head + self.len) % UAS_QDEPTH;
        self.slots[idx] = Some(TagSlot { tag, lun, kind });
        self.order[end] = tag;
        self.len = self.len + 1;
        proof {
            self.places = Ghost(before.places@.push(idx as int));
            assert(!before.places@.contains(idx as int));
            assert forall|k: int| 0 <= k < before.len implies #[trigger] self.tag_at(k)
                == before.tag_at(k) by {
                assert((before.head + k) % 32 != end);
            }
            assert(self.tag_at(before.len as int) == tag);
            assert forall|k: int| 0 <= k < before.len implies before.tag_at(k) != tag by {
                assert(before@[k].tag == before.tag_at(k));
            }
            assert forall|i: int|
                0 <= i < 32 && #[trigger] self.slots@[i] is Some implies self.places@.contains(i) by {
                if i == idx {
                    assert(self.places@[before.len as int] == i);
                } else {
                    assert(before.slots@[i] is Some);
                    let k = before.places@.index_of(i);
                    assert(self.places@[k] == i);
                }
            }
            assert(self@ =~= before@.push(TagSlot { tag, lun, kind }));
        }
        Ok(())
    }

    /// The oldest command
    pub fn head(&self) -> (slot: Option<&TagSlot>)
        requires
            self.wf(),
        ensures
            slot == (if self@.len() == 0 {
                None
            } else {
                Some(&self@[0])
            }),
    {
        if self.len == 0 {
            return None;
        }
        proof {
            assert(self@[0].tag == self.tag_at(0));
        }
        match self.find(self.order[self.head]) {
            Some(i) => {
                proof {
                    let k = self.place_of(i as int);
                }
                self.slots[i].as_ref()
            },
            None => None,
        }
    }

    /// The block address and block count of the first Read after the oldest
    /// command, a hint for prefetching
    ///
    /// The upper bits of a block address that does not fit 32 bits are cut off.
    pub fn next_read_after_head(&self) -> (hint: Option<(u32, u32)>)
        requires
            self.wf(),
        ensures
            hint == first_read(self@, 1),
    {
        let mut offset: usize = 1;
        while offset < self.len
            invariant
                1 <= offset,
                self.wf(),
                self.len >= 1 ==> offset <= self.len,
                first_read(self@, 1) == first_read(self@, offset as int),
            decreases 32 - offset,
        {
            proof {
                assert(self@[offset as int].tag == self.tag_at(offset as int));
            }
            let tag: u16 = self.order[(self.head + offset) % UAS_QDEPTH];
            if let Some(i) = self.find(tag) {
                proof {
                    let k = self.place_of(i as int);
                    assert(k == offset);
                }
                if let Some(slot) = &self.slots[i] {
                    if let ScsiCommand::Read { lba, len } = slot.kind {
                        return Some(((lba % 0x1_0000_0000) as u32, len));
                    }
                }
            }
            offset = offset + 1;
        }
        None
    }

    /// Removes the oldest command; does nothing to an empty table
    pub fn complete_head(&mut self)
        requires
            old(self).wf(),
        ensures
            final(self).wf(),
            final(self)@ == after(old(self)@, Change::Complete),
    {
        if self.len == 0 {
            return;
        }
        let ghost before = *self;
        proof {
            assert(self@[0].tag == self.tag_at(0));
        }
        if let Some(i) = self.find(self.order[self.head]) {
            proof {
                let k = self.place_of(i as int);
                assert(k == 0);
            }
            self.slots[i] = None;
        }
        self.head = (self.head + 1) % UAS_QDEPTH;
        self.len = self.len - 1;
        proof {
            self.places = Ghost(before.places@.skip(1));
            assert forall|k: int| 0 <= k < self.len implies #[trigger] self.tag_at(k)
                == before.tag_at(k + 1) by {}
            assert forall|k: int| 0 <= k < self.len implies {
                &&& 0 <= #[trigger] self.places@[k] < 32
                &&& self.slots@[self.places@[k]] is Some
                &&& (self.slots@[self.places@[k]]->0).tag == self.tag_at(k)
            } by {
                assert(self.places@[k] == before.places@[k + 1]);
                assert(before.places@[0] != before.places@[k + 1]);
            }
            assert forall|i: int|
                0 <= i < 32 && #[trigger] self.slots@[i] is Some implies self.places@.contains(i) by {
                assert(before.slots@[i] is Some);
                let k = before.places@.index_of(i);
                assert(self.places@[k - 1] == i);
            }
            assert(self@ =~= before@.skip(1));
        }
    }

    /// Removes all commands
    pub fn clear(&mut self)
        ensures
            final(self).wf(),
            final(self)@ == Seq::<TagSlot>::empty(),
    {
        let mut i: usize = 0;
        while i < UAS_QDEPTH
            invariant
                i <= 32,
                forall|j: int| 0 <= j < i ==> #[trigger] self.slots@[j] is None,
            decreases 32 - i,
        {
            self.slots[i] = None;
            i = i + 1;
        }
        self.head = 0;
        self.len = 0;
        proof {
            self.places = Ghost(Seq::empty());
            assert(self@ =~= Seq::empty());
        }
    }

    /// Number of commands in the table
    pub fn len(&self) -> (n: usize)
        ensures
            n == self@.len(),
    {
        self.len
    }

    /// Whether the table holds no commands
    pub fn is_empty(&self) -> (empty: bool)
        ensures
            empty == (self@.len() == 0),
    {
        self.len == 0
    }
}

/// Commands leave in the order in which they came: a command that is appended to a
/// table that is not empty does not change which one is the oldest, and removing the
/// oldest does not depend on what is appended.
pub proof fn commands_leave_in_order_of_arrival(queue: Seq<TagSlot>, slot: TagSlot)
    requires
        queue.len() > 0,
    ensures
        queue.push(slot)[0] == queue[0],
        queue.push(slot).skip(1) == queue.skip(1).push(slot),
        Seq::<TagSlot>::empty().push(slot)[0] == slot,
        Seq::<TagSlot>::empty().push(slot).skip(1) == Seq::<TagSlot>::empty(),
{
    assert(queue.push(slot).skip(1) =~= queue.skip(1).push(slot));
    assert(Seq::<TagSlot>::empty().push(slot).skip(1) =~= Seq::<TagSlot>::empty());
}

/// The tag of a command can be used again once the command has left the table, and
/// not before.
pub proof fn tag_is_free_again_after_completion(table: TagTable)
    requires
        table.wf(),
        table@.len() > 0,
    ensures
        has_tag(table@, table@[0].tag),
        !has_tag(table@.skip(1), table@[0].tag),
{
    table.tags_are_distinct();
    assert forall|i: int| 0 <= i < table@.skip(1).len() implies (
    #[trigger] table@.skip(1)[i]).tag != table@[0].tag by {
        assert(table@.skip(1)[i] == table@[i + 1]);
    }
}

/// The hint is the first Read from a position on: the commands before it are no
/// Reads. There is none if and only if no command from that position on is a Read.
pub proof fn hint_is_the_first_read(queue: Seq<TagSlot>, from: int)
    requires
        0 <= from,
    ensures
        match first_read(queue, from) {
            Some((lba, blocks)) => exists|i: int|
                {
                    &&& from <= i < queue.len()
                    &&& (#[trigger] queue[i]).kind matches ScsiCommand::Read { lba: at, len }
                    &&& lba == at % 0x1_0000_0000
                    &&& blocks == len
                    &&& forall|j: int| from <= j < i ==> !((#[trigger] queue[j]).kind is Read)
                },
            None => forall|i: int|
                from <= i < queue.len() ==> !((#[trigger] queue[i]).kind is Read),
        },
    decreases queue.len() - from,
{
    if from < queue.len() {
        hint_is_the_first_read(queue, from + 1);
        match queue[from].kind {
            ScsiCommand::Read { lba, len } => {},
            _ => {
                match first_read(queue, from + 1) {
                    Some((lba, blocks)) => {
                        let i = choose|i: int|
                            {
                                &&& from + 1 <= i < queue.len()
                                &&& (#[trigger] queue[i]).kind matches ScsiCommand::Read {
                                    lba: at,
                                    len,
                                }
                                &&& lba == at % 0x1_0000_0000
                                &&& blocks == len
                                &&& forall|j: int|
                                    from + 1 <= j < i ==> !((#[trigger] queue[j]).kind is Read)
                            };
                        assert(queue[i].kind is Read);
                        assert forall|j: int| from <= j < i implies !(
                        (#[trigger] queue[j]).kind is Read) by {}
                    },
                    None => {},
                }
            },
        }
    }
}

/// An operation that changes a table
pub enum Change {
    /// [`TagTable::insert`]
    Insert { slot: TagSlot },
    /// [`TagTable::complete_head`]
    Complete,
    /// [`TagTable::clear`]
    Clear,
}

/// Whether a table that holds `queue` takes the command `slot`
pub open spec fn takes(queue: Seq<TagSlot>, slot: TagSlot) -> bool {
    queue.len() < UAS_QDEPTH && !has_tag(queue, slot.tag)
}

/// What a table that holds `queue` holds after `change`
pub open spec fn after(queue: Seq<TagSlot>, change: Change) -> Seq<TagSlot> {
    match change {
        Change::Insert { slot } => if takes(queue, slot) {
            queue.push(slot)
        } else {
            queue
        },
        Change::Complete => if queue.len() == 0 {
            queue
        } else {
            queue.skip(1)
        },
        Change::Clear => Seq::empty(),
    }
}

/// A table takes a command if it holds fewer than 32 and none of them has its tag. The
/// command then comes last and the others stay as they are; else nothing changes.
/// Completion drops the oldest command and no other, and clearing drops all.
pub proof fn changes_command_by_command(queue: Seq<TagSlot>, slot: TagSlot)
    ensures
        ({
            let free = forall|i: int| 0 <= i < queue.len() ==> (#[trigger] queue[i]).tag != slot.tag;
            let inserted = after(queue, Change::Insert { slot });
            let shorter = after(queue, Change::Complete);
            &&& takes(queue, slot) <==> queue.len() < 32 && free
            &&& queue.len() < 32 && free ==> {
                &&& inserted.len() == queue.len() + 1
                &&& inserted[queue.len() as int] == slot
                &&& forall|i: int| 0 <= i < queue.len() ==> inserted[i] == queue[i]
            }
            &&& !(queue.len() < 32 && free) ==> inserted == queue
            &&& queue.len() == 0 ==> shorter.len() == 0
            &&& queue.len() > 0 ==> {
                &&& shorter.len() == queue.len() - 1
                &&& forall|i: int| 0 <= i < queue.len() - 1 ==> shorter[i] == queue[i + 1]
            }
            &&& after(queue, Change::Clear).len() == 0
        }),
        has_tag(queue, slot.tag) <==> exists|i: int|
            0 <= i < queue.len() && (#[trigger] queue[i]).tag == slot.tag,
{
}

/// The errors in words.
pub proof fn insert_errors_in_words()
    ensures
        InsertError::Overlapped.text() == "overlapped tag: tag already in table"@,
        InsertError::Full.text() == "tag table full"@,
{
}

/// What a table that holds `queue` holds after all of `changes`
pub open spec fn after_all(queue: Seq<TagSlot>, changes: Seq<Change>) -> Seq<TagSlot>
    decreases changes.len(),
{
    if changes.len() == 0 {
        queue
    } else {
        after(after_all(queue, changes.drop_last()), changes.last())
    }
}

/// The commands that the table took in the course of `changes`
pub open spec fn taken(queue: Seq<TagSlot>, changes: Seq<Change>) -> Seq<TagSlot>
    decreases changes.len(),
{
    if changes.len() == 0 {
        Seq::empty()
    } else {
        let before = taken(queue, changes.drop_last());
        match changes.last() {
            Change::Insert { slot } => if takes(after_all(queue, changes.drop_last()), slot) {
                before.push(slot)
            } else {
                before
            },
            _ => before,
        }
    }
}

/// The commands that left as the oldest in the course of `changes`
pub open spec fn completed(queue: Seq<TagSlot>, changes: Seq<Change>) -> Seq<TagSlot>
    decreases changes.len(),
{
    if changes.len() == 0 {
        Seq::empty()
    } else {
        let before = completed(queue, changes.drop_last());
        let now = after_all(queue, changes.drop_last());
        if changes.last() is Complete && now.len() > 0 {
            before.push(now[0])
        } else {
            before
        }
    }
}

/// Over any history without clearing, the commands that left and those that are there,
/// one after the other, are those that were there and those that the table took: each
/// leaves once, in the order of arrival. So the length of the table is what was there
/// and was taken, less what left.
pub proof fn every_command_leaves_in_its_turn(queue: Seq<TagSlot>, changes: Seq<Change>)
    requires
        forall|i: int| 0 <= i < changes.len() ==> !((#[trigger] changes[i]) is Clear),
    ensures
        completed(queue, changes) + after_all(queue, changes) == queue + taken(queue, changes),
        after_all(queue, changes).len() == queue.len() + taken(queue, changes).len() - completed(
            queue,
            changes,
        ).len(),
    decreases changes.len(),
{
    if changes.len() == 0 {
        assert(completed(queue, changes) + queue =~= queue + taken(queue, changes));
    } else {
        let init = changes.drop_last();
        assert forall|i: int| 0 <= i < init.len() implies !((#[trigger] init[i]) is Clear) by {
            assert(init[i] == changes[i]);
        }
        every_command_leaves_in_its_turn(queue, init);
        let left = completed(queue, init);
        let now = after_all(queue, init);
        assert(changes.last() == changes[changes.len() - 1]);
        match changes.last() {
            Change::Insert { slot } => {
                if takes(now, slot) {
                    assert(left + now.push(slot) =~= (left + now).push(slot));
                    assert((queue + taken(queue, init)).push(slot) =~= queue + taken(
                        queue,
                        init,
                    ).push(slot));
                }
            },
            Change::Complete => {
                if now.len() > 0 {
                    assert(left.push(now[0]) + now.skip(1) =~= left + now);
                }
            },
            Change::Clear => {},
        }
        assert(completed(queue, changes) + after_all(queue, changes) =~= queue + taken(
            queue,
            changes,
        ));
    }
}

/// A table that was cleared behaves like a new one from then on.
pub proof fn cleared_table_is_like_new(queue: Seq<TagSlot>, changes: Seq<Change>)
    ensures
        after_all(after(queue, Change::Clear), changes) == after_all(Seq::empty(), changes),
        taken(after(queue, Change::Clear), changes) == taken(Seq::empty(), changes),
        completed(after(queue, Change::Clear), changes) == completed(Seq::empty(), changes),
{
}

impl Default for TagTable {
    /// An empty table
    fn default() -> (table: TagTable)
        ensures
            table.wf(),
            table@ == Seq::<TagSlot>::empty(),
    {
        TagTable::new()
    }
}

} // verus!
