//! What holds of a host's leases from one change to the next.
use vstd::prelude::*;
use vstd::utf8::is_ascii_chars_encode_utf8;
use crate::job::record::LeaseRecord;
use crate::lease::{
    directory_faults, found_leases, free_slot, in_slot_order, slot_held, slot_name_fault,
    slot_named, with_slot, without_slot, ExecutionScope, LeaseService, OccupiedSlot, SlotContent,
    SlotDirectory, MAX_HOST_SLOTS,
};
use crate::text::{
    decimal, digits_value, hex_char, starts_with, unsigned_digits, unsigned_number, utf8,
};

verus! {

/// No two directories have the same name, as in every file system.
pub open spec fn names_differ(directories: Seq<SlotDirectory>) -> bool {
    forall|i: int, j: int|
        0 <= i < j < directories.len() ==> {
            let left = (#[trigger] directories[i]).name;
            let right = (#[trigger] directories[j]).name;
            left is Some && right is Some ==> left->0@ != right->0@
        }
}

/// A store whose leases can be trusted.
pub open spec fn sound(service: LeaseService) -> bool {
    service.fault() is None && names_differ(service.directories@)
}

/// A store has no fault exactly where none of its directories has one.
pub proof fn faults_by_directory(directories: Seq<SlotDirectory>, slot_count: u8, at: int)
    requires
        0 <= at <= directories.len(),
    ensures
        directory_faults(directories, slot_count, at) is None <==> forall|k: int|
            at <= k < directories.len() ==> (#[trigger] directories[k]).fault(slot_count) is None,
    decreases directories.len() - at,
{
    if at < directories.len() {
        faults_by_directory(directories, slot_count, at + 1);
    }
}

proof fn found_by_directory(directories: Seq<SlotDirectory>, count: int, slot: OccupiedSlot)
    requires
        0 <= count <= directories.len(),
    ensures
        found_leases(directories, count).contains(slot) <==> exists|k: int|
            0 <= k < count && (#[trigger] directories[k]).occupied() == Some(slot),
    decreases count,
{
    if count > 0 {
        found_by_directory(directories, count - 1, slot);
        let shorter = found_leases(directories, count - 1);
        let found = found_leases(directories, count);
        if directories[count - 1].occupied() is Some {
            let last = directories[count - 1].occupied()->0;
            assert(found == shorter.push(last));
            if found.contains(slot) && slot != last {
                let i = choose|i: int| 0 <= i < found.len() && found[i] == slot;
                assert(shorter[i] == slot);
            }
            if shorter.contains(slot) {
                let i = choose|i: int| 0 <= i < shorter.len() && shorter[i] == slot;
                assert(found[i] == slot);
            }
            if slot == last {
                assert(found[found.len() - 1] == slot);
            }
        }
    }
}

proof fn with_slot_members(found: Seq<OccupiedSlot>, id: int, count: int)
    requires
        0 <= count <= found.len(),
    ensures
        forall|i: int|
            0 <= i < with_slot(found, id, count).len() ==> (#[trigger] with_slot(
                found,
                id,
                count,
            )[i]).slot_id == id && found.contains(with_slot(found, id, count)[i]),
        forall|k: int|
            0 <= k < count && (#[trigger] found[k]).slot_id == id ==> with_slot(
                found,
                id,
                count,
            ).contains(found[k]),
    decreases count,
{
    if count > 0 {
        with_slot_members(found, id, count - 1);
        let shorter = with_slot(found, id, count - 1);
        let longer = with_slot(found, id, count);
        if found[count - 1].slot_id == id {
            assert(longer == shorter.push(found[count - 1]));
            assert(longer[longer.len() - 1] == found[count - 1]);
            assert forall|k: int| 0 <= k < count && (#[trigger] found[k]).slot_id
                == id implies longer.contains(found[k]) by {
                if k < count - 1 {
                    let i = choose|i: int| 0 <= i < shorter.len() && shorter[i] == found[k];
                    assert(longer[i] == found[k]);
                }
            }
        }
    }
}

proof fn order_members(found: Seq<OccupiedSlot>, below: int)
    requires
        0 <= below,
    ensures
        forall|i: int|
            0 <= i < in_slot_order(found, below).len() ==> (#[trigger] in_slot_order(
                found,
                below,
            )[i]).slot_id < below && found.contains(in_slot_order(found, below)[i]),
        forall|k: int|
            0 <= k < found.len() && (#[trigger] found[k]).slot_id < below ==> in_slot_order(
                found,
                below,
            ).contains(found[k]),
        forall|i: int, j: int|
            0 <= i < j < in_slot_order(found, below).len() ==> (#[trigger] in_slot_order(
                found,
                below,
            )[i]).slot_id <= (#[trigger] in_slot_order(found, below)[j]).slot_id,
    decreases below,
{
    if below > 0 {
        order_members(found, below - 1);
        let total = found.len() as int;
        with_slot_members(found, below - 1, total);
        let first = in_slot_order(found, below - 1);
        let last = with_slot(found, below - 1, total);
        let whole = in_slot_order(found, below);
        assert(whole == first + last);
        assert forall|k: int| 0 <= k < found.len() && (#[trigger] found[k]).slot_id
            < below implies whole.contains(found[k]) by {
            if found[k].slot_id < below - 1 {
                let i = choose|i: int| 0 <= i < first.len() && first[i] == found[k];
                assert(whole[i] == found[k]);
            } else {
                let i = choose|i: int| 0 <= i < last.len() && last[i] == found[k];
                assert(whole[first.len() + i] == found[k]);
            }
        }
        assert forall|i: int|
            0 <= i < whole.len() implies (#[trigger] whole[i]).slot_id < below && found.contains(
            whole[i],
        ) by {
            if i < first.len() {
                assert(whole[i] == first[i]);
            } else {
                assert(whole[i] == last[i - first.len()]);
            }
        }
        assert forall|i: int, j: int| 0 <= i < j < whole.len() implies (
        #[trigger] whole[i]).slot_id <= (#[trigger] whole[j]).slot_id by {
            if j < first.len() {
                assert(whole[i] == first[i] && whole[j] == first[j]);
            } else {
                assert(whole[j] == last[j - first.len()]);
                if i < first.len() {
                    assert(whole[i] == first[i]);
                } else {
                    assert(whole[i] == last[i - first.len()]);
                }
            }
        }
    }
}

/// The directory that holds a live lease.
pub proof fn live_by_directory(service: LeaseService, slot: OccupiedSlot)
    requires
        service.fault() is None,
    ensures
        service.live().contains(slot) <==> exists|k: int|
            0 <= k < service.directories@.len() && (
            #[trigger] service.directories@[k]).occupied() == Some(slot),
        service.live().contains(slot) ==> slot.slot_id < service.configured()
            && service.configured() <= MAX_HOST_SLOTS,
{
    let directories = service.directories@;
    let total = directories.len() as int;
    let found = found_leases(directories, total);
    faults_by_directory(directories, service.configured(), 0);
    found_by_directory(directories, total, slot);
    order_members(found, MAX_HOST_SLOTS as int);
    if service.live().contains(slot) {
        let i = choose|i: int| 0 <= i < service.live().len() && service.live()[i] == slot;
        assert(found.contains(service.live()[i]));
    }
    if found.contains(slot) {
        let k = choose|k: int|
            0 <= k < total && (#[trigger] directories[k]).occupied() == Some(slot);
        assert(directories[k].fault(service.configured()) is None);
        let i = choose|i: int| 0 <= i < found.len() && found[i] == slot;
        assert(in_slot_order(found, MAX_HOST_SLOTS as int).contains(found[i]));
    }
}

/// A slot below ten is named by its digit.
pub proof fn single_digit(slot: u8)
    requires
        slot < 10,
    ensures
        decimal(slot as nat) == seq![hex_char(slot as int)],
        unsigned_number(decimal(slot as nat), 255) == Some(slot as nat),
        !starts_with(decimal(slot as nat), "."@),
{
    let text = decimal(slot as nat);
    assert(text =~= seq![hex_char(slot as int)]);
    is_ascii_chars_encode_utf8(text);
    let bytes = utf8(text);
    assert(bytes.len() == 1 && bytes[0] == 0x30 + slot) by {
        assert(text[0] as u8 == bytes[0]);
    }
    assert(unsigned_digits(bytes) == bytes);
    assert(bytes.drop_last() =~= Seq::<u8>::empty());
    assert(digits_value(bytes.drop_last()) == 0);
    assert(digits_value(bytes) == slot);
    reveal_strlit(".");
    assert(text.take(1)[0] == text[0]);
}

/// Two directories of a sound store hold no lease for the same slot.
proof fn directories_hold_different_slots(service: LeaseService, left: int, right: int)
    requires
        sound(service),
        0 <= left < right < service.directories@.len(),
        service.directories@[left].occupied() is Some,
        service.directories@[right].occupied() is Some,
    ensures
        service.directories@[left].occupied()->0.slot_id
            != service.directories@[right].occupied()->0.slot_id,
{
    let directories = service.directories@;
    faults_by_directory(directories, service.configured(), 0);
    assert(directories[left].fault(service.configured()) is None);
    assert(directories[right].fault(service.configured()) is None);
    assert(directories[left].name->0@ != directories[right].name->0@);
}

/// In a sound store the live leases stand in the order of their slots, no two
/// share one, and each slot is one that the host has.
pub proof fn live_leases_hold_different_slots(service: LeaseService, left: int, right: int)
    requires
        sound(service),
        0 <= left < right < service.live().len(),
    ensures
        service.live()[left].slot_id < service.live()[right].slot_id < service.configured(),
{
    let live = service.live();
    let directories = service.directories@;
    let found = found_leases(directories, directories.len() as int);
    order_members(found, MAX_HOST_SLOTS as int);
    live_by_directory(service, live[left]);
    live_by_directory(service, live[right]);
    assert(live.contains(live[left]));
    assert(live.contains(live[right]));
    if live[left].slot_id == live[right].slot_id {
        found_slots_differ(service, directories.len() as int);
        order_is_strict(found, MAX_HOST_SLOTS as int);
    }
}

proof fn found_slots_differ(service: LeaseService, count: int)
    requires
        sound(service),
        0 <= count <= service.directories@.len(),
    ensures
        forall|i: int, j: int|
            0 <= i < j < found_leases(service.directories@, count).len() ==> (
            #[trigger] found_leases(service.directories@, count)[i]).slot_id != (
            #[trigger] found_leases(service.directories@, count)[j]).slot_id,
    decreases count,
{
    if count > 0 {
        found_slots_differ(service, count - 1);
        let directories = service.directories@;
        let shorter = found_leases(directories, count - 1);
        let found = found_leases(directories, count);
        if directories[count - 1].occupied() is Some {
            assert(found == shorter.push(directories[count - 1].occupied()->0));
            assert forall|i: int, j: int| 0 <= i < j < found.len() implies (
            #[trigger] found[i]).slot_id != (#[trigger] found[j]).slot_id by {
                if j == found.len() - 1 {
                    assert(found[i] == shorter[i]);
                    assert(shorter.contains(shorter[i]));
                    found_by_directory(directories, count - 1, shorter[i]);
                    let k = choose|k: int|
                        0 <= k < count - 1 && (#[trigger] directories[k]).occupied() == Some(
                            shorter[i],
                        );
                    directories_hold_different_slots(service, k, count - 1);
                } else {
                    assert(found[i] == shorter[i] && found[j] == shorter[j]);
                }
            }
        }
    }
}

proof fn with_slot_is_single(found: Seq<OccupiedSlot>, id: int, count: int)
    requires
        0 <= count <= found.len(),
        forall|i: int, j: int|
            0 <= i < j < found.len() ==> (#[trigger] found[i]).slot_id != (
            #[trigger] found[j]).slot_id,
    ensures
        with_slot(found, id, count).len() <= 1,
        with_slot(found, id, count).len() == 1 ==> exists|k: int|
            0 <= k < count && (#[trigger] found[k]).slot_id == id,
    decreases count,
{
    if count > 0 {
        with_slot_is_single(found, id, count - 1);
    }
}

proof fn order_is_strict(found: Seq<OccupiedSlot>, below: int)
    requires
        0 <= below,
        forall|i: int, j: int|
            0 <= i < j < found.len() ==> (#[trigger] found[i]).slot_id != (
            #[trigger] found[j]).slot_id,
    ensures
        forall|i: int, j: int|
            0 <= i < j < in_slot_order(found, below).len() ==> (#[trigger] in_slot_order(
                found,
                below,
            )[i]).slot_id < (#[trigger] in_slot_order(found, below)[j]).slot_id,
    decreases below,
{
    if below > 0 {
        order_is_strict(found, below - 1);
        order_members(found, below - 1);
        let total = found.len() as int;
        with_slot_members(found, below - 1, total);
        with_slot_is_single(found, below - 1, total);
        let first = in_slot_order(found, below - 1);
        let last = with_slot(found, below - 1, total);
        let whole = in_slot_order(found, below);
        assert(whole == first + last);
        assert forall|i: int, j: int| 0 <= i < j < whole.len() implies (
        #[trigger] whole[i]).slot_id < (#[trigger] whole[j]).slot_id by {
            if j < first.len() {
                assert(whole[i] == first[i] && whole[j] == first[j]);
            } else {
                assert(whole[j] == last[j - first.len()]);
                assert(whole[i] == first[i]);
            }
        }
    }
}

/// A slot's directories are gone and the others are kept.
pub proof fn without_members(directories: Seq<SlotDirectory>, slot_id: u8, count: int)
    requires
        0 <= count <= directories.len(),
        names_differ(directories),
    ensures
        forall|i: int|
            0 <= i < without_slot(directories, slot_id, count).len() ==> exists|k: int|
                0 <= k < count && (#[trigger] without_slot(directories, slot_id, count)[i])
                    == #[trigger] directories[k] && !(directories[k].name matches Some(name)
                    && name@ == decimal(slot_id as nat)),
        forall|k: int|
            0 <= k < count && !((#[trigger] directories[k]).name matches Some(name) && name@
                == decimal(slot_id as nat)) ==> without_slot(directories, slot_id, count).contains(
                directories[k],
            ),
        names_differ(without_slot(directories, slot_id, count)),
    decreases count,
{
    if count > 0 {
        without_members(directories, slot_id, count - 1);
        let shorter = without_slot(directories, slot_id, count - 1);
        let longer = without_slot(directories, slot_id, count);
        if !(directories[count - 1].name matches Some(name) && name@ == decimal(slot_id as nat)) {
            assert(longer == shorter.push(directories[count - 1]));
            assert(longer[longer.len() - 1] == directories[count - 1]);
            assert forall|i: int| 0 <= i < longer.len() implies exists|k: int|
                0 <= k < count && (#[trigger] longer[i]) == #[trigger] directories[k] && !(
                directories[k].name matches Some(name) && name@ == decimal(slot_id as nat)) by {
                if i < shorter.len() {
                    assert(longer[i] == shorter[i]);
                    let k = choose|k: int|
                        0 <= k < count - 1 && shorter[i] == #[trigger] directories[k] && !(
                        directories[k].name matches Some(name) && name@ == decimal(
                            slot_id as nat,
                        ));
                    assert(longer[i] == directories[k]);
                } else {
                    assert(longer[i] == directories[count - 1]);
                }
            }
            assert forall|k: int|
                0 <= k < count && !((#[trigger] directories[k]).name matches Some(name) && name@
                    == decimal(slot_id as nat)) implies longer.contains(directories[k]) by {
                if k < count - 1 {
                    let i = choose|i: int| 0 <= i < shorter.len() && shorter[i] == directories[k];
                    assert(longer[i] == directories[k]);
                }
            }
            assert forall|i: int, j: int| 0 <= i < j < longer.len() implies {
                let left = (#[trigger] longer[i]).name;
                let right = (#[trigger] longer[j]).name;
                left is Some && right is Some ==> left->0@ != right->0@
            } by {
                if j < shorter.len() {
                    assert(longer[i] == shorter[i] && longer[j] == shorter[j]);
                } else {
                    assert(longer[i] == shorter[i]);
                    let k = choose|k: int|
                        0 <= k < count - 1 && shorter[i] == #[trigger] directories[k];
                    assert(longer[j] == directories[count - 1]);
                }
            }
        }
    }
}

/// Clearing a slot keeps the store sound, and every lease but the one that held
/// the slot.
proof fn cleared_store(before: LeaseService, after: LeaseService, slot_id: u8)
    requires
        sound(before),
        slot_id < MAX_HOST_SLOTS,
        after.capacity == before.capacity,
        after.directories@ == without_slot(
            before.directories@,
            slot_id,
            before.directories@.len() as int,
        ),
    ensures
        sound(after),
        forall|slot: OccupiedSlot| #[trigger]
            after.live().contains(slot) <==> before.live().contains(slot) && slot.slot_id
                != slot_id,
{
    let old_dirs = before.directories@;
    let new_dirs = after.directories@;
    let total = old_dirs.len() as int;
    let count = before.configured();
    without_members(old_dirs, slot_id, total);
    faults_by_directory(old_dirs, count, 0);
    faults_by_directory(new_dirs, count, 0);
    assert forall|k: int| 0 <= k < new_dirs.len() implies (#[trigger] new_dirs[k]).fault(count)
        is None by {
        let m = choose|m: int| 0 <= m < total && new_dirs[k] == #[trigger] old_dirs[m];
        assert(old_dirs[m].fault(count) is None);
    }
    assert(after.fault() is None);
    single_digit(slot_id);
    assert forall|slot: OccupiedSlot| #[trigger]
        after.live().contains(slot) <==> before.live().contains(slot) && slot.slot_id
            != slot_id by {
        live_by_directory(before, slot);
        live_by_directory(after, slot);
        if after.live().contains(slot) {
            let k = choose|k: int|
                0 <= k < new_dirs.len() && (#[trigger] new_dirs[k]).occupied() == Some(slot);
            let m = choose|m: int|
                0 <= m < total && new_dirs[k] == #[trigger] old_dirs[m] && !(
                old_dirs[m].name matches Some(name) && name@ == decimal(slot_id as nat));
            assert(old_dirs[m].occupied() == Some(slot));
            assert(old_dirs[m].fault(count) is None);
        }
        if before.live().contains(slot) && slot.slot_id != slot_id {
            let m = choose|m: int|
                0 <= m < total && (#[trigger] old_dirs[m]).occupied() == Some(slot);
            assert(old_dirs[m].fault(count) is None);
            single_digit(slot.slot_id);
            if old_dirs[m].name->0@ == decimal(slot_id as nat) {
                assert(slot_named(old_dirs[m].name->0@) == slot_id);
            }
            let k = choose|k: int| 0 <= k < new_dirs.len() && new_dirs[k] == old_dirs[m];
            assert(new_dirs[k].occupied() == Some(slot));
        }
    }
}

/// Publishing a lease in a free slot keeps the store sound: the new lease holds
/// that slot, and every other lease keeps its own.
pub proof fn granted_leases_join_the_others(
    before: LeaseService,
    after: LeaseService,
    slot_id: u8,
    lease: LeaseRecord,
    execution_scope: ExecutionScope,
)
    requires
        sound(before),
        free_slot(before.live(), before.configured(), slot_id),
        after.capacity == before.capacity,
        after.directories@.len() > 0,
        after.directories@.drop_last() == without_slot(
            before.directories@,
            slot_id,
            before.directories@.len() as int,
        ),
        after.directories@.last().content == (SlotContent::Live { lease, execution_scope }),
        after.directories@.last().name matches Some(name) && name@ == decimal(slot_id as nat),
    ensures
        sound(after),
        forall|slot: OccupiedSlot| #[trigger]
            after.live().contains(slot) <==> before.live().contains(slot) || slot == (
            OccupiedSlot { slot_id, lease, execution_scope }),
{
    let old_dirs = before.directories@;
    let new_dirs = after.directories@;
    let kept = new_dirs.drop_last();
    let last = new_dirs.last();
    let total = old_dirs.len() as int;
    let count = before.configured();
    let granted = OccupiedSlot { slot_id, lease, execution_scope };
    faults_by_directory(old_dirs, count, 0);
    faults_by_directory(new_dirs, count, 0);
    without_members(old_dirs, slot_id, total);
    single_digit(slot_id);
    assert(slot_name_fault(decimal(slot_id as nat)) is None);
    assert(last.fault(count) is None);
    assert(last.occupied() == Some(granted));
    assert forall|k: int| 0 <= k < new_dirs.len() implies (#[trigger] new_dirs[k]).fault(count)
        is None by {
        if k < kept.len() {
            assert(new_dirs[k] == kept[k]);
            let m = choose|m: int| 0 <= m < total && kept[k] == #[trigger] old_dirs[m];
            assert(old_dirs[m].fault(count) is None);
        } else {
            assert(new_dirs[k] == last);
        }
    }
    assert(after.fault() is None);
    assert(names_differ(new_dirs)) by {
        assert forall|i: int, j: int| 0 <= i < j < new_dirs.len() implies {
            let left = (#[trigger] new_dirs[i]).name;
            let right = (#[trigger] new_dirs[j]).name;
            left is Some && right is Some ==> left->0@ != right->0@
        } by {
            assert(new_dirs[i] == kept[i]);
            if j < kept.len() {
                assert(new_dirs[j] == kept[j]);
            } else {
                assert(new_dirs[j] == last);
                let m = choose|m: int|
                    0 <= m < total && kept[i] == #[trigger] old_dirs[m] && !(
                    old_dirs[m].name matches Some(name) && name@ == decimal(slot_id as nat));
            }
        }
    }
    assert forall|slot: OccupiedSlot| #[trigger]
        after.live().contains(slot) <==> before.live().contains(slot) || slot == granted by {
        live_by_directory(before, slot);
        live_by_directory(after, slot);
        if after.live().contains(slot) && slot != granted {
            let k = choose|k: int|
                0 <= k < new_dirs.len() && (#[trigger] new_dirs[k]).occupied() == Some(slot);
            assert(k < kept.len()) by {
                if k == kept.len() {
                    assert(new_dirs[k] == last);
                }
            }
            assert(new_dirs[k] == kept[k]);
            let m = choose|m: int| 0 <= m < total && kept[k] == #[trigger] old_dirs[m];
            assert(old_dirs[m].occupied() == Some(slot));
        }
        if before.live().contains(slot) {
            let i = choose|i: int| 0 <= i < before.live().len() && before.live()[i] == slot;
            assert(before.live()[i].slot_id != slot_id);
            let m = choose|m: int|
                0 <= m < total && (#[trigger] old_dirs[m]).occupied() == Some(slot);
            assert(old_dirs[m].fault(count) is None);
            single_digit(slot.slot_id);
            if old_dirs[m].name->0@ == decimal(slot_id as nat) {
                assert(slot_named(old_dirs[m].name->0@) == slot_id);
            }
            let k = choose|k: int| 0 <= k < kept.len() && kept[k] == old_dirs[m];
            assert(new_dirs[k].occupied() == Some(slot));
        }
        if slot == granted {
            assert(new_dirs[new_dirs.len() - 1].occupied() == Some(granted));
        }
    }
}

/// Releasing a lease frees its slot and takes no other lease away.
pub proof fn released_leases_free_their_slot(
    before: LeaseService,
    after: LeaseService,
    released: OccupiedSlot,
)
    requires
        sound(before),
        before.live().contains(released),
        after.capacity == before.capacity,
        after.directories@ == without_slot(
            before.directories@,
            released.slot_id,
            before.directories@.len() as int,
        ),
    ensures
        sound(after),
        !slot_held(after.live(), released.slot_id),
        forall|slot: OccupiedSlot| #[trigger]
            after.live().contains(slot) <==> before.live().contains(slot) && slot != released,
{
    live_by_directory(before, released);
    cleared_store(before, after, released.slot_id);
    assert forall|slot: OccupiedSlot| #[trigger]
        after.live().contains(slot) <==> before.live().contains(slot) && slot != released by {
        if before.live().contains(slot) && slot.slot_id == released.slot_id && slot != released {
            let i = choose|i: int| 0 <= i < before.live().len() && before.live()[i] == slot;
            let j = choose|j: int| 0 <= j < before.live().len() && before.live()[j] == released;
            if i < j {
                live_leases_hold_different_slots(before, i, j);
            } else {
                live_leases_hold_different_slots(before, j, i);
            }
        }
    }
    if slot_held(after.live(), released.slot_id) {
        let i = choose|i: int|
            0 <= i < after.live().len() && (#[trigger] after.live()[i]).slot_id
                == released.slot_id;
        assert(after.live().contains(after.live()[i]));
    }
}

} // verus!
