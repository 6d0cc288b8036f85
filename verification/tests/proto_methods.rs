use pysequence::class::proto_methods::{
    ass_item_function, Capabilities, DispatchTable, SlotFunction, SlotTag, TypedSlot,
};

const ALL_TAGS: [SlotTag; 8] = [
    SlotTag::Length,
    SlotTag::Concat,
    SlotTag::Repeat,
    SlotTag::Item,
    SlotTag::AssItem,
    SlotTag::Contains,
    SlotTag::InplaceConcat,
    SlotTag::InplaceRepeat,
];

const ALL_FUNCTIONS: [SlotFunction; 10] = [
    SlotFunction::Len,
    SlotFunction::Concat,
    SlotFunction::Repeat,
    SlotFunction::GetItem,
    SlotFunction::SetItem,
    SlotFunction::DelItem,
    SlotFunction::SetDelItem,
    SlotFunction::Contains,
    SlotFunction::InplaceConcat,
    SlotFunction::InplaceRepeat,
];

#[test]
fn slot_numbers() {
    assert_eq!(SlotTag::AssItem.id(), 39);
    assert_eq!(SlotTag::Concat.id(), 40);
    assert_eq!(SlotTag::Contains.id(), 41);
    assert_eq!(SlotTag::InplaceConcat.id(), 42);
    assert_eq!(SlotTag::InplaceRepeat.id(), 43);
    assert_eq!(SlotTag::Item.id(), 44);
    assert_eq!(SlotTag::Length.id(), 45);
    assert_eq!(SlotTag::Repeat.id(), 46);
}

#[test]
fn slot_numbers_are_distinct() {
    for a in ALL_TAGS {
        for b in ALL_TAGS {
            assert_eq!(a.id() == b.id(), a == b);
        }
    }
}

#[test]
fn entry_points_know_their_slot() {
    assert_eq!(SlotFunction::Len.tag(), SlotTag::Length);
    assert_eq!(SlotFunction::Concat.tag(), SlotTag::Concat);
    assert_eq!(SlotFunction::Repeat.tag(), SlotTag::Repeat);
    assert_eq!(SlotFunction::GetItem.tag(), SlotTag::Item);
    assert_eq!(SlotFunction::SetItem.tag(), SlotTag::AssItem);
    assert_eq!(SlotFunction::DelItem.tag(), SlotTag::AssItem);
    assert_eq!(SlotFunction::SetDelItem.tag(), SlotTag::AssItem);
    assert_eq!(SlotFunction::Contains.tag(), SlotTag::Contains);
    assert_eq!(SlotFunction::InplaceConcat.tag(), SlotTag::InplaceConcat);
    assert_eq!(SlotFunction::InplaceRepeat.tag(), SlotTag::InplaceRepeat);
    for f in ALL_FUNCTIONS {
        let slot = TypedSlot::new(f);
        assert_eq!(slot.function(), f);
        assert_eq!(slot.tag(), f.tag());
    }
}

#[test]
fn shared_slot_decision_table() {
    assert_eq!(ass_item_function(false, false), None);
    assert_eq!(ass_item_function(true, false), Some(SlotFunction::SetItem));
    assert_eq!(ass_item_function(false, true), Some(SlotFunction::DelItem));
    assert_eq!(ass_item_function(true, true), Some(SlotFunction::SetDelItem));
}

#[test]
fn new_table_is_empty() {
    let table = DispatchTable::new();
    for tag in ALL_TAGS {
        assert_eq!(table.get(tag), None);
    }
}

#[test]
fn install_fills_one_slot() {
    for f in ALL_FUNCTIONS {
        let mut table = DispatchTable::new();
        table.install(TypedSlot::new(f));
        for tag in ALL_TAGS {
            if tag == f.tag() {
                assert_eq!(table.get(tag), Some(f));
            } else {
                assert_eq!(table.get(tag), None);
            }
        }
    }
}

#[test]
fn install_replaces_what_stood_in_the_slot() {
    let mut table = DispatchTable::new();
    table.install(TypedSlot::new(SlotFunction::SetItem));
    table.install(TypedSlot::new(SlotFunction::Len));
    table.install(TypedSlot::new(SlotFunction::DelItem));
    assert_eq!(table.get(SlotTag::AssItem), Some(SlotFunction::DelItem));
    assert_eq!(table.get(SlotTag::Length), Some(SlotFunction::Len));
    assert_eq!(table.get(SlotTag::Item), None);
}

#[test]
fn assemble_nothing() {
    let table = DispatchTable::assemble(&Capabilities::none());
    assert_eq!(table, DispatchTable::new());
}

#[test]
fn assemble_length_only() {
    let mut caps = Capabilities::none();
    caps.len = true;
    let table = DispatchTable::assemble(&caps);
    for tag in ALL_TAGS {
        if tag == SlotTag::Length {
            assert_eq!(table.get(tag), Some(SlotFunction::Len));
        } else {
            assert_eq!(table.get(tag), None);
        }
    }
}

#[test]
fn assemble_read_only_has_no_shared_slot() {
    let mut caps = Capabilities::none();
    caps.getitem = true;
    let table = DispatchTable::assemble(&caps);
    assert_eq!(table.get(SlotTag::Item), Some(SlotFunction::GetItem));
    assert_eq!(table.get(SlotTag::AssItem), None);
}

#[test]
fn assemble_shared_slot() {
    let mut caps = Capabilities::none();
    caps.setitem = true;
    assert_eq!(DispatchTable::assemble(&caps).get(SlotTag::AssItem), Some(SlotFunction::SetItem));
    caps.delitem = true;
    assert_eq!(
        DispatchTable::assemble(&caps).get(SlotTag::AssItem),
        Some(SlotFunction::SetDelItem)
    );
    caps.setitem = false;
    assert_eq!(DispatchTable::assemble(&caps).get(SlotTag::AssItem), Some(SlotFunction::DelItem));
}

#[test]
fn assemble_everything() {
    let caps = Capabilities {
        len: true,
        getitem: true,
        setitem: true,
        delitem: true,
        contains: true,
        concat: true,
        repeat: true,
        inplace_concat: true,
        inplace_repeat: true,
    };
    let table = DispatchTable::assemble(&caps);
    assert_eq!(table.get(SlotTag::Length), Some(SlotFunction::Len));
    assert_eq!(table.get(SlotTag::Concat), Some(SlotFunction::Concat));
    assert_eq!(table.get(SlotTag::Repeat), Some(SlotFunction::Repeat));
    assert_eq!(table.get(SlotTag::Item), Some(SlotFunction::GetItem));
    assert_eq!(table.get(SlotTag::AssItem), Some(SlotFunction::SetDelItem));
    assert_eq!(table.get(SlotTag::Contains), Some(SlotFunction::Contains));
    assert_eq!(table.get(SlotTag::InplaceConcat), Some(SlotFunction::InplaceConcat));
    assert_eq!(table.get(SlotTag::InplaceRepeat), Some(SlotFunction::InplaceRepeat));
}
