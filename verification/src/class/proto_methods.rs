//! The runtime's table of sequence slots and what can stand in it.

use vstd::prelude::*;

verus! {

/// A physical entry of the runtime's table of sequence slots.
#[derive(Clone, Copy, Debug, PartialEq, Eq, Hash, Structural)]
pub enum SlotTag {
    Length,
    Concat,
    Repeat,
    Item,
    /// Shared by assignment and deletion: the runtime passes a null value to
    /// ask for a deletion.
    AssItem,
    Contains,
    InplaceConcat,
    InplaceRepeat,
}

impl SlotTag {
    /// The number by which the runtime knows the slot.
    pub open spec fn spec_id(self) -> i32 {
        match self {
            SlotTag::AssItem => 39i32,
            SlotTag::Concat => 40i32,
            SlotTag::Contains => 41i32,
            SlotTag::InplaceConcat => 42i32,
            SlotTag::InplaceRepeat => 43i32,
            SlotTag::Item => 44i32,
            SlotTag::Length => 45i32,
            SlotTag::Repeat => 46i32,
        }
    }

    /// The number by which the runtime knows the slot.
    #[verifier::when_used_as_spec(spec_id)]
    pub fn id(self) -> (n: i32)
        ensures
            n == self.spec_id(),
    {
        match self {
            SlotTag::AssItem => 39,
            SlotTag::Concat => 40,
            SlotTag::Contains => 41,
            SlotTag::InplaceConcat => 42,
            SlotTag::InplaceRepeat => 43,
            SlotTag::Item => 44,
            SlotTag::Length => 45,
            SlotTag::Repeat => 46,
        }
    }

    /// No two slots share a number.
    pub proof fn lemma_id_injective(a: SlotTag, b: SlotTag)
        requires
            a.id() == b.id(),
        ensures
            a == b,
    {
    }
}

/// An entry point that this crate can put into a slot.
#[derive(Clone, Copy, Debug, PartialEq, Eq, Hash, Structural)]
pub enum SlotFunction {
    Len,
    Concat,
    Repeat,
    GetItem,
    /// Assigns, and refuses to delete.
    SetItem,
    /// Deletes, and refuses to assign.
    DelItem,
    /// Assigns or deletes, as the runtime asks.
    SetDelItem,
    Contains,
    InplaceConcat,
    InplaceRepeat,
}

impl SlotFunction {
    /// The slot that the entry point is made for.
    pub open spec fn spec_tag(self) -> SlotTag {
        match self {
            SlotFunction::Len => SlotTag::Length,
            SlotFunction::Concat => SlotTag::Concat,
            SlotFunction::Repeat => SlotTag::Repeat,
            SlotFunction::GetItem => SlotTag::Item,
            SlotFunction::SetItem => SlotTag::AssItem,
            SlotFunction::DelItem => SlotTag::AssItem,
            SlotFunction::SetDelItem => SlotTag::AssItem,
            SlotFunction::Contains => SlotTag::Contains,
            SlotFunction::InplaceConcat => SlotTag::InplaceConcat,
            SlotFunction::InplaceRepeat => SlotTag::InplaceRepeat,
        }
    }

    /// The slot that the entry point is made for.
    #[verifier::when_used_as_spec(spec_tag)]
    pub fn tag(self) -> (tag: SlotTag)
        ensures
            tag == self.spec_tag(),
    {
        match self {
            SlotFunction::Len => SlotTag::Length,
            SlotFunction::Concat => SlotTag::Concat,
            SlotFunction::Repeat => SlotTag::Repeat,
            SlotFunction::GetItem => SlotTag::Item,
            SlotFunction::SetItem => SlotTag::AssItem,
            SlotFunction::DelItem => SlotTag::AssItem,
            SlotFunction::SetDelItem => SlotTag::AssItem,
            SlotFunction::Contains => SlotTag::Contains,
            SlotFunction::InplaceConcat => SlotTag::InplaceConcat,
            SlotFunction::InplaceRepeat => SlotTag::InplaceRepeat,
        }
    }

    /// The operations that a host type must implement for the entry point to
    /// exist are among those that `caps` declares.
    pub open spec fn supported_by(self, caps: Capabilities) -> bool {
        match self {
            SlotFunction::Len => caps.len,
            SlotFunction::Concat => caps.concat,
            SlotFunction::Repeat => caps.repeat,
            SlotFunction::GetItem => caps.getitem,
            SlotFunction::SetItem => caps.setitem,
            SlotFunction::DelItem => caps.delitem,
            SlotFunction::SetDelItem => caps.setitem && caps.delitem,
            SlotFunction::Contains => caps.contains,
            SlotFunction::InplaceConcat => caps.inplace_concat,
            SlotFunction::InplaceRepeat => caps.inplace_repeat,
        }
    }
}

/// An entry point together with the slot that it goes into.
///
/// A value of this type can only be made from an entry point, so the two
/// always fit.
#[derive(Clone, Copy, Debug, PartialEq, Eq)]
pub struct TypedSlot {
    function: SlotFunction,
}

impl TypedSlot {
    /// The entry point.
    pub closed spec fn spec_function(self) -> SlotFunction {
        self.function
    }

    /// The slot for `function`.
    pub fn new(function: SlotFunction) -> (slot: TypedSlot)
        ensures
            slot.function() == function,
    {
        TypedSlot { function }
    }

    /// The entry point.
    #[verifier::when_used_as_spec(spec_function)]
    pub fn function(self) -> (function: SlotFunction)
        ensures
            function == self.spec_function(),
    {
        self.function
    }

    /// The slot that the entry point goes into.
    pub open spec fn spec_tag(self) -> SlotTag {
        self.function().tag()
    }

    /// The slot that the entry point goes into.
    #[verifier::when_used_as_spec(spec_tag)]
    pub fn tag(self) -> (tag: SlotTag)
        ensures
            tag == self.spec_tag(),
    {
        self.function.tag()
    }
}

/// The operations that a host type declares to implement.
#[derive(Clone, Copy, Debug, PartialEq, Eq, Structural)]
pub struct Capabilities {
    pub len: bool,
    pub getitem: bool,
    pub setitem: bool,
    pub delitem: bool,
    pub contains: bool,
    pub concat: bool,
    pub repeat: bool,
    pub inplace_concat: bool,
    pub inplace_repeat: bool,
}

/// The entry point for the slot that assignment and deletion share, by which
/// of the two the host type implements.
pub open spec fn ass_item_builder(setitem: bool, delitem: bool) -> Option<SlotFunction> {
    match (setitem, delitem) {
        (false, false) => None,
        (true, false) => Some(SlotFunction::SetItem),
        (false, true) => Some(SlotFunction::DelItem),
        (true, true) => Some(SlotFunction::SetDelItem),
    }
}

/// The entry point that goes into the slot `tag` of a host type that declares
/// `caps`, if any does.
pub open spec fn builder(caps: Capabilities, tag: SlotTag) -> Option<SlotFunction> {
    match tag {
        SlotTag::Length => if caps.len {
            Some(SlotFunction::Len)
        } else {
            None
        },
        SlotTag::Concat => if caps.concat {
            Some(SlotFunction::Concat)
        } else {
            None
        },
        SlotTag::Repeat => if caps.repeat {
            Some(SlotFunction::Repeat)
        } else {
            None
        },
        SlotTag::Item => if caps.getitem {
            Some(SlotFunction::GetItem)
        } else {
            None
        },
        SlotTag::AssItem => ass_item_builder(caps.setitem, caps.delitem),
        SlotTag::Contains => if caps.contains {
            Some(SlotFunction::Contains)
        } else {
            None
        },
        SlotTag::InplaceConcat => if caps.inplace_concat {
            Some(SlotFunction::InplaceConcat)
        } else {
            None
        },
        SlotTag::InplaceRepeat => if caps.inplace_repeat {
            Some(SlotFunction::InplaceRepeat)
        } else {
            None
        },
    }
}

/// Picks the entry point for the slot that assignment and deletion share.
pub fn ass_item_function(setitem: bool, delitem: bool) -> (function: Option<SlotFunction>)
    ensures
        function == ass_item_builder(setitem, delitem),
{
    if setitem && delitem {
        Some(SlotFunction::SetDelItem)
    } else if setitem {
        Some(SlotFunction::SetItem)
    } else if delitem {
        Some(SlotFunction::DelItem)
    } else {
        None
    }
}

impl Capabilities {
    /// No operation at all.
    pub fn none() -> (caps: Capabilities)
        ensures
            forall|tag: SlotTag| builder(caps, tag) is None,
            !caps.len && !caps.getitem && !caps.setitem && !caps.delitem && !caps.contains
                && !caps.concat && !caps.repeat && !caps.inplace_concat && !caps.inplace_repeat,
    {
        Capabilities {
            len: false,
            getitem: false,
            setitem: false,
            delitem: false,
            contains: false,
            concat: false,
            repeat: false,
            inplace_concat: false,
            inplace_repeat: false,
        }
    }
}

/// The table of sequence slots of one host type: each slot holds an entry
/// point or is absent.
#[derive(Clone, Copy, Debug, PartialEq, Eq)]
pub struct DispatchTable {
    length: Option<SlotFunction>,
    concat: Option<SlotFunction>,
    repeat: Option<SlotFunction>,
    item: Option<SlotFunction>,
    ass_item: Option<SlotFunction>,
    contains: Option<SlotFunction>,
    inplace_concat: Option<SlotFunction>,
    inplace_repeat: Option<SlotFunction>,
}

impl DispatchTable {
    /// What stands in the slot `tag`.
    pub closed spec fn spec_get(&self, tag: SlotTag) -> Option<SlotFunction> {
        match tag {
            SlotTag::Length => self.length,
            SlotTag::Concat => self.concat,
            SlotTag::Repeat => self.repeat,
            SlotTag::Item => self.item,
            SlotTag::AssItem => self.ass_item,
            SlotTag::Contains => self.contains,
            SlotTag::InplaceConcat => self.inplace_concat,
            SlotTag::InplaceRepeat => self.inplace_repeat,
        }
    }

    /// A slot holds nothing but an entry point that is made for it.
    #[verifier::type_invariant]
    spec fn inv(&self) -> bool {
        &&& self.length matches Some(f) ==> f.tag() == SlotTag::Length
        &&& self.concat matches Some(f) ==> f.tag() == SlotTag::Concat
        &&& self.repeat matches Some(f) ==> f.tag() == SlotTag::Repeat
        &&& self.item matches Some(f) ==> f.tag() == SlotTag::Item
        &&& self.ass_item matches Some(f) ==> f.tag() == SlotTag::AssItem
        &&& self.contains matches Some(f) ==> f.tag() == SlotTag::Contains
        &&& self.inplace_concat matches Some(f) ==> f.tag() == SlotTag::InplaceConcat
        &&& self.inplace_repeat matches Some(f) ==> f.tag() == SlotTag::InplaceRepeat
    }

    /// The table with every slot absent.
    pub fn new() -> (table: DispatchTable)
        ensures
            forall|tag: SlotTag| table.get(tag) is None,
    {
        DispatchTable {
            length: None,
            concat: None,
            repeat: None,
            item: None,
            ass_item: None,
            contains: None,
            inplace_concat: None,
            inplace_repeat: None,
        }
    }

    /// What stands in the slot `tag`: an entry point made for that slot, or
    /// nothing.
    #[verifier::when_used_as_spec(spec_get)]
    pub fn get(&self, tag: SlotTag) -> (function: Option<SlotFunction>)
        ensures
            function == self.spec_get(tag),
            function matches Some(f) ==> f.tag() == tag,
    {
        proof {
            use_type_invariant(self);
        }
        match tag {
            SlotTag::Length => self.length,
            SlotTag::Concat => self.concat,
            SlotTag::Repeat => self.repeat,
            SlotTag::Item => self.item,
            SlotTag::AssItem => self.ass_item,
            SlotTag::Contains => self.contains,
            SlotTag::InplaceConcat => self.inplace_concat,
            SlotTag::InplaceRepeat => self.inplace_repeat,
        }
    }

    /// Puts an entry point into its slot, in place of what stood there, and
    /// leaves the other slots alone.
    pub fn install(&mut self, slot: TypedSlot)
        ensures
            forall|tag: SlotTag|
                #[trigger] final(self).get(tag) == if tag == slot.tag() {
                    Some(slot.function())
                } else {
                    old(self).get(tag)
                },
    {
        proof {
            use_type_invariant(&*self);
        }
        let function = slot.function();
        match function.tag() {
            SlotTag::Length => {
                self.length = Some(function);
            },
            SlotTag::Concat => {
                self.concat = Some(function);
            },
            SlotTag::Repeat => {
                self.repeat = Some(function);
            },
            SlotTag::Item => {
                self.item = Some(function);
            },
            SlotTag::AssItem => {
                self.ass_item = Some(function);
            },
            SlotTag::Contains => {
                self.contains = Some(function);
            },
            SlotTag::InplaceConcat => {
                self.inplace_concat = Some(function);
            },
            SlotTag::InplaceRepeat => {
                self.inplace_repeat = Some(function);
            },
        }
    }

    /// The table of a host type that declares `caps`: each slot holds the
    /// entry point that the declared operations call for, and is absent where
    /// they call for none.
    pub fn assemble(caps: &Capabilities) -> (table: DispatchTable)
        ensures
            forall|tag: SlotTag| #[trigger] table.get(tag) == builder(*caps, tag),
    {
        let mut table = DispatchTable::new();
        if caps.len {
            table.install(TypedSlot::new(SlotFunction::Len));
        }
        if caps.concat {
            table.install(TypedSlot::new(SlotFunction::Concat));
        }
        if caps.repeat {
            table.install(TypedSlot::new(SlotFunction::Repeat));
        }
        if caps.getitem {
            table.install(TypedSlot::new(SlotFunction::GetItem));
        }
        match ass_item_function(caps.setitem, caps.delitem) {
            Some(function) => {
                table.install(TypedSlot::new(function));
            },
            None => {},
        }
        if caps.contains {
            table.install(TypedSlot::new(SlotFunction::Contains));
        }
        if caps.inplace_concat {
            table.install(TypedSlot::new(SlotFunction::InplaceConcat));
        }
        if caps.inplace_repeat {
            table.install(TypedSlot::new(SlotFunction::InplaceRepeat));
        }
        table
    }
}

/// A slot is present exactly if the host type declares an operation that
/// the slot serves, and what stands in it is made for that slot and needs no
/// operation that the host type does not declare.
pub proof fn lemma_builder_sound(caps: Capabilities, tag: SlotTag)
    ensures
        builder(caps, tag) matches Some(f) ==> f.tag() == tag && f.supported_by(caps),
        builder(caps, SlotTag::Length) is Some <==> caps.len,
        builder(caps, SlotTag::Concat) is Some <==> caps.concat,
        builder(caps, SlotTag::Repeat) is Some <==> caps.repeat,
        builder(caps, SlotTag::Item) is Some <==> caps.getitem,
        builder(caps, SlotTag::AssItem) is Some <==> caps.setitem || caps.delitem,
        builder(caps, SlotTag::Contains) is Some <==> caps.contains,
        builder(caps, SlotTag::InplaceConcat) is Some <==> caps.inplace_concat,
        builder(caps, SlotTag::InplaceRepeat) is Some <==> caps.inplace_repeat,
{
}

/// The shared slot gets the one entry point that serves all that the host
/// type declares of assignment and deletion, and no more.
pub proof fn lemma_ass_item_builder(setitem: bool, delitem: bool)
    ensures
        ass_item_builder(setitem, delitem) is None <==> !setitem && !delitem,
        ass_item_builder(setitem, delitem) == Some(SlotFunction::SetItem) <==> setitem && !delitem,
        ass_item_builder(setitem, delitem) == Some(SlotFunction::DelItem) <==> !setitem && delitem,
        ass_item_builder(setitem, delitem) == Some(SlotFunction::SetDelItem) <==> setitem && delitem,
{
}

} // verus!
