//! What every item can tell about itself.
use vstd::prelude::*;
use crate::inventory::SlotType;
use crate::text::{join_path, join_path_spec};

verus! {

/// How many items one stack holds beyond the first.
pub type StackSize = u8;

/// The name an item is known by.
pub struct ItemName(pub String);

impl View for ItemName {
    type V = Seq<char>;

    open spec fn view(&self) -> Seq<char> {
        self.0@
    }
}

impl ItemName {
    /// The name as text.
    pub fn get(&self) -> (s: &str)
        ensures
            s@ == self@,
    {
        self.0.as_str()
    }

    /// The name made of `value`.
    pub fn from_string(value: String) -> (n: ItemName)
        ensures
            n@ == value@,
    {
        ItemName(value)
    }
}

/// The name of the texture an item is drawn with.
pub struct ItemTexture(pub String);

impl View for ItemTexture {
    type V = Seq<char>;

    open spec fn view(&self) -> Seq<char> {
        self.0@
    }
}

impl ItemTexture {
    /// The texture named `value`.
    pub fn from_string(value: String) -> (t: ItemTexture)
        ensures
            t@ == value@,
    {
        ItemTexture(value)
    }

    /// The texture that bears the item's name.
    pub fn from_name(value: ItemName) -> (t: ItemTexture)
        ensures
            t@ == value@,
    {
        ItemTexture(value.0)
    }
}

/// The path of the texture of the item called `name`.
pub open spec fn item_texture(name: Seq<char>) -> Seq<char> {
    join_path_spec("textures/item"@, name + ".png"@)
}

/// The texture path of an item called `name` (see `item_texture`).
pub fn item_texture_path(name: &ItemName) -> (p: String)
    ensures
        p@ == item_texture(name@),
{
    let mut file = crate::text::owned(name.get());
    file.append(".png");
    join_path("textures/item", file.as_str())
}

/// What an item tells about itself.
pub trait Item {
    /// The name of the item.
    spec fn item_name(&self) -> Seq<char>;

    /// How many items a stack of it holds beyond the first.
    spec fn item_stack_size(&self) -> StackSize;

    /// The inventory sections it may go in.
    spec fn item_slots(&self) -> SlotType;

    /// Whether using it consumes it.
    spec fn item_consumed_on_use(&self) -> bool;

    fn name(&self) -> (n: ItemName)
        ensures
            n@ == self.item_name(),
    ;

    /// The texture path of the item.
    fn texture(&self) -> (p: String)
        ensures
            p@ == item_texture(self.item_name()),
    {
        let name = self.name();
        item_texture_path(&name)
    }

    fn stack_size(&self) -> (s: StackSize)
        ensures
            s == self.item_stack_size(),
    ;

    fn can_put_in(&self) -> (t: SlotType)
        ensures
            t == self.item_slots(),
    ;

    /// Uses the item; the result says whether the item is consumed.
    fn use_item(&self) -> (consumed: bool)
        ensures
            consumed == self.item_consumed_on_use(),
    ;
}

} // verus!
