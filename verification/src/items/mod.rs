pub mod item;
pub mod list;
pub mod loot_table;
pub mod stack;
pub mod tool;
