pub mod inventory;
pub mod items;
pub mod loot_table;
pub mod ore;
pub mod random;
pub mod text;
pub mod lang;
pub mod assoc;
pub mod effects;
pub mod animation;
pub mod npc;
pub mod commands;
pub mod mob;
pub mod assets;
pub mod gui;
pub mod interactable;
pub mod music;
pub mod chest;
