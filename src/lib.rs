pub mod ability;
pub mod background;
pub mod character;
pub mod characteristics;
pub mod class;
pub mod dice;
pub mod feat;
pub mod feature;
pub mod item;
pub mod lower_bound_map;
pub mod menu;
pub mod modifiers;
pub mod personality;
pub mod proficiencies;
pub mod psionics;
pub mod race;
pub mod senses;
pub mod skill;
pub mod slot;
pub mod spell;
pub mod text;
pub mod units;
