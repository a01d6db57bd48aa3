pub mod duration;
pub mod keys;
pub mod laws;
pub mod layout;
pub mod model;
pub mod order;
pub mod player;
pub mod screen;
pub mod shuffle;
pub mod startup;
pub mod text;
pub mod track;
pub mod volume;
