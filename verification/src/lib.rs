//! Card search and the card guessing game of a Magic: The Gathering chat bot,
//! with the rules stated as contracts and proved.

pub mod fuzzy;
pub mod text;
pub mod normalise;
pub mod card;
pub mod colours;
pub mod game;
pub mod query;
pub mod emoji;
pub mod embed;
pub mod locks;
pub mod images;
pub mod components;
pub mod sql;
pub mod dispatch;
