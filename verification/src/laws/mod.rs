//! What holds of the library as a whole.
pub mod advice;
pub mod blame;
pub mod details;
pub mod diagnosis;
pub mod evidence;
pub mod listing;
pub mod loading;
pub mod lookup;
pub mod output;
pub mod owner;
pub mod parsing;
pub mod printing;
pub mod reading;
pub mod requests;
pub mod serving;
pub mod symbols;
pub mod wording;
