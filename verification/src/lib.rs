//! A small library of toy pet values: a `Cat` with a name and an age, a unit
//! `Dog`, and a tagged union `Pet` over the two, together with the verified
//! conversions between them.

pub mod cat;
pub mod pet;
pub mod text;

pub use cat::Cat;
pub use pet::ConversionError;
pub use pet::Dog;
pub use pet::Pet;
pub use pet::wrap_dog;
