//! The `Pet` tagged union over `Cat` and `Dog`, the total upward conversion
//! from `Cat`, and the fallible downward conversion back to `Cat`.

use vstd::prelude::*;

use crate::cat::Cat;
use crate::cat::CatView;

verus! {

/// A unit marker value: a pet that is not a cat.
#[derive(Debug)]
pub struct Dog;

/// A closed tagged union over the two pet kinds; exactly one case is active.
#[derive(Debug)]
pub enum Pet {
    Cat(Cat),
    Dog(Dog),
}

/// The mathematical model of a pet: either a cat's model or the dog marker.
pub enum PetView {
    Cat(CatView),
    Dog,
}

impl View for Pet {
    type V = PetView;

    open spec fn view(&self) -> PetView {
        match self {
            Pet::Cat(c) => PetView::Cat(c@),
            Pet::Dog(_) => PetView::Dog,
        }
    }
}

/// The single error kind of this library, raised only when the `Dog` case is
/// converted down to a `Cat`.
#[derive(Debug, Clone, Copy, PartialEq, Eq, Structural)]
pub enum ConversionError {
    InvalidConversion,
}

impl ConversionError {
    /// The fixed, human-readable message carried by this error.
    pub fn message(&self) -> (r: &'static str)
        ensures
            r@ == "Dog cannot be converted to cat"@,
    {
        "Dog cannot be converted to cat"
    }
}

/// The upward conversion: wrapping a cat always yields the `Cat` case.
pub open spec fn wrapped(c: CatView) -> PetView {
    PetView::Cat(c)
}

/// The downward conversion: the cat carried by a pet, if the `Cat` case is
/// active, and nothing for the `Dog` case.
pub open spec fn unwrapped_cat(p: PetView) -> Option<CatView> {
    match p {
        PetView::Cat(c) => Some(c),
        PetView::Dog => None,
    }
}

impl From<Cat> for Pet {
    /// Total and infallible: always produces the `Cat` case carrying `value`.
    fn from(value: Cat) -> (r: Pet) {
        Pet::Cat(value)
    }
}

impl vstd::std_specs::convert::FromSpecImpl<Cat> for Pet {
    open spec fn obeys_from_spec() -> bool {
        true
    }

    open spec fn from_spec(value: Cat) -> Pet {
        Pet::Cat(value)
    }
}

/// Produces the `Dog` case; total and infallible.
pub fn wrap_dog() -> (p: Pet)
    ensures
        p@ == PetView::Dog,
{
    Pet::Dog(Dog)
}

impl Cat {
    /// The fallible downward conversion: succeeds with the payload when the
    /// `Cat` case is active, and fails with `InvalidConversion` on the `Dog`
    /// case. The pet is consumed either way.
    pub fn try_from(value: Pet) -> (r: Result<Cat, ConversionError>)
        ensures
            match unwrapped_cat(value@) {
                Some(c) => r matches Ok(cat) && cat@ == c,
                None => r matches Err(e) && e == ConversionError::InvalidConversion,
            },
    {
        match value {
            Pet::Cat(cat) => Ok(cat),
            Pet::Dog(_) => Err(ConversionError::InvalidConversion),
        }
    }
}

/// Law: wrapping a cat into a pet and unwrapping it again succeeds and yields
/// the same cat.
pub proof fn lemma_cat_round_trip(c: CatView)
    ensures
        unwrapped_cat(wrapped(c)) == Some(c),
{
}

/// Law: the `Dog` case never unwraps to a cat.
pub proof fn lemma_dog_unwrap_fails()
    ensures
        unwrapped_cat(PetView::Dog) is None,
{
}

} // verus!
