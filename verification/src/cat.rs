//! The `Cat` value type: a name and a non-negative age, with structural
//! equality, cloning, a display form, and two increment operations.

use vstd::prelude::*;

use crate::text::decimal_chars;
use crate::text::decimal_string;

verus! {

/// The mathematical model of a cat: its age as a natural number and its name
/// as a sequence of characters.
#[verifier::ext_equal]
pub struct CatView {
    pub age: nat,
    pub name: Seq<char>,
}

/// A cat with a name and a non-negative age.
#[derive(Debug)]
pub struct Cat {
    pub age: usize,
    pub name: String,
}

impl View for Cat {
    type V = CatView;

    open spec fn view(&self) -> CatView {
        CatView { age: self.age as nat, name: self.name@ }
    }
}

/// The effect of incrementing a cat's age by `n`: the age grows by `n` and
/// the name is kept.
pub open spec fn incremented(c: CatView, n: nat) -> CatView {
    CatView { age: (c.age + n) as nat, name: c.name }
}

/// The display form of a cat: `Cat <name>, age: <age>`.
pub open spec fn rendered(c: CatView) -> Seq<char> {
    "Cat "@ + c.name + ", age: "@ + decimal_chars(c.age)
}

impl Cat {
    /// A borrowed view of the cat's name.
    pub fn name_ptr(&self) -> (r: &str)
        ensures
            r@ == self@.name,
    {
        self.name.as_str()
    }

    /// Consumes the cat and returns one aged by `other`, with the same name.
    pub fn add(self, other: usize) -> (r: Cat)
        requires
            self.age + other <= usize::MAX,
        ensures
            r@ == incremented(self@, other as nat),
    {
        Cat { age: self.age + other, name: self.name }
    }

    /// Ages the cat by `other` in place, keeping its name.
    pub fn add_assign(&mut self, other: usize)
        requires
            old(self).age + other <= usize::MAX,
        ensures
            final(self)@ == incremented(old(self)@, other as nat),
    {
        self.age = self.age + other;
    }

    /// Renders the cat as `Cat <name>, age: <age>`.
    pub fn display(&self) -> (r: String)
        ensures
            r@ == rendered(self@),
    {
        let mut s = String::from_str("Cat ");
        s.append(self.name.as_str());
        s.append(", age: ");
        let num = decimal_string(self.age);
        s.append(num.as_str());
        proof {
            assert(s@ =~= rendered(self@));
        }
        s
    }
}

impl Clone for Cat {
    /// Deep-copies both fields.
    fn clone(&self) -> (r: Cat)
        ensures
            r@ == self@,
    {
        Cat { age: self.age, name: self.name.clone() }
    }
}

impl PartialEq for Cat {
    fn eq(&self, other: &Cat) -> (r: bool) {
        self.age == other.age && self.name == other.name
    }
}

impl vstd::std_specs::cmp::PartialEqSpecImpl for Cat {
    open spec fn obeys_eq_spec() -> bool {
        true
    }

    open spec fn eq_spec(&self, other: &Cat) -> bool {
        self@ == other@
    }
}

/// Law: the in-place increment and the value-returning increment have the
/// same effect — the age grows by exactly `n` and the name is unchanged.
pub proof fn lemma_increment_effect(c: CatView, n: nat)
    ensures
        incremented(c, n).age == c.age + n,
        incremented(c, n).name == c.name,
{
}

/// Law: two cats are equal exactly when both the name and the age agree;
/// changing either field breaks equality.
pub proof fn lemma_cat_equality(a: CatView, b: CatView)
    ensures
        (a == b) <==> (a.age == b.age && a.name == b.name),
{
    if a.age == b.age && a.name == b.name {
        assert(a =~= b);
    }
}

/// Law: the display form depends only on the cat's value, so rendering the
/// same cat twice without mutation yields identical text both times.
pub proof fn lemma_display_deterministic(a: CatView, b: CatView)
    requires
        a == b,
    ensures
        rendered(a) == rendered(b),
{
}

} // verus!
