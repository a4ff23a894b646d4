//! A cup put together by hand, one call for each thing that goes into it.

use crate::machine_components::{Ingredient, Size};
use crate::message_based::Cup;
use vstd::prelude::*;

verus! {

/// Collects what a cup is to hold, whom it is for and how large it is, and
/// then makes the cup.
pub struct EspressoBuilder {
    ingredients: Vec<Ingredient>,
    customer_name: String,
    size: Size,
}

impl EspressoBuilder {
    /// The ingredients collected so far, in the order in which they were
    /// added.
    pub closed spec fn ingredients(&self) -> Seq<Ingredient> {
        self.ingredients@
    }

    /// The name of the customer.
    pub closed spec fn customer_name(&self) -> Seq<char> {
        self.customer_name@
    }

    /// The size of the cup.
    pub closed spec fn size(&self) -> Size {
        self.size
    }

    /// A builder for a cup of size `size` for `customer_name`, with nothing
    /// in it yet.
    pub fn new(size: Size, customer_name: String) -> (builder: Self)
        ensures
            builder.ingredients() == Seq::<Ingredient>::empty(),
            builder.customer_name() == customer_name@,
            builder.size() == size,
    {
        EspressoBuilder { ingredients: Vec::new(), customer_name, size }
    }

    /// Adds an ingredient.
    pub fn add_ingredient(self, ingredient: Ingredient) -> (builder: Self)
        ensures
            builder.ingredients() == self.ingredients().push(ingredient),
            builder.customer_name() == self.customer_name(),
            builder.size() == self.size(),
    {
        let mut builder = self;
        builder.ingredients.push(ingredient);
        builder
    }

    /// Names the customer.
    pub fn set_name(self, customer_name: &String) -> (builder: Self)
        ensures
            builder.ingredients() == self.ingredients(),
            builder.customer_name() == customer_name@,
            builder.size() == self.size(),
    {
        let mut builder = self;
        builder.customer_name = customer_name.clone();
        builder
    }

    /// Sets the size of the cup.
    pub fn set_cup_size(self, size: Size) -> (builder: Self)
        ensures
            builder.ingredients() == self.ingredients(),
            builder.customer_name() == self.customer_name(),
            builder.size() == size,
    {
        let mut builder = self;
        builder.size = size;
        builder
    }

    /// Adds a shot of espresso.
    pub fn add_espresso(self) -> (builder: Self)
        ensures
            builder.ingredients() == self.ingredients().push(Ingredient::Espresso),
            builder.customer_name() == self.customer_name(),
            builder.size() == self.size(),
    {
        let mut builder = self;
        builder.ingredients.push(Ingredient::Espresso);
        builder
    }

    /// Adds milk.
    pub fn add_milk(self) -> (builder: Self)
        ensures
            builder.ingredients() == self.ingredients().push(Ingredient::Milk),
            builder.customer_name() == self.customer_name(),
            builder.size() == self.size(),
    {
        let mut builder = self;
        builder.ingredients.push(Ingredient::Milk);
        builder
    }

    /// Makes the cup: of the size set, for the customer named, holding the
    /// ingredients added.
    pub fn build(self) -> (cup: Cup)
        ensures
            cup.size == self.size(),
            cup.contents@ == self.ingredients(),
            cup.client@ == self.customer_name(),
    {
        Cup { size: self.size, contents: self.ingredients, client: self.customer_name }
    }

    /// Makes a latte of size `size` for `name`: the ingredients added so far,
    /// then espresso, then milk. Size and name of the builder are passed
    /// over.
    pub fn build_latte(self, name: &String, size: Size) -> (cup: Cup)
        ensures
            cup.size == size,
            cup.contents@ == self.ingredients().push(Ingredient::Espresso).push(Ingredient::Milk),
            cup.client@ == name@,
    {
        let mut ingredients = self.ingredients;
        ingredients.push(Ingredient::Espresso);
        ingredients.push(Ingredient::Milk);
        Cup { size, client: name.clone(), contents: ingredients }
    }
}

} // verus!
