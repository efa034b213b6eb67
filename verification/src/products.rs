//! The product catalogue entities: plain rows with no invariants beyond
//! what the store assigns.

use vstd::prelude::*;

verus! {

/// The kind of product a row describes.
#[derive(Debug, Clone, Copy, PartialEq, Eq, Structural)]
pub enum Category {
    Flower,
    PreRoll,
    Edible,
    Cartridge,
    Extract,
    Accessory,
    Other,
}

/// The strain family of a cannabis product.
#[derive(Debug, Clone, Copy, PartialEq, Eq, Structural)]
pub enum Family {
    Indica,
    Sativa,
    Hybrid,
}

/// A product row waiting to be inserted; the store assigns its identity.
pub struct NewProduct {
    pub name: String,
    pub category: Category,
}

impl NewProduct {
    /// Builds a candidate product row from its two fields.
    pub fn new(name: &str, category: Category) -> (r: Self)
        ensures
            r.name@ == name@,
            r.category == category,
    {
        NewProduct { name: name.to_owned(), category }
    }
}

/// The mathematical value of a persisted product row.
pub ghost struct ProductView {
    pub id: i32,
    pub name: Seq<char>,
    pub category: Category,
}

/// A persisted product row.
pub struct Product {
    id: i32,
    name: String,
    category: Category,
}

impl View for Product {
    type V = ProductView;

    closed spec fn view(&self) -> ProductView {
        ProductView { id: self.id, name: self.name@, category: self.category }
    }
}

impl Product {
    /// Builds a row as the store handed it back.
    pub fn new(id: i32, name: String, category: Category) -> (r: Self)
        ensures
            r@ == (ProductView { id, name: name@, category }),
    {
        Product { id, name, category }
    }

    /// Hands the store-assigned identity out.
    pub fn get_id(&self) -> (r: &i32)
        ensures
            *r == self@.id,
    {
        &self.id
    }

    /// Hands the name out.
    pub fn get_name(&self) -> (r: &String)
        ensures
            r@ == self@.name,
    {
        &self.name
    }

    /// Hands the category out.
    pub fn get_category(&self) -> (r: &Category)
        ensures
            *r == self@.category,
    {
        &self.category
    }
}

} // verus!
