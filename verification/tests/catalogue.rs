//! The product catalogue entities.

use users::{Category, Family, NewProduct, Product};

#[test]
fn new_product_keeps_its_fields() {
    let p = NewProduct::new("OG Kush", Category::Flower);
    assert_eq!(p.name, "OG Kush");
    assert_eq!(p.category, Category::Flower);
}

#[test]
fn product_getters_hand_the_row_back() {
    let p = Product::new(7, "Gummy".to_owned(), Category::Edible);
    assert_eq!(*p.get_id(), 7);
    assert_eq!(p.get_name(), "Gummy");
    assert_eq!(*p.get_category(), Category::Edible);
}

#[test]
fn families_are_distinct() {
    assert_ne!(Family::Indica, Family::Sativa);
    assert_ne!(Family::Sativa, Family::Hybrid);
    assert_eq!(Family::Hybrid, Family::Hybrid);
}
