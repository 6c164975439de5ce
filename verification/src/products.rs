//! The local catalog: what is declared for sale and which remote identifier
//! each entry has been given.

use crate::roblox::{Product, ProductView};
use vstd::prelude::*;
use vstd::string::*;

verus! {

/// One entry of the catalog. `id` is zero until the remote platform has
/// assigned an identifier.
#[derive(Debug)]
pub struct ProductJson {
    pub name: String,
    pub description: String,
    pub product_type: String,
    pub image: String,
    pub price: i64,
    pub regional_pricing: bool,
    pub id: i64,
}

/// Mathematical value of a [`ProductJson`].
pub struct ProductJsonView {
    pub name: Seq<char>,
    pub description: Seq<char>,
    pub product_type: Seq<char>,
    pub image: Seq<char>,
    pub price: int,
    pub regional_pricing: bool,
    pub id: int,
}

impl ProductJsonView {
    /// The fields that are sent to the remote platform.
    pub open spec fn payload(self) -> ProductView {
        ProductView {
            name: self.name,
            description: self.description,
            image_file: self.image,
            price: self.price,
            regional_pricing: self.regional_pricing,
        }
    }

    /// The same entry under another remote identifier.
    pub open spec fn with_id(self, id: int) -> ProductJsonView {
        ProductJsonView { id, ..self }
    }

    /// The kind this entry declares, if it is one that the remote platform
    /// knows.
    pub open spec fn kind(self) -> Option<ProductKind> {
        kind_of(self.product_type)
    }
}

impl View for ProductJson {
    type V = ProductJsonView;

    open spec fn view(&self) -> ProductJsonView {
        ProductJsonView {
            name: self.name@,
            description: self.description@,
            product_type: self.product_type@,
            image: self.image@,
            price: self.price as int,
            regional_pricing: self.regional_pricing,
            id: self.id as int,
        }
    }
}

impl Clone for ProductJson {
    fn clone(&self) -> (copy: Self)
        ensures
            copy@ == self@,
    {
        ProductJson {
            name: self.name.clone(),
            description: self.description.clone(),
            product_type: self.product_type.clone(),
            image: self.image.clone(),
            price: self.price,
            regional_pricing: self.regional_pricing,
            id: self.id,
        }
    }
}

/// The two kinds of entry that the remote platform manages.
#[derive(Clone, Copy, Debug, PartialEq, Eq, Structural)]
pub enum ProductKind {
    /// A developer product, bought any number of times.
    Product,
    /// A game pass, bought once.
    Gamepass,
}

/// The kind that a type discriminator names: `Product`, `Gamepass`, or none.
pub open spec fn kind_of(product_type: Seq<char>) -> Option<ProductKind> {
    if product_type == "Product"@ {
        Some(ProductKind::Product)
    } else if product_type == "Gamepass"@ {
        Some(ProductKind::Gamepass)
    } else {
        None
    }
}

/// The views of a list of entries, in order.
pub open spec fn catalog_view(products: Seq<ProductJson>) -> Seq<ProductJsonView> {
    products.map_values(|p: ProductJson| p@)
}

impl ProductJson {
    /// Reads the type discriminator.
    pub fn kind(&self) -> (kind: Option<ProductKind>)
        ensures
            kind == self@.kind(),
    {
        let product = String::from_str("Product");
        let gamepass = String::from_str("Gamepass");
        if self.product_type == product {
            Some(ProductKind::Product)
        } else if self.product_type == gamepass {
            Some(ProductKind::Gamepass)
        } else {
            None
        }
    }

    /// The payload that a create or an update of this entry sends.
    pub fn payload(&self) -> (data: Product)
        ensures
            data@ == self@.payload(),
    {
        Product {
            name: self.name.clone(),
            description: self.description.clone(),
            image_file: self.image.clone(),
            price: self.price,
            regional_pricing: self.regional_pricing,
        }
    }
}

/// The two entries that a fresh catalog starts with.
pub open spec fn default_products_spec() -> Seq<ProductJsonView> {
    seq![
        ProductJsonView {
            name: "Example Product"@,
            description: "Example product's description"@,
            product_type: "Product"@,
            image: "assets/products/example.png"@,
            price: 499,
            regional_pricing: false,
            id: 0,
        },
        ProductJsonView {
            name: "Example Gamepass"@,
            description: "Example gamepass's description"@,
            product_type: "Gamepass"@,
            image: "assets/gamepasses/example.png"@,
            price: 499,
            regional_pricing: false,
            id: 0,
        },
    ]
}

/// Builds the catalog that a new project is given: one example of each kind,
/// neither yet known to the remote platform.
pub fn init_product_json() -> (defaults: Vec<ProductJson>)
    ensures
        catalog_view(defaults@) == default_products_spec(),
{
    let mut defaults: Vec<ProductJson> = Vec::new();
    defaults.push(
        ProductJson {
            name: String::from_str("Example Product"),
            description: String::from_str("Example product's description"),
            product_type: String::from_str("Product"),
            image: String::from_str("assets/products/example.png"),
            price: 499,
            regional_pricing: false,
            id: 0,
        },
    );
    defaults.push(
        ProductJson {
            name: String::from_str("Example Gamepass"),
            description: String::from_str("Example gamepass's description"),
            product_type: String::from_str("Gamepass"),
            image: String::from_str("assets/gamepasses/example.png"),
            price: 499,
            regional_pricing: false,
            id: 0,
        },
    );
    assert(catalog_view(defaults@) =~= default_products_spec());
    defaults
}

} // verus!
