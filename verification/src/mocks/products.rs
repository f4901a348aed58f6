//! A subgraph of products.

use vstd::prelude::*;
use vstd::string::*;
use crate::sdk::headers::{values_of, HttpHeaders};
use crate::text::same_text;

verus! {

/// The unit in which a weight is asked for.
#[derive(Debug, Clone, Copy, PartialEq, Eq, Structural)]
pub enum WeightUnit {
    Kilogram,
    Gram,
}

/// A product.
#[derive(Debug)]
pub struct Product {
    pub upc: String,
    pub name: String,
    pub price: i32,
    pub weight_grams: u64,
}

/// The subgraph: its products.
pub struct FederatedProductsSchema {
    pub products: Vec<Product>,
}

/// The name of the subgraph.
pub open spec fn subgraph_name() -> Seq<char> {
    "products"@
}

/// Whether `product` is the product with these parts.
pub open spec fn is_product(product: Product, upc: Seq<char>, name: Seq<char>, price: i32, weight_grams: u64) -> bool {
    product.upc@ == upc && product.name@ == name && product.price == price && product.weight_grams == weight_grams
}

/// The position of the first product of `products` with the code `upc`.
pub open spec fn position_by_upc(products: Seq<Product>, upc: Seq<char>) -> Option<int>
    decreases products.len(),
{
    if products.len() == 0 {
        None
    } else if products[0].upc@ == upc {
        Some(0)
    } else {
        match position_by_upc(products.skip(1), upc) {
            Some(position) => Some(position + 1),
            None => None,
        }
    }
}

fn product(upc: &str, name: &str, price: i32, weight_grams: u64) -> (product: Product)
    ensures
        is_product(product, upc@, name@, price, weight_grams),
{
    Product { upc: String::from_str(upc), name: String::from_str(name), price, weight_grams }
}

/// The headers of the request that a subscription asks about: for each
/// name the first value of the header, if the request has it.
pub fn http_header(headers: &HttpHeaders, names: Vec<String>) -> (found: Vec<(String, Option<Vec<u8>>)>)
    ensures
        found@.len() == names@.len(),
        forall|i: int|
            0 <= i < names@.len() ==> {
                &&& (#[trigger] found@[i]).0 == names@[i]
                &&& match found@[i].1 {
                    Some(value) => values_of(headers@, names@[i]@).len() > 0 && value@ == values_of(
                        headers@,
                        names@[i]@,
                    )[0],
                    None => values_of(headers@, names@[i]@).len() == 0,
                }
            },
{
    let ghost asked = names@;
    let mut found: Vec<(String, Option<Vec<u8>>)> = Vec::new();
    for name in it: names
        invariant
            it.seq() == asked,
            found@.len() == it.index(),
            forall|i: int|
                0 <= i < found@.len() ==> {
                    &&& (#[trigger] found@[i]).0 == asked[i]
                    &&& match found@[i].1 {
                        Some(value) => values_of(headers@, asked[i]@).len() > 0 && value@ == values_of(
                            headers@,
                            asked[i]@,
                        )[0],
                        None => values_of(headers@, asked[i]@).len() == 0,
                    }
                },
    {
        let value = headers.get(name.as_str());
        found.push((name, value));
    }
    found
}

impl Product {
    /// The weight in grams, and the number of grams in one `unit`: the
    /// weight in the unit is the quotient of the two.
    pub fn weight(&self, unit: WeightUnit) -> (weight: (u64, u64))
        ensures
            weight.0 == self.weight_grams,
            weight.1 == match unit {
                WeightUnit::Kilogram => 1000u64,
                WeightUnit::Gram => 1u64,
            },
    {
        match unit {
            WeightUnit::Kilogram => (self.weight_grams, 1000),
            WeightUnit::Gram => (self.weight_grams, 1),
        }
    }
}

impl FederatedProductsSchema {
    /// The name of the subgraph.
    pub fn name(&self) -> (name: String)
        ensures
            name@ == subgraph_name(),
    {
        String::from_str("products")
    }

    /// The subgraph with its five products.
    pub fn default() -> (schema: Self)
        ensures
            schema.products@.len() == 5,
            is_product(schema.products@[0], "top-1"@, "Trilby"@, 11, 100),
            is_product(schema.products@[1], "top-2"@, "Fedora"@, 22, 200),
            is_product(schema.products@[2], "top-3"@, "Boater"@, 33, 300),
            is_product(schema.products@[3], "top-4"@, "Jeans"@, 44, 400),
            is_product(schema.products@[4], "top-5"@, "Pink Jeans"@, 55, 500),
    {
        let mut products: Vec<Product> = Vec::new();
        products.push(product("top-1", "Trilby", 11, 100));
        products.push(product("top-2", "Fedora", 22, 200));
        products.push(product("top-3", "Boater", 33, 300));
        products.push(product("top-4", "Jeans", 44, 400));
        products.push(product("top-5", "Pink Jeans", 55, 500));
        FederatedProductsSchema { products }
    }

    /// The first product with the code `upc`.
    pub fn find_product_by_upc(&self, upc: &str) -> (found: Option<&Product>)
        ensures
            match position_by_upc(self.products@, upc@) {
                Some(position) => 0 <= position < self.products@.len() && found == Some(&self.products@[position]),
                None => found is None,
            },
    {
        let mut index: usize = 0;
        assert(self.products@.skip(0) =~= self.products@);
        while index < self.products.len()
            invariant
                index <= self.products@.len(),
                position_by_upc(self.products@, upc@) == match position_by_upc(
                    self.products@.skip(index as int),
                    upc@,
                ) {
                    Some(position) => Some(position + index),
                    None => None,
                },
            decreases self.products@.len() - index,
        {
            let ghost rest = self.products@.skip(index as int);
            assert(rest[0] == self.products@[index as int]);
            assert(rest.skip(1) =~= self.products@.skip(index as int + 1));
            if same_text(self.products[index].upc.as_str(), upc) {
                return Some(&self.products[index]);
            }
            index += 1;
        }
        None
    }

    /// The products that the subscription to new products announces:
    /// those with the codes `top-4` and `top-5`, in the order of the
    /// subgraph, by position.
    pub fn new_products(&self) -> (positions: Vec<usize>)
        ensures
            forall|k: int| 0 <= k < positions@.len() ==> #[trigger] positions@[k] < self.products@.len() && (
            self.products@[positions@[k] as int].upc@ == "top-4"@ || self.products@[positions@[k] as int].upc@
                == "top-5"@),
            forall|i: int|
                0 <= i < self.products@.len() && (#[trigger] self.products@[i].upc@ == "top-4"@
                    || self.products@[i].upc@ == "top-5"@) ==> positions@.contains(i as usize),
            forall|j: int, k: int| 0 <= j < k < positions@.len() ==> positions@[j] < positions@[k],
    {
        let mut positions: Vec<usize> = Vec::new();
        let mut index: usize = 0;
        while index < self.products.len()
            invariant
                index <= self.products@.len(),
                forall|k: int| 0 <= k < positions@.len() ==> #[trigger] positions@[k] < index && (
                self.products@[positions@[k] as int].upc@ == "top-4"@ || self.products@[positions@[k] as int].upc@
                    == "top-5"@),
                forall|i: int|
                    0 <= i < index && (#[trigger] self.products@[i].upc@ == "top-4"@ || self.products@[i].upc@
                        == "top-5"@) ==> positions@.contains(i as usize),
                forall|j: int, k: int| 0 <= j < k < positions@.len() ==> positions@[j] < positions@[k],
            decreases self.products@.len() - index,
        {
            let upc = self.products[index].upc.as_str();
            let ghost before = positions@;
            if same_text(upc, "top-4") || same_text(upc, "top-5") {
                positions.push(index);
                assert(positions@.last() == index);
                assert forall|i: int|
                    0 <= i < index + 1 && (#[trigger] self.products@[i].upc@ == "top-4"@ || self.products@[i].upc@
                        == "top-5"@) implies positions@.contains(i as usize) by {
                    if i < index {
                        let k = choose|k: int| 0 <= k < before.len() && before[k] == i as usize;
                        assert(positions@[k] == i as usize);
                    } else {
                        assert(positions@[positions@.len() - 1] == i as usize);
                    }
                }
            }
            index += 1;
        }
        positions
    }
}

} // verus!
