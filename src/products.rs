//! The products service of the federated graph: the hats on sale, looked
//! up by their UPC.

use vstd::prelude::*;
use vstd::string::*;

use crate::text::str_eq;

verus! {

/// A product on sale.
pub struct Product {
    pub upc: String,
    pub name: String,
    pub price: i32,
}

/// Whether `i` is the first index of a product with this UPC.
pub open spec fn first_with_upc(products: Seq<Product>, upc: Seq<char>, i: int) -> bool {
    &&& 0 <= i < products.len()
    &&& products[i].upc@ == upc
    &&& forall|j: int| 0 <= j < i ==> (#[trigger] products[j]).upc@ != upc
}

/// The hats on sale: a Trilby, a Fedora and a Boater.
pub fn hats() -> (r: Vec<Product>)
    ensures
        r@.len() == 3,
        r@[0].upc@ == "top-1"@ && r@[0].name@ == "Trilby"@ && r@[0].price == 11,
        r@[1].upc@ == "top-2"@ && r@[1].name@ == "Fedora"@ && r@[1].price == 22,
        r@[2].upc@ == "top-3"@ && r@[2].name@ == "Boater"@ && r@[2].price == 33,
{
    let mut r: Vec<Product> = Vec::new();
    r.push(Product { upc: "top-1".to_owned(), name: "Trilby".to_owned(), price: 11 });
    r.push(Product { upc: "top-2".to_owned(), name: "Fedora".to_owned(), price: 22 });
    r.push(Product { upc: "top-3".to_owned(), name: "Boater".to_owned(), price: 33 });
    r
}

/// The queries of the products service.
pub struct Query;

impl Query {
    /// The first product with this UPC, if any.
    pub fn find_product_by_upc<'a>(&self, products: &'a Vec<Product>, upc: &str) -> (r: Option<
        &'a Product,
    >)
        ensures
            r matches Some(p) ==> exists|i: int|
                first_with_upc(products@, upc@, i) && *p == #[trigger] products@[i],
            r is None ==> forall|j: int|
                0 <= j < products@.len() ==> (#[trigger] products@[j]).upc@ != upc@,
    {
        let mut i: usize = 0;
        while i < products.len()
            invariant
                i <= products@.len(),
                forall|j: int| 0 <= j < i ==> (#[trigger] products@[j]).upc@ != upc@,
            decreases products@.len() - i,
        {
            if str_eq(products[i].upc.as_str(), upc) {
                assert(first_with_upc(products@, upc@, i as int));
                return Some(&products[i]);
            }
            i = i + 1;
        }
        None
    }

    /// Resolves one entity representation: a `Product` with its `upc`,
    /// when a product has it. Other types resolve to nothing here.
    pub fn resolve_entity<'a>(
        &self,
        products: &'a Vec<Product>,
        typename: &str,
        upc: Option<&str>,
    ) -> (r: Result<Option<&'a Product>, crate::accounts::MissingKey>)
        ensures
            typename@ != "Product"@ ==> r matches Ok(None),
            typename@ == "Product"@ ==> match upc {
                None => r is Err,
                Some(u) => r matches Ok(found) && match found {
                    Some(p) => exists|i: int|
                        first_with_upc(products@, u@, i) && *p == #[trigger] products@[i],
                    None => forall|j: int|
                        0 <= j < products@.len() ==> (#[trigger] products@[j]).upc@ != u@,
                },
            },
    {
        if !str_eq(typename, "Product") {
            return Ok(None);
        }
        match upc {
            None => Err(crate::accounts::MissingKey),
            Some(u) => Ok(self.find_product_by_upc(products, u)),
        }
    }
}

} // verus!
