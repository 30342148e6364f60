//! The LLM products of an account.

use crate::client::{Client, Request};
use crate::error::Error;
use vstd::prelude::*;

verus! {

/// One LLM product.
#[derive(Debug, PartialEq)]
pub struct Product {
    pub name: String,
    pub id: u64,
    pub account_name: String,
    pub status: String,
}

/// The products that the API lists, in the order it lists them.
#[derive(Debug)]
pub struct ProductResponse {
    pub products: Vec<Product>,
}

/// The path of the product list.
pub open spec fn products_path() -> Seq<char> {
    "/1/llm"@
}

impl Product {
    /// The record for one element of the wire's `data` array. On the wire
    /// the name is `product_name` and the id is `product_id`; the other two
    /// fields keep their names.
    pub fn from_wire(
        product_name: String,
        product_id: u64,
        account_name: String,
        status: String,
    ) -> (product: Product)
        ensures
            product.name == product_name,
            product.id == product_id,
            product.account_name == account_name,
            product.status == status,
    {
        Product { name: product_name, id: product_id, account_name, status }
    }
}

impl ProductResponse {
    /// The response for the wire's `data` array.
    pub fn from_wire(data: Vec<Product>) -> (response: ProductResponse)
        ensures
            response.products == data,
    {
        ProductResponse { products: data }
    }
}

/// Prepares the request for the product list: a GET of `/1/llm`. Its body
/// decodes to a `ProductResponse`.
pub fn products(client: &Client) -> (r: Result<Request<'_>, Error>)
    ensures
        client.prepares(products_path(), r),
{
    client.get("/1/llm")
}

} // verus!
