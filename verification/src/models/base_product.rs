use vstd::prelude::*;

verus! {

/// The value of one attribute of a product.
#[derive(Clone, Debug)]
pub struct ProdAttrValue {
    pub attr_id: i32,
    pub value: String,
    pub meta_field: Option<String>,
}

}
