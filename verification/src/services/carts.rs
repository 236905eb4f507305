//! Changes of the catalogue that take products out of the customers' carts:
//! a deactivated store, base product or product, a changed base product, a
//! changed shipping. The change is made first; then the products concerned
//! are looked up and taken out of every cart (or, for shipping, their
//! delivery method is).
use vstd::prelude::*;

use crate::errors::Error;
use crate::http::Initiator;
use crate::ids::{BaseProductId, ProductId, StoreId};
use crate::microservice::{kind_of_reply, ApiCall, OrdersCall, Reply, ReplyKind, StoresCall};
use crate::models::moderate::{DeleteDeliveryMethodFromCartsPayload, DeleteProductsFromCartsPayload, Product};
use crate::models::resources::ModerationStatus;
use crate::services::common::{service_error, service_error_ok, ApiFailure, Outcome, Step};
use crate::validation::texts_of;

verus! {

/// Whether a change of moderation status takes products out of carts: that
/// of a published store or base product that stops being published.
pub open spec fn removes_products(initial: ModerationStatus, status: ModerationStatus) -> bool {
    initial == ModerationStatus::Published && status != ModerationStatus::Published
}

/// Whether a change of moderation status from `initial_status` to `status`
/// takes the products concerned out of carts.
pub fn is_status_change_requires_to_delete_product(initial_status: ModerationStatus, status: ModerationStatus) -> (r: bool)
    ensures
        r == removes_products(initial_status, status),
{
    match initial_status {
        ModerationStatus::Published => status != ModerationStatus::Published,
        _ => false,
    }
}

/// The ids of products, in their order.
pub open spec fn product_ids_of(products: Seq<Product>) -> Seq<ProductId> {
    products.map_values(|p: Product| p.id)
}

/// The ids of products, in their order.
pub fn product_ids(products: &Vec<Product>) -> (r: Vec<ProductId>)
    ensures
        r@ == product_ids_of(products@),
{
    let mut r: Vec<ProductId> = Vec::new();
    let mut i: usize = 0;
    while i < products.len()
        invariant
            i <= products.len(),
            r@ == product_ids_of(products@.take(i as int)),
        decreases products.len() - i,
    {
        assert(product_ids_of(products@.take(i as int + 1)) =~= product_ids_of(products@.take(i as int)).push(products@[i as int].id));
        r.push(products[i].id);
        i = i + 1;
    }
    assert(products@.take(products.len() as int) =~= products@);
    r
}

/// The products whose carts a change concerns: those of a store, those of a
/// base product, or one product.
#[derive(Clone, Copy, Debug, PartialEq, Eq, Structural)]
pub enum ProductsOf {
    Store(StoreId),
    BaseProduct(BaseProductId),
    Product(ProductId),
}

/// The ids of products are one for each product, each that product's id,
/// in the products' order.
pub proof fn lemma_product_ids_one_per_product(products: Seq<Product>)
    ensures
        product_ids_of(products).len() == products.len(),
        forall|i: int| 0 <= i < products.len() ==> #[trigger] product_ids_of(products)[i] == products[i].id,
{
}

/// What is taken out of carts: the products, or their delivery method.
#[derive(Clone, Copy, Debug, PartialEq, Eq, Structural)]
pub enum CartRemoval {
    Products,
    DeliveryMethod,
}

/// The call that looks up the products of a store or a base product; a
/// product needs none.
pub open spec fn products_lookup_call(p: ProductsOf) -> Option<ApiCall> {
    match p {
        ProductsOf::Store(id) => Some(ApiCall::Stores(StoresCall::GetProductsByStore { store_id: id })),
        ProductsOf::BaseProduct(id) => Some(ApiCall::Stores(StoresCall::GetProductsByBaseProduct { base_product_id: id })),
        ProductsOf::Product(_) => None,
    }
}

/// The products of a store are looked up by the store's id, those of a
/// base product by the base product's id; a single product is looked up by
/// no call.
pub proof fn lemma_products_looked_up_by_owner(p: ProductsOf)
    ensures
        p matches ProductsOf::Store(id)
            ==> products_lookup_call(p) == Some(ApiCall::Stores(StoresCall::GetProductsByStore { store_id: id })),
        p matches ProductsOf::BaseProduct(id)
            ==> products_lookup_call(p) == Some(ApiCall::Stores(StoresCall::GetProductsByBaseProduct { base_product_id: id })),
        p is Product ==> products_lookup_call(p) is None,
{
}

/// Whether `call` takes the products `ids` (or their delivery method) out of
/// every cart, as the superadmin.
pub open spec fn removal_call_ok(removal: CartRemoval, ids: Seq<ProductId>, call: ApiCall) -> bool {
    match removal {
        CartRemoval::Products => call matches ApiCall::Orders(OrdersCall::DeleteProductsFromAllCarts { initiator, payload })
            && initiator == Some(Initiator::Superadmin) && payload.product_ids@ == ids,
        CartRemoval::DeliveryMethod => call matches ApiCall::Orders(OrdersCall::DeleteDeliveryMethodFromAllCarts { initiator, payload })
            && initiator == Some(Initiator::Superadmin) && payload.product_ids@ == ids,
    }
}

/// The call that takes the products `ids` (or their delivery method) out of
/// every cart.
pub fn removal_call(removal: CartRemoval, ids: Vec<ProductId>) -> (r: ApiCall)
    ensures
        removal_call_ok(removal, ids@, r),
{
    match removal {
        CartRemoval::Products => ApiCall::Orders(OrdersCall::DeleteProductsFromAllCarts {
            initiator: Some(Initiator::Superadmin),
            payload: DeleteProductsFromCartsPayload { product_ids: ids },
        }),
        CartRemoval::DeliveryMethod => ApiCall::Orders(OrdersCall::DeleteDeliveryMethodFromAllCarts {
            initiator: Some(Initiator::Superadmin),
            payload: DeleteDeliveryMethodFromCartsPayload { product_ids: ids },
        }),
    }
}

/// The error that a failed call becomes: with fields, the refusal's meaning
/// (see `service_error`); without, a failure of the HTTP client.
pub open spec fn cleanup_error_ok(e: Error, f: ApiFailure, fields: Option<Seq<&'static str>>) -> bool {
    match fields {
        Some(fs) => service_error_ok(e, f, texts_of(fs)),
        None => e is HttpClient,
    }
}

fn cleanup_error(f: ApiFailure, fields: Option<&'static [&'static str]>) -> (r: Error)
    ensures
        cleanup_error_ok(r, f, match fields { Some(fs) => Some(fs@), None => None }),
{
    match fields {
        Some(fs) => service_error(f, fs),
        None => Error::HttpClient,
    }
}

/// A change of the catalogue under way, with the carts it concerns.
#[derive(Debug)]
pub struct CartsCleanupSaga {
    products: ProductsOf,
    removal: CartRemoval,
    fields: Option<&'static [&'static str]>,
    change_kind: ReplyKind,
    changed: Option<Reply>,
    stage: usize,
}

impl CartsCleanupSaga {
    /// 0 while the change is made, 1 while the products are looked up, 2
    /// while they are taken out of carts, 3 when over.
    pub closed spec fn stage(&self) -> nat {
        self.stage as nat
    }

    pub closed spec fn products(&self) -> ProductsOf {
        self.products
    }

    pub closed spec fn removal(&self) -> CartRemoval {
        self.removal
    }

    /// The fields whose refusals are read, where they are.
    pub closed spec fn fields(&self) -> Option<Seq<&'static str>> {
        match self.fields {
            Some(fs) => Some(fs@),
            None => None,
        }
    }

    /// The kind of answer that the change gets.
    pub closed spec fn change_kind(&self) -> ReplyKind {
        self.change_kind
    }

    /// The answer to the change, once it came.
    pub closed spec fn changed(&self) -> Option<Reply> {
        self.changed
    }

    pub closed spec fn wf(&self) -> bool {
        &&& self.stage <= 3
        &&& (self.stage == 1 || self.stage == 2) ==> self.changed is Some
        &&& self.stage == 1 ==> !(self.products is Product)
    }

    pub open spec fn awaited(&self) -> ReplyKind {
        if self.stage() == 0 {
            self.change_kind()
        } else if self.stage() == 1 {
            ReplyKind::Products
        } else {
            ReplyKind::Ignored
        }
    }

    /// Whether the step under way waits for an answer of kind `k`.
    pub fn awaits(&self, k: ReplyKind) -> (r: bool)
        ensures
            r == (k == self.awaited()),
    {
        if self.stage == 0 {
            k == self.change_kind
        } else if self.stage == 1 {
            k == ReplyKind::Products
        } else {
            k == ReplyKind::Ignored
        }
    }

    /// Whether the saga is over.
    pub fn is_over(&self) -> (r: bool)
        ensures
            r == (self.stage() == 3),
    {
        self.stage == 3
    }

    /// Starts a change made by `change`, whose answer is of kind
    /// `change_kind`, concerning the carts of `products`.
    pub fn start(
        change: ApiCall,
        change_kind: ReplyKind,
        products: ProductsOf,
        removal: CartRemoval,
        fields: Option<&'static [&'static str]>,
    ) -> (r: (CartsCleanupSaga, ApiCall))
        ensures
            r.0.wf(),
            r.0.stage() == 0,
            r.0.products() == products,
            r.0.removal() == removal,
            r.0.fields() == (match fields { Some(fs) => Some(fs@), None => None::<Seq<&'static str>> }),
            r.0.change_kind() == change_kind,
            r.1 == change,
    {
        (CartsCleanupSaga { products, removal, fields, change_kind, changed: None, stage: 0 }, change)
    }

    /// Takes the outcome of the call under way. A failed call fails the
    /// whole (see `cleanup_error_ok`). After the change, the products of the
    /// store or base product are looked up (a product is itself the one);
    /// then they are taken out of carts; then the answer to the change comes
    /// back.
    pub fn on_outcome(self, outcome: Outcome) -> (r: (CartsCleanupSaga, Step<Reply>))
        requires
            self.wf(),
            self.stage() <= 2,
            outcome matches Ok(reply) ==> kind_of_reply(reply) == self.awaited(),
        ensures
            r.0.wf(),
            r.0.products() == self.products(),
            r.0.removal() == self.removal(),
            r.0.fields() == self.fields(),
            match outcome {
                Err(f) => r.0.stage() == 3 && (r.1 matches Step::Fail(e) && cleanup_error_ok(e, f, self.fields())),
                Ok(reply) => if self.stage() == 0 {
                    &&& r.0.changed() == Some(reply)
                    &&& match products_lookup_call(self.products()) {
                        Some(lookup) => r.0.stage() == 1 && r.1 == Step::<Reply>::Call(lookup),
                        None => r.0.stage() == 2 && (r.1 matches Step::Call(c)
                            && removal_call_ok(self.removal(), seq![self.products()->Product_0], c)),
                    }
                } else if self.stage() == 1 {
                    &&& r.0.changed() == self.changed()
                    &&& r.0.stage() == 2
                    &&& reply matches Reply::Products(ps) && (r.1 matches Step::Call(c) && removal_call_ok(self.removal(), product_ids_of(ps@), c))
                } else {
                    r.0.stage() == 3 && r.1 == Step::Done(self.changed().unwrap())
                },
            },
    {
        let CartsCleanupSaga { products, removal, fields, change_kind, changed, stage } = self;
        let reply = match outcome {
            Err(f) => {
                let e = cleanup_error(f, fields);
                return (CartsCleanupSaga { products, removal, fields, change_kind, changed, stage: 3 }, Step::Fail(e));
            },
            Ok(reply) => reply,
        };
        if stage == 0 {
            match products {
                ProductsOf::Product(id) => {
                    let mut ids: Vec<ProductId> = Vec::new();
                    ids.push(id);
                    assert(ids@ =~= seq![id]);
                    let call = removal_call(removal, ids);
                    (CartsCleanupSaga { products, removal, fields, change_kind, changed: Some(reply), stage: 2 }, Step::Call(call))
                },
                ProductsOf::Store(id) => {
                    let call = ApiCall::Stores(StoresCall::GetProductsByStore { store_id: id });
                    (CartsCleanupSaga { products, removal, fields, change_kind, changed: Some(reply), stage: 1 }, Step::Call(call))
                },
                ProductsOf::BaseProduct(id) => {
                    let call = ApiCall::Stores(StoresCall::GetProductsByBaseProduct { base_product_id: id });
                    (CartsCleanupSaga { products, removal, fields, change_kind, changed: Some(reply), stage: 1 }, Step::Call(call))
                },
            }
        } else if stage == 1 {
            match reply {
                Reply::Products(ps) => {
                    let ids = product_ids(&ps);
                    let call = removal_call(removal, ids);
                    (CartsCleanupSaga { products, removal, fields, change_kind, changed, stage: 2 }, Step::Call(call))
                },
                _ => {
                    assert(false);
                    (CartsCleanupSaga { products, removal, fields, change_kind, changed, stage: 3 }, Step::Fail(Error::Unknown))
                },
            }
        } else {
            match changed {
                Some(c) => (CartsCleanupSaga { products, removal, fields, change_kind, changed: None, stage: 3 }, Step::Done(c)),
                None => {
                    assert(false);
                    (CartsCleanupSaga { products, removal, fields, change_kind, changed: None, stage: 3 }, Step::Fail(Error::Unknown))
                },
            }
        }
    }
}

}
