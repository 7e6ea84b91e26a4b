//! The three entities of the workflow and their builders.
use vstd::prelude::*;

verus! {

/// A cleaning business: its name, whether it is eco-friendly, the products it
/// uses and the services it offers (both in insertion order).
pub struct CleaningService {
    pub name: String,
    pub eco_friendly: bool,
    pub cleaning_products: Vec<String>,
    pub services_offered: Vec<String>,
}

/// Mathematical model of a `CleaningService`.
pub struct CleaningServiceView {
    pub name: Seq<char>,
    pub eco_friendly: bool,
    pub cleaning_products: Seq<Seq<char>>,
    pub services_offered: Seq<Seq<char>>,
}

impl View for CleaningService {
    type V = CleaningServiceView;

    open spec fn view(&self) -> CleaningServiceView {
        CleaningServiceView {
            name: self.name@,
            eco_friendly: self.eco_friendly,
            cleaning_products: self.cleaning_products.deep_view(),
            services_offered: self.services_offered.deep_view(),
        }
    }
}

/// A customer: name, address, the cleaning needs they request (in order),
/// and their budget.
pub struct Customer {
    pub name: String,
    pub address: String,
    pub cleaning_needs: Vec<String>,
    pub budget: usize,
}

/// Mathematical model of a `Customer`.
pub struct CustomerView {
    pub name: Seq<char>,
    pub address: Seq<char>,
    pub cleaning_needs: Seq<Seq<char>>,
    pub budget: nat,
}

impl CustomerView {
    /// The same customer with the budget replaced.
    pub open spec fn with_budget(self, budget: nat) -> CustomerView {
        CustomerView { budget, ..self }
    }
}

impl View for Customer {
    type V = CustomerView;

    open spec fn view(&self) -> CustomerView {
        CustomerView {
            name: self.name@,
            address: self.address@,
            cleaning_needs: self.cleaning_needs.deep_view(),
            budget: self.budget as nat,
        }
    }
}

/// An order owns its own copies of a customer and a service, the needs it
/// covers, and its price.
pub struct Order {
    pub customer: Customer,
    pub cleaning_service: CleaningService,
    pub cleaning_needs: Vec<String>,
    pub price: usize,
}

/// Mathematical model of an `Order`.
pub struct OrderView {
    pub customer: CustomerView,
    pub cleaning_service: CleaningServiceView,
    pub cleaning_needs: Seq<Seq<char>>,
    pub price: nat,
}

impl OrderView {
    /// The order made of these parts.
    pub open spec fn assemble(
        customer: CustomerView,
        cleaning_service: CleaningServiceView,
        cleaning_needs: Seq<Seq<char>>,
        price: nat,
    ) -> OrderView {
        OrderView { customer, cleaning_service, cleaning_needs, price }
    }
}

impl View for Order {
    type V = OrderView;

    open spec fn view(&self) -> OrderView {
        OrderView {
            customer: self.customer@,
            cleaning_service: self.cleaning_service@,
            cleaning_needs: self.cleaning_needs.deep_view(),
            price: self.price as nat,
        }
    }
}

/// An order holds a copy of its customer: setting the original customer's
/// budget after the order was made leaves the order's customer, and so its
/// budget, as they were when the order was made.
pub proof fn lemma_order_keeps_customer(
    customer: CustomerView,
    cleaning_service: CleaningServiceView,
    cleaning_needs: Seq<Seq<char>>,
    price: nat,
    budget: nat,
)
    ensures
        OrderView::assemble(customer, cleaning_service, cleaning_needs, price).customer == customer,
        OrderView::assemble(customer, cleaning_service, cleaning_needs, price).customer.budget
            == customer.budget,
        customer.with_budget(budget).budget == budget,
        customer.with_budget(budget) == (CustomerView { budget, ..customer }),
{
}

/// A fresh copy of a list of texts.
fn copy_texts(v: &Vec<String>) -> (r: Vec<String>)
    ensures
        r.deep_view() == v.deep_view(),
{
    let r = v.clone();
    assert(r.deep_view() =~= v.deep_view());
    r
}

/// A new service with the given name and flag and no products or offerings.
pub fn create_cleaning_service(name: &str, eco_friendly: bool) -> (r: CleaningService)
    ensures
        r@ == (CleaningServiceView {
            name: name@,
            eco_friendly,
            cleaning_products: Seq::empty(),
            services_offered: Seq::empty(),
        }),
{
    let r = CleaningService {
        name: name.to_owned(),
        eco_friendly,
        cleaning_products: Vec::new(),
        services_offered: Vec::new(),
    };
    assert(r.cleaning_products.deep_view() =~= Seq::empty());
    assert(r.services_offered.deep_view() =~= Seq::empty());
    r
}

/// Appends a product to the service's product list.
pub fn add_cleaning_product(cleaning_service: &mut CleaningService, product_name: &str)
    ensures
        final(cleaning_service)@ == (CleaningServiceView {
            cleaning_products: old(cleaning_service)@.cleaning_products.push(product_name@),
            ..old(cleaning_service)@
        }),
{
    cleaning_service.cleaning_products.push(product_name.to_owned());
    assert(cleaning_service.cleaning_products.deep_view() =~= old(
        cleaning_service,
    )@.cleaning_products.push(product_name@));
}

/// Appends a service name to the offerings of the service.
pub fn add_service(cleaning_service: &mut CleaningService, service_name: &str)
    ensures
        final(cleaning_service)@ == (CleaningServiceView {
            services_offered: old(cleaning_service)@.services_offered.push(service_name@),
            ..old(cleaning_service)@
        }),
{
    cleaning_service.services_offered.push(service_name.to_owned());
    assert(cleaning_service.services_offered.deep_view() =~= old(
        cleaning_service,
    )@.services_offered.push(service_name@));
}

/// A new customer with no needs and a budget of 0.
pub fn create_customer(name: &str, address: &str) -> (r: Customer)
    ensures
        r@ == (CustomerView {
            name: name@,
            address: address@,
            cleaning_needs: Seq::empty(),
            budget: 0,
        }),
{
    let r = Customer {
        name: name.to_owned(),
        address: address.to_owned(),
        cleaning_needs: Vec::new(),
        budget: 0,
    };
    assert(r.cleaning_needs.deep_view() =~= Seq::empty());
    r
}

/// Appends a need, verbatim, to the customer's requested needs.
pub fn add_cleaning_need(customer: &mut Customer, cleaning_need: &str)
    ensures
        final(customer)@ == (CustomerView {
            cleaning_needs: old(customer)@.cleaning_needs.push(cleaning_need@),
            ..old(customer)@
        }),
{
    customer.cleaning_needs.push(cleaning_need.to_owned());
    assert(customer.cleaning_needs.deep_view() =~= old(customer)@.cleaning_needs.push(
        cleaning_need@,
    ));
}

/// Overwrites the customer's budget.
pub fn add_budget(customer: &mut Customer, budget: usize)
    ensures
        final(customer)@ == old(customer)@.with_budget(budget as nat),
{
    customer.budget = budget;
}

/// An order holding its own copies of the customer, the service and the
/// needs, with the given price.
pub fn create_order(
    customer: &Customer,
    cleaning_service: &CleaningService,
    cleaning_needs: &Vec<String>,
    price: usize,
) -> (r: Order)
    ensures
        r@ == OrderView::assemble(
            customer@,
            cleaning_service@,
            cleaning_needs.deep_view(),
            price as nat,
        ),
{
    let customer_copy = Customer {
        name: customer.name.clone(),
        address: customer.address.clone(),
        cleaning_needs: copy_texts(&customer.cleaning_needs),
        budget: customer.budget,
    };
    let service_copy = CleaningService {
        name: cleaning_service.name.clone(),
        eco_friendly: cleaning_service.eco_friendly,
        cleaning_products: copy_texts(&cleaning_service.cleaning_products),
        services_offered: copy_texts(&cleaning_service.services_offered),
    };
    Order {
        customer: customer_copy,
        cleaning_service: service_copy,
        cleaning_needs: copy_texts(cleaning_needs),
        price,
    }
}

} // verus!
