use eco_cleaning::entities::{
    add_budget, add_cleaning_need, add_cleaning_product, add_service, create_cleaning_service,
    create_customer, create_order,
};

#[test]
fn new_service_is_empty() {
    let service = create_cleaning_service("Eco-Friendly Cleaners", true);
    assert_eq!(service.name, "Eco-Friendly Cleaners");
    assert!(service.eco_friendly);
    assert!(service.cleaning_products.is_empty());
    assert!(service.services_offered.is_empty());
    let plain = create_cleaning_service("", false);
    assert_eq!(plain.name, "");
    assert!(!plain.eco_friendly);
}

#[test]
fn service_lists_keep_insertion_order_and_duplicates() {
    let mut service = create_cleaning_service("Eco-Friendly Cleaners", true);
    add_cleaning_product(&mut service, "Eco-Friendly Cleaning Solution");
    add_cleaning_product(&mut service, "Broom and Dustpan");
    add_cleaning_product(&mut service, "Broom and Dustpan");
    add_service(&mut service, "Carpet Cleaning");
    add_service(&mut service, "Window Cleaning");
    assert_eq!(
        service.cleaning_products,
        vec![
            "Eco-Friendly Cleaning Solution".to_string(),
            "Broom and Dustpan".to_string(),
            "Broom and Dustpan".to_string()
        ]
    );
    assert_eq!(
        service.services_offered,
        vec!["Carpet Cleaning".to_string(), "Window Cleaning".to_string()]
    );
    assert_eq!(service.name, "Eco-Friendly Cleaners");
}

#[test]
fn new_customer_has_no_needs_and_zero_budget() {
    let customer = create_customer("Jane Doe", "12 Elm Street");
    assert_eq!(customer.name, "Jane Doe");
    assert_eq!(customer.address, "12 Elm Street");
    assert!(customer.cleaning_needs.is_empty());
    assert_eq!(customer.budget, 0);
}

#[test]
fn customer_needs_are_kept_verbatim() {
    let mut customer = create_customer("Jane Doe", "12 Elm Street");
    add_cleaning_need(&mut customer, "Carpet Cleaning");
    add_cleaning_need(&mut customer, " roof ");
    assert_eq!(
        customer.cleaning_needs,
        vec!["Carpet Cleaning".to_string(), " roof ".to_string()]
    );
}

#[test]
fn budget_is_overwritten() {
    let mut customer = create_customer("Jane Doe", "12 Elm Street");
    add_budget(&mut customer, 500);
    assert_eq!(customer.budget, 500);
    add_budget(&mut customer, 20);
    assert_eq!(customer.budget, 20);
    assert_eq!(customer.name, "Jane Doe");
}

#[test]
fn order_keeps_its_copy_when_the_customer_changes() {
    let service = create_cleaning_service("S", true);
    let mut customer = create_customer("Jane Doe", "12 Elm Street");
    add_budget(&mut customer, 500);
    add_cleaning_need(&mut customer, "Carpet Cleaning");
    let needs = customer.cleaning_needs.clone();
    let order = create_order(&customer, &service, &needs, 0);
    add_budget(&mut customer, 7);
    add_cleaning_need(&mut customer, "Floor Cleaning");
    assert_eq!(customer.budget, 7);
    assert_eq!(order.customer.budget, 500);
    assert_eq!(order.customer.cleaning_needs, vec!["Carpet Cleaning".to_string()]);
}

#[test]
fn order_keeps_its_copy_when_the_service_changes() {
    let mut service = create_cleaning_service("S", true);
    add_service(&mut service, "Carpet Cleaning");
    let customer = create_customer("C", "A");
    let needs: Vec<String> = Vec::new();
    let order = create_order(&customer, &service, &needs, 3);
    add_service(&mut service, "Floor Cleaning");
    add_cleaning_product(&mut service, "Mop");
    assert_eq!(order.cleaning_service.services_offered, vec!["Carpet Cleaning".to_string()]);
    assert!(order.cleaning_service.cleaning_products.is_empty());
    assert_eq!(order.price, 3);
}

#[test]
fn order_needs_come_from_the_argument_not_the_customer() {
    let service = create_cleaning_service("S", true);
    let mut customer = create_customer("C", "A");
    add_cleaning_need(&mut customer, "Carpet Cleaning");
    let needs = vec!["Window Cleaning".to_string()];
    let order = create_order(&customer, &service, &needs, 0);
    assert_eq!(order.cleaning_needs, needs);
    assert_eq!(order.customer.cleaning_needs, vec!["Carpet Cleaning".to_string()]);
}
