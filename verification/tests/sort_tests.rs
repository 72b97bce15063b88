use e_commerce::entity::product::ProductSort as SingleSort;
use e_commerce::shared::entity::product::{
    product_sorts_to_sql_string, FieldOptions, OrderOptions, ProductSort, DEFAULT_SORT_FIELD,
    DEFAULT_SORT_ORDER,
};
use e_commerce::shared::errors::error_enum::ErrorsEnum;

fn sort(field: FieldOptions, order: OrderOptions) -> ProductSort {
    ProductSort { field, order }
}

#[test]
fn order_options_ignore_case() {
    assert_eq!(OrderOptions::from_str("asc"), Some(OrderOptions::Asc));
    assert_eq!(OrderOptions::from_str("DESC"), Some(OrderOptions::Desc));
    assert_eq!(OrderOptions::from_str("DeSc"), Some(OrderOptions::Desc));
    assert_eq!(OrderOptions::from_str("descending"), None);
    assert_eq!(OrderOptions::from_str(""), None);
}

#[test]
fn field_options_ignore_case() {
    assert_eq!(FieldOptions::from_str("ID"), Some(FieldOptions::Id));
    assert_eq!(FieldOptions::from_str("Name"), Some(FieldOptions::Name));
    assert_eq!(FieldOptions::from_str("price"), Some(FieldOptions::Price));
    assert_eq!(FieldOptions::from_str("USER"), Some(FieldOptions::User));
    assert_eq!(FieldOptions::from_str("userid"), None);
    assert_eq!(FieldOptions::from_str("colour"), None);
}

#[test]
fn names_of_orders_and_columns() {
    assert_eq!(OrderOptions::Asc.to_string(), "asc");
    assert_eq!(OrderOptions::Desc.to_string(), "desc");
    assert_eq!(FieldOptions::Id.to_sql_fields(), "id");
    assert_eq!(FieldOptions::Name.to_sql_fields(), "name");
    assert_eq!(FieldOptions::Price.to_sql_fields(), "price");
    assert_eq!(FieldOptions::User.to_sql_fields(), "userid");
    assert_eq!(DEFAULT_SORT_ORDER, "asc");
    assert_eq!(DEFAULT_SORT_FIELD, "id");
}

#[test]
fn order_name_reads_back() {
    for o in [OrderOptions::Asc, OrderOptions::Desc] {
        assert_eq!(OrderOptions::from_str(o.to_string().as_str()), Some(o));
    }
}

#[test]
fn sorts_of_product_lists() {
    let r = ProductSort::from_str_vec(vec!["name,DESC", "user", "Price,asc,ignored"]).unwrap();
    assert_eq!(
        r,
        vec![
            sort(FieldOptions::Name, OrderOptions::Desc),
            sort(FieldOptions::User, OrderOptions::Asc),
            sort(FieldOptions::Price, OrderOptions::Asc),
        ]
    );
    assert_eq!(ProductSort::from_str_vec(vec![]).unwrap(), vec![]);
}

#[test]
fn unknown_field_is_refused_with_its_name() {
    let r = ProductSort::from_str_vec(vec!["id", "colour,asc", "size,up"]);
    assert_eq!(r, Err(ErrorsEnum::NoPropertyError("no field 'colour' found".to_string())));
    let r = ProductSort::from_str_vec(vec!["userid"]);
    assert_eq!(r, Err(ErrorsEnum::NoPropertyError("no field 'userid' found".to_string())));
}

#[test]
fn unknown_order_is_refused_with_its_name() {
    let r = ProductSort::from_str_vec(vec!["id,up"]);
    assert_eq!(r, Err(ErrorsEnum::NoPropertyError("no order 'up' found".to_string())));
    let r = ProductSort::from_str_vec(vec!["id,"]);
    assert_eq!(r, Err(ErrorsEnum::NoPropertyError("no order '' found".to_string())));
}

#[test]
fn category_product_sorts_name_the_user_field_userid() {
    let r = ProductSort::from_str_vec_product_category(vec!["userid,desc", "ID"]).unwrap();
    assert_eq!(
        r,
        vec![sort(FieldOptions::User, OrderOptions::Desc), sort(FieldOptions::Id, OrderOptions::Asc)]
    );
    let r = ProductSort::from_str_vec_product_category(vec!["user"]);
    assert_eq!(r, Err(ErrorsEnum::NoPropertyError("no field 'user' found".to_string())));
    // `user` is refused there in any case
    let r = ProductSort::from_str_vec_product_category(vec!["User"]);
    assert_eq!(r, Err(ErrorsEnum::NoPropertyError("no field 'User' found".to_string())));
    let r = ProductSort::from_str_vec_product_category(vec!["id", "USER,desc"]);
    assert_eq!(r, Err(ErrorsEnum::NoPropertyError("no field 'USER' found".to_string())));
    let r = ProductSort::from_str_vec_product_category(vec!["userid,asc"]).unwrap();
    assert_eq!(product_sorts_to_sql_string(r), "userid asc");
    // only the exact lower-case word names the user field there
    let r = ProductSort::from_str_vec_product_category(vec!["USERID"]);
    assert_eq!(r, Err(ErrorsEnum::NoPropertyError("no field 'USERID' found".to_string())));
}

#[test]
fn namings_agree_on_other_fields() {
    for text in ["name,desc", "PRICE", "id,ASC", "colour", "id,up"] {
        assert_eq!(
            ProductSort::from_str_vec(vec![text]),
            ProductSort::from_str_vec_product_category(vec![text])
        );
    }
}

#[test]
fn sql_text_of_sorts() {
    let sorts = vec![
        sort(FieldOptions::User, OrderOptions::Desc),
        sort(FieldOptions::Name, OrderOptions::Asc),
    ];
    assert_eq!(product_sorts_to_sql_string(sorts), "userid desc, name asc");
    assert_eq!(product_sorts_to_sql_string(vec![]), "");
    assert_eq!(product_sorts_to_sql_string(vec![sort(FieldOptions::Price, OrderOptions::Asc)]), "price asc");
}

#[test]
fn sql_names_read_back_as_the_sort() {
    for field in [FieldOptions::Id, FieldOptions::Name, FieldOptions::Price, FieldOptions::User] {
        for order in [OrderOptions::Asc, OrderOptions::Desc] {
            let text = format!("{},{}", field.to_sql_fields(), order.to_string());
            let r = ProductSort::from_str_vec_product_category(vec![text.as_str()]).unwrap();
            assert_eq!(r, vec![sort(field, order)]);
        }
        let text = field.to_sql_fields();
        let r = ProductSort::from_str_vec_product_category(vec![text.as_str()]).unwrap();
        assert_eq!(r, vec![sort(field, OrderOptions::Asc)]);
    }
}

#[test]
fn single_sort_with_exact_names() {
    let s = SingleSort::from_str("user,desc").unwrap();
    assert_eq!((s.field.as_str(), s.order.as_str()), ("userid", "desc"));
    let s = SingleSort::from_str("price").unwrap();
    assert_eq!((s.field.as_str(), s.order.as_str()), ("price", "asc"));
    assert_eq!(
        SingleSort::from_str("Name,asc").err(),
        Some(ErrorsEnum::NoPropertyError("no property 'Name' found".to_string()))
    );
    assert_eq!(
        SingleSort::from_str("name,DESC").err(),
        Some(ErrorsEnum::NoPropertyError("no order 'DESC' found".to_string()))
    );
}
