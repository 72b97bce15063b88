//! Products, products with their owners, and the sort options of product lists.

use vstd::prelude::*;
use crate::entity::user::User;
use crate::shared::errors::error_enum::ErrorsEnum;
use crate::text::{
    str_views,
    ascii_lower,
    first_two_segments,
    lemma_ascii_lower_idempotent,
    lemma_ascii_lower_unchanged,
    lemma_segments_of_joined,
    no_capital,
    no_comma,
};

verus! {

/// A stored product. The price is held as the bit pattern of its IEEE-754
/// double (`f64::to_bits`); it is carried through unchanged and never computed on.
#[derive(Clone, Debug)]
pub struct Product {
    pub id: i64,
    pub name: String,
    pub price_bits: u64,
    pub userid: i64,
}

impl Product {
    /// The two products hold the same values.
    pub open spec fn same_as(self, other: Product) -> bool {
        self.id == other.id && self.name@ == other.name@ && self.price_bits == other.price_bits
            && self.userid == other.userid
    }

    /// A copy of the product.
    pub fn duplicate(&self) -> (p: Product)
        ensures
            p.same_as(*self),
            p.id == self.id,
            p.name@ == self.name@,
            p.price_bits == self.price_bits,
            p.userid == self.userid,
    {
        Product {
            id: self.id,
            name: crate::text::to_owned_string(self.name.as_str()),
            price_bits: self.price_bits,
            userid: self.userid,
        }
    }
}

/// Two products hold the same values exactly when their ids, names, prices
/// and owners agree.
pub proof fn lemma_same_product_values(a: Product, b: Product)
    ensures
        a.same_as(b) <==> (a.id == b.id && a.name@ == b.name@ && a.price_bits == b.price_bits && a.userid
            == b.userid),
{
}

/// A product together with the user who owns it.
pub struct ProductWithUser {
    pub product: Product,
    pub user: User,
}

impl ProductWithUser {
    pub fn from(product: Product, user: User) -> (p: ProductWithUser)
        ensures
            p.product == product,
            p.user == user,
    {
        ProductWithUser { product, user }
    }
}

/// A product to be inserted; its id is drawn from the id sequence.
pub struct NewProduct<'a> {
    pub id: Option<i64>,
    pub name: &'a str,
    pub price_bits: u64,
    pub userid: i64,
}

impl<'a> NewProduct<'a> {
    pub fn new(name: &'a str, price_bits: u64, userid: i64) -> (p: NewProduct<'a>)
        ensures
            p.id.is_none(),
            p.name == name,
            p.price_bits == price_bits,
            p.userid == userid,
    {
        NewProduct { id: None, name, price_bits, userid }
    }

    pub fn set_id(&mut self, new_id: i64)
        ensures
            final(self).id == Some(new_id),
            final(self).name == old(self).name,
            final(self).price_bits == old(self).price_bits,
            final(self).userid == old(self).userid,
    {
        self.id = Some(new_id);
    }
}

/// The new values of a stored product.
pub struct UpdateProduct<'a> {
    pub name: &'a str,
    pub price_bits: u64,
    pub userid: i64,
}

impl<'a> UpdateProduct<'a> {
    pub fn new(name: &'a str, price_bits: u64, userid: i64) -> (p: UpdateProduct<'a>)
        ensures
            p.name == name,
            p.price_bits == price_bits,
            p.userid == userid,
    {
        UpdateProduct { name, price_bits, userid }
    }
}

/* Sort options for products */

/// The order used when a sort names none.
pub const DEFAULT_SORT_ORDER: &'static str = "asc";

/// The field sorted by when none is given.
pub const DEFAULT_SORT_FIELD: &'static str = "id";

/// Ascending or descending order.
#[derive(Clone, Copy, Debug, PartialEq, Eq, Structural)]
pub enum OrderOptions {
    Asc,
    Desc,
}

/// The product fields a list can be sorted by.
#[derive(Clone, Copy, Debug, PartialEq, Eq, Structural)]
pub enum FieldOptions {
    Id,
    Name,
    Price,
    User,
}

/// The order named by an (already lower-cased) word.
pub open spec fn spec_order_from(s: Seq<char>) -> Option<OrderOptions> {
    if s == "asc"@ {
        Some(OrderOptions::Asc)
    } else if s == "desc"@ {
        Some(OrderOptions::Desc)
    } else {
        None
    }
}

/// The field named by an (already lower-cased) word.
pub open spec fn spec_field_from(s: Seq<char>) -> Option<FieldOptions> {
    if s == "id"@ {
        Some(FieldOptions::Id)
    } else if s == "name"@ {
        Some(FieldOptions::Name)
    } else if s == "price"@ {
        Some(FieldOptions::Price)
    } else if s == "user"@ {
        Some(FieldOptions::User)
    } else {
        None
    }
}

impl OrderOptions {
    /// The SQL keyword of the order.
    pub open spec fn spec_name(self) -> Seq<char> {
        match self {
            OrderOptions::Asc => "asc"@,
            OrderOptions::Desc => "desc"@,
        }
    }

    /// Reads an order, ignoring ASCII case.
    pub fn from_str(order: &str) -> (r: Option<OrderOptions>)
        ensures
            r == spec_order_from(ascii_lower(order@)),
    {
        let lower = crate::text::to_ascii_lowercase(order);
        if crate::text::chars_eq(&lower, &crate::text::chars_of("asc")) {
            Some(OrderOptions::Asc)
        } else if crate::text::chars_eq(&lower, &crate::text::chars_of("desc")) {
            Some(OrderOptions::Desc)
        } else {
            None
        }
    }

    pub fn to_string(&self) -> (s: String)
        ensures
            s@ == self.spec_name(),
    {
        match self {
            OrderOptions::Asc => crate::text::to_owned_string("asc"),
            OrderOptions::Desc => crate::text::to_owned_string("desc"),
        }
    }
}

impl FieldOptions {
    /// The column the field is stored in.
    pub open spec fn spec_sql_field(self) -> Seq<char> {
        match self {
            FieldOptions::Id => "id"@,
            FieldOptions::Name => "name"@,
            FieldOptions::Price => "price"@,
            FieldOptions::User => "userid"@,
        }
    }

    /// Reads a field, ignoring ASCII case.
    pub fn from_str(order: &str) -> (r: Option<FieldOptions>)
        ensures
            r == spec_field_from(ascii_lower(order@)),
    {
        let lower = crate::text::to_ascii_lowercase(order);
        if crate::text::chars_eq(&lower, &crate::text::chars_of("id")) {
            Some(FieldOptions::Id)
        } else if crate::text::chars_eq(&lower, &crate::text::chars_of("name")) {
            Some(FieldOptions::Name)
        } else if crate::text::chars_eq(&lower, &crate::text::chars_of("price")) {
            Some(FieldOptions::Price)
        } else if crate::text::chars_eq(&lower, &crate::text::chars_of("user")) {
            Some(FieldOptions::User)
        } else {
            None
        }
    }

    pub fn to_sql_fields(&self) -> (s: String)
        ensures
            s@ == self.spec_sql_field(),
    {
        match self {
            FieldOptions::Id => crate::text::to_owned_string("id"),
            FieldOptions::Name => crate::text::to_owned_string("name"),
            FieldOptions::Price => crate::text::to_owned_string("price"),
            FieldOptions::User => crate::text::to_owned_string("userid"),
        }
    }
}

/// One sort of a product list: a field and an order.
#[derive(Clone, Copy, Debug, PartialEq, Eq, Structural)]
pub struct ProductSort {
    pub field: FieldOptions,
    pub order: OrderOptions,
}

/// How the user field is named in a sort.
#[derive(Clone, Copy, Debug, PartialEq, Eq, Structural)]
pub enum UserFieldName {
    /// `user` (any case) names the user field.
    User,
    /// Exactly `userid` names the user field, and `user` is refused in any
    /// case.
    Userid,
}

/// The message of an unknown sort field.
pub open spec fn no_field_msg(field: Seq<char>) -> Seq<char> {
    "no field '"@ + field + "' found"@
}

/// The message of an unknown sort order.
pub open spec fn no_order_msg(order: Seq<char>) -> Seq<char> {
    "no order '"@ + order + "' found"@
}

/// The field a sort names, or the message it is refused with.
pub open spec fn spec_validate_field(field: Seq<char>, naming: UserFieldName) -> Result<FieldOptions, Seq<char>> {
    match naming {
        UserFieldName::User => match spec_field_from(ascii_lower(field)) {
            Some(f) => Ok(f),
            None => Err(no_field_msg(field)),
        },
        UserFieldName::Userid => if field == "userid"@ {
            Ok(FieldOptions::User)
        } else if ascii_lower(field) == "user"@ {
            Err(no_field_msg(field))
        } else {
            match spec_field_from(ascii_lower(field)) {
                Some(f) => Ok(f),
                None => Err(no_field_msg(field)),
            }
        },
    }
}

/// The order a sort names, or the message it is refused with.
pub open spec fn spec_validate_order(order: Seq<char>) -> Result<OrderOptions, Seq<char>> {
    match spec_order_from(ascii_lower(order)) {
        Some(o) => Ok(o),
        None => Err(no_order_msg(order)),
    }
}

/// A sort written as `field` or `field,order`: the order defaults to `asc`
/// and anything after a second comma is ignored.
pub open spec fn spec_parse_sort(sort: Seq<char>, naming: UserFieldName) -> Result<ProductSort, Seq<char>> {
    let field = first_two_segments(sort).0;
    let order = match first_two_segments(sort).1 {
        Some(o) => o,
        None => DEFAULT_SORT_ORDER@,
    };
    match spec_validate_field(field, naming) {
        Err(m) => Err(m),
        Ok(f) => match spec_validate_order(order) {
            Err(m) => Err(m),
            Ok(o) => Ok(ProductSort { field: f, order: o }),
        },
    }
}

/// Reading an order or a field ignores ASCII case: a text reads as its
/// lower-case form does.
pub proof fn lemma_reading_ignores_case(s: Seq<char>)
    ensures
        spec_order_from(ascii_lower(ascii_lower(s))) == spec_order_from(ascii_lower(s)),
        spec_field_from(ascii_lower(ascii_lower(s))) == spec_field_from(ascii_lower(s)),
{
    lemma_ascii_lower_idempotent(s);
}

proof fn lemma_names_facts()
    ensures
        no_capital("asc"@) && no_comma("asc"@),
        no_capital("desc"@) && no_comma("desc"@),
        no_capital("id"@) && no_comma("id"@),
        no_capital("name"@) && no_comma("name"@),
        no_capital("price"@) && no_comma("price"@),
        no_capital("userid"@) && no_comma("userid"@),
        "asc"@ != "desc"@,
        "id"@ != "name"@ && "id"@ != "price"@ && "name"@ != "price"@,
        "id"@ != "user"@ && "name"@ != "user"@ && "price"@ != "user"@,
        "id"@ != "userid"@ && "name"@ != "userid"@ && "price"@ != "userid"@,
{
    reveal_strlit("asc");
    reveal_strlit("desc");
    reveal_strlit("id");
    reveal_strlit("name");
    reveal_strlit("price");
    reveal_strlit("user");
    reveal_strlit("userid");
    assert("asc"@.len() != "desc"@.len());
    assert("id"@.len() != "name"@.len());
    assert("id"@.len() != "price"@.len());
    assert("name"@.len() != "price"@.len());
    assert("id"@.len() != "user"@.len());
    assert("name"@[0] != "user"@[0]);
    assert("price"@.len() != "user"@.len());
    assert("id"@.len() != "userid"@.len());
    assert("name"@.len() != "userid"@.len());
    assert("price"@.len() != "userid"@.len());
}

/// An order reads back from its name.
pub proof fn lemma_order_name_round_trip(o: OrderOptions)
    ensures
        spec_validate_order(o.spec_name()) == Ok::<OrderOptions, Seq<char>>(o),
{
    lemma_names_facts();
    lemma_ascii_lower_unchanged(o.spec_name());
}

/// A sort written as its column and its order joined by a comma reads back
/// as itself where `userid` names the user field; written as its column
/// alone it reads as the same field in ascending order.
pub proof fn lemma_sort_sql_round_trip(s: ProductSort)
    ensures
        spec_parse_sort(s.field.spec_sql_field() + seq![','] + s.order.spec_name(), UserFieldName::Userid)
            == Ok::<ProductSort, Seq<char>>(s),
        spec_parse_sort(s.field.spec_sql_field(), UserFieldName::Userid) == Ok::<ProductSort, Seq<char>>(
            ProductSort { field: s.field, order: OrderOptions::Asc },
        ),
{
    lemma_names_facts();
    let f = s.field.spec_sql_field();
    lemma_segments_of_joined(f, s.order.spec_name());
    lemma_ascii_lower_unchanged(f);
    lemma_order_name_round_trip(s.order);
    lemma_order_name_round_trip(OrderOptions::Asc);
    reveal_strlit("asc");
}

/// The two ways of naming the user field read every sort alike whose field
/// text is neither `user` (in any case) nor `userid`.
pub proof fn lemma_namings_agree(sort: Seq<char>)
    requires
        ascii_lower(first_two_segments(sort).0) != "user"@,
        first_two_segments(sort).0 != "userid"@,
    ensures
        spec_parse_sort(sort, UserFieldName::User) == spec_parse_sort(sort, UserFieldName::Userid),
{
}

/// A result of the service agrees with a specified outcome whose error is a
/// `NoPropertyError` with the given message.
pub open spec fn property_result_matches<T>(r: Result<T, ErrorsEnum>, s: Result<T, Seq<char>>) -> bool {
    match (r, s) {
        (Ok(a), Ok(b)) => a == b,
        (Err(ErrorsEnum::NoPropertyError(m)), Err(t)) => m@ == t,
        _ => false,
    }
}

fn no_property(prefix: &str, word: &str) -> (e: ErrorsEnum)
    ensures
        e matches ErrorsEnum::NoPropertyError(m) && m@ == prefix@ + word@ + "' found"@,
{
    let mut m = crate::text::to_owned_string(prefix);
    crate::text::push_str(&mut m, word);
    crate::text::push_str(&mut m, "' found");
    ErrorsEnum::NoPropertyError(m)
}

fn validate_field_where_user_valid(field: &str) -> (r: Result<FieldOptions, ErrorsEnum>)
    ensures
        property_result_matches(r, spec_validate_field(field@, UserFieldName::User)),
{
    match FieldOptions::from_str(field) {
        Some(f) => Ok(f),
        None => Err(no_property("no field '", field)),
    }
}

fn validate_field_where_userid_valid(field: &str) -> (r: Result<FieldOptions, ErrorsEnum>)
    ensures
        property_result_matches(r, spec_validate_field(field@, UserFieldName::Userid)),
{
    proof {
        lemma_names_facts();
    }
    if crate::text::str_eq(field, "userid") {
        // `userid` stands for the user field, which `user` names
        Ok(FieldOptions::User)
    } else if FieldOptions::from_str(field) == Some(FieldOptions::User) {
        // `user` names the user field only where `userid` does not
        Err(no_property("no field '", field))
    } else {
        match FieldOptions::from_str(field) {
            Some(f) => Ok(f),
            None => Err(no_property("no field '", field)),
        }
    }
}

fn validate_order(order: &str) -> (r: Result<OrderOptions, ErrorsEnum>)
    ensures
        property_result_matches(r, spec_validate_order(order@)),
{
    match OrderOptions::from_str(order) {
        Some(o) => Ok(o),
        None => Err(no_property("no order '", order)),
    }
}

impl ProductSort {
    /// Reads one sort.
    fn parse(sort: &str, naming: UserFieldName) -> (r: Result<ProductSort, ErrorsEnum>)
        ensures
            property_result_matches(r, spec_parse_sort(sort@, naming)),
    {
        let (field, order) = crate::text::split_first_two(sort);
        let field_s = crate::text::string_of(&field);
        let order_s = match order {
            Some(o) => crate::text::string_of(&o),
            None => crate::text::to_owned_string(DEFAULT_SORT_ORDER),
        };
        let f = match naming {
            UserFieldName::User => validate_field_where_user_valid(field_s.as_str()),
            UserFieldName::Userid => validate_field_where_userid_valid(field_s.as_str()),
        };
        match f {
            Err(e) => Err(e),
            Ok(f) => match validate_order(order_s.as_str()) {
                Err(e) => Err(e),
                Ok(o) => Ok(ProductSort { field: f, order: o }),
            },
        }
    }

    /// Reads the sorts of a product list where `user` names the user field.
    pub fn from_str_vec(sorts: Vec<&str>) -> (r: Result<Vec<ProductSort>, ErrorsEnum>)
        ensures
            spec_sorts_result(r, str_views(sorts@), UserFieldName::User),
    {
        ProductSort::from_str_internal(sorts, UserFieldName::User)
    }

    /// Reads the sorts of a category's product list, where `userid` names the
    /// user field.
    pub fn from_str_vec_product_category(sorts: Vec<&str>) -> (r: Result<Vec<ProductSort>, ErrorsEnum>)
        ensures
            spec_sorts_result(r, str_views(sorts@), UserFieldName::Userid),
    {
        ProductSort::from_str_internal(sorts, UserFieldName::Userid)
    }

    fn from_str_internal(sorts: Vec<&str>, naming: UserFieldName) -> (r: Result<Vec<ProductSort>, ErrorsEnum>)
        ensures
            spec_sorts_result(r, str_views(sorts@), naming),
    {
        let ghost texts = str_views(sorts@);
        let mut product_sorts: Vec<ProductSort> = Vec::new();
        let mut i: usize = 0;
        while i < sorts.len()
            invariant
                texts == str_views(sorts@),
                i <= sorts.len(),
                product_sorts@.len() == i,
                forall|j: int| 0 <= j < i ==> spec_parse_sort(#[trigger] texts[j], naming) == Ok::<
                    ProductSort,
                    Seq<char>,
                >(product_sorts@[j]),
            decreases sorts.len() - i,
        {
            match ProductSort::parse(sorts[i], naming) {
                Err(e) => {
                    assert(texts[i as int] == sorts@[i as int]@);
                    return Err(e);
                },
                Ok(s) => {
                    assert(texts[i as int] == sorts@[i as int]@);
                    product_sorts.push(s);
                },
            }
            i = i + 1;
        }
        Ok(product_sorts)
    }
}

/// The result of reading a list of sorts: every sort read, in order, or the
/// error of the first sort that cannot be read.
pub open spec fn spec_sorts_result(r: Result<Vec<ProductSort>, ErrorsEnum>, sorts: Seq<Seq<char>>, naming: UserFieldName) -> bool {
    match r {
        Ok(v) => v@.len() == sorts.len() && forall|j: int|
            0 <= j < sorts.len() ==> spec_parse_sort(#[trigger] sorts[j], naming) == Ok::<
                ProductSort,
                Seq<char>,
            >(v@[j]),
        Err(e) => exists|i: int|
            #![trigger sorts[i]]
            0 <= i < sorts.len() && (forall|j: int|
                0 <= j < i ==> (#[trigger] spec_parse_sort(sorts[j], naming)) is Ok) && match (
                e,
                spec_parse_sort(sorts[i], naming),
            ) {
                (ErrorsEnum::NoPropertyError(m), Err(t)) => m@ == t,
                _ => false,
            },
    }
}

/// The SQL text of one sort: the column and the order keyword.
pub open spec fn spec_sort_sql(s: ProductSort) -> Seq<char> {
    s.field.spec_sql_field() + " "@ + s.order.spec_name()
}

/// The SQL text of a list of sorts, joined by `, `.
pub open spec fn spec_sorts_sql(sorts: Seq<ProductSort>) -> Seq<char>
    decreases sorts.len(),
{
    if sorts.len() == 0 {
        Seq::empty()
    } else if sorts.len() == 1 {
        spec_sort_sql(sorts[0])
    } else {
        spec_sorts_sql(sorts.drop_last()) + ", "@ + spec_sort_sql(sorts.last())
    }
}

/// The SQL text of a sort names its column and then the order the sort
/// asks for: `asc` for ascending and `desc` for descending, whatever the
/// field. A further sort is appended after a comma and a space. Reading the
/// column and the order back (joined by a comma) gives the sort again.
pub proof fn lemma_sort_sql_text(sorts: Seq<ProductSort>, s: ProductSort)
    ensures
        spec_sorts_sql(seq![s]) == s.field.spec_sql_field() + seq![' '] + match s.order {
            OrderOptions::Asc => "asc"@,
            OrderOptions::Desc => "desc"@,
        },
        sorts.len() > 0 ==> spec_sorts_sql(sorts.push(s)) == spec_sorts_sql(sorts) + ", "@
            + spec_sorts_sql(seq![s]),
        spec_parse_sort(s.field.spec_sql_field() + seq![','] + s.order.spec_name(), UserFieldName::Userid)
            == Ok::<ProductSort, Seq<char>>(s),
{
    reveal_strlit(" ");
    assert(seq![s].len() == 1);
    assert(" "@ =~= seq![' ']);
    assert(sorts.push(s).drop_last() =~= sorts);
    lemma_sort_sql_round_trip(s);
}

/// The `ORDER BY` text of a list of sorts.
pub fn product_sorts_to_sql_string(sorts: Vec<ProductSort>) -> (s: String)
    ensures
        s@ == spec_sorts_sql(sorts@),
{
    let mut sql_string = String::new();
    let mut i: usize = 0;
    while i < sorts.len()
        invariant
            i <= sorts.len(),
            sql_string@ == spec_sorts_sql(sorts@.take(i as int)),
        decreases sorts.len() - i,
    {
        let ghost before = sql_string@;
        if i > 0 {
            crate::text::push_str(&mut sql_string, ", ");
        }
        let field = sorts[i].field.to_sql_fields();
        let order = sorts[i].order.to_string();
        crate::text::push_str(&mut sql_string, field.as_str());
        crate::text::push_char(&mut sql_string, ' ');
        crate::text::push_str(&mut sql_string, order.as_str());
        proof {
            let t = sorts@.take(i + 1 as int);
            assert(t.drop_last() =~= sorts@.take(i as int));
            assert(t.last() == sorts@[i as int]);
            reveal_strlit(" ");
            if i == 0 {
                assert(before =~= Seq::<char>::empty());
                assert(sql_string@ =~= spec_sort_sql(sorts@[i as int]));
            } else {
                assert(sql_string@ =~= before + ", "@ + spec_sort_sql(sorts@[i as int]));
            }
        }
        i = i + 1;
    }
    assert(sorts@.take(sorts.len() as int) =~= sorts@);
    sql_string
}

} // verus!
