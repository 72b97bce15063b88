//! The database queries and outside calls that service operations ask for,
//! their answers, and what an operation asks for next.

use vstd::prelude::*;
use crate::api::controller::pagination_helper::Pagination;
use crate::entity::category::{Category, NewCategory, UpdateCategory};
use crate::entity::product_category_relation::ProductCategoryRelation;
use crate::entity::user::User;
use crate::errors::token_error::TokenGenerationError;
use crate::security::role::Role;
use crate::shared::entity::product::{NewProduct, Product, ProductWithUser, UpdateProduct};
use crate::shared::errors::error_enum::{ErrorView, ErrorsEnum};

verus! {

/// Why a database statement failed.
pub enum DbError {
    /// No row matched.
    NotFound,
    /// Any other failure, with the database's description of it.
    Other(String),
}

/// A database query or outside call an operation asks for.
pub enum Query<'a> {
    /// The category with the id.
    CategoryById(i64),
    /// Every category.
    AllCategories,
    /// Insert the category with an id drawn from the id sequence.
    InsertCategory(NewCategory<'a>),
    /// Store new values of the category with the id.
    UpdateCategory(UpdateCategory<'a>, i64),
    /// Store `subcategory` with its parent set to `parentid`.
    SetParent { subcategory: Category, parentid: Option<i64> },
    /// Delete the category with the id.
    DeleteCategory(i64),
    /// The subcategories of the category with the id, which must exist.
    Subcategories(i64),
    /// The categories the product with the id belongs to.
    CategoriesForProduct(i64),
    /// The product with the id.
    ProductById(i64),
    /// The product with the id and its owner.
    ProductWithUserById(i64),
    /// A page of products with their owners, and the number of products.
    ProductsWithUsers(&'a Pagination),
    /// A page of the products of the category with the id and of its direct
    /// subcategories, with their owners, and the number of products.
    ProductsForCategory(&'a Pagination, i64),
    /// Insert the product with an id drawn from the id sequence; answer it with
    /// its owner.
    InsertProductWithUser(NewProduct<'a>),
    /// Store new values of the product with the id; answer it with its owner.
    UpdateProductWithUser(UpdateProduct<'a>, i64),
    /// Delete the product with the id.
    DeleteProduct(i64),
    /// The relation of the product (second id) to the category (first id).
    RelationOf(i64, i64),
    /// Insert the relation.
    AddRelation(ProductCategoryRelation),
    /// Delete the relation.
    RemoveRelation(ProductCategoryRelation),
    /// The user with the id.
    UserById(i64),
    /// The user with the name.
    UserByUsername(&'a str),
    /// Convert a price (bits of a double) given in the currency into euros.
    ConvertToEuro(&'a str, u64),
    /// Issue a token for the user with the id, name and role.
    GenerateToken(i64, String, Role),
}

/// The row a query stores in the category table, for the queries that store
/// one given category: `SetParent` stores the subcategory with its parent
/// replaced.
pub open spec fn written_category(q: Query) -> Option<Category> {
    match q {
        Query::SetParent { subcategory, parentid } => Some(
            Category { id: subcategory.id, name: subcategory.name, parentid },
        ),
        _ => None,
    }
}

/// The answer to a query.
pub enum Reply {
    Category(Result<Category, DbError>),
    Categories(Result<Vec<Category>, DbError>),
    Count(Result<usize, DbError>),
    Product(Result<Product, DbError>),
    ProductWithUser(Result<ProductWithUser, DbError>),
    ProductPage(Result<(Vec<ProductWithUser>, i64), DbError>),
    Relation(Result<ProductCategoryRelation, DbError>),
    User(Result<User, DbError>),
    Converted(Result<u64, ErrorsEnum>),
    Token(Result<String, TokenGenerationError>),
}

/// Whether a reply is of the kind that answers a query.
pub open spec fn answers(q: Query, r: Reply) -> bool {
    match q {
        Query::CategoryById(_) => r is Category,
        Query::AllCategories => r is Categories,
        Query::InsertCategory(_) => r is Category,
        Query::UpdateCategory(_, _) => r is Category,
        Query::SetParent { .. } => r is Category,
        Query::DeleteCategory(_) => r is Count,
        Query::Subcategories(_) => r is Categories,
        Query::CategoriesForProduct(_) => r is Categories,
        Query::ProductById(_) => r is Product,
        Query::ProductWithUserById(_) => r is ProductWithUser,
        Query::ProductsWithUsers(_) => r is ProductPage,
        Query::ProductsForCategory(_, _) => r is ProductPage,
        Query::InsertProductWithUser(_) => r is ProductWithUser,
        Query::UpdateProductWithUser(_, _) => r is ProductWithUser,
        Query::DeleteProduct(_) => r is Count,
        Query::RelationOf(_, _) => r is Relation,
        Query::AddRelation(_) => r is Relation,
        Query::RemoveRelation(_) => r is Count,
        Query::UserById(_) => r is User,
        Query::UserByUsername(_) => r is User,
        Query::ConvertToEuro(_, _) => r is Converted,
        Query::GenerateToken(_, _, _) => r is Token,
    }
}

/// What an operation asks for next: a query, or nothing more since it is
/// done with its result.
pub enum Action<'a, T> {
    Run(Query<'a>),
    Done(Result<T, ErrorsEnum>),
}

/// The action ends the operation with the error.
pub open spec fn fails_with<T>(a: Action<'_, T>, e: ErrorView) -> bool {
    a matches Action::Done(Err(err)) && err@ == e
}

/// The action ends the operation with the value.
pub open spec fn succeeds_with<T>(a: Action<'_, T>, v: T) -> bool {
    a matches Action::Done(Ok(x)) && x == v
}

/// The operation keeps pace with its driver: after asking for a query it
/// accepts exactly the replies that answer that query, and once it is done it
/// accepts none.
pub open spec fn keeps_pace<T>(a: Action<'_, T>, awaits: spec_fn(Reply) -> bool) -> bool {
    match a {
        Action::Run(q) => forall|rep: Reply| #[trigger] awaits(rep) == answers(q, rep),
        Action::Done(_) => forall|rep: Reply| !#[trigger] awaits(rep),
    }
}

} // verus!
