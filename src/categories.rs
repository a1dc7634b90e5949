//! Rules of the category service. Names are unique and compared exactly,
//! case included: "Electronics" and "electronics" are two names.
use vstd::prelude::*;
use crate::errors::ServiceError;
use crate::models::CreateCategoryRequest;
use crate::permissions::{contains_str, views};

verus! {

/// The row to insert for a new category.
#[derive(Debug, Clone)]
pub struct NewCategory {
    pub name: String,
    pub parent_id: Option<i64>,
    pub sort_order: i32,
}

/// Refuses a name that an existing category already has.
pub fn check_category_name(existing_names: &Vec<String>, name: &str) -> (r: Result<(), ServiceError>)
    ensures
        r is Ok <==> !views(existing_names@).contains(name@),
        r is Err ==> r->Err_0 is Validation,
{
    if contains_str(existing_names, name) {
        Err(ServiceError::Validation("分类名已存在".to_string()))
    } else {
        Ok(())
    }
}

/// A new category from a request, given the names already in use; without a
/// sort order it sorts first, at 0.
pub fn validate_new_category(existing_names: &Vec<String>, request: &CreateCategoryRequest) -> (r: Result<NewCategory, ServiceError>)
    ensures
        r is Ok <==> !views(existing_names@).contains(request.name@),
        r is Err ==> r->Err_0 is Validation,
        r is Ok ==> {
            &&& r->Ok_0.name@ == request.name@
            &&& r->Ok_0.parent_id == request.parent_id
            &&& r->Ok_0.sort_order == match request.sort_order {
                Some(v) => v,
                None => 0,
            }
        },
{
    check_category_name(existing_names, request.name.as_str())?;
    let sort_order: i32 = match request.sort_order {
        Some(v) => v,
        None => 0,
    };
    Ok(NewCategory { name: request.name.clone(), parent_id: request.parent_id, sort_order })
}

/// A category and its parent, as stored.
#[derive(Debug, Clone, Copy, PartialEq, Eq, Structural)]
pub struct CategoryLink {
    pub id: i64,
    pub parent_id: Option<i64>,
}

pub open spec fn is_top_level(links: Seq<CategoryLink>, id: i64) -> bool {
    exists|i: int| 0 <= i < links.len() && (#[trigger] links[i]).id == id && links[i].parent_id is None
}

/// Categories nest one level deep: a parent must be an existing top-level
/// category other than the category itself, so no chain of parents can loop.
pub fn check_parent(links: &Vec<CategoryLink>, id: Option<i64>, parent_id: Option<i64>) -> (r: Result<(), ServiceError>)
    ensures
        r is Ok <==> match parent_id {
            None => true,
            Some(p) => id != Some(p) && is_top_level(links@, p),
        },
        r is Err ==> r->Err_0 is Validation,
{
    let p = match parent_id {
        None => return Ok(()),
        Some(p) => p,
    };
    if let Some(own) = id {
        if own == p {
            return Err(ServiceError::Validation("a category cannot be its own parent".to_string()));
        }
    }
    let mut i: usize = 0;
    while i < links.len()
        invariant
            0 <= i <= links.len(),
            parent_id == Some(p),
            id != Some(p),
            forall|j: int| 0 <= j < i ==> !((#[trigger] links@[j]).id == p && links@[j].parent_id is None),
        decreases links.len() - i,
    {
        if links[i].id == p && links[i].parent_id.is_none() {
            assert(links@[i as int].id == p);
            return Ok(());
        }
        i = i + 1;
    }
    Err(ServiceError::Validation("the parent must be an existing top-level category".to_string()))
}

} // verus!
