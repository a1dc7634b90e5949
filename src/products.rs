//! A product's images, stored as one JSON array of texts.
use vstd::prelude::*;
use crate::permissions::{json_string_list, parse_string_list, views};

verus! {

#[verifier::external_type_specification]
#[verifier::external_body]
pub struct ExJsonError(serde_json::Error);

/// The JSON text that `serde_json::to_string` writes for an array of texts.
pub uninterp spec fn json_array_text(items: Seq<Seq<char>>) -> Seq<char>;

/// Relies on `serde_json::to_string` on a `Vec<String>`: it writes the JSON
/// array of the texts in order, a sequence of texts always serializes, and
/// `serde_json::from_str::<Vec<String>>` reads the same texts back.
#[verifier::external_body]
fn strings_to_json(items: &Vec<String>) -> (r: Result<String, serde_json::Error>)
    ensures
        r is Ok,
        r->Ok_0@ == json_array_text(views(items@)),
        json_string_list(r->Ok_0@) == Some(views(items@)),
{
    serde_json::to_string(items)
}

/// The stored form of an image list.
pub fn encode_images(images: &Vec<String>) -> (r: String)
    ensures
        r@ == json_array_text(views(images@)),
        json_string_list(r@) == Some(views(images@)),
{
    match strings_to_json(images) {
        Ok(text) => text,
        Err(_) => "[]".to_string(),
    }
}

/// The image list read back from its stored form; a text that is no JSON
/// array of texts reads as no images.
pub fn decode_images(stored: &str) -> (r: Vec<String>)
    ensures
        json_string_list(stored@) is Some ==> views(r@) == json_string_list(stored@)->0,
        json_string_list(stored@) is None ==> r@.len() == 0,
{
    match parse_string_list(stored) {
        Some(list) => list,
        None => Vec::new(),
    }
}

} // verus!
