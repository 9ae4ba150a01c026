//! The metadata document of a token, in the marketplace's shape.

use vstd::prelude::*;
use vstd::string::StringExecFns;

verus! {

/// The metadata document that is uploaded for a token.
#[derive(Debug)]
pub struct Metadata {
    pub name: String,
    pub description: String,
    pub image: String,
}

impl Clone for Metadata {
    fn clone(&self) -> (copy: Self)
        ensures
            copy == *self,
    {
        Metadata {
            name: self.name.clone(),
            description: self.description.clone(),
            image: self.image.clone(),
        }
    }
}

impl Metadata {
    /// The document with the given name, description and image location.
    pub fn new(name: &str, description: &str, image_url: &str) -> (metadata: Self)
        ensures
            metadata.name@ == name@,
            metadata.description@ == description@,
            metadata.image@ == image_url@,
    {
        Metadata {
            name: String::from_str(name),
            description: String::from_str(description),
            image: String::from_str(image_url),
        }
    }
}

} // verus!
