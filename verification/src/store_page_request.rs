//! The inbound request that creates a page, and its validation.

use crate::error::Error;
use crate::validation::{
    aggregate, field_failures, grouped_fields, require_min_length, with_min_length, Failures,
};
use validator::ValidationErrors;
use vstd::prelude::*;

verus! {

/// A request to store a page.
#[derive(Debug, Clone, Default, PartialEq, Eq)]
pub struct StorePageRequest {
    pub name: String,
    pub identifier: String,
    pub component_content: Vec<ComponentContent>,
}

/// A free-form block of a page.
#[derive(Debug, Clone, Default, PartialEq, Eq)]
pub struct ComponentContent {
    pub id: String,
    pub name: String,
    pub identifier: String,
    pub content: String,
}

/// The failures of a page request with the given name and identifier: the
/// name and the identifier must each have at least one character.
pub open spec fn page_failures(name: Seq<char>, identifier: Seq<char>) -> Failures {
    with_min_length(
        with_min_length(Map::empty(), "name"@, name, 1, "The name is a required field."@),
        "identifier"@,
        identifier,
        1,
        "The identifier is a required field."@,
    )
}

impl StorePageRequest {
    /// Checks the request against its rules. The request passes where no
    /// rule fails; where one does, the failures come back by field name.
    pub fn validate(&self) -> (outcome: Result<(), ValidationErrors>)
        ensures
            outcome is Ok <==> self.name@.len() >= 1 && self.identifier@.len() >= 1,
            outcome matches Err(errors) ==> {
                &&& field_failures(errors) == page_failures(self.name@, self.identifier@)
                &&& grouped_fields(errors).is_empty()
            },
    {
        let mut errors = ValidationErrors::new();
        require_min_length(
            &mut errors,
            "name",
            self.name.as_str(),
            1,
            "The name is a required field.",
        );
        require_min_length(
            &mut errors,
            "identifier",
            self.identifier.as_str(),
            1,
            "The identifier is a required field.",
        );
        if errors.is_empty() {
            Ok(())
        } else {
            Err(errors)
        }
    }

    /// The failures of the request, by field name: none where it passes.
    /// This never fails: that the request is invalid is told by the
    /// collection that comes back, which then has an entry.
    pub fn validate_errors(&self) -> (collected: Result<ValidationErrors, Error>)
        ensures
            collected matches Ok(errors) && {
                &&& field_failures(errors) == page_failures(self.name@, self.identifier@)
                &&& grouped_fields(errors).is_empty()
                &&& field_failures(errors).dom().is_empty() <==> self.name@.len() >= 1
                    && self.identifier@.len() >= 1
            },
    {
        Ok(aggregate(self.validate()))
    }
}

} // verus!
