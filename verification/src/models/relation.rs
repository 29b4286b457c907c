//! The relational entities that a forest is mapped to.
pub mod api_response;
pub mod fact;
pub mod family;
pub mod person;

pub use self::api_response::ApiResponse;
pub use self::fact::{Birth, BirthBuilder, FactTypeId, Name, NameBuilder, Place};
pub use self::family::{Child, Family, FamilyBuilder};
pub use self::person::{Gender, Person, PersonBuilder};
