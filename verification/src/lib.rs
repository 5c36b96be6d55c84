//! Faceted objects: one fixed core payload plus at most one facet of each
//! type, attached at run time and reached by its static type.
//!
//! Reading a facet takes the object by shared reference and changing one
//! takes it by exclusive reference: any number of readers, or one writer,
//! at a time. A caller that shares an object between threads keeps it behind
//! a reader-writer lock.

pub mod account;
pub mod audit;
pub mod employee;
pub mod error;
pub mod keyed;
pub mod laws;
pub mod object;
pub mod operations;
pub mod payload;
pub mod permission;
pub mod text;

pub use account::AccountFacet;
pub use audit::AuditEntry;
pub use audit::AuditFacet;
pub use employee::Employee;
pub use error::FacetError;
pub use error::LedgerError;
pub use error::OperationError;
pub use object::FacetedObject;
pub use operations::EmployeeOperations;
pub use payload::Erased;
pub use payload::Facet;
pub use payload::Payload;
pub use payload::TypeTag;
pub use permission::PermissionFacet;
