//! An in-process store of user records with create/read/update/delete
//! operations, the uniform response envelope its request handlers wrap
//! every result in, and two small self-contained exercises: a point
//! reflection and a product-category enumeration.

pub mod handler;
pub mod laws;
pub mod point;
pub mod product;
pub mod response;
pub mod storage;
pub mod user;
