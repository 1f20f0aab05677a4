//! Validation of a user-upload form: a multipart request carrying an image
//! under `avatar` and a JSON record under `data` is checked against a field
//! schema and turned into a [`NewUser`], or rejected with a typed reason.

pub mod form;
pub mod intake;
pub mod json;
pub mod laws;
pub mod media;
pub mod part;
pub mod pipeline;
pub mod rejection;
pub mod respond;
pub mod schema;
pub mod text;
pub mod user;
