//! Swiss QR-bill slip generation: descriptor validation, QR payload encoding,
//! SVG rendering with the Swiss-cross overlay, and the decision logic of the
//! PDF rendering worker.

pub mod auth;
pub mod descriptor;
pub mod error;
pub mod iban_text;
pub mod model;
pub mod payload;
pub mod svg;
pub mod text;
pub mod validation;
pub mod worker;
