//! Multipart form ingestion, file validation and HTTP adapter rules.
pub mod content_disposition;
pub mod contract;
pub mod data_input;
pub mod error;
pub mod field_map;
pub mod file_input;
pub mod file_validator;
pub mod helpers;
pub mod http;
pub mod multipart;
pub mod outside;
pub mod result;
pub mod sealed;
pub mod setup;
pub mod text;

pub use content_disposition::{ContentDisposition, ContentDispositionParseResult};
pub use contract::{PostParseable, PostParseableFromStr};
pub use data_input::DataInput;
pub use error::{AppFailure, AppNotice, AppResult, Blocking, HttpError};
pub use field_map::FieldMap;
pub use file_input::FileInput;
pub use file_validator::{ErrorMessage, FileRules, InputError, Validator};
pub use multipart::{Multipart, RawPart};
pub use result::{MultipartError, MultipartResult};
pub use sealed::Sealed;
pub use setup::state::FoxtiveNtexState;
