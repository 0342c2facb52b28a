//! Typed schema, parser, validator, compressor and discovery rules for FAF
//! project-context documents.
//!
//! A document is YAML text. [`parse`] reads it into a [`FafFile`],
//! [`validate`] reports what it lacks and scores its completeness,
//! [`compress`] gives a reduced view of it, and [`parser::stringify`] writes it
//! back.
//! [`find_faf_file`] holds the rules by which a project's FAF file is found
//! among a directory and its ancestors.

pub mod compress;
pub mod decode;
pub mod discovery;
pub mod encode;
pub mod parser;
pub mod round_trip;
pub mod string_map;
pub mod text;
pub mod types;
pub mod validator;
pub mod yaml;
pub mod yaml_text;

pub use compress::{compress, estimate_tokens, CompressionLevel};
pub use decode::decode_document;
pub use discovery::{
    find_and_parse, find_faf_file, next_step, DirListing, FafName, FindError, FoundFile, Located,
    Step, MAX_DEPTH,
};
pub use encode::encode_document;
pub use parser::{parse, parse_file, parse_score, FafError, FafFile};
pub use string_map::StringMap;
pub use types::{
    ContextQuality, FafData, HumanContext, InstantContext, Preferences, Project, Stack, State,
};
pub use validator::{calculate_score, validate, ValidationResult};
pub use yaml::YamlNode;
