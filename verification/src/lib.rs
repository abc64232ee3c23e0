//! Generation of JSON encoders and decoders for the custom types of a Gleam
//! project, driven by directives in the comments of the declarations.
//!
//! The pipeline: the declarations of each parsed module become the types
//! that ask for code ([`source`], [`directives`]); the configuration of
//! each directory is laid over that of the project ([`config`]); the names
//! of all generated functions are fixed in a registry ([`registry`]); the
//! code of each type is generated ([`generator`], [`defaults`],
//! [`backend`]) and gathered into units by destination ([`project`],
//! [`output`]); and what is to be written where is planned ([`writer`]).

pub mod backend;
pub mod config;
pub mod defaults;
pub mod directives;
pub mod error;
pub mod generator;
pub mod imports;
pub mod manifest;
pub mod naming;
pub mod ordered;
pub mod output;
pub mod parser;
pub mod project;
pub mod registry;
pub mod source;
pub mod text;
pub mod writer;

pub use backend::{BackendRegistry, BackendSlot, EncoderBackend, JsonEncoderBackend};
pub use config::{
    AbsentFieldMode, Config, FieldNamingConvention, FnNamingConfig, FnNamingOverride, OutputConfig,
};
pub use error::GlossError;
pub use imports::{ImportEntry, ImportMap};
pub use manifest::Manifest;
pub use output::{GeneratedCode, TypeCode, UsedBackend};
pub use parser::{
    ConstructorInfo, CustomTypeInfo, EncoderType, FieldInfo, FieldMarker, FileConfig,
    OptionAvailability, OutputOverride, PathMode, TypeExpression,
};
pub use project::{generate_for_project, FileOutput, ProjectFile};
pub use source::{parse_gleam_files, ParsedFile, ParsedModule, SourceUnit};
