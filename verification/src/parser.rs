//! The declarations that generation works on, and the directives read from
//! the comments attached to them.

use crate::config::{copy_opt, FieldNamingConvention, FnNamingOverride};
use crate::text::{chars_of, opt_text, string_of_range};
use vstd::prelude::*;
use vstd::string::*;

verus! {

/// Output settings given by a file-level or type-level directive.
#[derive(Debug, Clone, Default)]
pub struct OutputOverride {
    /// Output directory, with its mode prefix.
    pub directory: Option<String>,
    /// Whether encoders and decoders go to different files.
    pub separate_encoder_decoder: Option<bool>,
    /// Pattern of the encoder file.
    pub encode_module_naming: Option<String>,
    /// Pattern of the decoder file.
    pub decode_module_naming: Option<String>,
    /// Pattern of the combined file.
    pub generated_file_naming: Option<String>,
}

/// The mathematical value of an [`OutputOverride`].
pub struct OutputOverrideView {
    pub directory: Option<Seq<char>>,
    pub separate_encoder_decoder: Option<bool>,
    pub encode_module_naming: Option<Seq<char>>,
    pub decode_module_naming: Option<Seq<char>>,
    pub generated_file_naming: Option<Seq<char>>,
}

impl View for OutputOverride {
    type V = OutputOverrideView;

    open spec fn view(&self) -> OutputOverrideView {
        OutputOverrideView {
            directory: opt_text(self.directory),
            separate_encoder_decoder: self.separate_encoder_decoder,
            encode_module_naming: opt_text(self.encode_module_naming),
            decode_module_naming: opt_text(self.decode_module_naming),
            generated_file_naming: opt_text(self.generated_file_naming),
        }
    }
}

/// What an output directory is relative to.
#[derive(Debug, Clone, Copy, PartialEq, Eq, Structural)]
pub enum PathMode {
    /// The directory of the source file.
    FileRelative,
    /// The project root.
    ProjectRelative,
}

/// `s` begins with the character `c`.
pub open spec fn begins_with(s: Seq<char>, c: char) -> bool {
    s.len() > 0 && s[0] == c
}

/// `s` begins with the characters `a`, `b`.
pub open spec fn begins_with_pair(s: Seq<char>, a: char, b: char) -> bool {
    s.len() > 1 && s[0] == a && s[1] == b
}

/// The mode that a directory string names by its own prefix: `@` or `/`
/// mean the project root, anything else the file's directory.
pub open spec fn prefix_mode(directory: Option<Seq<char>>) -> PathMode {
    match directory {
        Some(d) => if begins_with(d, '@') || begins_with(d, '/') {
            PathMode::ProjectRelative
        } else {
            PathMode::FileRelative
        },
        None => PathMode::FileRelative,
    }
}

/// A directory string without its mode prefix: `@/`, `@`, `/` or `./`,
/// taken off once.
pub open spec fn cleaned_directory(d: Seq<char>) -> Seq<char> {
    if begins_with_pair(d, '@', '/') {
        d.subrange(2, d.len() as int)
    } else if begins_with(d, '@') {
        d.subrange(1, d.len() as int)
    } else if begins_with(d, '/') {
        d.subrange(1, d.len() as int)
    } else if begins_with_pair(d, '.', '/') {
        d.subrange(2, d.len() as int)
    } else {
        d
    }
}

impl OutputOverride {
    /// A copy of these settings.
    pub fn duplicate(&self) -> (r: Self)
        ensures
            r@ == self@,
    {
        OutputOverride {
            directory: copy_opt(&self.directory),
            separate_encoder_decoder: self.separate_encoder_decoder,
            encode_module_naming: copy_opt(&self.encode_module_naming),
            decode_module_naming: copy_opt(&self.decode_module_naming),
            generated_file_naming: copy_opt(&self.generated_file_naming),
        }
    }

    /// The mode that the directory names by its prefix.
    pub fn path_mode(&self) -> (r: PathMode)
        ensures
            r == prefix_mode(self@.directory),
    {
        match &self.directory {
            Some(dir) => {
                let v = chars_of(dir.as_str());
                if v.len() > 0 && (v[0] == '@' || v[0] == '/') {
                    PathMode::ProjectRelative
                } else {
                    PathMode::FileRelative
                }
            },
            None => PathMode::FileRelative,
        }
    }

    /// The directory without its mode prefix.
    pub fn clean_directory(&self) -> (r: Option<String>)
        ensures
            opt_text(r) == match self@.directory {
                Some(d) => Some(cleaned_directory(d)),
                None => None,
            },
    {
        match &self.directory {
            Some(dir) => {
                let v = chars_of(dir.as_str());
                let n = v.len();
                let from: usize = if n > 1 && v[0] == '@' && v[1] == '/' {
                    2
                } else if n > 0 && v[0] == '@' {
                    1
                } else if n > 0 && v[0] == '/' {
                    1
                } else if n > 1 && v[0] == '.' && v[1] == '/' {
                    2
                } else {
                    0
                };
                assert(v@.subrange(0, n as int) =~= v@);
                Some(string_of_range(&v, from, n))
            },
            None => None,
        }
    }
}

/// A serialization target that encoders can be generated for.
#[derive(Debug, Clone, Copy, PartialEq, Eq, Hash, Structural)]
pub enum EncoderType {
    Json,
}

/// The identifier of a serialization target.
pub open spec fn identifier_text(encoder: EncoderType) -> Seq<char> {
    match encoder {
        EncoderType::Json => "json"@,
    }
}

impl EncoderType {
    /// The identifier under which the target appears in directives and in
    /// function names.
    pub fn identifier(self) -> (r: &'static str)
        ensures
            r@ == identifier_text(self),
    {
        match self {
            EncoderType::Json => "json",
        }
    }
}

/// Whether a field may be missing from the input, as its own marker says.
#[derive(Debug, Clone, Copy, PartialEq, Eq, Structural)]
pub enum FieldMarker {
    /// The field must be there: `must_exist`.
    Required,
    /// The field may be missing: `maybe_absent`.
    Optional,
    /// The configuration decides.
    Default,
}

/// The type of a field as it is written in the declaration.
#[derive(Debug)]
pub enum TypeExpression {
    /// A named type with the module it is taken from, where that is
    /// written or known, and its arguments.
    Constructor { module: Option<String>, name: String, arguments: Vec<TypeExpression> },
    Tuple(Vec<TypeExpression>),
    Function { arguments: Vec<TypeExpression>, return_type: Box<TypeExpression> },
    Var(String),
    Hole,
}

/// A copy of each type expression of `items`.
fn copy_expressions(items: &Vec<TypeExpression>) -> (r: Vec<TypeExpression>)
    ensures
        r@.len() == items@.len(),
    decreases items,
{
    let mut out: Vec<TypeExpression> = Vec::new();
    let mut i: usize = 0;
    while i < items.len()
        invariant
            i <= items@.len(),
            out@.len() == i,
        decreases items@.len() - i,
    {
        out.push(items[i].clone());
        i += 1;
    }
    out
}

impl Clone for TypeExpression {
    fn clone(&self) -> (r: Self)
        decreases self,
    {
        match self {
            TypeExpression::Constructor { module, name, arguments } => TypeExpression::Constructor {
                module: copy_opt(module),
                name: name.clone(),
                arguments: copy_expressions(arguments),
            },
            TypeExpression::Tuple(elements) => TypeExpression::Tuple(copy_expressions(elements)),
            TypeExpression::Function { arguments, return_type } => TypeExpression::Function {
                arguments: copy_expressions(arguments),
                return_type: Box::new((**return_type).clone()),
            },
            TypeExpression::Var(name) => TypeExpression::Var(name.clone()),
            TypeExpression::Hole => TypeExpression::Hole,
        }
    }
}

/// One field of a constructor.
#[derive(Debug, Clone)]
pub struct FieldInfo {
    /// The label, or a name that begins with `_unlabeled`.
    pub label: String,
    /// The type as text.
    pub type_: String,
    /// The type as structure.
    pub type_expr: TypeExpression,
    /// Whether the type is the option of `gleam/option`.
    pub is_option: bool,
    pub marker: FieldMarker,
    /// The JSON key, where a directive renames the field.
    pub custom_name: Option<String>,
    /// The decoder function, where a directive names one.
    pub decoder_with: Option<String>,
    /// The encoder function, where a directive names one.
    pub encoder_with: Option<String>,
}

/// One constructor of a custom type, with its fields in order.
#[derive(Debug, Clone)]
pub struct ConstructorInfo {
    pub name: String,
    pub fields: Vec<FieldInfo>,
}

/// How a module can write the option type of `gleam/option`.
#[derive(Debug, Clone, Default)]
pub struct OptionAvailability {
    /// Whether the bare name `Option` means that type.
    pub unqualified: bool,
    /// The aliases under which `gleam/option` is imported, in order.
    pub aliases: Vec<String>,
}

/// The mathematical value of an [`OptionAvailability`].
pub struct OptionAvailabilityView {
    pub unqualified: bool,
    pub aliases: Seq<Seq<char>>,
}

impl View for OptionAvailability {
    type V = OptionAvailabilityView;

    open spec fn view(&self) -> OptionAvailabilityView {
        OptionAvailabilityView {
            unqualified: self.unqualified,
            aliases: crate::text::texts(self.aliases@),
        }
    }
}

/// The directives that apply to every type of a file.
#[derive(Debug, Clone, Default)]
pub struct FileConfig {
    pub output_override: Option<OutputOverride>,
    pub unknown_variant_message: Option<String>,
    pub fn_naming_override: Option<FnNamingOverride>,
}

/// A custom type for which code is generated, with its directives.
#[derive(Debug, Clone)]
pub struct CustomTypeInfo {
    pub name: String,
    pub constructors: Vec<ConstructorInfo>,
    /// The backends for which an encoder is asked.
    pub encoders: Vec<EncoderType>,
    pub generate_decoder: bool,
    pub field_naming_strategy: Option<FieldNamingConvention>,
    /// The last segment of the module's path.
    pub module_name: String,
    /// The module's path below the source directory, without extension.
    pub module: String,
    /// The discriminant key, where a directive names one.
    pub type_tag_field: Option<String>,
    /// Whether a directive turns the discriminant off.
    pub disable_type_tag: bool,
    pub output_override: Option<OutputOverride>,
    pub unknown_variant_message: Option<String>,
    pub fn_naming_override: Option<FnNamingOverride>,
    pub option_availability: OptionAvailability,
}

/// The view of an optional output directive.
pub open spec fn opt_output(o: Option<OutputOverride>) -> Option<OutputOverrideView> {
    match o {
        Some(x) => Some(x@),
        None => None,
    }
}

/// The view of an optional function-naming directive.
pub open spec fn opt_fn_naming(o: Option<FnNamingOverride>) -> Option<
    crate::config::FnNamingOverrideView,
> {
    match o {
        Some(x) => Some(x@),
        None => None,
    }
}

} // verus!
