//! The generator of decoders and encoders: the layout that a type's shape
//! asks for, the codec of each field, and the text of the functions.

use crate::backend::{pairs, EncoderBackend};
use crate::config::{AbsentFieldMode, Config, ConfigView, FieldNamingConvention};
use crate::parser::{identifier_text, EncoderType};
use crate::registry::{
    distinct_backends, encoder_fn_name, encoder_fn_name_text, lookup_name, name_for, unique_backends,
};
use crate::defaults::{default_value, default_value_for_type, TypeLookup};
use crate::naming::rendered_fn_pattern;
use crate::parser::CustomTypeInfo;
use crate::error::GlossError;
use crate::imports::{ensure_import, import_alias, with_import, ImportEntryView, ImportMap};
use crate::naming::{camel_case, snake_case, to_camel_case, to_snake_case};
use crate::ordered::{sort_distinct, sorted_distinct};
use crate::parser::{ConstructorInfo, FieldInfo, FieldMarker, TypeExpression};
use crate::registry::{find_type_entry, found_entry, TypeRegistry, TypeRegistryEntryView};
use crate::text::{
    chars_of, join, joined, last_separator_end, opt_text, replace, replaced, same_text,
    segment_start, spaces, string_of_range, texts, trim, trim_range, trimmed,
};
use vstd::prelude::*;
use vstd::string::*;

verus! {

/// The data layout of a type.
#[derive(Debug, Clone, Copy, PartialEq, Eq, Structural)]
pub enum EncodingMode {
    /// A bare tag string.
    PlainString,
    /// An object whose first entry names the constructor.
    ObjectWithTypeTag,
    /// An object of the fields alone.
    ObjectWithNoTypeTag,
}

/// No constructor carries a field.
pub open spec fn all_fieldless(constructors: Seq<ConstructorInfo>) -> bool {
    forall|i: int| 0 <= i < constructors.len() ==> (#[trigger] constructors[i]).fields@.len() == 0
}

/// The layout that a type's constructors and its tag directive ask for: a
/// plain string where no constructor carries a field; else an object
/// without tag where the tag is turned off or there is one constructor;
/// else an object with tag.
pub open spec fn encoding_mode(constructors: Seq<ConstructorInfo>, disable_type_tag: bool) -> EncodingMode {
    if all_fieldless(constructors) {
        EncodingMode::PlainString
    } else if disable_type_tag || constructors.len() == 1 {
        EncodingMode::ObjectWithNoTypeTag
    } else {
        EncodingMode::ObjectWithTypeTag
    }
}

/// Decides the data layout of a type.
pub fn determine_encoding_mode(constructors: &Vec<ConstructorInfo>, disable_type_tag: bool) -> (r:
    EncodingMode)
    ensures
        r == encoding_mode(constructors@, disable_type_tag),
{
    let mut i: usize = 0;
    while i < constructors.len()
        invariant
            i <= constructors@.len(),
            forall|k: int| 0 <= k < i ==> (#[trigger] constructors@[k]).fields@.len() == 0,
        decreases constructors@.len() - i,
    {
        if constructors[i].fields.len() > 0 {
            return if disable_type_tag || constructors.len() == 1 {
                EncodingMode::ObjectWithNoTypeTag
            } else {
                EncodingMode::ObjectWithTypeTag
            };
        }
        i += 1;
    }
    EncodingMode::PlainString
}

/// The imports gathered so far, and whether the option helpers are needed.
pub struct GenState {
    pub imports: Seq<ImportEntryView>,
    pub uses_option: bool,
}

/// The expression of a codec or the message of the failure, with the
/// imports that deriving it has left.
pub struct Codec {
    pub result: Result<Seq<char>, Seq<char>>,
    pub imports: Seq<ImportEntryView>,
}

/// A piece of generated text or the message of the failure, with the state
/// that generation has reached.
pub struct Outcome {
    pub result: Result<Seq<char>, Seq<char>>,
    pub state: GenState,
}

/// Several pieces of generated text or the message of the failure.
pub struct Lines {
    pub result: Result<Seq<Seq<char>>, Seq<char>>,
    pub state: GenState,
}

/// `tail` with the lines `done` before its own.
pub open spec fn after_lines(done: Seq<Seq<char>>, tail: Lines) -> Lines {
    Lines {
        result: match tail.result {
            Ok(rest) => Ok(done + rest),
            Err(m) => Err(m),
        },
        state: tail.state,
    }
}

/// What a generating function returned is what `wanted` says. With `exact`
/// unset, the text of a success is left open.
pub open spec fn text_agrees(
    r: Result<String, GlossError>,
    wanted: Result<Seq<char>, Seq<char>>,
    exact: bool,
) -> bool {
    match wanted {
        Ok(t) => r is Ok && (exact ==> r->Ok_0@ == t),
        Err(m) => r matches Err(GlossError::GenerationError(x)) && x@ == m,
    }
}

/// What a function that derives a codec returned and left behind is what
/// `c` says.
pub open spec fn codec_agrees(
    r: Result<String, GlossError>,
    imports: Seq<ImportEntryView>,
    c: Codec,
    exact: bool,
) -> bool {
    imports == c.imports && text_agrees(r, c.result, exact)
}

/// What a generating function returned and left behind is what `o` says.
pub open spec fn agrees(
    r: Result<String, GlossError>,
    imports: Seq<ImportEntryView>,
    uses_option: bool,
    o: Outcome,
    exact: bool,
) -> bool {
    imports == o.state.imports && uses_option == o.state.uses_option && text_agrees(
        r,
        o.result,
        exact,
    )
}

/// The JSON key of a label under a naming convention.
pub open spec fn converted_field_name(label: Seq<char>, naming: FieldNamingConvention) -> Seq<char> {
    match naming {
        FieldNamingConvention::SnakeCase => label,
        FieldNamingConvention::CamelCase => camel_case(label),
    }
}

/// The JSON key of a label under a naming convention.
pub fn convert_field_name(field_name: &str, naming: FieldNamingConvention) -> (r: String)
    ensures
        r@ == converted_field_name(field_name@, naming),
{
    match naming {
        FieldNamingConvention::SnakeCase => String::from_str(field_name),
        FieldNamingConvention::CamelCase => to_camel_case(field_name),
    }
}

/// The JSON key of a field: the name that a directive gives it, else its
/// label under the naming convention.
pub open spec fn json_key(field: FieldInfo, naming: FieldNamingConvention) -> Seq<char> {
    match field.custom_name {
        Some(name) => name@,
        None => converted_field_name(field.label@, naming),
    }
}

/// The JSON key of a field.
pub fn json_field_name(field: &FieldInfo, naming: FieldNamingConvention) -> (r: String)
    ensures
        r@ == json_key(*field, naming),
{
    match &field.custom_name {
        Some(name) => name.clone(),
        None => convert_field_name(field.label.as_str(), naming),
    }
}

/// Whether a field may be missing from the input: its own marker decides
/// where it has one; else the field may be missing where the configuration
/// lets option-typed fields be absent and the field is of option type.
pub open spec fn may_be_absent(marker: FieldMarker, is_option: bool, mode: AbsentFieldMode) -> bool {
    match marker {
        FieldMarker::Optional => true,
        FieldMarker::Required => false,
        FieldMarker::Default => mode == AbsentFieldMode::MaybeAbsent && is_option,
    }
}

/// Whether a field may be missing from the input.
pub fn is_optional_field(marker: FieldMarker, is_option: bool, mode: AbsentFieldMode) -> (r: bool)
    ensures
        r == may_be_absent(marker, is_option, mode),
        marker == FieldMarker::Required ==> !r,
        marker == FieldMarker::Optional ==> r,
{
    match marker {
        FieldMarker::Optional => true,
        FieldMarker::Required => false,
        FieldMarker::Default => match mode {
            AbsentFieldMode::MaybeAbsent => is_option,
            AbsentFieldMode::ErrorIfAbsent => false,
        },
    }
}

/// `value` with backslashes, double quotes and line feeds escaped, in this
/// order.
pub open spec fn escaped(value: Seq<char>) -> Seq<char> {
    replaced(replaced(replaced(value, "\\"@, "\\\\"@), "\""@, "\\\""@), "\n"@, "\\n"@)
}

/// Escapes a text for a string literal of generated code.
pub fn escape_gleam_string(value: &str) -> (r: String)
    ensures
        r@ == escaped(value@),
{
    let a = replace(value, "\\", "\\\\");
    let b = replace(a.as_str(), "\"", "\\\"");
    replace(b.as_str(), "\n", "\\n")
}

/// A generation error with the given message.
fn failure(message: String) -> (r: Result<String, GlossError>)
    ensures
        r == Err::<String, GlossError>(GlossError::GenerationError(message)),
{
    Err(GlossError::GenerationError(message))
}

/// `a + b + c` as a generation error.
fn failure3(a: &str, b: &str, c: &str) -> (r: Result<String, GlossError>)
    ensures
        r matches Err(GlossError::GenerationError(m)) && m@ == a@ + b@ + c@,
{
    let mut m = String::from_str(a);
    m.append(b);
    m.append(c);
    Err(GlossError::GenerationError(m))
}

/// A reference to a function: the module that defines it, unless that is
/// the current one, and its name.
#[derive(Debug, Clone)]
pub struct FunctionReference {
    pub module: Option<String>,
    pub function: String,
}

/// What a dotted reference names: the text behind the last dot is the
/// function, the text before it the module, both without surrounding
/// whitespace; without a dot, or with nothing behind it, the whole text is
/// the function. An empty reference and an empty function name are refused.
pub open spec fn function_reference(value: Seq<char>) -> Result<
    (Option<Seq<char>>, Seq<char>),
    Seq<char>,
> {
    let t = trimmed(value);
    if t.len() == 0 {
        Err("Function reference cannot be empty"@)
    } else {
        let dot = segment_start(t, '.');
        let parts = if 0 < dot < t.len() {
            let module = trimmed(t.subrange(0, dot - 1));
            let function = trimmed(t.subrange(dot, t.len() as int));
            (
                if module.len() == 0 {
                    None
                } else {
                    Some(module)
                },
                function,
            )
        } else {
            (None, t)
        };
        if parts.1.len() == 0 {
            Err("Invalid function reference: `"@ + value + "`"@)
        } else {
            Ok(parts)
        }
    }
}

/// Reads a dotted function reference.
pub fn parse_function_reference(value: &str) -> (r: Result<FunctionReference, GlossError>)
    ensures
        match function_reference(value@) {
            Ok(parts) => r matches Ok(f) && opt_text(f.module) == parts.0 && f.function@
                == parts.1,
            Err(m) => r matches Err(GlossError::GenerationError(x)) && x@ == m,
        },
{
    let t = trim(value);
    let tv = chars_of(t.as_str());
    let n = tv.len();
    if n == 0 {
        return Err(
            GlossError::GenerationError(String::from_str("Function reference cannot be empty")),
        );
    }
    let dot = last_separator_end(&tv, '.');
    let (module, function) = if 0 < dot && dot < n {
        let (ma, mb) = trim_range(&tv, 0, dot - 1);
        let (fa, fb) = trim_range(&tv, dot, n);
        let function = string_of_range(&tv, fa, fb);
        if ma == mb {
            (None, function)
        } else {
            (Some(string_of_range(&tv, ma, mb)), function)
        }
    } else {
        (None, t)
    };
    if function.as_str().unicode_len() == 0 {
        let mut m = String::from_str("Invalid function reference: `");
        m.append(value);
        m.append("`");
        return Err(GlossError::GenerationError(m));
    }
    Ok(FunctionReference { module, function })
}

/// The path under which generated code calls a referenced function, and
/// the imports once the function's module is imported: the bare name for
/// a function of the current module, else the module's alias, a dot and
/// the name.
pub open spec fn function_path(
    parts: (Option<Seq<char>>, Seq<char>),
    imports: Seq<ImportEntryView>,
    current_module: Seq<char>,
) -> (Seq<char>, Seq<ImportEntryView>) {
    match parts.0 {
        Some(module) => if module != current_module {
            (import_alias(imports, module) + "."@ + parts.1, with_import(imports, module))
        } else {
            (parts.1, imports)
        },
        None => (parts.1, imports),
    }
}

/// The path under which generated code calls a referenced function.
pub fn render_function_path(
    reference: &FunctionReference,
    imports: &mut ImportMap,
    current_module: &str,
) -> (r: String)
    ensures
        (r@, final(imports)@) == function_path(
            (opt_text(reference.module), reference.function@),
            old(imports)@,
            current_module@,
        ),
{
    match &reference.module {
        Some(module) => {
            if !same_text(module.as_str(), current_module) {
                let mut out = ensure_import(imports, module.as_str());
                out.append(".");
                out.append(reference.function.as_str());
                out
            } else {
                reference.function.clone()
            }
        },
        None => reference.function.clone(),
    }
}

/// The call of a decoder that a directive names.
pub open spec fn decoder_override(
    value: Seq<char>,
    imports: Seq<ImportEntryView>,
    current_module: Seq<char>,
) -> Codec {
    match function_reference(value) {
        Ok(parts) => {
            let (path, after) = function_path(parts, imports, current_module);
            Codec { result: Ok(path + "()"@), imports: after }
        },
        Err(m) => Codec { result: Err(m), imports },
    }
}

/// The call of an encoder that a directive names, on `argument`.
pub open spec fn encoder_override(
    value: Seq<char>,
    argument: Seq<char>,
    imports: Seq<ImportEntryView>,
    current_module: Seq<char>,
) -> Codec {
    match function_reference(value) {
        Ok(parts) => {
            let (path, after) = function_path(parts, imports, current_module);
            Codec { result: Ok(path + "("@ + argument + ")"@), imports: after }
        },
        Err(m) => Codec { result: Err(m), imports },
    }
}

/// The call of the decoder that a directive names.
pub fn resolve_decoder_override(value: &str, imports: &mut ImportMap, current_module: &str) -> (r:
    Result<String, GlossError>)
    ensures
        codec_agrees(
            r,
            final(imports)@,
            decoder_override(value@, old(imports)@, current_module@),
            true,
        ),
{
    match parse_function_reference(value) {
        Ok(reference) => {
            let mut path = render_function_path(&reference, imports, current_module);
            path.append("()");
            Ok(path)
        },
        Err(e) => Err(e),
    }
}

/// The call of the encoder that a directive names.
pub fn resolve_encoder_override(
    value: &str,
    argument: &str,
    imports: &mut ImportMap,
    current_module: &str,
) -> (r: Result<String, GlossError>)
    ensures
        codec_agrees(
            r,
            final(imports)@,
            encoder_override(value@, argument@, old(imports)@, current_module@),
            true,
        ),
{
    match parse_function_reference(value) {
        Ok(reference) => {
            let mut path = render_function_path(&reference, imports, current_module);
            path.append("(");
            path.append(argument);
            path.append(")");
            Ok(path)
        },
        Err(e) => Err(e),
    }
}

/// The type is the option of `gleam/option` with an argument.
pub open spec fn is_option_type(t: TypeExpression) -> bool {
    match t {
        TypeExpression::Constructor { module, name, arguments } => name@ == "Option"@ && opt_text(
            module,
        ) == Some("gleam/option"@) && arguments@.len() > 0,
        _ => false,
    }
}

/// The type is a list with an argument.
pub open spec fn is_list_type(t: TypeExpression) -> bool {
    match t {
        TypeExpression::Constructor { module, name, arguments } => name@ == "List"@
            && arguments@.len() > 0,
        _ => false,
    }
}

/// The type wraps another one: it is an option or a list.
pub open spec fn is_wrapper(t: TypeExpression) -> bool {
    is_option_type(t) || is_list_type(t)
}

/// The first argument of a named type.
pub open spec fn first_argument(t: TypeExpression) -> TypeExpression {
    match t {
        TypeExpression::Constructor { module, name, arguments } => arguments@[0],
        _ => t,
    }
}

/// The name of a named type.
pub open spec fn type_label(t: TypeExpression) -> Seq<char> {
    match t {
        TypeExpression::Constructor { module, name, arguments } => name@,
        _ => Seq::empty(),
    }
}

/// The message that refuses a wrapper inside a wrapper.
pub open spec fn nested_message(codec: Seq<char>, t: TypeExpression) -> Seq<char> {
    "Cannot derive "@ + codec + " for nested type `"@ + type_label(t) + "("@ + type_label(
        first_argument(t),
    ) + "(..))`. Provide `"@ + codec + "_with` override."@
}

/// How a type wraps another one.
#[derive(Debug, Clone, Copy, PartialEq, Eq, Structural)]
pub enum Wrapper {
    Option,
    List,
}

/// Tells an option or a list with an argument from every other type.
pub fn wrapper_of(t: &TypeExpression) -> (r: Option<Wrapper>)
    ensures
        r is Some == is_wrapper(*t),
        r == Some(Wrapper::Option) <==> is_option_type(*t),
{
    match t {
        TypeExpression::Constructor { module, name, arguments } => {
            if arguments.len() == 0 {
                None
            } else if same_text(name.as_str(), "Option") && crate::text::opt_is_text(
                module,
                "gleam/option",
            ) {
                Some(Wrapper::Option)
            } else if same_text(name.as_str(), "List") {
                Some(Wrapper::List)
            } else {
                None
            }
        },
        _ => None,
    }
}

/// The refusal of a wrapper inside a wrapper.
fn nested_failure(codec: &str, t: &TypeExpression) -> (r: Result<String, GlossError>)
    requires
        is_wrapper(*t),
        is_wrapper(first_argument(*t)),
    ensures
        r matches Err(GlossError::GenerationError(m)) && m@ == nested_message(codec@, *t),
{
    let mut m = String::from_str("Cannot derive ");
    m.append(codec);
    m.append(" for nested type `");
    match t {
        TypeExpression::Constructor { module, name, arguments } => {
            m.append(name.as_str());
            m.append("(");
            match &arguments[0] {
                TypeExpression::Constructor { module: _, name: inner, arguments: _ } => {
                    m.append(inner.as_str());
                },
                _ => {},
            }
        },
        _ => {},
    }
    m.append("(..))`. Provide `");
    m.append(codec);
    m.append("_with` override.");
    Err(GlossError::GenerationError(m))
}

/// The decoder of a primitive type, by the type's name.
pub open spec fn primitive_decoder(name: Seq<char>) -> Option<Seq<char>> {
    if name == "String"@ {
        Some("decode.string"@)
    } else if name == "Int"@ {
        Some("decode.int"@)
    } else if name == "Float"@ {
        Some("decode.float"@)
    } else if name == "Bool"@ {
        Some("decode.bool"@)
    } else {
        None
    }
}

/// The call of the decoder generated for a type of the project: the
/// function that the registry names, qualified by the alias of its module
/// unless that is the current one. A type that the registry lacks and one
/// without decoder are refused.
pub open spec fn named_decoder(
    module: Option<Seq<char>>,
    name: Seq<char>,
    entries: Seq<TypeRegistryEntryView>,
    imports: Seq<ImportEntryView>,
    current_module: Seq<char>,
) -> Codec {
    match found_entry(entries, module, name, current_module) {
        Some(i) => {
            let e = entries[i];
            if !e.generates_decoder {
                Codec {
                    result: Err(
                        "Decoder requested for type `"@ + name
                            + "` but gloss is not generating one. Provide `decoder_with` override."@,
                    ),
                    imports,
                }
            } else {
                let fn_name = match e.decoder_fn_name {
                    Some(n) => n,
                    None => snake_case(name) + "_decoder"@,
                };
                if e.module == current_module {
                    Codec { result: Ok(fn_name + "()"@), imports }
                } else {
                    Codec {
                        result: Ok(import_alias(imports, e.module) + "."@ + fn_name + "()"@),
                        imports: with_import(imports, e.module),
                    }
                }
            }
        },
        None => Codec {
            result: Err(
                "Unable to determine decoder for type `"@ + name
                    + "`. Add a gloss annotation for that type or specify `decoder_with`."@,
            ),
            imports,
        },
    }
}

/// The decoder of a type that wraps nothing: a primitive's decoder, the
/// decoder generated for a type of the project, or a refusal.
pub open spec fn plain_decoder(
    t: TypeExpression,
    entries: Seq<TypeRegistryEntryView>,
    imports: Seq<ImportEntryView>,
    current_module: Seq<char>,
) -> Codec {
    match t {
        TypeExpression::Constructor { module, name, arguments } => match primitive_decoder(name@) {
            Some(d) => Codec { result: Ok(d), imports },
            None => named_decoder(opt_text(module), name@, entries, imports, current_module),
        },
        TypeExpression::Var(name) => Codec {
            result: Err(
                "Cannot derive decoder for generic field `"@ + name@
                    + "`. Provide `decoder_with` override."@,
            ),
            imports,
        },
        _ => Codec {
            result: Err(
                "Cannot derive decoder for complex type expression. Provide `decoder_with` override."@,
            ),
            imports,
        },
    }
}

/// The decoder derived from a type's structure: for an option or a list of
/// a type that wraps nothing, the combinator around that type's decoder;
/// a wrapper inside a wrapper is refused.
pub open spec fn derived_decoder(
    t: TypeExpression,
    entries: Seq<TypeRegistryEntryView>,
    imports: Seq<ImportEntryView>,
    current_module: Seq<char>,
) -> Codec {
    if is_wrapper(t) {
        if is_wrapper(first_argument(t)) {
            Codec { result: Err(nested_message("decoder"@, t)), imports }
        } else {
            let inner = plain_decoder(first_argument(t), entries, imports, current_module);
            Codec {
                result: match inner.result {
                    Ok(d) => Ok(
                        if is_option_type(t) {
                            "decode.optional("@ + d + ")"@
                        } else {
                            "decode.list("@ + d + ")"@
                        },
                    ),
                    Err(m) => Err(m),
                },
                imports: inner.imports,
            }
        }
    } else {
        plain_decoder(t, entries, imports, current_module)
    }
}

/// The decoder of a field's value: the one that a directive names, else
/// the one derived from the type.
pub open spec fn type_decoder(
    t: TypeExpression,
    override_fn: Option<Seq<char>>,
    entries: Seq<TypeRegistryEntryView>,
    imports: Seq<ImportEntryView>,
    current_module: Seq<char>,
) -> Codec {
    match override_fn {
        Some(value) => decoder_override(value, imports, current_module),
        None => derived_decoder(t, entries, imports, current_module),
    }
}

/// The decoder of a type that wraps nothing.
fn generate_plain_decoder(
    type_expr: &TypeExpression,
    registry: &TypeRegistry,
    imports: &mut ImportMap,
    current_module: &str,
) -> (r: Result<String, GlossError>)
    ensures
        codec_agrees(
            r,
            final(imports)@,
            plain_decoder(*type_expr, registry@, old(imports)@, current_module@),
            true,
        ),
{
    match type_expr {
        TypeExpression::Constructor { module, name, arguments } => {
            if same_text(name.as_str(), "String") {
                return Ok(String::from_str("decode.string"));
            }
            if same_text(name.as_str(), "Int") {
                return Ok(String::from_str("decode.int"));
            }
            if same_text(name.as_str(), "Float") {
                return Ok(String::from_str("decode.float"));
            }
            if same_text(name.as_str(), "Bool") {
                return Ok(String::from_str("decode.bool"));
            }
            let hint = match module {
                Some(m) => Some(m.as_str()),
                None => None,
            };
            match find_type_entry(registry, hint, name.as_str(), current_module) {
                Some(entry) => {
                    if !entry.generates_decoder {
                        return failure3(
                            "Decoder requested for type `",
                            name.as_str(),
                            "` but gloss is not generating one. Provide `decoder_with` override.",
                        );
                    }
                    let fn_name = match &entry.decoder_fn_name {
                        Some(n) => n.clone(),
                        None => {
                            let mut n = to_snake_case(name.as_str());
                            n.append("_decoder");
                            n
                        },
                    };
                    if same_text(entry.module.as_str(), current_module) {
                        let mut out = fn_name;
                        out.append("()");
                        Ok(out)
                    } else {
                        let mut out = ensure_import(imports, entry.module.as_str());
                        out.append(".");
                        out.append(fn_name.as_str());
                        out.append("()");
                        Ok(out)
                    }
                },
                None => failure3(
                    "Unable to determine decoder for type `",
                    name.as_str(),
                    "`. Add a gloss annotation for that type or specify `decoder_with`.",
                ),
            }
        },
        TypeExpression::Var(name) => failure3(
            "Cannot derive decoder for generic field `",
            name.as_str(),
            "`. Provide `decoder_with` override.",
        ),
        _ => failure(
            String::from_str(
                "Cannot derive decoder for complex type expression. Provide `decoder_with` override.",
            ),
        ),
    }
}

/// The first argument of an option or a list.
fn wrapped_type(t: &TypeExpression) -> (r: &TypeExpression)
    requires
        is_wrapper(*t),
    ensures
        *r == first_argument(*t),
{
    match t {
        TypeExpression::Constructor { module, name, arguments } => &arguments[0],
        _ => t,
    }
}

/// The decoder of a field's value.
pub fn generate_type_decoder(
    type_expr: &TypeExpression,
    override_fn: Option<&str>,
    registry: &TypeRegistry,
    imports: &mut ImportMap,
    current_module: &str,
) -> (r: Result<String, GlossError>)
    ensures
        codec_agrees(
            r,
            final(imports)@,
            type_decoder(
                *type_expr,
                match override_fn {
                    Some(v) => Some(v@),
                    None => None,
                },
                registry@,
                old(imports)@,
                current_module@,
            ),
            true,
        ),
{
    if let Some(value) = override_fn {
        return resolve_decoder_override(value, imports, current_module);
    }
    match wrapper_of(type_expr) {
        Some(kind) => {
            let inner = wrapped_type(type_expr);
            if wrapper_of(inner).is_some() {
                return nested_failure("decoder", type_expr);
            }
            match generate_plain_decoder(inner, registry, imports, current_module) {
                Ok(d) => {
                    let mut out = match kind {
                        Wrapper::Option => String::from_str("decode.optional("),
                        Wrapper::List => String::from_str("decode.list("),
                    };
                    out.append(d.as_str());
                    out.append(")");
                    Ok(out)
                },
                Err(e) => Err(e),
            }
        },
        None => generate_plain_decoder(type_expr, registry, imports, current_module),
    }
}

/// The line that decodes one field: with the combinator that tolerates a
/// missing key where the field may be absent, which needs the option
/// helpers, else with the one that demands the key.
pub open spec fn field_decoder(
    field: FieldInfo,
    naming: FieldNamingConvention,
    absent_field_mode: AbsentFieldMode,
    entries: Seq<TypeRegistryEntryView>,
    st: GenState,
    current_module: Seq<char>,
    nesting: nat,
) -> Outcome {
    let c = type_decoder(
        field.type_expr,
        opt_text(field.decoder_with),
        entries,
        st.imports,
        current_module,
    );
    match c.result {
        Err(m) => Outcome {
            result: Err(m),
            state: GenState { imports: c.imports, uses_option: st.uses_option },
        },
        Ok(d) => if may_be_absent(field.marker, field.is_option, absent_field_mode) {
            Outcome {
                result: Ok(
                    spaces(nesting) + "use "@ + field.label@ + " <- decode.optional_field(\""@
                        + json_key(field, naming) + "\", option.None, "@ + d + ")"@,
                ),
                state: GenState { imports: c.imports, uses_option: true },
            }
        } else {
            Outcome {
                result: Ok(
                    spaces(nesting) + "use "@ + field.label@ + " <- decode.field(\""@ + json_key(
                        field,
                        naming,
                    ) + "\", "@ + d + ")"@,
                ),
                state: GenState { imports: c.imports, uses_option: st.uses_option },
            }
        },
    }
}

/// The line that decodes one field.
pub fn generate_field_decoder(
    field: &FieldInfo,
    field_naming: FieldNamingConvention,
    absent_field_mode: AbsentFieldMode,
    registry: &TypeRegistry,
    imports: &mut ImportMap,
    current_module: &str,
    nesting: usize,
    uses_option_helpers: &mut bool,
) -> (r: Result<String, GlossError>)
    ensures
        agrees(
            r,
            final(imports)@,
            *final(uses_option_helpers),
            field_decoder(
                *field,
                field_naming,
                absent_field_mode,
                registry@,
                GenState { imports: old(imports)@, uses_option: *old(uses_option_helpers) },
                current_module@,
                nesting as nat,
            ),
            true,
        ),
{
    let key = json_field_name(field, field_naming);
    let over = match &field.decoder_with {
        Some(v) => Some(v.as_str()),
        None => None,
    };
    let decoder = match generate_type_decoder(
        &field.type_expr,
        over,
        registry,
        imports,
        current_module,
    ) {
        Ok(d) => d,
        Err(e) => {
            return Err(e);
        },
    };
    let mut out = crate::text::indent_of(nesting);
    out.append("use ");
    out.append(field.label.as_str());
    if is_optional_field(field.marker, field.is_option, absent_field_mode) {
        *uses_option_helpers = true;
        out.append(" <- decode.optional_field(\"");
        out.append(key.as_str());
        out.append("\", option.None, ");
    } else {
        out.append(" <- decode.field(\"");
        out.append(key.as_str());
        out.append("\", ");
    }
    out.append(decoder.as_str());
    out.append(")");
    Ok(out)
}

/// The lines that decode the fields of a constructor, in order, up to the
/// first field that cannot be decoded.
pub open spec fn field_decoders(
    fields: Seq<FieldInfo>,
    naming: FieldNamingConvention,
    absent_field_mode: AbsentFieldMode,
    entries: Seq<TypeRegistryEntryView>,
    st: GenState,
    current_module: Seq<char>,
    nesting: nat,
) -> Lines
    decreases fields.len(),
{
    if fields.len() == 0 {
        Lines { result: Ok(Seq::empty()), state: st }
    } else {
        let o = field_decoder(
            fields[0],
            naming,
            absent_field_mode,
            entries,
            st,
            current_module,
            nesting,
        );
        match o.result {
            Err(m) => Lines { result: Err(m), state: o.state },
            Ok(line) => after_lines(
                seq![line],
                field_decoders(
                    fields.drop_first(),
                    naming,
                    absent_field_mode,
                    entries,
                    o.state,
                    current_module,
                    nesting,
                ),
            ),
        }
    }
}

/// Each field's label with a colon behind it.
pub open spec fn field_labels(fields: Seq<FieldInfo>) -> Seq<Seq<char>> {
    Seq::new(fields.len(), |i: int| fields[i].label@ + ":"@)
}

/// Each field's label with a colon behind it.
pub fn label_list(fields: &Vec<FieldInfo>) -> (r: Vec<String>)
    ensures
        texts(r@) == field_labels(fields@),
{
    let mut out: Vec<String> = Vec::new();
    let mut i: usize = 0;
    while i < fields.len()
        invariant
            i <= fields@.len(),
            out@.len() == i,
            forall|k: int| 0 <= k < i ==> out@[k]@ == fields@[k].label@ + ":"@,
        decreases fields@.len() - i,
    {
        let mut l = fields[i].label.clone();
        l.append(":");
        out.push(l);
        i += 1;
    }
    assert(texts(out@) =~= field_labels(fields@));
    out
}

/// The decoder body of one constructor: a bare success where the layout
/// is a plain string or the constructor has no field, else the fields'
/// lines and the success of the constructor applied to its labels.
pub open spec fn constructor_decoder(
    constructor: ConstructorInfo,
    mode: EncodingMode,
    naming: FieldNamingConvention,
    absent_field_mode: AbsentFieldMode,
    entries: Seq<TypeRegistryEntryView>,
    st: GenState,
    current_module: Seq<char>,
    nesting: nat,
) -> Outcome {
    if mode == EncodingMode::PlainString || constructor.fields@.len() == 0 {
        Outcome { result: Ok("{\n  decode.success("@ + constructor.name@ + ")\n}"@), state: st }
    } else {
        let lines = field_decoders(
            constructor.fields@,
            naming,
            absent_field_mode,
            entries,
            st,
            current_module,
            nesting + 2,
        );
        Outcome {
            result: match lines.result {
                Ok(ls) => Ok(
                    "{\n"@ + joined(ls, "\n"@) + "\n"@ + spaces(nesting) + "  decode.success("@
                        + constructor.name@ + "("@ + joined(
                        field_labels(constructor.fields@),
                        ", "@,
                    ) + "))\n"@ + spaces(nesting) + "}"@,
                ),
                Err(m) => Err(m),
            },
            state: lines.state,
        }
    }
}

/// The decoder body of one constructor.
pub fn generate_single_constructor_decoder(
    constructor: &ConstructorInfo,
    mode: EncodingMode,
    field_naming: FieldNamingConvention,
    absent_field_mode: AbsentFieldMode,
    registry: &TypeRegistry,
    imports: &mut ImportMap,
    current_module: &str,
    nesting: usize,
    uses_option_helpers: &mut bool,
) -> (r: Result<String, GlossError>)
    requires
        nesting <= usize::MAX - 2,
    ensures
        agrees(
            r,
            final(imports)@,
            *final(uses_option_helpers),
            constructor_decoder(
                *constructor,
                mode,
                field_naming,
                absent_field_mode,
                registry@,
                GenState { imports: old(imports)@, uses_option: *old(uses_option_helpers) },
                current_module@,
                nesting as nat,
            ),
            true,
        ),
{
    let n = constructor.fields.len();
    if mode == EncodingMode::PlainString || n == 0 {
        let mut out = String::from_str("{\n  decode.success(");
        out.append(constructor.name.as_str());
        out.append(")\n}");
        return Ok(out);
    }
    let ghost fields = constructor.fields@;
    let ghost all = field_decoders(
        fields,
        field_naming,
        absent_field_mode,
        registry@,
        GenState { imports: imports@, uses_option: *uses_option_helpers },
        current_module@,
        (nesting + 2) as nat,
    );
    let mut lines: Vec<String> = Vec::new();
    let mut i: usize = 0;
    assert(fields.subrange(0, n as int) =~= fields);
    assert(all == after_lines(texts(lines@), all)) by {
        if all.result is Ok {
            assert(texts(lines@) + all.result->Ok_0 =~= all.result->Ok_0);
        }
    }
    while i < n
        invariant
            n == constructor.fields@.len(),
            n > 0,
            mode != EncodingMode::PlainString,
            fields == constructor.fields@,
            i <= n,
            nesting <= usize::MAX - 2,
            all == field_decoders(
                fields,
                field_naming,
                absent_field_mode,
                registry@,
                GenState { imports: old(imports)@, uses_option: *old(uses_option_helpers) },
                current_module@,
                (nesting + 2) as nat,
            ),
            all == after_lines(
                texts(lines@),
                field_decoders(
                    fields.subrange(i as int, n as int),
                    field_naming,
                    absent_field_mode,
                    registry@,
                    GenState { imports: imports@, uses_option: *uses_option_helpers },
                    current_module@,
                    (nesting + 2) as nat,
                ),
            ),
        decreases n - i,
    {
        let ghost rest = fields.subrange(i as int, n as int);
        let ghost done = texts(lines@);
        assert(rest[0] == fields[i as int]);
        assert(rest.drop_first() =~= fields.subrange(i + 1, n as int));
        let line = match generate_field_decoder(
            &constructor.fields[i],
            field_naming,
            absent_field_mode,
            registry,
            imports,
            current_module,
            nesting + 2,
            uses_option_helpers,
        ) {
            Ok(l) => l,
            Err(e) => {
                return Err(e);
            },
        };
        let ghost tail = field_decoders(
            fields.subrange(i + 1, n as int),
            field_naming,
            absent_field_mode,
            registry@,
            GenState { imports: imports@, uses_option: *uses_option_helpers },
            current_module@,
            (nesting + 2) as nat,
        );
        lines.push(line);
        assert(texts(lines@) =~= done.push(line@));
        proof {
            if tail.result is Ok {
                assert(done + (seq![line@] + tail.result->Ok_0) =~= done.push(line@)
                    + tail.result->Ok_0);
            }
        }
        i += 1;
    }
    assert(fields.subrange(n as int, n as int) =~= Seq::<FieldInfo>::empty());
    assert(texts(lines@) + Seq::<Seq<char>>::empty() =~= texts(lines@));
    let labels = label_list(&constructor.fields);
    let indent = crate::text::indent_of(nesting);
    let mut out = String::from_str("{\n");
    out.append(join(&lines, "\n").as_str());
    out.append("\n");
    out.append(indent.as_str());
    out.append("  decode.success(");
    out.append(constructor.name.as_str());
    out.append("(");
    out.append(join(&labels, ", ").as_str());
    out.append("))\n");
    out.append(indent.as_str());
    out.append("}");
    Ok(out)
}

/// The cases of a decoder that tells the constructors apart: for each
/// constructor its tag and its decoder body.
pub open spec fn decoder_cases(
    constructors: Seq<ConstructorInfo>,
    mode: EncodingMode,
    naming: FieldNamingConvention,
    absent_field_mode: AbsentFieldMode,
    entries: Seq<TypeRegistryEntryView>,
    st: GenState,
    current_module: Seq<char>,
) -> Lines
    decreases constructors.len(),
{
    if constructors.len() == 0 {
        Lines { result: Ok(Seq::empty()), state: st }
    } else {
        let o = constructor_decoder(
            constructors[0],
            mode,
            naming,
            absent_field_mode,
            entries,
            st,
            current_module,
            4,
        );
        match o.result {
            Err(m) => Lines { result: Err(m), state: o.state },
            Ok(body) => after_lines(
                seq![
                    "    \""@ + snake_case(constructors[0].name@) + "\" -> "@ + trimmed(body),
                ],
                decoder_cases(
                    constructors.drop_first(),
                    mode,
                    naming,
                    absent_field_mode,
                    entries,
                    o.state,
                    current_module,
                ),
            ),
        }
    }
}

/// The line that reads the discriminant: the value itself for a plain
/// string, else the field under the discriminant key.
pub open spec fn discriminant_line(mode: EncodingMode, type_tag_field: Seq<char>) -> Seq<char> {
    if mode == EncodingMode::PlainString {
        "use variant <- decode.then(decode.string)"@
    } else {
        "use variant <- decode.field(\""@ + type_tag_field + "\", decode.string)"@
    }
}

/// The decoder body of a type with several constructors: the discriminant
/// is read first, each constructor has its case, and any other tag fails
/// with the placeholder value and the message.
pub open spec fn variants_decoder(
    constructors: Seq<ConstructorInfo>,
    mode: EncodingMode,
    naming: FieldNamingConvention,
    type_tag_field: Seq<char>,
    absent_field_mode: AbsentFieldMode,
    entries: Seq<TypeRegistryEntryView>,
    st: GenState,
    current_module: Seq<char>,
    default_value_expr: Seq<char>,
    expected_message: Seq<char>,
) -> Outcome {
    let cases = decoder_cases(
        constructors,
        mode,
        naming,
        absent_field_mode,
        entries,
        st,
        current_module,
    );
    Outcome {
        result: match cases.result {
            Ok(cs) => Ok(
                "{\n  "@ + discriminant_line(mode, type_tag_field) + "\n  case variant {\n"@
                    + joined(cs, "\n"@) + "\n    _ -> decode.failure("@ + default_value_expr
                    + ", \""@ + escaped(expected_message) + "\")\n  }\n}"@,
            ),
            Err(m) => Err(m),
        },
        state: cases.state,
    }
}

/// The decoder body of a type with several constructors.
pub fn generate_multi_constructor_decoder(
    constructors: &Vec<ConstructorInfo>,
    mode: EncodingMode,
    field_naming: FieldNamingConvention,
    type_tag_field: &str,
    absent_field_mode: AbsentFieldMode,
    registry: &TypeRegistry,
    imports: &mut ImportMap,
    current_module: &str,
    default_value_expr: &str,
    expected_message: &str,
    uses_option_helpers: &mut bool,
) -> (r: Result<String, GlossError>)
    ensures
        agrees(
            r,
            final(imports)@,
            *final(uses_option_helpers),
            variants_decoder(
                constructors@,
                mode,
                field_naming,
                type_tag_field@,
                absent_field_mode,
                registry@,
                GenState { imports: old(imports)@, uses_option: *old(uses_option_helpers) },
                current_module@,
                default_value_expr@,
                expected_message@,
            ),
            true,
        ),
{
    let n = constructors.len();
    let ghost all = decoder_cases(
        constructors@,
        mode,
        field_naming,
        absent_field_mode,
        registry@,
        GenState { imports: imports@, uses_option: *uses_option_helpers },
        current_module@,
    );
    let mut cases: Vec<String> = Vec::new();
    let mut i: usize = 0;
    assert(constructors@.subrange(0, n as int) =~= constructors@);
    assert(all == after_lines(texts(cases@), all)) by {
        if all.result is Ok {
            assert(texts(cases@) + all.result->Ok_0 =~= all.result->Ok_0);
        }
    }
    while i < n
        invariant
            n == constructors@.len(),
            i <= n,
            all == decoder_cases(
                constructors@,
                mode,
                field_naming,
                absent_field_mode,
                registry@,
                GenState { imports: old(imports)@, uses_option: *old(uses_option_helpers) },
                current_module@,
            ),
            all == after_lines(
                texts(cases@),
                decoder_cases(
                    constructors@.subrange(i as int, n as int),
                    mode,
                    field_naming,
                    absent_field_mode,
                    registry@,
                    GenState { imports: imports@, uses_option: *uses_option_helpers },
                    current_module@,
                ),
            ),
        decreases n - i,
    {
        let ghost rest = constructors@.subrange(i as int, n as int);
        let ghost done = texts(cases@);
        assert(rest[0] == constructors@[i as int]);
        assert(rest.drop_first() =~= constructors@.subrange(i + 1, n as int));
        let constructor = &constructors[i];
        let body = match generate_single_constructor_decoder(
            constructor,
            mode,
            field_naming,
            absent_field_mode,
            registry,
            imports,
            current_module,
            4,
            uses_option_helpers,
        ) {
            Ok(b) => b,
            Err(e) => {
                return Err(e);
            },
        };
        let mut case = String::from_str("    \"");
        case.append(to_snake_case(constructor.name.as_str()).as_str());
        case.append("\" -> ");
        case.append(trim(body.as_str()).as_str());
        let ghost tail = decoder_cases(
            constructors@.subrange(i + 1, n as int),
            mode,
            field_naming,
            absent_field_mode,
            registry@,
            GenState { imports: imports@, uses_option: *uses_option_helpers },
            current_module@,
        );
        cases.push(case);
        assert(texts(cases@) =~= done.push(case@));
        proof {
            if tail.result is Ok {
                assert(done + (seq![case@] + tail.result->Ok_0) =~= done.push(case@)
                    + tail.result->Ok_0);
            }
        }
        i += 1;
    }
    assert(constructors@.subrange(n as int, n as int) =~= Seq::<ConstructorInfo>::empty());
    assert(texts(cases@) + Seq::<Seq<char>>::empty() =~= texts(cases@));
    let mut out = String::from_str("{\n  ");
    if mode == EncodingMode::PlainString {
        out.append("use variant <- decode.then(decode.string)");
    } else {
        let mut line = String::from_str("use variant <- decode.field(\"");
        line.append(type_tag_field);
        line.append("\", decode.string)");
        out.append(line.as_str());
    }
    out.append("\n  case variant {\n");
    out.append(join(&cases, "\n").as_str());
    out.append("\n    _ -> decode.failure(");
    out.append(default_value_expr);
    out.append(", \"");
    out.append(escape_gleam_string(expected_message).as_str());
    out.append("\")\n  }\n}");
    Ok(out)
}

/// The tags of the constructors: their names in snake case.
pub open spec fn constructor_tags(constructors: Seq<ConstructorInfo>) -> Seq<Seq<char>> {
    Seq::new(constructors.len(), |i: int| snake_case(constructors[i].name@))
}

/// What a decoder expected when it met an unknown tag: `value` where the
/// type has no constructor, the tag where it has one, else `one of` and the
/// distinct tags in order.
pub open spec fn expected_variants(constructors: Seq<ConstructorInfo>) -> Seq<char> {
    let tags = sorted_distinct(constructor_tags(constructors));
    if tags.len() == 0 {
        "value"@
    } else if tags.len() == 1 {
        tags[0]
    } else {
        "one of "@ + joined(tags, ", "@)
    }
}

/// What a decoder expected when it met an unknown tag.
pub fn format_expected_variants(constructors: &Vec<ConstructorInfo>) -> (r: String)
    ensures
        r@ == expected_variants(constructors@),
{
    let mut tags: Vec<String> = Vec::new();
    let mut i: usize = 0;
    while i < constructors.len()
        invariant
            i <= constructors@.len(),
            tags@.len() == i,
            forall|k: int| 0 <= k < i ==> tags@[k]@ == snake_case(constructors@[k].name@),
        decreases constructors@.len() - i,
    {
        tags.push(to_snake_case(constructors[i].name.as_str()));
        i += 1;
    }
    assert(texts(tags@) =~= constructor_tags(constructors@));
    let sorted = sort_distinct(&tags);
    if sorted.len() == 0 {
        String::from_str("value")
    } else if sorted.len() == 1 {
        sorted[0].clone()
    } else {
        let mut out = String::from_str("one of ");
        out.append(join(&sorted, ", ").as_str());
        out
    }
}

/// The failure message of a decoder that met an unknown tag: the template
/// with `{type}` replaced by the type's name where there is a template,
/// else what was expected.
pub open spec fn unknown_variant_message(
    ty_name: Seq<char>,
    override_message: Option<Seq<char>>,
    default_expected: Seq<char>,
) -> Seq<char> {
    match override_message {
        Some(template) => replaced(template, "{type}"@, ty_name),
        None => default_expected,
    }
}

/// The failure message of a decoder that met an unknown tag.
pub fn format_unknown_variant_message(
    ty_name: &str,
    override_message: Option<&str>,
    default_expected: &str,
) -> (r: String)
    ensures
        r@ == unknown_variant_message(
            ty_name@,
            match override_message {
                Some(t) => Some(t@),
                None => None,
            },
            default_expected@,
        ),
{
    match override_message {
        Some(template) => replace(template, "{type}", ty_name),
        None => String::from_str(default_expected),
    }
}

/// The naming convention in force for a type's fields.
pub open spec fn field_naming_of(info: CustomTypeInfo, config: ConfigView) -> FieldNamingConvention {
    match info.field_naming_strategy {
        Some(n) => n,
        None => config.field_naming_strategy,
    }
}

/// The discriminant key of a type: `type` unless a directive names one.
pub open spec fn tag_field_of(info: CustomTypeInfo) -> Seq<char> {
    match info.type_tag_field {
        Some(t) => t@,
        None => "type"@,
    }
}

/// The decoder function of a type.
pub open spec fn decoder_code(
    info: CustomTypeInfo,
    config: ConfigView,
    entries: Seq<TypeRegistryEntryView>,
    types: Seq<CustomTypeInfo>,
    unknown_message: Option<Seq<char>>,
    st: GenState,
) -> Outcome {
    let name = rendered_fn_pattern(config.fn_naming.decoder_function_naming, info.name@, None);
    let mode = encoding_mode(info.constructors@, info.disable_type_tag);
    let naming = field_naming_of(info, config);
    let body = if info.constructors@.len() == 1 {
        constructor_decoder(
            info.constructors@[0],
            mode,
            naming,
            config.absent_field_mode,
            entries,
            st,
            info.module@,
            0,
        )
    } else {
        let (default_expr, st1) = default_value(types, info, st);
        variants_decoder(
            info.constructors@,
            mode,
            naming,
            tag_field_of(info),
            config.absent_field_mode,
            entries,
            st1,
            info.module@,
            default_expr,
            unknown_variant_message(
                info.name@,
                unknown_message,
                expected_variants(info.constructors@),
            ),
        )
    };
    Outcome {
        result: match body.result {
            Ok(b) => Ok("pub fn "@ + name + "() -> decode.Decoder("@ + info.name@ + ") "@ + b),
            Err(m) => Err(m),
        },
        state: body.state,
    }
}

/// A generated decoder, and whether it needs the option helpers.
#[derive(Debug, Clone)]
pub struct DecoderOutput {
    pub code: String,
    pub uses_option_helpers: bool,
}

/// Generates the decoder function of a type.
pub fn generate_decoder(
    type_info: &CustomTypeInfo,
    config: &Config,
    registry: &TypeRegistry,
    imports: &mut ImportMap,
    type_lookup: &TypeLookup,
    unknown_variant_message: Option<&str>,
) -> (r: Result<DecoderOutput, GlossError>)
    ensures
        ({
            let o = decoder_code(
                *type_info,
                config@,
                registry@,
                type_lookup@,
                match unknown_variant_message {
                    Some(m) => Some(m@),
                    None => None,
                },
                GenState { imports: old(imports)@, uses_option: false },
            );
            &&& final(imports)@ == o.state.imports
            &&& match o.result {
                Ok(code) => r matches Ok(out) && out.code@ == code && out.uses_option_helpers
                    == o.state.uses_option,
                Err(m) => r matches Err(GlossError::GenerationError(x)) && x@ == m,
            }
        }),
{
    let decoder_name = config.fn_naming.render_decoder_fn_name(type_info.name.as_str());
    let mode = determine_encoding_mode(&type_info.constructors, type_info.disable_type_tag);
    let field_naming = match type_info.field_naming_strategy {
        Some(n) => n,
        None => config.field_naming_strategy,
    };
    let mut uses_option_helpers = false;
    let body = if type_info.constructors.len() == 1 {
        generate_single_constructor_decoder(
            &type_info.constructors[0],
            mode,
            field_naming,
            config.absent_field_mode,
            registry,
            imports,
            type_info.module.as_str(),
            0,
            &mut uses_option_helpers,
        )
    } else {
        let type_tag_field: &str = match &type_info.type_tag_field {
            Some(t) => t.as_str(),
            None => "type",
        };
        let default_value_expr = default_value_for_type(
            type_info,
            type_lookup,
            imports,
            &mut uses_option_helpers,
        );
        let expected_variants = format_expected_variants(&type_info.constructors);
        let expected_message = format_unknown_variant_message(
            type_info.name.as_str(),
            unknown_variant_message,
            expected_variants.as_str(),
        );
        generate_multi_constructor_decoder(
            &type_info.constructors,
            mode,
            field_naming,
            type_tag_field,
            config.absent_field_mode,
            registry,
            imports,
            type_info.module.as_str(),
            default_value_expr.as_str(),
            expected_message.as_str(),
            &mut uses_option_helpers,
        )
    };
    match body {
        Ok(b) => {
            let mut code = String::from_str("pub fn ");
            code.append(decoder_name.as_str());
            code.append("() -> decode.Decoder(");
            code.append(type_info.name.as_str());
            code.append(") ");
            code.append(b.as_str());
            Ok(DecoderOutput { code, uses_option_helpers })
        },
        Err(e) => Err(e),
    }
}

/// The encoding of a primitive value, by the type's name.
pub open spec fn primitive_encoder<B: EncoderBackend>(backend: &B, name: Seq<char>, value: Seq<char>) -> Option<
    Seq<char>,
> {
    if name == "String"@ {
        Some(backend.string_text(value))
    } else if name == "Int"@ {
        Some(backend.int_text(value))
    } else if name == "Float"@ {
        Some(backend.float_text(value))
    } else if name == "Bool"@ {
        Some(backend.bool_text(value))
    } else {
        None
    }
}

/// The call of the encoder generated for a type of the project: the
/// function that the registry names for the backend, qualified by the alias
/// of its module unless that is the current one. A type that the registry
/// lacks and one without encoder for the backend are refused.
pub open spec fn named_encoder(
    module: Option<Seq<char>>,
    name: Seq<char>,
    entries: Seq<TypeRegistryEntryView>,
    imports: Seq<ImportEntryView>,
    current_module: Seq<char>,
    value: Seq<char>,
    backend_id: Seq<char>,
) -> Codec {
    match found_entry(entries, module, name, current_module) {
        Some(i) => {
            let e = entries[i];
            match name_for(e.encoder_fn_names, backend_id) {
                None => Codec {
                    result: Err(
                        "Encoder requested for type `"@ + name + "` with backend `"@ + backend_id
                            + "` but gloss is not generating one. Provide `encoder_with` override."@,
                    ),
                    imports,
                },
                Some(fn_name) => if e.module == current_module {
                    Codec { result: Ok(fn_name + "("@ + value + ")"@), imports }
                } else {
                    Codec {
                        result: Ok(
                            import_alias(imports, e.module) + "."@ + fn_name + "("@ + value
                                + ")"@,
                        ),
                        imports: with_import(imports, e.module),
                    }
                },
            }
        },
        None => Codec {
            result: Err(
                "Unable to determine encoder for type `"@ + name
                    + "`. Add a gloss annotation for that type or specify `encoder_with`."@,
            ),
            imports,
        },
    }
}

/// The type is one of the four primitives, by its name.
pub open spec fn is_primitive_type(t: TypeExpression) -> bool {
    match t {
        TypeExpression::Constructor { module, name, arguments } => primitive_decoder(name@) is Some,
        _ => false,
    }
}

/// The encoding derived for a value of this type is rendered by the
/// backend: the type is a primitive, an option or a list. Every other
/// encoding is a call that the library writes itself.
pub open spec fn backend_renders(t: TypeExpression) -> bool {
    is_wrapper(t) || is_primitive_type(t)
}

/// The encoding of a value whose type wraps nothing.
pub open spec fn plain_encoder<B: EncoderBackend>(
    backend: &B,
    value: Seq<char>,
    t: TypeExpression,
    entries: Seq<TypeRegistryEntryView>,
    imports: Seq<ImportEntryView>,
    current_module: Seq<char>,
    backend_id: Seq<char>,
) -> Codec {
    match t {
        TypeExpression::Constructor { module, name, arguments } => match primitive_encoder(
            backend,
            name@,
            value,
        ) {
            Some(e) => Codec { result: Ok(e), imports },
            None => named_encoder(
                opt_text(module),
                name@,
                entries,
                imports,
                current_module,
                value,
                backend_id,
            ),
        },
        TypeExpression::Var(name) => Codec {
            result: Err(
                "Cannot derive encoder for generic field `"@ + name@
                    + "`. Provide `encoder_with` override."@,
            ),
            imports,
        },
        _ => Codec {
            result: Err(
                "Cannot derive encoder for complex type expression. Provide `encoder_with` override."@,
            ),
            imports,
        },
    }
}

/// The encoding derived from a type's structure: for an option or a list
/// of a type that wraps nothing, the backend's combinator around the
/// encoding of that type applied to `_`; a wrapper inside a wrapper is
/// refused.
pub open spec fn derived_encoder<B: EncoderBackend>(
    backend: &B,
    value: Seq<char>,
    t: TypeExpression,
    entries: Seq<TypeRegistryEntryView>,
    imports: Seq<ImportEntryView>,
    current_module: Seq<char>,
    backend_id: Seq<char>,
) -> Codec {
    if is_wrapper(t) {
        if is_wrapper(first_argument(t)) {
            Codec { result: Err(nested_message("encoder"@, t)), imports }
        } else {
            let inner = plain_encoder(
                backend,
                "_"@,
                first_argument(t),
                entries,
                imports,
                current_module,
                backend_id,
            );
            Codec {
                result: match inner.result {
                    Ok(e) => Ok(
                        if is_option_type(t) {
                            backend.nullable_text(value, e)
                        } else {
                            backend.array_text(value, e)
                        },
                    ),
                    Err(m) => Err(m),
                },
                imports: inner.imports,
            }
        }
    } else {
        plain_encoder(backend, value, t, entries, imports, current_module, backend_id)
    }
}

/// The encoding of a field's value: the call that a directive names, else
/// the one derived from the type.
pub open spec fn type_encoder<B: EncoderBackend>(
    backend: &B,
    value: Seq<char>,
    t: TypeExpression,
    override_fn: Option<Seq<char>>,
    entries: Seq<TypeRegistryEntryView>,
    imports: Seq<ImportEntryView>,
    current_module: Seq<char>,
    backend_id: Seq<char>,
) -> Codec {
    match override_fn {
        Some(path) => encoder_override(path, value, imports, current_module),
        None => derived_encoder(backend, value, t, entries, imports, current_module, backend_id),
    }
}

/// The encoding of a value whose type wraps nothing.
fn generate_plain_encoder<B: EncoderBackend>(
    var_name: &str,
    type_expr: &TypeExpression,
    registry: &TypeRegistry,
    imports: &mut ImportMap,
    current_module: &str,
    backend: &B,
    encoder_type: EncoderType,
) -> (r: Result<String, GlossError>)
    ensures
        codec_agrees(
            r,
            final(imports)@,
            plain_encoder(
                backend,
                var_name@,
                *type_expr,
                registry@,
                old(imports)@,
                current_module@,
                identifier_text(encoder_type),
            ),
            backend.is_specified() || !is_primitive_type(*type_expr),
        ),
{
    match type_expr {
        TypeExpression::Constructor { module, name, arguments } => {
            if same_text(name.as_str(), "String") {
                return Ok(backend.encode_string(var_name));
            }
            if same_text(name.as_str(), "Int") {
                return Ok(backend.encode_int(var_name));
            }
            if same_text(name.as_str(), "Float") {
                return Ok(backend.encode_float(var_name));
            }
            if same_text(name.as_str(), "Bool") {
                return Ok(backend.encode_bool(var_name));
            }
            let hint = match module {
                Some(m) => Some(m.as_str()),
                None => None,
            };
            match find_type_entry(registry, hint, name.as_str(), current_module) {
                Some(entry) => {
                    let backend_id = encoder_type.identifier();
                    match lookup_name(&entry.encoder_fn_names, backend_id) {
                        None => {
                            let mut m = String::from_str("Encoder requested for type `");
                            m.append(name.as_str());
                            m.append("` with backend `");
                            m.append(backend_id);
                            m.append(
                                "` but gloss is not generating one. Provide `encoder_with` override.",
                            );
                            Err(GlossError::GenerationError(m))
                        },
                        Some(fn_name) => {
                            if same_text(entry.module.as_str(), current_module) {
                                let mut out = fn_name.clone();
                                out.append("(");
                                out.append(var_name);
                                out.append(")");
                                Ok(out)
                            } else {
                                let mut out = ensure_import(imports, entry.module.as_str());
                                out.append(".");
                                out.append(fn_name.as_str());
                                out.append("(");
                                out.append(var_name);
                                out.append(")");
                                Ok(out)
                            }
                        },
                    }
                },
                None => failure3(
                    "Unable to determine encoder for type `",
                    name.as_str(),
                    "`. Add a gloss annotation for that type or specify `encoder_with`.",
                ),
            }
        },
        TypeExpression::Var(name) => failure3(
            "Cannot derive encoder for generic field `",
            name.as_str(),
            "`. Provide `encoder_with` override.",
        ),
        _ => failure(
            String::from_str(
                "Cannot derive encoder for complex type expression. Provide `encoder_with` override.",
            ),
        ),
    }
}

/// The encoding of a field's value.
pub fn generate_type_encoder<B: EncoderBackend>(
    var_name: &str,
    type_expr: &TypeExpression,
    override_fn: Option<&str>,
    registry: &TypeRegistry,
    imports: &mut ImportMap,
    current_module: &str,
    backend: &B,
    encoder_type: EncoderType,
) -> (r: Result<String, GlossError>)
    ensures
        codec_agrees(
            r,
            final(imports)@,
            type_encoder(
                backend,
                var_name@,
                *type_expr,
                match override_fn {
                    Some(v) => Some(v@),
                    None => None,
                },
                registry@,
                old(imports)@,
                current_module@,
                identifier_text(encoder_type),
            ),
            backend.is_specified() || override_fn is Some || !backend_renders(*type_expr),
        ),
{
    if let Some(path) = override_fn {
        return resolve_encoder_override(path, var_name, imports, current_module);
    }
    match wrapper_of(type_expr) {
        Some(kind) => {
            let inner = wrapped_type(type_expr);
            if wrapper_of(inner).is_some() {
                return nested_failure("encoder", type_expr);
            }
            match generate_plain_encoder(
                "_",
                inner,
                registry,
                imports,
                current_module,
                backend,
                encoder_type,
            ) {
                Ok(e) => Ok(
                    match kind {
                        Wrapper::Option => backend.encode_nullable(var_name, e.as_str()),
                        Wrapper::List => backend.encode_array(var_name, e.as_str()),
                    },
                ),
                Err(e) => Err(e),
            }
        },
        None => generate_plain_encoder(
            var_name,
            type_expr,
            registry,
            imports,
            current_module,
            backend,
            encoder_type,
        ),
    }
}

/// The entries of an object or the message of the failure, with the
/// imports that deriving them has left.
pub struct Entries {
    pub result: Result<Seq<(Seq<char>, Seq<char>)>, Seq<char>>,
    pub imports: Seq<ImportEntryView>,
}

/// `tail` with the entries `done` before its own.
pub open spec fn after_entries(done: Seq<(Seq<char>, Seq<char>)>, tail: Entries) -> Entries {
    Entries {
        result: match tail.result {
            Ok(rest) => Ok(done + rest),
            Err(m) => Err(m),
        },
        imports: tail.imports,
    }
}

/// For each field its JSON key and the encoding of its value, in order, up
/// to the first field that cannot be encoded.
pub open spec fn field_entries<B: EncoderBackend>(
    backend: &B,
    fields: Seq<FieldInfo>,
    naming: FieldNamingConvention,
    entries: Seq<TypeRegistryEntryView>,
    imports: Seq<ImportEntryView>,
    current_module: Seq<char>,
    backend_id: Seq<char>,
) -> Entries
    decreases fields.len(),
{
    if fields.len() == 0 {
        Entries { result: Ok(Seq::empty()), imports }
    } else {
        let c = type_encoder(
            backend,
            fields[0].label@,
            fields[0].type_expr,
            opt_text(fields[0].encoder_with),
            entries,
            imports,
            current_module,
            backend_id,
        );
        match c.result {
            Err(m) => Entries { result: Err(m), imports: c.imports },
            Ok(e) => after_entries(
                seq![(json_key(fields[0], naming), e)],
                field_entries(
                    backend,
                    fields.drop_first(),
                    naming,
                    entries,
                    c.imports,
                    current_module,
                    backend_id,
                ),
            ),
        }
    }
}

/// The entry that names the constructor, where the layout has one.
pub open spec fn tag_entries<B: EncoderBackend>(
    backend: &B,
    mode: EncodingMode,
    type_tag_field: Seq<char>,
    constructor_name: Seq<char>,
) -> Seq<(Seq<char>, Seq<char>)> {
    if mode == EncodingMode::ObjectWithTypeTag {
        seq![(type_tag_field, backend.string_literal_text(snake_case(constructor_name)))]
    } else {
        Seq::empty()
    }
}

/// The entries of the object that encodes a constructor: the discriminant
/// first where the layout has one, then the fields in order.
pub open spec fn constructor_entries<B: EncoderBackend>(
    backend: &B,
    constructor: ConstructorInfo,
    mode: EncodingMode,
    naming: FieldNamingConvention,
    type_tag_field: Seq<char>,
    entries: Seq<TypeRegistryEntryView>,
    imports: Seq<ImportEntryView>,
    current_module: Seq<char>,
    backend_id: Seq<char>,
) -> Entries {
    after_entries(
        tag_entries(backend, mode, type_tag_field, constructor.name@),
        field_entries(
            backend,
            constructor.fields@,
            naming,
            entries,
            imports,
            current_module,
            backend_id,
        ),
    )
}

/// The object of the given entries, the empty object where there is none.
pub open spec fn object_expression<B: EncoderBackend>(
    backend: &B,
    indent: Seq<char>,
    entries: Seq<(Seq<char>, Seq<char>)>,
) -> Seq<char> {
    if entries.len() == 0 {
        backend.empty_object_text(indent)
    } else {
        backend.object_text(indent, entries, indent)
    }
}

/// The value of a field's entry is the same for every backend that could
/// stand in the place of this one: the backend says what it returns, or the
/// value is a call that a directive names or that the registry names.
pub open spec fn field_is_fixed<B: EncoderBackend>(backend: &B, field: FieldInfo) -> bool {
    backend.is_specified() || field.encoder_with is Some || !backend_renders(field.type_expr)
}

/// For each entry of a constructor's object, whether its value is fixed.
/// The value of the discriminant is the backend's.
pub open spec fn fixed_entries<B: EncoderBackend>(
    backend: &B,
    constructor: ConstructorInfo,
    mode: EncodingMode,
) -> Seq<bool> {
    let tag = if mode == EncodingMode::ObjectWithTypeTag {
        seq![backend.is_specified()]
    } else {
        Seq::empty()
    };
    tag + Seq::new(
        constructor.fields@.len(),
        |i: int| field_is_fixed(backend, constructor.fields@[i]),
    )
}

/// The entries are the wanted ones: as many, under the same keys in the
/// same order, and with the same value wherever the value is fixed.
pub open spec fn entries_match(
    got: Seq<(Seq<char>, Seq<char>)>,
    wanted: Seq<(Seq<char>, Seq<char>)>,
    fixed: Seq<bool>,
) -> bool {
    &&& got.len() == wanted.len()
    &&& fixed.len() == wanted.len()
    &&& forall|k: int|
        0 <= k < got.len() ==> (#[trigger] got[k]).0 == wanted[k].0 && (fixed[k] ==> got[k].1
            == wanted[k].1)
}

/// The entries that are handed to the backend for the object that encodes
/// a constructor. Whatever the backend, the keys are the library's own: the
/// discriminant key first where the layout has one, then each field's JSON
/// key in order.
pub fn generate_constructor_entries<B: EncoderBackend>(
    constructor: &ConstructorInfo,
    mode: EncodingMode,
    field_naming: FieldNamingConvention,
    type_tag_field: &str,
    encoder_type: EncoderType,
    backend: &B,
    registry: &TypeRegistry,
    imports: &mut ImportMap,
    current_module: &str,
) -> (r: Result<Vec<(String, String)>, GlossError>)
    ensures
        ({
            let wanted = constructor_entries(
                backend,
                *constructor,
                mode,
                field_naming,
                type_tag_field@,
                registry@,
                old(imports)@,
                current_module@,
                identifier_text(encoder_type),
            );
            &&& final(imports)@ == wanted.imports
            &&& match wanted.result {
                Ok(es) => r matches Ok(v) && v@.len() == es.len() && entries_match(
                    pairs(v@),
                    es,
                    fixed_entries(backend, *constructor, mode),
                ) && (backend.is_specified() ==> pairs(v@) == es),
                Err(m) => r matches Err(GlossError::GenerationError(x)) && x@ == m,
            }
        }),
{
    let n = constructor.fields.len();
    let ghost tags = tag_entries(backend, mode, type_tag_field@, constructor.name@);
    let ghost fixed = fixed_entries(backend, *constructor, mode);
    let ghost backend_id = identifier_text(encoder_type);
    let ghost all = field_entries(
        backend,
        constructor.fields@,
        field_naming,
        registry@,
        imports@,
        current_module@,
        backend_id,
    );
    let mut out: Vec<(String, String)> = Vec::new();
    if mode == EncodingMode::ObjectWithTypeTag {
        let tag = to_snake_case(constructor.name.as_str());
        out.push((String::from_str(type_tag_field), backend.encode_string_literal(tag.as_str())));
    }
    assert(out@.len() == tags.len());
    assert(backend.is_specified() ==> pairs(out@) =~= tags);
    assert(mode == EncodingMode::ObjectWithTypeTag ==> pairs(out@)[0].0 == type_tag_field@);
    let ghost shown: Seq<(Seq<char>, Seq<char>)> = Seq::empty();
    let mut i: usize = 0;
    assert(constructor.fields@.subrange(0, n as int) =~= constructor.fields@);
    assert(all == after_entries(shown, all)) by {
        if all.result is Ok {
            assert(shown + all.result->Ok_0 =~= all.result->Ok_0);
        }
    }
    let ghost mut done: Seq<(Seq<char>, Seq<char>)> = Seq::empty();
    while i < n
        invariant
            n == constructor.fields@.len(),
            i <= n,
            tags == tag_entries(backend, mode, type_tag_field@, constructor.name@),
            backend_id == identifier_text(encoder_type),
            all == field_entries(
                backend,
                constructor.fields@,
                field_naming,
                registry@,
                old(imports)@,
                current_module@,
                backend_id,
            ),
            done.len() == i,
            out@.len() == tags.len() + i,
            fixed == fixed_entries(backend, *constructor, mode),
            backend.is_specified() ==> pairs(out@) == tags + done,
            forall|k: int|
                0 <= k < tags.len() + i ==> (#[trigger] pairs(out@)[k]).0 == (tags + done)[k].0 && (
                fixed[k] ==> pairs(out@)[k].1 == (tags + done)[k].1),
            all == after_entries(
                done,
                field_entries(
                    backend,
                    constructor.fields@.subrange(i as int, n as int),
                    field_naming,
                    registry@,
                    imports@,
                    current_module@,
                    backend_id,
                ),
            ),
        decreases n - i,
    {
        let ghost rest = constructor.fields@.subrange(i as int, n as int);
        assert(rest[0] == constructor.fields@[i as int]);
        assert(rest.drop_first() =~= constructor.fields@.subrange(i + 1, n as int));
        let field = &constructor.fields[i];
        let key = json_field_name(field, field_naming);
        let over = match &field.encoder_with {
            Some(v) => Some(v.as_str()),
            None => None,
        };
        let ghost c = type_encoder(
            backend,
            field.label@,
            field.type_expr,
            opt_text(field.encoder_with),
            registry@,
            imports@,
            current_module@,
            backend_id,
        );
        let value = match generate_type_encoder(
            field.label.as_str(),
            &field.type_expr,
            over,
            registry,
            imports,
            current_module,
            backend,
            encoder_type,
        ) {
            Ok(v) => v,
            Err(e) => {
                return Err(e);
            },
        };
        let ghost tail = field_entries(
            backend,
            constructor.fields@.subrange(i + 1, n as int),
            field_naming,
            registry@,
            imports@,
            current_module@,
            backend_id,
        );
        let ghost entry = (key@, c.result->Ok_0);
        let ghost before = pairs(out@);
        let ghost old_done = done;
        let ghost got = (key@, value@);
        out.push((key, value));
        proof {
            done = done.push(entry);
            if tail.result is Ok {
                assert(old_done + (seq![entry] + tail.result->Ok_0) =~= old_done.push(entry)
                    + tail.result->Ok_0);
            }
            if backend.is_specified() {
                assert(pairs(out@) =~= before.push(entry));
                assert(before.push(entry) =~= tags + old_done.push(entry));
            }
            assert(pairs(out@) =~= before.push(got));
            assert(tags + done =~= (tags + old_done).push(entry));
            assert(fixed[tags.len() + i] == field_is_fixed(backend, *field));
            assert forall|k: int| 0 <= k < tags.len() + i + 1 implies (#[trigger] pairs(out@)[k]).0
                == (tags + done)[k].0 && (fixed[k] ==> pairs(out@)[k].1 == (tags + done)[k].1) by {
                if k < tags.len() + i {
                    assert(pairs(out@)[k] == before[k]);
                    assert((tags + done)[k] == (tags + old_done)[k]);
                }
            }
        }
        i += 1;
    }
    assert(constructor.fields@.subrange(n as int, n as int) =~= Seq::<FieldInfo>::empty());
    assert(done + Seq::<(Seq<char>, Seq<char>)>::empty() =~= done);
    Ok(out)
}

/// The object of the given entries.
fn render_object<B: EncoderBackend>(backend: &B, indent: &str, entries: &Vec<(String, String)>) -> (r:
    String)
    ensures
        backend.is_specified() ==> r@ == object_expression(backend, indent@, pairs(entries@)),
{
    if entries.len() == 0 {
        backend.encode_empty_object(indent)
    } else {
        backend.encode_object(indent, entries.as_slice(), indent)
    }
}

/// The encoding of one constructor as the body of a case: the tag as a
/// string for a plain string, else the object of the constructor's entries.
pub open spec fn constructor_encoder_body<B: EncoderBackend>(
    backend: &B,
    constructor: ConstructorInfo,
    mode: EncodingMode,
    naming: FieldNamingConvention,
    type_tag_field: Seq<char>,
    entries: Seq<TypeRegistryEntryView>,
    imports: Seq<ImportEntryView>,
    current_module: Seq<char>,
    backend_id: Seq<char>,
    nesting: nat,
) -> Codec {
    if mode == EncodingMode::PlainString {
        Codec { result: Ok(backend.string_literal_text(snake_case(constructor.name@))), imports }
    } else {
        let es = constructor_entries(
            backend,
            constructor,
            mode,
            naming,
            type_tag_field,
            entries,
            imports,
            current_module,
            backend_id,
        );
        Codec {
            result: match es.result {
                Ok(e) => Ok(object_expression(backend, spaces(nesting), e)),
                Err(m) => Err(m),
            },
            imports: es.imports,
        }
    }
}

/// The encoding of one constructor as the body of a case.
pub fn generate_constructor_encoder_body<B: EncoderBackend>(
    constructor: &ConstructorInfo,
    mode: EncodingMode,
    field_naming: FieldNamingConvention,
    type_tag_field: &str,
    encoder_type: EncoderType,
    backend: &B,
    registry: &TypeRegistry,
    imports: &mut ImportMap,
    current_module: &str,
    nesting: usize,
) -> (r: Result<String, GlossError>)
    ensures
        codec_agrees(
            r,
            final(imports)@,
            constructor_encoder_body(
                backend,
                *constructor,
                mode,
                field_naming,
                type_tag_field@,
                registry@,
                old(imports)@,
                current_module@,
                identifier_text(encoder_type),
                nesting as nat,
            ),
            backend.is_specified(),
        ),
{
    if mode == EncodingMode::PlainString {
        let tag = to_snake_case(constructor.name.as_str());
        return Ok(backend.encode_string_literal(tag.as_str()));
    }
    match generate_constructor_entries(
        constructor,
        mode,
        field_naming,
        type_tag_field,
        encoder_type,
        backend,
        registry,
        imports,
        current_module,
    ) {
        Ok(es) => {
            let indent = crate::text::indent_of(nesting);
            Ok(render_object(backend, indent.as_str(), &es))
        },
        Err(e) => Err(e),
    }
}

/// The line that takes a constructor's fields apart.
pub open spec fn unpacking_line(indent: Seq<char>, constructor: ConstructorInfo, arg_name: Seq<char>) -> Seq<
    char,
> {
    indent + "let "@ + constructor.name@ + "("@ + joined(field_labels(constructor.fields@), ", "@)
        + ") = "@ + arg_name + "\n"@
}

/// The encoder body of a type with one constructor: the tag as a string
/// for a plain string, else the object of the constructor's entries, behind
/// the line that takes the fields apart where there are fields.
pub open spec fn single_constructor_encoder<B: EncoderBackend>(
    backend: &B,
    constructor: ConstructorInfo,
    arg_name: Seq<char>,
    mode: EncodingMode,
    naming: FieldNamingConvention,
    type_tag_field: Seq<char>,
    entries: Seq<TypeRegistryEntryView>,
    imports: Seq<ImportEntryView>,
    current_module: Seq<char>,
    backend_id: Seq<char>,
    nesting: nat,
) -> Codec {
    if mode == EncodingMode::PlainString {
        Codec {
            result: Ok(spaces(nesting) + backend.string_literal_text(snake_case(constructor.name@))),
            imports,
        }
    } else {
        let es = constructor_entries(
            backend,
            constructor,
            mode,
            naming,
            type_tag_field,
            entries,
            imports,
            current_module,
            backend_id,
        );
        Codec {
            result: match es.result {
                Ok(e) => Ok(
                    if constructor.fields@.len() == 0 {
                        object_expression(backend, spaces(nesting), e)
                    } else {
                        unpacking_line(spaces(nesting), constructor, arg_name) + object_expression(
                            backend,
                            spaces(nesting),
                            e,
                        )
                    },
                ),
                Err(m) => Err(m),
            },
            imports: es.imports,
        }
    }
}

/// The encoder body of a type with one constructor.
pub fn generate_single_constructor_encoder<B: EncoderBackend>(
    constructor: &ConstructorInfo,
    arg_name: &str,
    mode: EncodingMode,
    field_naming: FieldNamingConvention,
    type_tag_field: &str,
    encoder_type: EncoderType,
    backend: &B,
    registry: &TypeRegistry,
    imports: &mut ImportMap,
    current_module: &str,
    nesting: usize,
) -> (r: Result<String, GlossError>)
    ensures
        codec_agrees(
            r,
            final(imports)@,
            single_constructor_encoder(
                backend,
                *constructor,
                arg_name@,
                mode,
                field_naming,
                type_tag_field@,
                registry@,
                old(imports)@,
                current_module@,
                identifier_text(encoder_type),
                nesting as nat,
            ),
            backend.is_specified(),
        ),
{
    let indent = crate::text::indent_of(nesting);
    if mode == EncodingMode::PlainString {
        let tag = to_snake_case(constructor.name.as_str());
        let mut out = indent;
        out.append(backend.encode_string_literal(tag.as_str()).as_str());
        return Ok(out);
    }
    match generate_constructor_entries(
        constructor,
        mode,
        field_naming,
        type_tag_field,
        encoder_type,
        backend,
        registry,
        imports,
        current_module,
    ) {
        Ok(es) => {
            let object = render_object(backend, indent.as_str(), &es);
            if constructor.fields.len() == 0 {
                Ok(object)
            } else {
                let labels = label_list(&constructor.fields);
                let mut out = indent;
                out.append("let ");
                out.append(constructor.name.as_str());
                out.append("(");
                out.append(join(&labels, ", ").as_str());
                out.append(") = ");
                out.append(arg_name);
                out.append("\n");
                out.append(object.as_str());
                Ok(out)
            }
        },
        Err(e) => Err(e),
    }
}

/// Several lines or the message of the failure, with the imports left.
pub struct CodecLines {
    pub result: Result<Seq<Seq<char>>, Seq<char>>,
    pub imports: Seq<ImportEntryView>,
}

/// `tail` with the lines `done` before its own.
pub open spec fn after_codec_lines(done: Seq<Seq<char>>, tail: CodecLines) -> CodecLines {
    CodecLines {
        result: match tail.result {
            Ok(rest) => Ok(done + rest),
            Err(m) => Err(m),
        },
        imports: tail.imports,
    }
}

/// The pattern that matches a constructor and binds its fields.
pub open spec fn constructor_pattern(constructor: ConstructorInfo) -> Seq<char> {
    if constructor.fields@.len() == 0 {
        constructor.name@
    } else {
        constructor.name@ + "("@ + joined(field_labels(constructor.fields@), ", "@) + ")"@
    }
}

/// The cases of an encoder that tells the constructors apart.
pub open spec fn encoder_cases<B: EncoderBackend>(
    backend: &B,
    constructors: Seq<ConstructorInfo>,
    mode: EncodingMode,
    naming: FieldNamingConvention,
    type_tag_field: Seq<char>,
    entries: Seq<TypeRegistryEntryView>,
    imports: Seq<ImportEntryView>,
    current_module: Seq<char>,
    backend_id: Seq<char>,
) -> CodecLines
    decreases constructors.len(),
{
    if constructors.len() == 0 {
        CodecLines { result: Ok(Seq::empty()), imports }
    } else {
        let c = constructor_encoder_body(
            backend,
            constructors[0],
            mode,
            naming,
            type_tag_field,
            entries,
            imports,
            current_module,
            backend_id,
            4,
        );
        match c.result {
            Err(m) => CodecLines { result: Err(m), imports: c.imports },
            Ok(body) => after_codec_lines(
                seq!["    "@ + constructor_pattern(constructors[0]) + " -> "@ + trimmed(body)],
                encoder_cases(
                    backend,
                    constructors.drop_first(),
                    mode,
                    naming,
                    type_tag_field,
                    entries,
                    c.imports,
                    current_module,
                    backend_id,
                ),
            ),
        }
    }
}

/// The encoder body of a type with several constructors: one case for
/// each constructor.
pub open spec fn variants_encoder<B: EncoderBackend>(
    backend: &B,
    constructors: Seq<ConstructorInfo>,
    arg_name: Seq<char>,
    mode: EncodingMode,
    naming: FieldNamingConvention,
    type_tag_field: Seq<char>,
    entries: Seq<TypeRegistryEntryView>,
    imports: Seq<ImportEntryView>,
    current_module: Seq<char>,
    backend_id: Seq<char>,
) -> Codec {
    let cases = encoder_cases(
        backend,
        constructors,
        mode,
        naming,
        type_tag_field,
        entries,
        imports,
        current_module,
        backend_id,
    );
    Codec {
        result: match cases.result {
            Ok(cs) => Ok("  case "@ + arg_name + " {\n"@ + joined(cs, "\n"@) + "\n  }"@),
            Err(m) => Err(m),
        },
        imports: cases.imports,
    }
}

/// The encoder body of a type with several constructors.
pub fn generate_multi_constructor_encoder<B: EncoderBackend>(
    constructors: &Vec<ConstructorInfo>,
    arg_name: &str,
    mode: EncodingMode,
    field_naming: FieldNamingConvention,
    type_tag_field: &str,
    encoder_type: EncoderType,
    backend: &B,
    registry: &TypeRegistry,
    imports: &mut ImportMap,
    current_module: &str,
) -> (r: Result<String, GlossError>)
    ensures
        codec_agrees(
            r,
            final(imports)@,
            variants_encoder(
                backend,
                constructors@,
                arg_name@,
                mode,
                field_naming,
                type_tag_field@,
                registry@,
                old(imports)@,
                current_module@,
                identifier_text(encoder_type),
            ),
            backend.is_specified(),
        ),
{
    let n = constructors.len();
    let ghost backend_id = identifier_text(encoder_type);
    let ghost all = encoder_cases(
        backend,
        constructors@,
        mode,
        field_naming,
        type_tag_field@,
        registry@,
        imports@,
        current_module@,
        backend_id,
    );
    let mut cases: Vec<String> = Vec::new();
    let ghost mut done: Seq<Seq<char>> = Seq::empty();
    let mut i: usize = 0;
    assert(constructors@.subrange(0, n as int) =~= constructors@);
    assert(all == after_codec_lines(done, all)) by {
        if all.result is Ok {
            assert(done + all.result->Ok_0 =~= all.result->Ok_0);
        }
    }
    assert(texts(cases@) =~= done);
    while i < n
        invariant
            n == constructors@.len(),
            i <= n,
            backend_id == identifier_text(encoder_type),
            all == encoder_cases(
                backend,
                constructors@,
                mode,
                field_naming,
                type_tag_field@,
                registry@,
                old(imports)@,
                current_module@,
                backend_id,
            ),
            backend.is_specified() ==> texts(cases@) == done,
            all == after_codec_lines(
                done,
                encoder_cases(
                    backend,
                    constructors@.subrange(i as int, n as int),
                    mode,
                    field_naming,
                    type_tag_field@,
                    registry@,
                    imports@,
                    current_module@,
                    backend_id,
                ),
            ),
        decreases n - i,
    {
        let ghost rest = constructors@.subrange(i as int, n as int);
        assert(rest[0] == constructors@[i as int]);
        assert(rest.drop_first() =~= constructors@.subrange(i + 1, n as int));
        let constructor = &constructors[i];
        let ghost c = constructor_encoder_body(
            backend,
            *constructor,
            mode,
            field_naming,
            type_tag_field@,
            registry@,
            imports@,
            current_module@,
            backend_id,
            4,
        );
        let body = match generate_constructor_encoder_body(
            constructor,
            mode,
            field_naming,
            type_tag_field,
            encoder_type,
            backend,
            registry,
            imports,
            current_module,
            4,
        ) {
            Ok(b) => b,
            Err(e) => {
                return Err(e);
            },
        };
        let mut case = String::from_str("    ");
        if constructor.fields.len() == 0 {
            case.append(constructor.name.as_str());
        } else {
            let labels = label_list(&constructor.fields);
            let mut pattern = constructor.name.clone();
            pattern.append("(");
            pattern.append(join(&labels, ", ").as_str());
            pattern.append(")");
            case.append(pattern.as_str());
        }
        case.append(" -> ");
        case.append(trim(body.as_str()).as_str());
        let ghost tail = encoder_cases(
            backend,
            constructors@.subrange(i + 1, n as int),
            mode,
            field_naming,
            type_tag_field@,
            registry@,
            imports@,
            current_module@,
            backend_id,
        );
        let ghost line = "    "@ + constructor_pattern(*constructor) + " -> "@ + trimmed(
            c.result->Ok_0,
        );
        let ghost before = texts(cases@);
        let ghost old_done = done;
        cases.push(case);
        proof {
            done = done.push(line);
            assert(texts(cases@) =~= before.push(case@));
            if tail.result is Ok {
                assert(old_done + (seq![line] + tail.result->Ok_0) =~= old_done.push(line)
                    + tail.result->Ok_0);
            }
        }
        i += 1;
    }
    assert(constructors@.subrange(n as int, n as int) =~= Seq::<ConstructorInfo>::empty());
    assert(done + Seq::<Seq<char>>::empty() =~= done);
    let mut out = String::from_str("  case ");
    out.append(arg_name);
    out.append(" {\n");
    out.append(join(&cases, "\n").as_str());
    out.append("\n  }");
    Ok(out)
}

/// The encoder function of a type for one backend.
pub open spec fn encoder_code<B: EncoderBackend>(
    backend: &B,
    info: CustomTypeInfo,
    encoder_type: EncoderType,
    config: ConfigView,
    entries: Seq<TypeRegistryEntryView>,
    imports: Seq<ImportEntryView>,
) -> Codec {
    let backend_id = identifier_text(encoder_type);
    let fn_name = encoder_fn_name_text(
        config.fn_naming.encoder_function_naming,
        info.name@,
        backend_id,
        distinct_backends(info.encoders@).len(),
    );
    let arg_name = snake_case(info.name@);
    let mode = encoding_mode(info.constructors@, info.disable_type_tag);
    let naming = field_naming_of(info, config);
    let body = if info.constructors@.len() == 1 {
        single_constructor_encoder(
            backend,
            info.constructors@[0],
            arg_name,
            mode,
            naming,
            tag_field_of(info),
            entries,
            imports,
            info.module@,
            backend_id,
            2,
        )
    } else {
        variants_encoder(
            backend,
            info.constructors@,
            arg_name,
            mode,
            naming,
            tag_field_of(info),
            entries,
            imports,
            info.module@,
            backend_id,
        )
    };
    Codec {
        result: match body.result {
            Ok(b) => Ok(
                "pub fn "@ + fn_name + "("@ + arg_name + ": "@ + info.name@ + ") -> "@
                    + backend.return_type_text() + " {\n"@ + b + "\n}"@,
            ),
            Err(m) => Err(m),
        },
        imports: body.imports,
    }
}

/// The head of the encoder function of a type for one backend, up to the
/// arrow before the type it returns.
pub open spec fn encoder_header(info: CustomTypeInfo, encoder_type: EncoderType, config: ConfigView) -> Seq<
    char,
> {
    "pub fn "@ + encoder_fn_name_text(
        config.fn_naming.encoder_function_naming,
        info.name@,
        identifier_text(encoder_type),
        distinct_backends(info.encoders@).len(),
    ) + "("@ + snake_case(info.name@) + ": "@ + info.name@ + ") -> "@
}

/// The text is an encoder function with the given head: behind the head
/// stand the returned type and the body in braces.
pub open spec fn has_header(text: Seq<char>, header: Seq<char>) -> bool {
    exists|returned: Seq<char>, body: Seq<char>|
        text == #[trigger] (header + returned + " {\n"@ + body + "\n}"@)
}

/// Generates the encoder function of a type for one backend. Whatever the
/// backend, the function has the name that the naming pattern gives it and
/// takes the type under its name in snake case.
pub fn generate_encoder<B: EncoderBackend>(
    type_info: &CustomTypeInfo,
    encoder_type: EncoderType,
    config: &Config,
    registry: &TypeRegistry,
    imports: &mut ImportMap,
    backend: &B,
) -> (r: Result<String, GlossError>)
    ensures
        codec_agrees(
            r,
            final(imports)@,
            encoder_code(
                backend,
                *type_info,
                encoder_type,
                config@,
                registry@,
                old(imports)@,
            ),
            backend.is_specified(),
        ),
        r matches Ok(text) ==> has_header(text@, encoder_header(*type_info, encoder_type, config@)),
{
    let arg_name = to_snake_case(type_info.name.as_str());
    let backend_identifier = encoder_type.identifier();
    let backends = unique_backends(&type_info.encoders);
    let encoder_name = encoder_fn_name(
        &config.fn_naming,
        type_info.name.as_str(),
        backend_identifier,
        backends.len(),
    );
    let mode = determine_encoding_mode(&type_info.constructors, type_info.disable_type_tag);
    let field_naming = match type_info.field_naming_strategy {
        Some(n) => n,
        None => config.field_naming_strategy,
    };
    let type_tag_field: &str = match &type_info.type_tag_field {
        Some(t) => t.as_str(),
        None => "type",
    };
    let body = if type_info.constructors.len() == 1 {
        generate_single_constructor_encoder(
            &type_info.constructors[0],
            arg_name.as_str(),
            mode,
            field_naming,
            type_tag_field,
            encoder_type,
            backend,
            registry,
            imports,
            type_info.module.as_str(),
            2,
        )
    } else {
        generate_multi_constructor_encoder(
            &type_info.constructors,
            arg_name.as_str(),
            mode,
            field_naming,
            type_tag_field,
            encoder_type,
            backend,
            registry,
            imports,
            type_info.module.as_str(),
        )
    };
    match body {
        Ok(b) => {
            let mut out = String::from_str("pub fn ");
            out.append(encoder_name.as_str());
            out.append("(");
            out.append(arg_name.as_str());
            out.append(": ");
            out.append(type_info.name.as_str());
            out.append(") -> ");
            let returned = backend.return_type();
            out.append(returned.as_str());
            out.append(" {\n");
            out.append(b.as_str());
            out.append("\n}");
            assert(out@ == encoder_header(*type_info, encoder_type, config@) + returned@ + " {\n"@
                + b@ + "\n}"@);
            Ok(out)
        },
        Err(e) => Err(e),
    }
}

/// In the layout with tag, the object that encodes a constructor begins
/// with the discriminant: the discriminant key and the constructor's tag.
pub proof fn lemma_discriminant_first<B: EncoderBackend>(
    backend: &B,
    constructor: ConstructorInfo,
    naming: FieldNamingConvention,
    type_tag_field: Seq<char>,
    entries: Seq<TypeRegistryEntryView>,
    imports: Seq<ImportEntryView>,
    current_module: Seq<char>,
    backend_id: Seq<char>,
)
    ensures
        constructor_entries(
            backend,
            constructor,
            EncodingMode::ObjectWithTypeTag,
            naming,
            type_tag_field,
            entries,
            imports,
            current_module,
            backend_id,
        ).result matches Ok(es) ==> es.len() >= 1 && es[0] == (
            type_tag_field,
            backend.string_literal_text(snake_case(constructor.name@)),
        ),
{
}

/// Whatever the backend, the entries handed to it in the layout with tag
/// begin with an entry under the discriminant key.
pub proof fn lemma_discriminant_key_first<B: EncoderBackend>(
    backend: &B,
    constructor: ConstructorInfo,
    naming: FieldNamingConvention,
    type_tag_field: Seq<char>,
    entries: Seq<TypeRegistryEntryView>,
    imports: Seq<ImportEntryView>,
    current_module: Seq<char>,
    backend_id: Seq<char>,
    got: Seq<(Seq<char>, Seq<char>)>,
)
    requires
        constructor_entries(
            backend,
            constructor,
            EncodingMode::ObjectWithTypeTag,
            naming,
            type_tag_field,
            entries,
            imports,
            current_module,
            backend_id,
        ).result matches Ok(es) && entries_match(
            got,
            es,
            fixed_entries(backend, constructor, EncodingMode::ObjectWithTypeTag),
        ),
    ensures
        got.len() >= 1,
        got[0].0 == type_tag_field,
{
}

/// A type with two or more constructors, one of them with a field, and
/// with the tag left on has the layout with tag, under the discriminant
/// key `type` unless a directive names another.
pub proof fn lemma_tagged_layout(info: CustomTypeInfo)
    requires
        info.constructors@.len() >= 2,
        !all_fieldless(info.constructors@),
        !info.disable_type_tag,
    ensures
        encoding_mode(info.constructors@, info.disable_type_tag) == EncodingMode::ObjectWithTypeTag,
        info.type_tag_field is None ==> tag_field_of(info) == "type"@,
{
}

/// A type all of whose constructors are without fields has the layout of
/// a plain string, whatever its tag directive says.
pub proof fn lemma_fieldless_is_plain_string(
    constructors: Seq<ConstructorInfo>,
    disable_type_tag: bool,
)
    requires
        all_fieldless(constructors),
    ensures
        encoding_mode(constructors, disable_type_tag) == EncodingMode::PlainString,
{
}

/// In the layout of a plain string the cases of an encoder are the same
/// whatever the discriminant key is.
pub proof fn lemma_plain_cases_ignore_key<B: EncoderBackend>(
    backend: &B,
    constructors: Seq<ConstructorInfo>,
    naming: FieldNamingConvention,
    key1: Seq<char>,
    key2: Seq<char>,
    entries: Seq<TypeRegistryEntryView>,
    imports: Seq<ImportEntryView>,
    current_module: Seq<char>,
    backend_id: Seq<char>,
)
    ensures
        encoder_cases(
            backend,
            constructors,
            EncodingMode::PlainString,
            naming,
            key1,
            entries,
            imports,
            current_module,
            backend_id,
        ) == encoder_cases(
            backend,
            constructors,
            EncodingMode::PlainString,
            naming,
            key2,
            entries,
            imports,
            current_module,
            backend_id,
        ),
    decreases constructors.len(),
{
    if constructors.len() > 0 {
        lemma_plain_cases_ignore_key(
            backend,
            constructors.drop_first(),
            naming,
            key1,
            key2,
            entries,
            imports,
            current_module,
            backend_id,
        );
    }
}

/// The code generated for a type all of whose constructors are without
/// fields does not depend on the discriminant key: the decoder and each
/// encoder are the same whatever key a directive names.
pub proof fn lemma_plain_string_ignores_key<B: EncoderBackend>(
    backend: &B,
    a: CustomTypeInfo,
    b: CustomTypeInfo,
    encoder_type: EncoderType,
    config: ConfigView,
    entries: Seq<TypeRegistryEntryView>,
    types: Seq<CustomTypeInfo>,
    unknown_message: Option<Seq<char>>,
    st: GenState,
)
    requires
        all_fieldless(a.constructors@),
        a.name == b.name,
        a.module == b.module,
        a.constructors == b.constructors,
        a.encoders == b.encoders,
        a.field_naming_strategy == b.field_naming_strategy,
    ensures
        decoder_code(a, config, entries, types, unknown_message, st) == decoder_code(
            b,
            config,
            entries,
            types,
            unknown_message,
            st,
        ),
        encoder_code(backend, a, encoder_type, config, entries, st.imports) == encoder_code(
            backend,
            b,
            encoder_type,
            config,
            entries,
            st.imports,
        ),
{
    lemma_plain_cases_ignore_key(
        backend,
        a.constructors@,
        field_naming_of(a, config),
        tag_field_of(a),
        tag_field_of(b),
        entries,
        st.imports,
        a.module@,
        identifier_text(encoder_type),
    );
}

/// A reference to a type of another module that has a decoder is decoded
/// by the function that the registry names for that type, called through
/// the alias of the type's module, and that module is among the imports
/// afterwards.
pub proof fn lemma_cross_module_decoder(
    module_hint: Option<Seq<char>>,
    name: Seq<char>,
    entries: Seq<TypeRegistryEntryView>,
    imports: Seq<ImportEntryView>,
    current_module: Seq<char>,
    i: int,
)
    requires
        found_entry(entries, module_hint, name, current_module) == Some(i),
        0 <= i < entries.len(),
        entries[i].generates_decoder,
        entries[i].decoder_fn_name is Some,
        entries[i].module != current_module,
    ensures
        ({
            let c = named_decoder(module_hint, name, entries, imports, current_module);
            &&& c.result == Ok::<Seq<char>, Seq<char>>(
                import_alias(imports, entries[i].module) + "."@ + entries[i].decoder_fn_name->0
                    + "()"@,
            )
            &&& exists|k: int| 0 <= k < c.imports.len() && c.imports[k].module == entries[i].module
        }),
{
    crate::imports::lemma_with_import_has_entry(imports, entries[i].module);
    let c = named_decoder(module_hint, name, entries, imports, current_module);
    assert(c.imports[crate::imports::entry_index(imports, entries[i].module)].module
        == entries[i].module);
}

/// A reference to a type of another module that has an encoder for the
/// backend is encoded by the function that the registry names for that
/// type and backend, called through the alias of the type's module, and
/// that module is among the imports afterwards.
pub proof fn lemma_cross_module_encoder(
    module_hint: Option<Seq<char>>,
    name: Seq<char>,
    entries: Seq<TypeRegistryEntryView>,
    imports: Seq<ImportEntryView>,
    current_module: Seq<char>,
    value: Seq<char>,
    backend_id: Seq<char>,
    i: int,
)
    requires
        found_entry(entries, module_hint, name, current_module) == Some(i),
        0 <= i < entries.len(),
        name_for(entries[i].encoder_fn_names, backend_id) is Some,
        entries[i].module != current_module,
    ensures
        ({
            let c = named_encoder(
                module_hint,
                name,
                entries,
                imports,
                current_module,
                value,
                backend_id,
            );
            &&& c.result == Ok::<Seq<char>, Seq<char>>(
                import_alias(imports, entries[i].module) + "."@ + name_for(
                    entries[i].encoder_fn_names,
                    backend_id,
                )->0 + "("@ + value + ")"@,
            )
            &&& exists|k: int| 0 <= k < c.imports.len() && c.imports[k].module == entries[i].module
        }),
{
    crate::imports::lemma_with_import_has_entry(imports, entries[i].module);
    let c = named_encoder(module_hint, name, entries, imports, current_module, value, backend_id);
    assert(c.imports[crate::imports::entry_index(imports, entries[i].module)].module
        == entries[i].module);
}

/// A field that is marked as required is decoded with the combinator that
/// demands the key, and a field that is marked as optional with the one
/// that tolerates a missing key, whatever the configuration says.
pub proof fn lemma_marker_decides(is_option: bool, mode: AbsentFieldMode)
    ensures
        !may_be_absent(FieldMarker::Required, is_option, mode),
        may_be_absent(FieldMarker::Optional, is_option, mode),
{
}

} // verus!
