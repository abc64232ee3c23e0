//! From the declarations of a parsed module to the types that code is
//! generated for: the directives are read from the comments, the field
//! types are resolved against the module's imports, and the types that ask
//! for nothing are left out.

use crate::directives::{
    field_annotations_in, file_config_of, file_config_view, file_directive_pattern,
    parse_field_annotations, parse_file_level_config, parse_gloss_annotations, regex_captures,
    type_annotations_in,
};
use crate::error::GlossError;
use crate::ordered::{holds_text, insert_text, inserted};
use crate::parser::{
    opt_fn_naming, opt_output, ConstructorInfo, CustomTypeInfo, FieldInfo, FileConfig,
    OptionAvailability, OptionAvailabilityView, TypeExpression,
};
use crate::text::{
    chars_of, join, joined, last_segment, last_segment_of, occurs_at, opt_is_text, opt_text,
    same_text, segment_start, skip_leading, string_of_range, text_starts_with, texts, trim_range,
    trimmed, without_leading,
};
use vstd::prelude::*;
use vstd::string::*;
use vstd::utf8::{decode_utf8, encode_utf8, is_char_boundary};

verus! {

/// The type of a field as the parser of the source hands it over.
#[derive(Debug)]
pub enum TypeAst {
    /// A named type, with the module alias it is written with, if any.
    Constructor { module: Option<String>, name: String, arguments: Vec<TypeAst> },
    Tuple(Vec<TypeAst>),
    Fn { arguments: Vec<TypeAst>, return_: Box<TypeAst> },
    Var(String),
    Hole,
}

/// An import of the module: the imported module's path, the name it is
/// bound to where the import gives one, and the types imported without
/// qualification.
#[derive(Debug, Clone)]
pub struct ImportDecl {
    pub module: String,
    pub alias: Option<String>,
    pub unqualified_types: Vec<String>,
}

/// A field of a constructor as declared: its label, its documentation
/// comment, the byte offset at which it starts, and its type.
#[derive(Debug)]
pub struct FieldDecl {
    pub label: Option<String>,
    pub doc: Option<String>,
    pub start: usize,
    pub ast: TypeAst,
}

/// A constructor as declared.
#[derive(Debug)]
pub struct ConstructorDecl {
    pub name: String,
    pub arguments: Vec<FieldDecl>,
}

/// A custom type as declared: its name, its documentation comment, the
/// byte offset at which it starts, and its constructors.
#[derive(Debug)]
pub struct CustomTypeDecl {
    pub name: String,
    pub documentation: Option<String>,
    pub start: usize,
    pub constructors: Vec<ConstructorDecl>,
}

/// The declarations of a module that generation looks at.
#[derive(Debug)]
pub struct ParsedModule {
    pub imports: Vec<ImportDecl>,
    pub custom_types: Vec<CustomTypeDecl>,
}

/// The name under which an import of `gleam/option` is available: the name
/// the import gives, else the last segment of the path.
pub open spec fn option_alias(import: ImportDecl) -> Seq<char> {
    match import.alias {
        Some(a) => a@,
        None => last_segment(import.module@, '/'),
    }
}

/// The aliases of `gleam/option` among the imports, in order and each once.
pub open spec fn option_aliases(imports: Seq<ImportDecl>) -> Seq<Seq<char>>
    decreases imports.len(),
{
    if imports.len() == 0 {
        Seq::empty()
    } else {
        let head = option_aliases(imports.drop_last());
        if imports.last().module@ == "gleam/option"@ {
            inserted(head, option_alias(imports.last()))
        } else {
            head
        }
    }
}

/// An import that brings in the bare type name `Option`.
pub open spec fn brings_option(import: ImportDecl) -> bool {
    texts(import.unqualified_types@).contains("Option"@)
}

/// An import of `gleam/option` brings in the bare name `Option`.
pub open spec fn option_is_unqualified(imports: Seq<ImportDecl>) -> bool {
    exists|i: int|
        0 <= i < imports.len() && (#[trigger] imports[i]).module@ == "gleam/option"@
            && brings_option(imports[i])
}

/// An import of another module brings in the bare name `Option`.
pub open spec fn option_is_shadowed(imports: Seq<ImportDecl>) -> bool {
    exists|i: int|
        0 <= i < imports.len() && (#[trigger] imports[i]).module@ != "gleam/option"@
            && brings_option(imports[i])
}

/// The message for a module that takes `Option` from two places.
pub open spec fn conflicting_option_message() -> Seq<char> {
    "Conflicting imports for `Option`. gloss requires `Option` to come from `gleam/option` when using optional fields."@
}

/// How a module with these imports can write the option type.
pub open spec fn availability_of(imports: Seq<ImportDecl>) -> OptionAvailabilityView {
    OptionAvailabilityView {
        unqualified: !option_is_shadowed(imports),
        aliases: option_aliases(imports),
    }
}

/// Finds out how the module can write the option type: under which
/// aliases, and whether by the bare name. The bare name means the option
/// type where `gleam/option` brings it in, and also where no import brings
/// it in; a module that takes the bare name from `gleam/option` and from
/// another module is refused.
pub fn compute_option_availability(imports: &Vec<ImportDecl>) -> (r: Result<
    OptionAvailability,
    GlossError,
>)
    ensures
        if option_is_unqualified(imports@) && option_is_shadowed(imports@) {
            r matches Err(GlossError::GenerationError(m)) && m@ == conflicting_option_message()
        } else {
            r matches Ok(a) && a@ == availability_of(imports@)
        },
{
    let mut aliases: Vec<String> = Vec::new();
    let mut unqualified = false;
    let mut shadowed = false;
    let mut i: usize = 0;
    assert(imports@.subrange(0, 0) =~= Seq::<ImportDecl>::empty());
    assert(texts(aliases@) =~= Seq::<Seq<char>>::empty());
    while i < imports.len()
        invariant
            i <= imports@.len(),
            texts(aliases@) == option_aliases(imports@.subrange(0, i as int)),
            unqualified == option_is_unqualified(imports@.subrange(0, i as int)),
            shadowed == option_is_shadowed(imports@.subrange(0, i as int)),
        decreases imports@.len() - i,
    {
        let import = &imports[i];
        let ghost before = imports@.subrange(0, i as int);
        let ghost now = imports@.subrange(0, i + 1);
        assert(now.drop_last() =~= before);
        assert(now.last() == *import);
        let is_option_module = same_text(import.module.as_str(), "gleam/option");
        if is_option_module {
            let alias = match &import.alias {
                Some(a) => a.clone(),
                None => last_segment_of(import.module.as_str(), '/'),
            };
            insert_text(&mut aliases, alias);
        }
        let brings = holds_text(&import.unqualified_types, "Option");
        proof {
            if option_is_unqualified(before) {
                let k = choose|k: int|
                    0 <= k < before.len() && (#[trigger] before[k]).module@ == "gleam/option"@
                        && brings_option(before[k]);
                assert(now[k] == before[k]);
            }
            if option_is_shadowed(before) {
                let k = choose|k: int|
                    0 <= k < before.len() && (#[trigger] before[k]).module@ != "gleam/option"@
                        && brings_option(before[k]);
                assert(now[k] == before[k]);
            }
            if option_is_unqualified(now) && !(brings && is_option_module) {
                let k = choose|k: int|
                    0 <= k < now.len() && (#[trigger] now[k]).module@ == "gleam/option"@
                        && brings_option(now[k]);
                assert(before[k] == now[k]);
            }
            if option_is_shadowed(now) && !(brings && !is_option_module) {
                let k = choose|k: int|
                    0 <= k < now.len() && (#[trigger] now[k]).module@ != "gleam/option"@
                        && brings_option(now[k]);
                assert(before[k] == now[k]);
            }
            if brings {
                assert(now[i as int] == *import);
            }
        }
        if brings {
            if is_option_module {
                unqualified = true;
            } else {
                shadowed = true;
            }
        }
        i += 1;
    }
    assert(imports@.subrange(0, i as int) =~= imports@);
    if unqualified && shadowed {
        return Err(
            GlossError::GenerationError(
                String::from_str(
                    "Conflicting imports for `Option`. gloss requires `Option` to come from `gleam/option` when using optional fields.",
                ),
            ),
        );
    }
    Ok(OptionAvailability { unqualified: !shadowed, aliases })
}

/// A named type as written means the option type of `gleam/option`: it is
/// called `Option` and stands behind an alias of that module, or bare
/// where the bare name means it.
pub open spec fn means_option(
    module: Option<Seq<char>>,
    name: Seq<char>,
    availability: OptionAvailabilityView,
) -> bool {
    name == "Option"@ && match module {
        Some(alias) => availability.aliases.contains(alias),
        None => availability.unqualified,
    }
}

/// The module that a named type is resolved to: `gleam/option` for the
/// option type, else the alias it is written with.
pub open spec fn resolved_module(
    module: Option<Seq<char>>,
    name: Seq<char>,
    availability: OptionAvailabilityView,
) -> Option<Seq<char>> {
    if means_option(module, name, availability) {
        Some("gleam/option"@)
    } else {
        module
    }
}

/// The type expression says what the declared type says, with the option
/// type resolved to its module.
pub open spec fn represents(e: TypeExpression, ast: TypeAst, availability: OptionAvailabilityView) -> bool
    decreases ast,
{
    match ast {
        TypeAst::Constructor { module, name, arguments } => match e {
            TypeExpression::Constructor { module: m, name: n, arguments: a } => {
                &&& n@ == name@
                &&& opt_text(m) == resolved_module(opt_text(module), name@, availability)
                &&& a@.len() == arguments@.len()
                &&& forall|i: int|
                    0 <= i < arguments@.len() ==> represents(
                        #[trigger] a@[i],
                        arguments@[i],
                        availability,
                    )
            },
            _ => false,
        },
        TypeAst::Tuple(elements) => match e {
            TypeExpression::Tuple(x) => {
                &&& x@.len() == elements@.len()
                &&& forall|i: int|
                    0 <= i < elements@.len() ==> represents(
                        #[trigger] x@[i],
                        elements@[i],
                        availability,
                    )
            },
            _ => false,
        },
        TypeAst::Fn { arguments, return_ } => match e {
            TypeExpression::Function { arguments: a, return_type } => {
                &&& a@.len() == arguments@.len()
                &&& forall|i: int|
                    0 <= i < arguments@.len() ==> represents(
                        #[trigger] a@[i],
                        arguments@[i],
                        availability,
                    )
                &&& represents(*return_type, *return_, availability)
            },
            _ => false,
        },
        TypeAst::Var(name) => match e {
            TypeExpression::Var(n) => n@ == name@,
            _ => false,
        },
        TypeAst::Hole => e is Hole,
    }
}

/// The type expressions of a list of declared types.
fn expressions_of(items: &Vec<TypeAst>, availability: &OptionAvailability) -> (r: Vec<
    TypeExpression,
>)
    ensures
        r@.len() == items@.len(),
        forall|i: int| 0 <= i < items@.len() ==> represents(#[trigger] r@[i], items@[i], availability@),
    decreases items,
{
    let mut out: Vec<TypeExpression> = Vec::new();
    let mut i: usize = 0;
    while i < items.len()
        invariant
            i <= items@.len(),
            out@.len() == i,
            forall|k: int| 0 <= k < i ==> represents(#[trigger] out@[k], items@[k], availability@),
        decreases items@.len() - i,
    {
        assert(decreases_to!(items => items@));
        assert(decreases_to!(items@ => items@[i as int]));
        let e = type_ast_to_expression(&items[i], availability);
        out.push(e);
        i += 1;
    }
    out
}

/// Turns a declared type into a type expression, resolving the option type
/// to its module.
pub fn type_ast_to_expression(type_ast: &TypeAst, availability: &OptionAvailability) -> (r:
    TypeExpression)
    ensures
        represents(r, *type_ast, availability@),
    decreases type_ast,
{
    match type_ast {
        TypeAst::Constructor { module, name, arguments } => {
            let is_standard_option = same_text(name.as_str(), "Option") && match module {
                Some(alias) => holds_text(&availability.aliases, alias.as_str()),
                None => availability.unqualified,
            };
            let resolved = if is_standard_option {
                Some(String::from_str("gleam/option"))
            } else {
                crate::config::copy_opt(module)
            };
            TypeExpression::Constructor {
                module: resolved,
                name: name.clone(),
                arguments: expressions_of(arguments, availability),
            }
        },
        TypeAst::Tuple(elements) => TypeExpression::Tuple(expressions_of(elements, availability)),
        TypeAst::Fn { arguments, return_ } => TypeExpression::Function {
            arguments: expressions_of(arguments, availability),
            return_type: Box::new(type_ast_to_expression(&**return_, availability)),
        },
        TypeAst::Var(name) => TypeExpression::Var(name.clone()),
        TypeAst::Hole => TypeExpression::Hole,
    }
}

/// A declared type as text: a named type with its arguments in round
/// brackets, a tuple behind `#`, a function as `fn(..) -> ..`, a variable
/// by its name, and a hole as `_`.
pub open spec fn ast_text(ast: TypeAst) -> Seq<char>
    decreases ast, 0nat,
{
    match ast {
        TypeAst::Constructor { module, name, arguments } => if arguments@.len() == 0 {
            name@
        } else {
            name@ + "("@ + joined(asts_text(arguments@), ", "@) + ")"@
        },
        TypeAst::Tuple(elements) => "#("@ + joined(asts_text(elements@), ", "@) + ")"@,
        TypeAst::Fn { arguments, return_ } => "fn("@ + joined(asts_text(arguments@), ", "@)
            + ") -> "@ + ast_text(*return_),
        TypeAst::Var(name) => name@,
        TypeAst::Hole => "_"@,
    }
}

/// The texts of a list of declared types.
pub open spec fn asts_text(items: Seq<TypeAst>) -> Seq<Seq<char>>
    decreases items, items.len(),
{
    if items.len() == 0 {
        Seq::empty()
    } else {
        asts_text(items.drop_last()).push(ast_text(items.last()))
    }
}

/// The texts of a list of declared types.
fn type_asts_to_strings(items: &Vec<TypeAst>) -> (r: Vec<String>)
    ensures
        texts(r@) == asts_text(items@),
    decreases items,
{
    let mut out: Vec<String> = Vec::new();
    let mut i: usize = 0;
    assert(items@.subrange(0, 0) =~= Seq::<TypeAst>::empty());
    assert(texts(out@) =~= Seq::<Seq<char>>::empty());
    while i < items.len()
        invariant
            i <= items@.len(),
            texts(out@) == asts_text(items@.subrange(0, i as int)),
        decreases items@.len() - i,
    {
        assert(decreases_to!(items => items@));
        assert(decreases_to!(items@ => items@[i as int]));
        let ghost before = texts(out@);
        let t = type_ast_to_string(&items[i]);
        out.push(t);
        assert(texts(out@) =~= before.push(t@));
        assert(items@.subrange(0, i + 1).drop_last() =~= items@.subrange(0, i as int));
        i += 1;
    }
    assert(items@.subrange(0, i as int) =~= items@);
    out
}

/// A declared type as text.
pub fn type_ast_to_string(type_ast: &TypeAst) -> (r: String)
    ensures
        r@ == ast_text(*type_ast),
    decreases type_ast,
{
    match type_ast {
        TypeAst::Constructor { module, name, arguments } => {
            if arguments.len() == 0 {
                name.clone()
            } else {
                let args = type_asts_to_strings(arguments);
                let mut out = name.clone();
                out.append("(");
                out.append(join(&args, ", ").as_str());
                out.append(")");
                out
            }
        },
        TypeAst::Tuple(elements) => {
            let parts = type_asts_to_strings(elements);
            let mut out = String::from_str("#(");
            out.append(join(&parts, ", ").as_str());
            out.append(")");
            out
        },
        TypeAst::Fn { arguments, return_ } => {
            let args = type_asts_to_strings(arguments);
            let mut out = String::from_str("fn(");
            out.append(join(&args, ", ").as_str());
            out.append(") -> ");
            out.append(type_ast_to_string(&**return_).as_str());
            out
        },
        TypeAst::Var(name) => name.clone(),
        TypeAst::Hole => String::from_str("_"),
    }
}

/// The comment lines that stand right above the end of `text`, each
/// without its slashes and the whitespace around it and with a line feed
/// behind it. Empty lines between them are passed over; the first other
/// line ends the block.
pub open spec fn comment_block(text: Seq<char>) -> Seq<char>
    decreases text.len(),
{
    let start = segment_start(text, '\n');
    let line = trimmed(text.subrange(start, text.len() as int));
    let above = if 0 < start <= text.len() {
        comment_block(text.subrange(0, start - 1))
    } else {
        Seq::empty()
    };
    if text_starts_with(line, "//"@) {
        above + trimmed(without_leading(line, "//"@)) + "\n"@
    } else if line.len() == 0 {
        above
    } else {
        Seq::empty()
    }
}

/// The comment block above the end of `v[..end]`.
fn comment_block_of(v: &Vec<char>, end: usize) -> (r: String)
    requires
        end <= v@.len(),
    ensures
        r@ == comment_block(v@.subrange(0, end as int)),
    decreases end,
{
    let ghost text = v@.subrange(0, end as int);
    let slashes = chars_of("//");
    // The start of the last line of the text.
    let mut start: usize = end;
    assert(text.subrange(0, start as int) =~= text);
    while start > 0 && v[start - 1] != '\n'
        invariant
            start <= end <= v@.len(),
            text == v@.subrange(0, end as int),
            segment_start(text, '\n') == segment_start(text.subrange(0, start as int), '\n'),
        decreases start,
    {
        assert(text.subrange(0, start as int).drop_last() =~= text.subrange(0, start - 1));
        start -= 1;
    }
    assert(text.subrange(start as int, text.len() as int) =~= v@.subrange(start as int, end as int));
    let (a, b) = trim_range(v, start, end);
    let line = string_of_range(v, a, b);
    let line_chars = chars_of(line.as_str());
    let is_comment = occurs_at(&line_chars, &slashes, 0);
    if !is_comment && a != b {
        return String::new();
    }
    let mut out = if start > 0 {
        assert(text.subrange(0, start - 1) =~= v@.subrange(0, start - 1));
        comment_block_of(v, start - 1)
    } else {
        String::new()
    };
    if is_comment {
        let from = skip_leading(&line_chars, &slashes, 0);
        assert(line_chars@.subrange(0, line_chars@.len() as int) =~= line_chars@);
        let (c, d) = trim_range(&line_chars, from, line_chars.len());
        out.append(string_of_range(&line_chars, c, d).as_str());
        out.append("\n");
    }
    out
}

/// The byte offset at which the text before a position ends: the position,
/// or the end of the source where the position lies behind it.
pub open spec fn cut_at(source: Seq<char>, position: usize) -> int {
    if position < encode_utf8(source).len() {
        position as int
    } else {
        encode_utf8(source).len() as int
    }
}

/// The position lies between two characters of the source, or behind it.
pub open spec fn between_characters(source: Seq<char>, position: usize) -> bool {
    is_char_boundary(encode_utf8(source), cut_at(source, position))
}

/// The source up to a byte offset.
pub open spec fn text_before(source: Seq<char>, position: usize) -> Seq<char> {
    decode_utf8(encode_utf8(source).subrange(0, cut_at(source, position)))
}

/// The comment that stands right above a byte offset of the source.
pub fn extract_comment_before(source: &str, position: usize) -> (r: String)
    requires
        between_characters(source@, position),
    ensures
        r@ == comment_block(text_before(source@, position)),
{
    broadcast use {vstd::utf8::encode_utf8_decode_utf8, vstd::utf8::encode_utf8_valid_utf8};

    let n = source.as_bytes().len();
    let cut = if position < n {
        position
    } else {
        n
    };
    let (before, _) = source.split_at(cut);
    assert(before@ == decode_utf8(encode_utf8(before@)));
    let v = chars_of(before);
    assert(v@.subrange(0, v@.len() as int) =~= v@);
    comment_block_of(&v, v.len())
}

/// The comment that the directives of a declaration are read from: the
/// documentation comment where there is one, else the comment right above
/// the declaration.
pub open spec fn attached_comment(doc: Option<String>, source: Seq<char>, start: usize) -> Seq<char> {
    match doc {
        Some(d) => d@,
        None => comment_block(text_before(source, start)),
    }
}

/// The field says what its declaration and its directives say.
pub open spec fn field_matches(
    f: FieldInfo,
    decl: FieldDecl,
    source: Seq<char>,
    availability: OptionAvailabilityView,
) -> bool {
    let notes = field_annotations_in(attached_comment(decl.doc, source, decl.start));
    &&& f.label@ == match decl.label {
        Some(l) => l@,
        None => "_unlabeled"@,
    }
    &&& f.type_@ == ast_text(decl.ast)
    &&& represents(f.type_expr, decl.ast, availability)
    &&& f.is_option == match f.type_expr {
        TypeExpression::Constructor { module, name, arguments } => name@ == "Option"@ && opt_text(
            module,
        ) == Some("gleam/option"@),
        _ => false,
    }
    &&& f.marker == notes.marker
    &&& opt_text(f.custom_name) == notes.custom_name
    &&& opt_text(f.decoder_with) == notes.decoder_with
    &&& opt_text(f.encoder_with) == notes.encoder_with
}

/// Reads one field: its label, its type and its directives.
pub fn extract_field_info(arg: &FieldDecl, source: &str, availability: &OptionAvailability) -> (r:
    FieldInfo)
    requires
        arg.doc is None ==> between_characters(source@, arg.start),
    ensures
        field_matches(r, *arg, source@, availability@),
{
    let label = match &arg.label {
        Some(l) => l.clone(),
        None => String::from_str("_unlabeled"),
    };
    let type_ = type_ast_to_string(&arg.ast);
    let type_expr = type_ast_to_expression(&arg.ast, availability);
    let is_option = match &type_expr {
        TypeExpression::Constructor { module, name, arguments } => same_text(
            name.as_str(),
            "Option",
        ) && opt_is_text(module, "gleam/option"),
        _ => false,
    };
    let annotations = match &arg.doc {
        Some(doc) => parse_field_annotations(doc.as_str()),
        None => {
            let comment = extract_comment_before(source, arg.start);
            parse_field_annotations(comment.as_str())
        },
    };
    FieldInfo {
        label,
        type_,
        type_expr,
        is_option,
        marker: annotations.marker,
        custom_name: annotations.custom_name,
        decoder_with: annotations.decoder_with,
        encoder_with: annotations.encoder_with,
    }
}

/// Each field of the constructor that has no documentation comment starts
/// between two characters of the source.
pub open spec fn constructor_well_placed(decl: ConstructorDecl, source: Seq<char>) -> bool {
    forall|i: int|
        0 <= i < decl.arguments@.len() ==> ((#[trigger] decl.arguments@[i]).doc is None
            ==> between_characters(source, decl.arguments@[i].start))
}

/// The constructor says what its declaration says.
pub open spec fn constructor_matches(
    c: ConstructorInfo,
    decl: ConstructorDecl,
    source: Seq<char>,
    availability: OptionAvailabilityView,
) -> bool {
    &&& c.name@ == decl.name@
    &&& c.fields@.len() == decl.arguments@.len()
    &&& forall|i: int|
        0 <= i < decl.arguments@.len() ==> field_matches(
            #[trigger] c.fields@[i],
            decl.arguments@[i],
            source,
            availability,
        )
}

/// Reads one constructor with its fields.
pub fn extract_constructor_info(
    constructor: &ConstructorDecl,
    source: &str,
    availability: &OptionAvailability,
) -> (r: ConstructorInfo)
    requires
        constructor_well_placed(*constructor, source@),
    ensures
        constructor_matches(r, *constructor, source@, availability@),
{
    let mut fields: Vec<FieldInfo> = Vec::new();
    let mut i: usize = 0;
    while i < constructor.arguments.len()
        invariant
            i <= constructor.arguments@.len(),
            constructor_well_placed(*constructor, source@),
            fields@.len() == i,
            forall|k: int|
                0 <= k < i ==> field_matches(
                    #[trigger] fields@[k],
                    constructor.arguments@[k],
                    source@,
                    availability@,
                ),
        decreases constructor.arguments@.len() - i,
    {
        assert(constructor.arguments@[i as int].doc is None ==> between_characters(
            source@,
            constructor.arguments@[i as int].start,
        ));
        let f = extract_field_info(&constructor.arguments[i], source, availability);
        fields.push(f);
        i += 1;
    }
    ConstructorInfo { name: constructor.name.clone(), fields }
}

/// The declaration, where it has no documentation comment, and each of
/// its fields without one start between two characters of the source.
pub open spec fn type_well_placed(decl: CustomTypeDecl, source: Seq<char>) -> bool {
    &&& decl.documentation is None ==> between_characters(source, decl.start)
    &&& forall|i: int|
        0 <= i < decl.constructors@.len() ==> constructor_well_placed(
            #[trigger] decl.constructors@[i],
            source,
        )
}

/// What the directives of a declaration ask for.
pub open spec fn declared_annotations(decl: CustomTypeDecl, source: Seq<char>) -> crate::directives::TypeAnnotationsView {
    type_annotations_in(attached_comment(decl.documentation, source, decl.start))
}

/// The declaration asks for code: for an encoder or for the decoder.
pub open spec fn asks_for_code(decl: CustomTypeDecl, source: Seq<char>) -> bool {
    declared_annotations(decl, source).encoders.len() > 0 || declared_annotations(
        decl,
        source,
    ).generate_decoder
}

/// The type says what its declaration and its directives say.
pub open spec fn type_matches(
    info: CustomTypeInfo,
    decl: CustomTypeDecl,
    source: Seq<char>,
    module_name: Seq<char>,
    module: Seq<char>,
    availability: OptionAvailabilityView,
) -> bool {
    let notes = declared_annotations(decl, source);
    &&& info.name@ == decl.name@
    &&& info.module_name@ == module_name
    &&& info.module@ == module
    &&& info.constructors@.len() == decl.constructors@.len()
    &&& forall|i: int|
        0 <= i < decl.constructors@.len() ==> constructor_matches(
            #[trigger] info.constructors@[i],
            decl.constructors@[i],
            source,
            availability,
        )
    &&& info.encoders@ == notes.encoders
    &&& info.generate_decoder == notes.generate_decoder
    &&& info.field_naming_strategy == notes.field_naming_strategy
    &&& opt_text(info.type_tag_field) == notes.type_tag_field
    &&& info.disable_type_tag == notes.disable_type_tag
    &&& opt_output(info.output_override) == notes.output_override
    &&& opt_text(info.unknown_variant_message) == notes.unknown_variant_message
    &&& opt_fn_naming(info.fn_naming_override) == notes.fn_naming_override
    &&& info.option_availability@ == availability
}

/// Reads one custom type with its directives.
pub fn extract_custom_type_info(
    custom_type: &CustomTypeDecl,
    source: &str,
    module_name: &str,
    module: &str,
    availability: &OptionAvailability,
) -> (r: CustomTypeInfo)
    requires
        type_well_placed(*custom_type, source@),
    ensures
        type_matches(r, *custom_type, source@, module_name@, module@, availability@),
{
    let annotations = match &custom_type.documentation {
        Some(doc) => parse_gloss_annotations(doc.as_str()),
        None => {
            let doc = extract_comment_before(source, custom_type.start);
            parse_gloss_annotations(doc.as_str())
        },
    };
    let mut constructors: Vec<ConstructorInfo> = Vec::new();
    let mut i: usize = 0;
    while i < custom_type.constructors.len()
        invariant
            i <= custom_type.constructors@.len(),
            type_well_placed(*custom_type, source@),
            constructors@.len() == i,
            forall|k: int|
                0 <= k < i ==> constructor_matches(
                    #[trigger] constructors@[k],
                    custom_type.constructors@[k],
                    source@,
                    availability@,
                ),
        decreases custom_type.constructors@.len() - i,
    {
        assert(constructor_well_placed(custom_type.constructors@[i as int], source@));
        let c = extract_constructor_info(&custom_type.constructors[i], source, availability);
        constructors.push(c);
        i += 1;
    }
    CustomTypeInfo {
        name: custom_type.name.clone(),
        constructors,
        encoders: annotations.encoders,
        generate_decoder: annotations.generate_decoder,
        field_naming_strategy: annotations.field_naming_strategy,
        module_name: String::from_str(module_name),
        module: String::from_str(module),
        type_tag_field: annotations.type_tag_field,
        disable_type_tag: annotations.disable_type_tag,
        output_override: annotations.output_override,
        unknown_variant_message: annotations.unknown_variant_message,
        fn_naming_override: annotations.fn_naming_override,
        option_availability: OptionAvailability {
            unqualified: availability.unqualified,
            aliases: crate::ordered::copy_texts(&availability.aliases),
        },
    }
}

/// Every declaration of the module is well placed in the source.
pub open spec fn module_well_placed(module: ParsedModule, source: Seq<char>) -> bool {
    forall|i: int|
        0 <= i < module.custom_types@.len() ==> type_well_placed(
            #[trigger] module.custom_types@[i],
            source,
        )
}

/// The types are those of the declarations that ask for code, in the
/// order of the declarations.
pub open spec fn types_match(
    infos: Seq<CustomTypeInfo>,
    decls: Seq<CustomTypeDecl>,
    source: Seq<char>,
    module_name: Seq<char>,
    module: Seq<char>,
    availability: OptionAvailabilityView,
) -> bool
    decreases decls.len(),
{
    if decls.len() == 0 {
        infos.len() == 0
    } else if asks_for_code(decls.last(), source) {
        infos.len() > 0 && type_matches(
            infos.last(),
            decls.last(),
            source,
            module_name,
            module,
            availability,
        ) && types_match(
            infos.drop_last(),
            decls.drop_last(),
            source,
            module_name,
            module,
            availability,
        )
    } else {
        types_match(infos, decls.drop_last(), source, module_name, module, availability)
    }
}

/// Reads the types of one parsed module that ask for code, and the
/// directives for the whole file. A module that takes the bare name
/// `Option` both from `gleam/option` and from another module is refused.
pub fn parse_file(module_name: &str, module: &str, source: &str, parsed: &ParsedModule) -> (r: Result<
    (FileConfig, Vec<CustomTypeInfo>),
    GlossError,
>)
    requires
        module_well_placed(*parsed, source@),
    ensures
        if option_is_unqualified(parsed.imports@) && option_is_shadowed(parsed.imports@) {
            r matches Err(GlossError::GenerationError(m)) && m@ == conflicting_option_message()
        } else {
            r matches Ok(found) && file_config_view(found.0) == file_config_of(
                regex_captures(file_directive_pattern(), source@),
            ) && types_match(
                found.1@,
                parsed.custom_types@,
                source@,
                module_name@,
                module@,
                availability_of(parsed.imports@),
            )
        },
{
    let file_config = parse_file_level_config(source);
    let availability = match compute_option_availability(&parsed.imports) {
        Ok(a) => a,
        Err(e) => {
            return Err(e);
        },
    };
    let mut types: Vec<CustomTypeInfo> = Vec::new();
    let mut i: usize = 0;
    assert(parsed.custom_types@.subrange(0, 0) =~= Seq::<CustomTypeDecl>::empty());
    while i < parsed.custom_types.len()
        invariant
            i <= parsed.custom_types@.len(),
            module_well_placed(*parsed, source@),
            types_match(
                types@,
                parsed.custom_types@.subrange(0, i as int),
                source@,
                module_name@,
                module@,
                availability@,
            ),
        decreases parsed.custom_types@.len() - i,
    {
        let ghost before = types@;
        assert(type_well_placed(parsed.custom_types@[i as int], source@));
        assert(parsed.custom_types@.subrange(0, i + 1).drop_last()
            =~= parsed.custom_types@.subrange(0, i as int));
        let info = extract_custom_type_info(
            &parsed.custom_types[i],
            source,
            module_name,
            module,
            &availability,
        );
        if info.encoders.len() > 0 || info.generate_decoder {
            types.push(info);
            assert(types@.drop_last() =~= before);
        }
        i += 1;
    }
    assert(parsed.custom_types@.subrange(0, i as int) =~= parsed.custom_types@);
    Ok((file_config, types))
}

/// One source file with what its parser found.
#[derive(Debug)]
pub struct SourceUnit {
    /// The path of the file.
    pub path: String,
    /// The last segment of the file's name, without extension.
    pub module_name: String,
    /// The file's path below the source directory, without extension.
    pub module: String,
    /// The text of the file.
    pub source: String,
    /// The declarations of the file.
    pub parsed: ParsedModule,
}

/// The types of one source file that ask for code, with the file's
/// directives.
#[derive(Debug, Clone)]
pub struct ParsedFile {
    pub path: String,
    pub file_config: FileConfig,
    pub types: Vec<CustomTypeInfo>,
}

/// Some declaration asks for code.
pub open spec fn asks_any(decls: Seq<CustomTypeDecl>, source: Seq<char>) -> bool {
    exists|i: int| 0 <= i < decls.len() && asks_for_code(#[trigger] decls[i], source)
}

/// The types of the declarations that ask for code are none exactly where
/// no declaration asks for code.
pub proof fn lemma_kept_types(
    infos: Seq<CustomTypeInfo>,
    decls: Seq<CustomTypeDecl>,
    source: Seq<char>,
    module_name: Seq<char>,
    module: Seq<char>,
    availability: OptionAvailabilityView,
)
    requires
        types_match(infos, decls, source, module_name, module, availability),
    ensures
        infos.len() > 0 <==> asks_any(decls, source),
    decreases decls.len(),
{
    if decls.len() > 0 {
        if asks_for_code(decls.last(), source) {
            assert(asks_for_code(decls[decls.len() - 1], source));
        } else {
            lemma_kept_types(infos, decls.drop_last(), source, module_name, module, availability);
            if asks_any(decls, source) {
                let i = choose|i: int|
                    0 <= i < decls.len() && asks_for_code(#[trigger] decls[i], source);
                assert(decls.drop_last()[i] == decls[i]);
            }
            if asks_any(decls.drop_last(), source) {
                let i = choose|i: int|
                    0 <= i < decls.drop_last().len() && asks_for_code(
                        #[trigger] decls.drop_last()[i],
                        source,
                    );
                assert(decls[i] == decls.drop_last()[i]);
            }
        }
    }
}

/// The file holds what its source unit says: the path, the directives for
/// the whole file, and the types that ask for code.
pub open spec fn file_matches(f: ParsedFile, unit: SourceUnit) -> bool {
    &&& f.path@ == unit.path@
    &&& file_config_view(f.file_config) == file_config_of(
        regex_captures(file_directive_pattern(), unit.source@),
    )
    &&& types_match(
        f.types@,
        unit.parsed.custom_types@,
        unit.source@,
        unit.module_name@,
        unit.module@,
        availability_of(unit.parsed.imports@),
    )
}

/// The files are those of the source units in which a declaration asks
/// for code, in the order of the units.
pub open spec fn files_match(files: Seq<ParsedFile>, units: Seq<SourceUnit>) -> bool
    decreases units.len(),
{
    if units.len() == 0 {
        files.len() == 0
    } else if asks_any(units.last().parsed.custom_types@, units.last().source@) {
        files.len() > 0 && file_matches(files.last(), units.last()) && files_match(
            files.drop_last(),
            units.drop_last(),
        )
    } else {
        files_match(files, units.drop_last())
    }
}

/// Every source file's declarations are well placed in its text.
pub open spec fn units_well_placed(units: Seq<SourceUnit>) -> bool {
    forall|i: int|
        0 <= i < units.len() ==> module_well_placed(
            (#[trigger] units[i]).parsed,
            units[i].source@,
        )
}

/// A source file takes the bare name `Option` from two places.
pub open spec fn unit_conflicts(unit: SourceUnit) -> bool {
    option_is_unqualified(unit.parsed.imports@) && option_is_shadowed(unit.parsed.imports@)
}

/// Reads the types that ask for code from each source file, and leaves
/// out the files that hold none. The first file that takes the bare name
/// `Option` from two places ends it.
pub fn parse_gleam_files(units: &Vec<SourceUnit>) -> (r: Result<Vec<ParsedFile>, GlossError>)
    requires
        units_well_placed(units@),
    ensures
        (exists|i: int| 0 <= i < units@.len() && unit_conflicts(#[trigger] units@[i])) <==> r is Err,
        r matches Err(e) ==> e matches GlossError::GenerationError(m) && m@
            == conflicting_option_message(),
        r matches Ok(files) ==> files_match(files@, units@),
{
    let mut files: Vec<ParsedFile> = Vec::new();
    let mut i: usize = 0;
    assert(units@.subrange(0, 0) =~= Seq::<SourceUnit>::empty());
    while i < units.len()
        invariant
            i <= units@.len(),
            units_well_placed(units@),
            forall|k: int| 0 <= k < i ==> !unit_conflicts(#[trigger] units@[k]),
            files_match(files@, units@.subrange(0, i as int)),
        decreases units@.len() - i,
    {
        let unit = &units[i];
        let ghost before = files@;
        assert(module_well_placed(units@[i as int].parsed, units@[i as int].source@));
        assert(units@.subrange(0, i + 1).drop_last() =~= units@.subrange(0, i as int));
        assert(units@.subrange(0, i + 1).last() == *unit);
        match parse_file(
            unit.module_name.as_str(),
            unit.module.as_str(),
            unit.source.as_str(),
            &unit.parsed,
        ) {
            Ok((file_config, types)) => {
                proof {
                    lemma_kept_types(
                        types@,
                        unit.parsed.custom_types@,
                        unit.source@,
                        unit.module_name@,
                        unit.module@,
                        availability_of(unit.parsed.imports@),
                    );
                }
                if types.len() > 0 {
                    files.push(ParsedFile { path: unit.path.clone(), file_config, types });
                    assert(files@.drop_last() =~= before);
                }
            },
            Err(e) => {
                assert(unit_conflicts(units@[i as int]));
                return Err(e);
            },
        }
        i += 1;
    }
    assert(units@.subrange(0, i as int) =~= units@);
    Ok(files)
}

} // verus!
