//! Directives: what the comments attached to a type, a field or a file ask
//! of the generator. A directive line is found by a pattern, and so is each
//! quoted value in it; a bare keyword counts where it is a token of the line.

use crate::config::{FieldNamingConvention, FnNamingOverride, FnNamingOverrideView};
use crate::parser::{
    opt_fn_naming, opt_output, EncoderType, FieldMarker, FileConfig, OutputOverride,
    OutputOverrideView,
};
use crate::ordered::holds_text;
use crate::text::{chars_of, opt_text, same_text, string_of_range, texts, trim_range, trimmed};
use vstd::prelude::*;
use vstd::string::*;

verus! {

/// What the first capture group of the first match of a pattern holds in a
/// text, as the `regex` crate finds it; nothing where the pattern does not
/// compile, does not match, or the group takes no part in the match.
pub uninterp spec fn regex_first_capture(pattern: Seq<char>, text: Seq<char>) -> Option<Seq<char>>;

/// What the first capture group holds in each of the successive matches of
/// a pattern in a text that do not overlap, as the `regex` crate finds
/// them; no match where the pattern does not compile.
pub uninterp spec fn regex_captures(pattern: Seq<char>, text: Seq<char>) -> Seq<Option<Seq<char>>>;

/// The views of a sequence of optional strings.
pub open spec fn opt_texts(v: Seq<Option<String>>) -> Seq<Option<Seq<char>>> {
    Seq::new(v.len(), |i: int| opt_text(v[i]))
}

/// Compiles the pattern with `regex::Regex::new`, searches the text with
/// `Regex::captures`, and copies what `Captures::get(1)` holds. The result
/// depends on the pattern and the text alone.
#[verifier::external_body]
pub(crate) fn first_capture(pattern: &str, text: &str) -> (r: Option<String>)
    ensures
        opt_text(r) == regex_first_capture(pattern@, text@),
{
    match regex::Regex::new(pattern) {
        Ok(re) => re.captures(text).and_then(|c| c.get(1)).map(|m| m.as_str().to_string()),
        Err(_) => None,
    }
}

/// Compiles the pattern with `regex::Regex::new`, walks the matches of
/// `Regex::captures_iter`, and copies what `Captures::get(1)` holds in
/// each. The result depends on the pattern and the text alone.
#[verifier::external_body]
pub(crate) fn all_captures(pattern: &str, text: &str) -> (r: Vec<Option<String>>)
    ensures
        opt_texts(r@) == regex_captures(pattern@, text@),
{
    match regex::Regex::new(pattern) {
        Ok(re) => re.captures_iter(text).map(|c| c.get(1).map(|m| m.as_str().to_string())).collect(),
        Err(_) => Vec::new(),
    }
}

/// The pattern of a directive line attached to a declaration.
pub open spec fn directive_pattern() -> Seq<char> {
    r"gloss!:\s*(.+)"@
}

/// The pattern of a directive line for a whole file.
pub open spec fn file_directive_pattern() -> Seq<char> {
    r"//\s*gloss-file!:\s*(.+)"@
}

/// The pattern of `key = "value"`, which captures the value.
pub open spec fn quoted_pattern(key: Seq<char>) -> Seq<char> {
    key + r#"\s*=\s*"([^"]+)""#@
}

/// The pattern of `separate_encoder_decoder = true` or `false`.
pub open spec fn flag_pattern() -> Seq<char> {
    r"separate_encoder_decoder\s*=\s*(true|false)"@
}

/// The value of `key = "value"` in a directive line.
pub open spec fn quoted_value(key: Seq<char>, args: Seq<char>) -> Option<Seq<char>> {
    regex_first_capture(quoted_pattern(key), args)
}

/// The value of `key = "value"` in a directive line.
pub fn find_quoted(key: &str, args: &str) -> (r: Option<String>)
    ensures
        opt_text(r) == quoted_value(key@, args@),
{
    let mut pattern = String::from_str(key);
    pattern.append(r#"\s*=\s*"([^"]+)""#);
    first_capture(pattern.as_str(), args)
}

/// The tokens of a directive line from index `i` on, where the token at
/// hand began at `start`: a comma outside double quotes ends a token, a
/// double quote opens or closes a quoted stretch, and each token stands
/// without the whitespace around it.
pub open spec fn tokens_from(args: Seq<char>, i: int, start: int, quoted: bool) -> Seq<Seq<char>>
    decreases args.len() - i,
{
    if i < 0 || start < 0 || start > i || i >= args.len() {
        if 0 <= start <= args.len() {
            seq![trimmed(args.subrange(start, args.len() as int))]
        } else {
            Seq::empty()
        }
    } else if args[i] == '"' {
        tokens_from(args, i + 1, start, !quoted)
    } else if args[i] == ',' && !quoted {
        seq![trimmed(args.subrange(start, i))] + tokens_from(args, i + 1, i + 1, false)
    } else {
        tokens_from(args, i + 1, start, quoted)
    }
}

/// The tokens of a directive line: what stands between the commas that
/// are outside double quotes, each without the whitespace around it.
pub open spec fn directive_tokens(args: Seq<char>) -> Seq<Seq<char>> {
    tokens_from(args, 0, 0, false)
}

/// The line holds the bare keyword `key`: one of its tokens is exactly
/// that keyword.
pub open spec fn has_keyword(args: Seq<char>, key: Seq<char>) -> bool {
    directive_tokens(args).contains(key)
}

/// Splits a directive line into its tokens.
pub fn split_directive(args: &str) -> (r: Vec<String>)
    ensures
        texts(r@) == directive_tokens(args@),
{
    let v = chars_of(args);
    let n = v.len();
    let mut out: Vec<String> = Vec::new();
    let mut start: usize = 0;
    let mut quoted = false;
    let mut i: usize = 0;
    assert(texts(out@) + tokens_from(v@, 0, 0, false) =~= tokens_from(v@, 0, 0, false));
    while i < n
        invariant
            n == v@.len(),
            start <= i <= n,
            directive_tokens(v@) == texts(out@) + tokens_from(v@, i as int, start as int, quoted),
        decreases n - i,
    {
        let c = v[i];
        if c == '"' {
            quoted = !quoted;
        } else if c == ',' && !quoted {
            let (a, b) = trim_range(&v, start, i);
            let token = string_of_range(&v, a, b);
            let ghost done = texts(out@);
            let ghost rest = tokens_from(v@, i + 1, i + 1, false);
            out.push(token);
            assert(texts(out@) =~= done.push(token@));
            assert(done + (seq![token@] + rest) =~= done.push(token@) + rest);
            start = i + 1;
        }
        i += 1;
    }
    let (a, b) = trim_range(&v, start, n);
    let token = string_of_range(&v, a, b);
    let ghost done = texts(out@);
    out.push(token);
    assert(texts(out@) =~= done + seq![token@]);
    out
}

/// Whether the line holds the bare keyword `key`.
pub fn line_has_keyword(args: &str, key: &str) -> (r: bool)
    ensures
        r == has_keyword(args@, key@),
{
    let tokens = split_directive(args);
    holds_text(&tokens, key)
}

/// The output settings that a directive line holds; none where it holds
/// none of them.
pub open spec fn output_override_in(args: Seq<char>) -> Option<OutputOverrideView> {
    let found = OutputOverrideView {
        directory: quoted_value("output_dir"@, args),
        separate_encoder_decoder: match regex_first_capture(flag_pattern(), args) {
            Some(value) => Some(value == "true"@),
            None => None,
        },
        encode_module_naming: quoted_value("encode_module_naming"@, args),
        decode_module_naming: quoted_value("decode_module_naming"@, args),
        generated_file_naming: quoted_value("generated_file_naming"@, args),
    };
    if found.directory is Some || found.separate_encoder_decoder is Some
        || found.encode_module_naming is Some || found.decode_module_naming is Some
        || found.generated_file_naming is Some {
        Some(found)
    } else {
        None
    }
}

/// Reads the output settings of a directive line.
pub fn parse_output_override(args_str: &str) -> (r: Option<OutputOverride>)
    ensures
        opt_output(r) == output_override_in(args_str@),
{
    let directory = find_quoted("output_dir", args_str);
    let separate_encoder_decoder = match first_capture(
        r"separate_encoder_decoder\s*=\s*(true|false)",
        args_str,
    ) {
        Some(value) => Some(same_text(value.as_str(), "true")),
        None => None,
    };
    let encode_module_naming = find_quoted("encode_module_naming", args_str);
    let decode_module_naming = find_quoted("decode_module_naming", args_str);
    let generated_file_naming = find_quoted("generated_file_naming", args_str);
    if directory.is_some() || separate_encoder_decoder.is_some() || encode_module_naming.is_some()
        || decode_module_naming.is_some() || generated_file_naming.is_some() {
        Some(
            OutputOverride {
                directory,
                separate_encoder_decoder,
                encode_module_naming,
                decode_module_naming,
                generated_file_naming,
            },
        )
    } else {
        None
    }
}

/// Reads the unknown-variant message of a directive line.
pub fn parse_unknown_variant_message(args_str: &str) -> (r: Option<String>)
    ensures
        opt_text(r) == quoted_value("unknown_variant_message"@, args_str@),
{
    find_quoted("unknown_variant_message", args_str)
}

/// The function-naming patterns that a directive line holds; none where
/// it holds neither.
pub open spec fn fn_naming_override_in(args: Seq<char>) -> Option<FnNamingOverrideView> {
    let found = FnNamingOverrideView {
        encoder_function_naming: quoted_value("encoder_fn"@, args),
        decoder_function_naming: quoted_value("decoder_fn"@, args),
    };
    if found.encoder_function_naming is Some || found.decoder_function_naming is Some {
        Some(found)
    } else {
        None
    }
}

/// Reads the function-naming patterns of a directive line.
pub fn parse_fn_naming_override(args_str: &str) -> (r: Option<FnNamingOverride>)
    ensures
        opt_fn_naming(r) == fn_naming_override_in(args_str@),
{
    let encoder_function_naming = find_quoted("encoder_fn", args_str);
    let decoder_function_naming = find_quoted("decoder_fn", args_str);
    if encoder_function_naming.is_some() || decoder_function_naming.is_some() {
        Some(FnNamingOverride { encoder_function_naming, decoder_function_naming })
    } else {
        None
    }
}

/// What the directives of a type ask for.
#[derive(Debug, Clone, Default)]
pub struct TypeAnnotations {
    pub encoders: Vec<EncoderType>,
    pub generate_decoder: bool,
    pub field_naming_strategy: Option<FieldNamingConvention>,
    pub type_tag_field: Option<String>,
    pub disable_type_tag: bool,
    pub output_override: Option<OutputOverride>,
    pub unknown_variant_message: Option<String>,
    pub fn_naming_override: Option<FnNamingOverride>,
}

/// The mathematical value of a [`TypeAnnotations`].
pub struct TypeAnnotationsView {
    pub encoders: Seq<EncoderType>,
    pub generate_decoder: bool,
    pub field_naming_strategy: Option<FieldNamingConvention>,
    pub type_tag_field: Option<Seq<char>>,
    pub disable_type_tag: bool,
    pub output_override: Option<OutputOverrideView>,
    pub unknown_variant_message: Option<Seq<char>>,
    pub fn_naming_override: Option<FnNamingOverrideView>,
}

impl View for TypeAnnotations {
    type V = TypeAnnotationsView;

    open spec fn view(&self) -> TypeAnnotationsView {
        TypeAnnotationsView {
            encoders: self.encoders@,
            generate_decoder: self.generate_decoder,
            field_naming_strategy: self.field_naming_strategy,
            type_tag_field: opt_text(self.type_tag_field),
            disable_type_tag: self.disable_type_tag,
            output_override: opt_output(self.output_override),
            unknown_variant_message: opt_text(self.unknown_variant_message),
            fn_naming_override: opt_fn_naming(self.fn_naming_override),
        }
    }
}

/// What no directive asks for.
pub open spec fn no_type_annotations() -> TypeAnnotationsView {
    TypeAnnotationsView {
        encoders: Seq::empty(),
        generate_decoder: false,
        field_naming_strategy: None,
        type_tag_field: None,
        disable_type_tag: false,
        output_override: None,
        unknown_variant_message: None,
        fn_naming_override: None,
    }
}

/// `over` where it is set, else `base`.
pub open spec fn or_else<T>(over: Option<T>, base: Option<T>) -> Option<T> {
    if over is Some {
        over
    } else {
        base
    }
}

/// What a type's directives ask for once one more directive line is read.
/// A bare keyword counts where a token of the line is exactly that keyword:
/// `encoder(json)` or `encoder(JSON)` adds an encoder, `decoder` asks for
/// the decoder, `snake_case` and `camelCase` choose the naming (the second
/// wins), `no_type_tag` turns the tag off. Each value that the line holds
/// replaces the one read before.
pub open spec fn type_directive(acc: TypeAnnotationsView, args: Seq<char>) -> TypeAnnotationsView {
    TypeAnnotationsView {
        encoders: if has_keyword(args, "encoder(json)"@) || has_keyword(args, "encoder(JSON)"@) {
            acc.encoders.push(EncoderType::Json)
        } else {
            acc.encoders
        },
        generate_decoder: acc.generate_decoder || has_keyword(args, "decoder"@),
        field_naming_strategy: if has_keyword(args, "camelCase"@) {
            Some(FieldNamingConvention::CamelCase)
        } else if has_keyword(args, "snake_case"@) {
            Some(FieldNamingConvention::SnakeCase)
        } else {
            acc.field_naming_strategy
        },
        type_tag_field: or_else(quoted_value("type_tag"@, args), acc.type_tag_field),
        disable_type_tag: acc.disable_type_tag || has_keyword(args, "no_type_tag"@),
        output_override: or_else(output_override_in(args), acc.output_override),
        unknown_variant_message: or_else(
            quoted_value("unknown_variant_message"@, args),
            acc.unknown_variant_message,
        ),
        fn_naming_override: or_else(fn_naming_override_in(args), acc.fn_naming_override),
    }
}

/// What the directive lines of a type ask for, read in order.
pub open spec fn type_annotations_of(lines: Seq<Option<Seq<char>>>) -> TypeAnnotationsView
    decreases lines.len(),
{
    if lines.len() == 0 {
        no_type_annotations()
    } else {
        let acc = type_annotations_of(lines.drop_last());
        match lines.last() {
            Some(args) => type_directive(acc, args),
            None => acc,
        }
    }
}

/// What the directives in a comment ask of a type.
pub open spec fn type_annotations_in(text: Seq<char>) -> TypeAnnotationsView {
    type_annotations_of(regex_captures(directive_pattern(), text))
}

/// Reads one directive line of a type into what was read before.
pub fn apply_type_directive(annotations: TypeAnnotations, args_str: &str) -> (r: TypeAnnotations)
    ensures
        r@ == type_directive(annotations@, args_str@),
{
    let mut annotations = annotations;
    let tokens = split_directive(args_str);
    if holds_text(&tokens, "encoder(json)") || holds_text(&tokens, "encoder(JSON)") {
        annotations.encoders.push(EncoderType::Json);
    }
    if holds_text(&tokens, "decoder") {
        annotations.generate_decoder = true;
    }
    if holds_text(&tokens, "snake_case") {
        annotations.field_naming_strategy = Some(FieldNamingConvention::SnakeCase);
    }
    if holds_text(&tokens, "camelCase") {
        annotations.field_naming_strategy = Some(FieldNamingConvention::CamelCase);
    }
    if let Some(tag) = find_quoted("type_tag", args_str) {
        annotations.type_tag_field = Some(tag);
    }
    if holds_text(&tokens, "no_type_tag") {
        annotations.disable_type_tag = true;
    }
    if let Some(output_override) = parse_output_override(args_str) {
        annotations.output_override = Some(output_override);
    }
    if let Some(message) = parse_unknown_variant_message(args_str) {
        annotations.unknown_variant_message = Some(message);
    }
    if let Some(naming_override) = parse_fn_naming_override(args_str) {
        annotations.fn_naming_override = Some(naming_override);
    }
    annotations
}

/// Reads the directives of a type from the comment attached to it.
pub fn parse_gloss_annotations(text: &str) -> (r: TypeAnnotations)
    ensures
        r@ == type_annotations_in(text@),
{
    let lines = all_captures(r"gloss!:\s*(.+)", text);
    let mut annotations = TypeAnnotations {
        encoders: Vec::new(),
        generate_decoder: false,
        field_naming_strategy: None,
        type_tag_field: None,
        disable_type_tag: false,
        output_override: None,
        unknown_variant_message: None,
        fn_naming_override: None,
    };
    let ghost all = opt_texts(lines@);
    let mut i: usize = 0;
    assert(all.subrange(0, 0) =~= Seq::<Option<Seq<char>>>::empty());
    assert(annotations@.encoders =~= Seq::<EncoderType>::empty());
    while i < lines.len()
        invariant
            i <= lines@.len(),
            all == opt_texts(lines@),
            annotations@ == type_annotations_of(all.subrange(0, i as int)),
        decreases lines@.len() - i,
    {
        assert(all.subrange(0, i + 1).drop_last() =~= all.subrange(0, i as int));
        assert(all.subrange(0, i + 1).last() == opt_text(lines@[i as int]));
        if let Some(args) = &lines[i] {
            annotations = apply_type_directive(annotations, args.as_str());
        }
        i += 1;
    }
    assert(all.subrange(0, i as int) =~= all);
    annotations
}

/// What the directives of a field ask for.
#[derive(Debug, Clone)]
pub struct FieldAnnotations {
    pub marker: FieldMarker,
    pub custom_name: Option<String>,
    pub decoder_with: Option<String>,
    pub encoder_with: Option<String>,
}

/// The mathematical value of a [`FieldAnnotations`].
pub struct FieldAnnotationsView {
    pub marker: FieldMarker,
    pub custom_name: Option<Seq<char>>,
    pub decoder_with: Option<Seq<char>>,
    pub encoder_with: Option<Seq<char>>,
}

impl View for FieldAnnotations {
    type V = FieldAnnotationsView;

    open spec fn view(&self) -> FieldAnnotationsView {
        FieldAnnotationsView {
            marker: self.marker,
            custom_name: opt_text(self.custom_name),
            decoder_with: opt_text(self.decoder_with),
            encoder_with: opt_text(self.encoder_with),
        }
    }
}

impl Default for FieldAnnotations {
    fn default() -> (r: Self)
        ensures
            r@ == no_field_annotations(),
    {
        FieldAnnotations {
            marker: FieldMarker::Default,
            custom_name: None,
            decoder_with: None,
            encoder_with: None,
        }
    }
}

/// What no directive asks for.
pub open spec fn no_field_annotations() -> FieldAnnotationsView {
    FieldAnnotationsView {
        marker: FieldMarker::Default,
        custom_name: None,
        decoder_with: None,
        encoder_with: None,
    }
}

/// A directive line lets the field be absent: it holds the keyword
/// `maybe_absent` or `optional`.
pub open spec fn marks_optional(args: Seq<char>) -> bool {
    has_keyword(args, "maybe_absent"@) || has_keyword(args, "optional"@)
}

/// A directive line demands the field: it holds the keyword `must_exist`,
/// `required` or `error_if_absent`.
pub open spec fn marks_required(args: Seq<char>) -> bool {
    has_keyword(args, "must_exist"@) || has_keyword(args, "required"@) || has_keyword(
        args,
        "error_if_absent"@,
    )
}

/// What a field's directives ask for once one more directive line is
/// read. A line that both lets the field be absent and demands it lets it
/// be absent.
pub open spec fn field_directive(acc: FieldAnnotationsView, args: Seq<char>) -> FieldAnnotationsView {
    FieldAnnotationsView {
        marker: if marks_optional(args) {
            FieldMarker::Optional
        } else if marks_required(args) {
            FieldMarker::Required
        } else {
            acc.marker
        },
        custom_name: or_else(quoted_value("rename"@, args), acc.custom_name),
        decoder_with: or_else(quoted_value("decoder_with"@, args), acc.decoder_with),
        encoder_with: or_else(quoted_value("encoder_with"@, args), acc.encoder_with),
    }
}

/// What the directive lines of a field ask for, read in order.
pub open spec fn field_annotations_of(lines: Seq<Option<Seq<char>>>) -> FieldAnnotationsView
    decreases lines.len(),
{
    if lines.len() == 0 {
        no_field_annotations()
    } else {
        let acc = field_annotations_of(lines.drop_last());
        match lines.last() {
            Some(args) => field_directive(acc, args),
            None => acc,
        }
    }
}

/// What the directives in a comment ask of a field.
pub open spec fn field_annotations_in(text: Seq<char>) -> FieldAnnotationsView {
    field_annotations_of(regex_captures(directive_pattern(), text))
}

/// Reads one directive line of a field into what was read before.
pub fn apply_field_directive(annotations: FieldAnnotations, args_str: &str) -> (r: FieldAnnotations)
    ensures
        r@ == field_directive(annotations@, args_str@),
{
    let mut annotations = annotations;
    let tokens = split_directive(args_str);
    if holds_text(&tokens, "maybe_absent") || holds_text(&tokens, "optional") {
        annotations.marker = FieldMarker::Optional;
    } else if holds_text(&tokens, "must_exist") || holds_text(&tokens, "required") || holds_text(
        &tokens,
        "error_if_absent",
    ) {
        annotations.marker = FieldMarker::Required;
    }
    if let Some(name) = find_quoted("rename", args_str) {
        annotations.custom_name = Some(name);
    }
    if let Some(value) = find_quoted("decoder_with", args_str) {
        annotations.decoder_with = Some(value);
    }
    if let Some(value) = find_quoted("encoder_with", args_str) {
        annotations.encoder_with = Some(value);
    }
    annotations
}

/// Reads the directives of a field from the comment attached to it.
pub fn parse_field_annotations(text: &str) -> (r: FieldAnnotations)
    ensures
        r@ == field_annotations_in(text@),
{
    let lines = all_captures(r"gloss!:\s*(.+)", text);
    let mut annotations = FieldAnnotations::default();
    let ghost all = opt_texts(lines@);
    let mut i: usize = 0;
    assert(all.subrange(0, 0) =~= Seq::<Option<Seq<char>>>::empty());
    while i < lines.len()
        invariant
            i <= lines@.len(),
            all == opt_texts(lines@),
            annotations@ == field_annotations_of(all.subrange(0, i as int)),
        decreases lines@.len() - i,
    {
        assert(all.subrange(0, i + 1).drop_last() =~= all.subrange(0, i as int));
        assert(all.subrange(0, i + 1).last() == opt_text(lines@[i as int]));
        if let Some(args) = &lines[i] {
            annotations = apply_field_directive(annotations, args.as_str());
        }
        i += 1;
    }
    assert(all.subrange(0, i as int) =~= all);
    annotations
}

/// The mathematical value of a [`FileConfig`].
pub struct FileConfigView {
    pub output_override: Option<OutputOverrideView>,
    pub unknown_variant_message: Option<Seq<char>>,
    pub fn_naming_override: Option<FnNamingOverrideView>,
}

/// The value of the directives of a file.
pub open spec fn file_config_view(c: FileConfig) -> FileConfigView {
    FileConfigView {
        output_override: opt_output(c.output_override),
        unknown_variant_message: opt_text(c.unknown_variant_message),
        fn_naming_override: opt_fn_naming(c.fn_naming_override),
    }
}

/// What a file's directives ask for once one more directive line is read:
/// each value that the line holds replaces the one read before.
pub open spec fn file_directive(acc: FileConfigView, args: Seq<char>) -> FileConfigView {
    FileConfigView {
        output_override: or_else(output_override_in(args), acc.output_override),
        unknown_variant_message: or_else(
            quoted_value("unknown_variant_message"@, args),
            acc.unknown_variant_message,
        ),
        fn_naming_override: or_else(fn_naming_override_in(args), acc.fn_naming_override),
    }
}

/// Reads one directive line of a file into what was read before.
pub fn apply_file_directive(file_config: FileConfig, args_str: &str) -> (r: FileConfig)
    ensures
        file_config_view(r) == file_directive(file_config_view(file_config), args_str@),
{
    let mut file_config = file_config;
    if let Some(output_override) = parse_output_override(args_str) {
        file_config.output_override = Some(output_override);
    }
    if let Some(message) = parse_unknown_variant_message(args_str) {
        file_config.unknown_variant_message = Some(message);
    }
    if let Some(naming_override) = parse_fn_naming_override(args_str) {
        file_config.fn_naming_override = Some(naming_override);
    }
    file_config
}

/// What the file-level directive lines ask for, read in order.
pub open spec fn file_config_of(lines: Seq<Option<Seq<char>>>) -> FileConfigView
    decreases lines.len(),
{
    if lines.len() == 0 {
        FileConfigView {
            output_override: None,
            unknown_variant_message: None,
            fn_naming_override: None,
        }
    } else {
        let acc = file_config_of(lines.drop_last());
        match lines.last() {
            Some(args) => file_directive(acc, args),
            None => acc,
        }
    }
}

/// Reads the directives for a whole file from its source.
pub fn parse_file_level_config(source: &str) -> (r: FileConfig)
    ensures
        file_config_view(r) == file_config_of(regex_captures(file_directive_pattern(), source@)),
{
    let lines = all_captures(r"//\s*gloss-file!:\s*(.+)", source);
    let mut file_config = FileConfig {
        output_override: None,
        unknown_variant_message: None,
        fn_naming_override: None,
    };
    let ghost all = opt_texts(lines@);
    let mut i: usize = 0;
    assert(all.subrange(0, 0) =~= Seq::<Option<Seq<char>>>::empty());
    while i < lines.len()
        invariant
            i <= lines@.len(),
            all == opt_texts(lines@),
            file_config_view(file_config) == file_config_of(all.subrange(0, i as int)),
        decreases lines@.len() - i,
    {
        assert(all.subrange(0, i + 1).drop_last() =~= all.subrange(0, i as int));
        assert(all.subrange(0, i + 1).last() == opt_text(lines@[i as int]));
        if let Some(args) = &lines[i] {
            file_config = apply_file_directive(file_config, args.as_str());
        }
        i += 1;
    }
    assert(all.subrange(0, i as int) =~= all);
    file_config
}

} // verus!
