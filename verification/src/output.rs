//! Units of generated code: the code of the types that share an output
//! destination, with the imports the code needs, and the text of the files
//! made from a unit.

use crate::config::{copy_opt, OutputConfig, OutputConfigView};
use crate::imports::{add_type_import, with_type_import, ImportEntry, ImportEntryView, ImportMap};
use crate::ordered::{copy_texts, sort_distinct, sorted_distinct};
use crate::parser::PathMode;
use crate::text::{join, joined, last_segment, opt_text, same_text, texts};
use vstd::prelude::*;
use vstd::string::*;

verus! {

/// The code generated for one type.
#[derive(Debug, Clone)]
pub struct TypeCode {
    /// The type's name.
    pub name: String,
    /// The path of the module that declares the type.
    pub module: String,
    /// The names of the type's constructors.
    pub constructors: Vec<String>,
    pub decoder: Option<String>,
    pub encoder: Option<String>,
}

/// The mathematical value of a [`TypeCode`].
pub struct TypeCodeView {
    pub name: Seq<char>,
    pub module: Seq<char>,
    pub constructors: Seq<Seq<char>>,
    pub decoder: Option<Seq<char>>,
    pub encoder: Option<Seq<char>>,
}

impl View for TypeCode {
    type V = TypeCodeView;

    open spec fn view(&self) -> TypeCodeView {
        TypeCodeView {
            name: self.name@,
            module: self.module@,
            constructors: texts(self.constructors@),
            decoder: opt_text(self.decoder),
            encoder: opt_text(self.encoder),
        }
    }
}

impl TypeCode {
    /// A copy of this code.
    pub fn duplicate(&self) -> (r: Self)
        ensures
            r@ == self@,
    {
        TypeCode {
            name: self.name.clone(),
            module: self.module.clone(),
            constructors: copy_texts(&self.constructors),
            decoder: copy_opt(&self.decoder),
            encoder: copy_opt(&self.encoder),
        }
    }
}

/// A backend that a unit's encoders were generated with: its identifier
/// and the import lines it asks for.
#[derive(Debug, Clone, PartialEq, Eq)]
pub struct UsedBackend {
    pub name: String,
    pub module_imports: Vec<String>,
}

/// The mathematical value of a [`UsedBackend`].
pub struct UsedBackendView {
    pub name: Seq<char>,
    pub module_imports: Seq<Seq<char>>,
}

impl View for UsedBackend {
    type V = UsedBackendView;

    open spec fn view(&self) -> UsedBackendView {
        UsedBackendView { name: self.name@, module_imports: texts(self.module_imports@) }
    }
}

impl UsedBackend {
    /// A copy of this record.
    pub fn duplicate(&self) -> (r: Self)
        ensures
            r@ == self@,
    {
        UsedBackend { name: self.name.clone(), module_imports: copy_texts(&self.module_imports) }
    }
}

/// The views of a sequence of type codes.
pub open spec fn code_views(types: Seq<TypeCode>) -> Seq<TypeCodeView> {
    Seq::new(types.len(), |i: int| types[i]@)
}

/// The views of a sequence of used backends.
pub open spec fn backend_views(backends: Seq<UsedBackend>) -> Seq<UsedBackendView> {
    Seq::new(backends.len(), |i: int| backends[i]@)
}

/// Whether a backend of that name is among the used ones.
pub open spec fn uses_backend(backends: Seq<UsedBackendView>, name: Seq<char>) -> bool {
    exists|i: int| 0 <= i < backends.len() && (#[trigger] backends[i]).name == name
}

/// The used backends with `b`, unless one of its name is among them.
pub open spec fn with_used_backend(backends: Seq<UsedBackendView>, b: UsedBackendView) -> Seq<
    UsedBackendView,
> {
    if uses_backend(backends, b.name) {
        backends
    } else {
        backends.push(b)
    }
}

/// The used backends with each of `more`, in order.
pub open spec fn with_used_backends(backends: Seq<UsedBackendView>, more: Seq<UsedBackendView>) -> Seq<
    UsedBackendView,
>
    decreases more.len(),
{
    if more.len() == 0 {
        backends
    } else {
        with_used_backend(with_used_backends(backends, more.drop_last()), more.last())
    }
}

/// Adds a backend to the used ones unless one of its name is among them.
pub fn note_backend(backends: &mut Vec<UsedBackend>, b: UsedBackend)
    ensures
        backend_views(final(backends)@) == with_used_backend(backend_views(old(backends)@), b@),
{
    let mut i: usize = 0;
    while i < backends.len()
        invariant
            backends@ == old(backends)@,
            i <= backends@.len(),
            forall|k: int| 0 <= k < i ==> (#[trigger] backend_views(backends@)[k]).name != b@.name,
        decreases backends@.len() - i,
    {
        if same_text(backends[i].name.as_str(), b.name.as_str()) {
            assert(backend_views(backends@)[i as int].name == b@.name);
            return;
        }
        i += 1;
    }
    let ghost before = backend_views(backends@);
    backends.push(b);
    assert(backend_views(backends@) =~= before.push(b@));
}

/// Adds each of `more` to the used backends.
pub fn note_backends(backends: &mut Vec<UsedBackend>, more: &Vec<UsedBackend>)
    ensures
        backend_views(final(backends)@) == with_used_backends(
            backend_views(old(backends)@),
            backend_views(more@),
        ),
{
    let mut i: usize = 0;
    assert(backend_views(more@).subrange(0, 0) =~= Seq::<UsedBackendView>::empty());
    while i < more.len()
        invariant
            i <= more@.len(),
            backend_views(backends@) == with_used_backends(
                backend_views(old(backends)@),
                backend_views(more@).subrange(0, i as int),
            ),
        decreases more@.len() - i,
    {
        assert(backend_views(more@).subrange(0, i + 1).drop_last() =~= backend_views(
            more@,
        ).subrange(0, i as int));
        note_backend(backends, more[i].duplicate());
        i += 1;
    }
    assert(backend_views(more@).subrange(0, i as int) =~= backend_views(more@));
}

/// The code of the types of one file that share an output destination.
#[derive(Debug, Clone)]
pub struct GeneratedCode {
    /// The types with their code, in the order of their declaration.
    pub types: Vec<TypeCode>,
    /// The output configuration in force for these types.
    pub output_config: OutputConfig,
    /// What the output directory is relative to.
    pub path_mode: PathMode,
    /// The imports that the code needs beside the standard ones.
    pub custom_imports: ImportMap,
    /// The backends that the encoders were generated with.
    pub encoder_backends: Vec<UsedBackend>,
    /// Whether a decoder of the unit needs the option helpers.
    pub decoder_uses_option_helpers: bool,
}

/// The mathematical value of a [`GeneratedCode`].
pub struct GeneratedCodeView {
    pub types: Seq<TypeCodeView>,
    pub output_config: OutputConfigView,
    pub path_mode: PathMode,
    pub custom_imports: Seq<ImportEntryView>,
    pub encoder_backends: Seq<UsedBackendView>,
    pub decoder_uses_option_helpers: bool,
}

impl View for GeneratedCode {
    type V = GeneratedCodeView;

    open spec fn view(&self) -> GeneratedCodeView {
        GeneratedCodeView {
            types: code_views(self.types@),
            output_config: self.output_config@,
            path_mode: self.path_mode,
            custom_imports: self.custom_imports@,
            encoder_backends: backend_views(self.encoder_backends@),
            decoder_uses_option_helpers: self.decoder_uses_option_helpers,
        }
    }
}

/// The comment at the head of every generated file.
pub open spec fn header_comment() -> Seq<char> {
    "// This file was generated by gloss\n// https://github.com/abs0luty/gloss\n//\n// Do not modify this file directly.\n// Any changes will be overwritten when gloss regenerates this file."@
}

/// The comment at the head of every generated file.
pub fn generate_header_comment() -> (r: String)
    ensures
        r@ == header_comment(),
{
    String::from_str(
        "// This file was generated by gloss\n// https://github.com/abs0luty/gloss\n//\n// Do not modify this file directly.\n// Any changes will be overwritten when gloss regenerates this file.",
    )
}

/// The import lines of all used backends, in order.
pub open spec fn backend_imports(backends: Seq<UsedBackendView>) -> Seq<Seq<char>>
    decreases backends.len(),
{
    if backends.len() == 0 {
        Seq::empty()
    } else {
        backend_imports(backends.drop_last()) + backends.last().module_imports
    }
}

/// The standard import lines before they are put in order: the decoding
/// module for decoders, with the option module where the option helpers
/// are needed, and the lines of the used backends for encoders.
pub open spec fn standard_imports(
    has_decoder: bool,
    decoder_uses_option_helpers: bool,
    has_encoder: bool,
    backends: Option<Seq<UsedBackendView>>,
) -> Seq<Seq<char>> {
    let decode = if has_decoder {
        if decoder_uses_option_helpers {
            seq!["import gleam/dynamic/decode"@, "import gleam/option"@]
        } else {
            seq!["import gleam/dynamic/decode"@]
        }
    } else {
        Seq::empty()
    };
    match backends {
        Some(bs) => if has_encoder {
            decode + backend_imports(bs)
        } else {
            decode
        },
        None => decode,
    }
}

/// What an import exposes without qualification: the types, each behind
/// the word `type`, then the values.
pub open spec fn exposures(e: ImportEntryView) -> Seq<Seq<char>> {
    Seq::new(e.types.len(), |i: int| "type "@ + e.types[i]) + e.values
}

/// The line that imports a module: the path, the exposures in braces where
/// there are any, and the alias where it is not the path's last segment.
pub open spec fn import_line(e: ImportEntryView) -> Seq<char> {
    let path = "import "@ + e.module;
    let exposed = if exposures(e).len() > 0 {
        path + ".{"@ + joined(exposures(e), ", "@) + "}"@
    } else {
        path
    };
    if e.alias != last_segment(e.module, '/') {
        exposed + " as "@ + e.alias
    } else {
        exposed
    }
}

/// The lines that import the modules of `imports`, in order.
pub open spec fn import_lines(imports: Seq<ImportEntryView>) -> Seq<Seq<char>> {
    Seq::new(imports.len(), |i: int| import_line(imports[i]))
}

/// The import block of a file: the standard lines in order and without
/// repetition, then the lines of the other imports, one line each.
pub open spec fn import_block(
    has_decoder: bool,
    decoder_uses_option_helpers: bool,
    has_encoder: bool,
    backends: Option<Seq<UsedBackendView>>,
    custom_imports: Seq<ImportEntryView>,
) -> Seq<char> {
    joined(
        sorted_distinct(
            standard_imports(has_decoder, decoder_uses_option_helpers, has_encoder, backends),
        ) + import_lines(custom_imports),
        "\n"@,
    )
}

/// The line that imports a module.
pub fn render_import_line(entry: &ImportEntry) -> (r: String)
    ensures
        r@ == import_line(entry@),
{
    let mut line = String::from_str("import ");
    line.append(entry.module.as_str());
    let mut exposed: Vec<String> = Vec::new();
    let mut i: usize = 0;
    while i < entry.types.len()
        invariant
            i <= entry.types@.len(),
            exposed@.len() == i,
            forall|k: int| 0 <= k < i ==> exposed@[k]@ == "type "@ + entry.types@[k]@,
        decreases entry.types@.len() - i,
    {
        let mut t = String::from_str("type ");
        t.append(entry.types[i].as_str());
        exposed.push(t);
        i += 1;
    }
    let ghost type_part = texts(exposed@);
    assert(type_part =~= Seq::new(entry@.types.len(), |i: int| "type "@ + entry@.types[i]));
    let mut k: usize = 0;
    assert(texts(exposed@) =~= type_part + texts(entry.values@).subrange(0, 0));
    while k < entry.values.len()
        invariant
            k <= entry.values@.len(),
            texts(exposed@) == type_part + texts(entry.values@).subrange(0, k as int),
        decreases entry.values@.len() - k,
    {
        let ghost before = texts(exposed@);
        let v = entry.values[k].clone();
        exposed.push(v);
        assert(texts(exposed@) =~= before.push(v@));
        assert(before.push(v@) =~= type_part + texts(entry.values@).subrange(0, k + 1));
        k += 1;
    }
    assert(texts(entry.values@).subrange(0, k as int) =~= texts(entry.values@));
    assert(texts(exposed@) =~= exposures(entry@));
    if exposed.len() > 0 {
        line.append(".{");
        line.append(join(&exposed, ", ").as_str());
        line.append("}");
    }
    let segment = crate::text::last_segment_of(entry.module.as_str(), '/');
    if !same_text(entry.alias.as_str(), segment.as_str()) {
        line.append(" as ");
        line.append(entry.alias.as_str());
    }
    line
}

/// Appends the strings of `more` to `list`.
fn append_texts(list: &mut Vec<String>, more: &Vec<String>)
    ensures
        texts(final(list)@) == texts(old(list)@) + texts(more@),
{
    let mut i: usize = 0;
    assert(texts(list@) =~= texts(old(list)@) + texts(more@).subrange(0, 0));
    while i < more.len()
        invariant
            i <= more@.len(),
            texts(list@) == texts(old(list)@) + texts(more@).subrange(0, i as int),
        decreases more@.len() - i,
    {
        let ghost before = texts(list@);
        let v = more[i].clone();
        list.push(v);
        assert(texts(list@) =~= before.push(v@));
        assert(before.push(v@) =~= texts(old(list)@) + texts(more@).subrange(0, i + 1));
        i += 1;
    }
    assert(texts(more@).subrange(0, i as int) =~= texts(more@));
}

/// The import block of a file.
pub fn generate_imports(
    has_decoder: bool,
    decoder_uses_option_helpers: bool,
    has_encoder: bool,
    encoder_backends: Option<&Vec<UsedBackend>>,
    custom_imports: &ImportMap,
) -> (r: String)
    ensures
        r@ == import_block(
            has_decoder,
            decoder_uses_option_helpers,
            has_encoder,
            match encoder_backends {
                Some(bs) => Some(backend_views(bs@)),
                None => None,
            },
            custom_imports@,
        ),
{
    let mut standard: Vec<String> = Vec::new();
    if has_decoder {
        standard.push(String::from_str("import gleam/dynamic/decode"));
        if decoder_uses_option_helpers {
            standard.push(String::from_str("import gleam/option"));
        }
    }
    let ghost decode = texts(standard@);
    assert(decode =~= standard_imports(has_decoder, decoder_uses_option_helpers, false, None));
    if has_encoder {
        if let Some(backends) = encoder_backends {
            let mut i: usize = 0;
            assert(backend_views(backends@).subrange(0, 0) =~= Seq::<UsedBackendView>::empty());
            assert(texts(standard@) =~= decode + backend_imports(
                backend_views(backends@).subrange(0, 0),
            ));
            while i < backends.len()
                invariant
                    i <= backends@.len(),
                    texts(standard@) == decode + backend_imports(
                        backend_views(backends@).subrange(0, i as int),
                    ),
                decreases backends@.len() - i,
            {
                let ghost before = backend_imports(backend_views(backends@).subrange(0, i as int));
                assert(backend_views(backends@).subrange(0, i + 1).drop_last() =~= backend_views(
                    backends@,
                ).subrange(0, i as int));
                append_texts(&mut standard, &backends[i].module_imports);
                assert(decode + before + texts(backends@[i as int].module_imports@) =~= decode + (
                before + texts(backends@[i as int].module_imports@)));
                i += 1;
            }
            assert(backend_views(backends@).subrange(0, i as int) =~= backend_views(backends@));
        }
    }
    let mut lines = sort_distinct(&standard);
    let entries = custom_imports.values();
    let ghost sorted = texts(lines@);
    let mut k: usize = 0;
    assert(texts(lines@) =~= sorted + import_lines(custom_imports@).subrange(0, 0));
    while k < entries.len()
        invariant
            k <= entries@.len(),
            entries@.len() == custom_imports@.len(),
            forall|w: int| 0 <= w < entries@.len() ==> entries@[w]@ == custom_imports@[w],
            texts(lines@) == sorted + import_lines(custom_imports@).subrange(0, k as int),
        decreases entries@.len() - k,
    {
        let ghost before = texts(lines@);
        let line = render_import_line(&entries[k]);
        lines.push(line);
        assert(texts(lines@) =~= before.push(line@));
        assert(before.push(line@) =~= sorted + import_lines(custom_imports@).subrange(0, k + 1));
        k += 1;
    }
    assert(import_lines(custom_imports@).subrange(0, k as int) =~= import_lines(custom_imports@));
    join(&lines, "\n")
}

/// The imports of a unit with each of its types imported without
/// qualification.
pub open spec fn with_type_imports(imports: Seq<ImportEntryView>, types: Seq<TypeCodeView>) -> Seq<
    ImportEntryView,
>
    decreases types.len(),
{
    if types.len() == 0 {
        imports
    } else {
        let t = types.last();
        with_type_import(
            with_type_imports(imports, types.drop_last()),
            t.module,
            t.name,
            t.constructors,
        )
    }
}

/// The imports that a file of the unit needs beside the standard ones:
/// the unit's own, and its types where the file stands apart from their
/// module.
pub open spec fn import_map_of(g: GeneratedCodeView, include_type_imports: bool) -> Seq<
    ImportEntryView,
> {
    if include_type_imports {
        with_type_imports(g.custom_imports, g.types)
    } else {
        g.custom_imports
    }
}

/// `text` with the import block and an empty line behind it, where
/// imports are wanted and the block is not empty.
pub open spec fn with_import_block(text: Seq<char>, wanted: bool, block: Seq<char>) -> Seq<char> {
    if wanted && block.len() > 0 {
        text + block + "\n\n"@
    } else {
        text
    }
}

/// `text` with the decoders of the types behind it, an empty line after each.
pub open spec fn with_decoders(text: Seq<char>, types: Seq<TypeCodeView>) -> Seq<char>
    decreases types.len(),
{
    if types.len() == 0 {
        text
    } else {
        let head = with_decoders(text, types.drop_last());
        match types.last().decoder {
            Some(d) => head + d + "\n\n"@,
            None => head,
        }
    }
}

/// `text` with the encoders of the types behind it, an empty line after each.
pub open spec fn with_encoders(text: Seq<char>, types: Seq<TypeCodeView>) -> Seq<char>
    decreases types.len(),
{
    if types.len() == 0 {
        text
    } else {
        let head = with_encoders(text, types.drop_last());
        match types.last().encoder {
            Some(e) => head + e + "\n\n"@,
            None => head,
        }
    }
}

/// `text` with, for each type, its decoder and then its encoder behind it.
pub open spec fn with_codecs(text: Seq<char>, types: Seq<TypeCodeView>) -> Seq<char>
    decreases types.len(),
{
    if types.len() == 0 {
        text
    } else {
        let head = with_codecs(text, types.drop_last());
        let decoded = match types.last().decoder {
            Some(d) => head + d + "\n\n"@,
            None => head,
        };
        match types.last().encoder {
            Some(e) => decoded + e + "\n\n"@,
            None => decoded,
        }
    }
}

/// A type of the unit has a decoder.
pub open spec fn any_decoder(types: Seq<TypeCodeView>) -> bool {
    exists|i: int| 0 <= i < types.len() && (#[trigger] types[i]).decoder is Some
}

/// A type of the unit has an encoder.
pub open spec fn any_encoder(types: Seq<TypeCodeView>) -> bool {
    exists|i: int| 0 <= i < types.len() && (#[trigger] types[i]).encoder is Some
}

/// The backends to import for a unit's encoders: none where none was used.
pub open spec fn backends_to_import(g: GeneratedCodeView) -> Option<Seq<UsedBackendView>> {
    if g.encoder_backends.len() == 0 {
        None
    } else {
        Some(g.encoder_backends)
    }
}

/// The text of a unit's decoder file.
pub open spec fn decoder_file(g: GeneratedCodeView, has_imports: bool, include_type_imports: bool) -> Seq<
    char,
> {
    with_decoders(
        with_import_block(
            header_comment() + "\n\n"@,
            has_imports,
            import_block(
                true,
                g.decoder_uses_option_helpers,
                false,
                None,
                import_map_of(g, include_type_imports),
            ),
        ),
        g.types,
    )
}

/// The text of a unit's encoder file.
pub open spec fn encoder_file(g: GeneratedCodeView, has_imports: bool, include_type_imports: bool) -> Seq<
    char,
> {
    with_encoders(
        with_import_block(
            header_comment() + "\n\n"@,
            has_imports,
            import_block(
                false,
                false,
                true,
                backends_to_import(g),
                import_map_of(g, include_type_imports),
            ),
        ),
        g.types,
    )
}

/// The text of a unit's combined file.
pub open spec fn combined_file(g: GeneratedCodeView, has_imports: bool, include_type_imports: bool) -> Seq<
    char,
> {
    with_codecs(
        with_import_block(
            header_comment() + "\n\n"@,
            has_imports && (any_decoder(g.types) || any_encoder(g.types)),
            import_block(
                any_decoder(g.types),
                g.decoder_uses_option_helpers,
                any_encoder(g.types),
                if any_encoder(g.types) {
                    backends_to_import(g)
                } else {
                    None
                },
                import_map_of(g, include_type_imports),
            ),
        ),
        g.types,
    )
}

impl GeneratedCode {
    /// A copy of this unit.
    pub fn duplicate(&self) -> (r: Self)
        ensures
            r@ == self@,
    {
        let mut types: Vec<TypeCode> = Vec::new();
        let mut i: usize = 0;
        while i < self.types.len()
            invariant
                i <= self.types@.len(),
                types@.len() == i,
                forall|k: int| 0 <= k < i ==> types@[k]@ == self.types@[k]@,
            decreases self.types@.len() - i,
        {
            types.push(self.types[i].duplicate());
            i += 1;
        }
        let mut backends: Vec<UsedBackend> = Vec::new();
        let mut k: usize = 0;
        while k < self.encoder_backends.len()
            invariant
                k <= self.encoder_backends@.len(),
                backends@.len() == k,
                forall|w: int| 0 <= w < k ==> backends@[w]@ == self.encoder_backends@[w]@,
            decreases self.encoder_backends@.len() - k,
        {
            backends.push(self.encoder_backends[k].duplicate());
            k += 1;
        }
        assert(code_views(types@) =~= code_views(self.types@));
        assert(backend_views(backends@) =~= backend_views(self.encoder_backends@));
        GeneratedCode {
            types,
            output_config: self.output_config.duplicate(),
            path_mode: self.path_mode,
            custom_imports: self.custom_imports.duplicate(),
            encoder_backends: backends,
            decoder_uses_option_helpers: self.decoder_uses_option_helpers,
        }
    }

    /// The imports that a file of the unit needs beside the standard ones.
    pub fn build_import_map(&self, include_type_imports: bool) -> (r: ImportMap)
        ensures
            r@ == import_map_of(self@, include_type_imports),
    {
        let mut imports = self.custom_imports.duplicate();
        if include_type_imports {
            let mut i: usize = 0;
            assert(self@.types.subrange(0, 0) =~= Seq::<TypeCodeView>::empty());
            while i < self.types.len()
                invariant
                    i <= self.types@.len(),
                    imports@ == with_type_imports(
                        self@.custom_imports,
                        self@.types.subrange(0, i as int),
                    ),
                decreases self.types@.len() - i,
            {
                assert(self@.types.subrange(0, i + 1).drop_last() =~= self@.types.subrange(
                    0,
                    i as int,
                ));
                let t = &self.types[i];
                add_type_import(&mut imports, t.module.as_str(), t.name.as_str(), &t.constructors);
                i += 1;
            }
            assert(self@.types.subrange(0, i as int) =~= self@.types);
        }
        imports
    }

    /// Whether a type of the unit has a decoder.
    pub fn has_decoder(&self) -> (r: bool)
        ensures
            r == any_decoder(self@.types),
    {
        let mut i: usize = 0;
        while i < self.types.len()
            invariant
                i <= self.types@.len(),
                forall|k: int| 0 <= k < i ==> (#[trigger] self@.types[k]).decoder is None,
            decreases self.types@.len() - i,
        {
            if self.types[i].decoder.is_some() {
                assert(self@.types[i as int].decoder is Some);
                return true;
            }
            i += 1;
        }
        false
    }

    /// Whether a type of the unit has an encoder.
    pub fn has_encoder(&self) -> (r: bool)
        ensures
            r == any_encoder(self@.types),
    {
        let mut i: usize = 0;
        while i < self.types.len()
            invariant
                i <= self.types@.len(),
                forall|k: int| 0 <= k < i ==> (#[trigger] self@.types[k]).encoder is None,
            decreases self.types@.len() - i,
        {
            if self.types[i].encoder.is_some() {
                assert(self@.types[i as int].encoder is Some);
                return true;
            }
            i += 1;
        }
        false
    }

    /// The header, and the import block where it is wanted and not empty.
    fn file_head(wanted: bool, block: String) -> (r: String)
        ensures
            r@ == with_import_block(header_comment() + "\n\n"@, wanted, block@),
    {
        let mut code = generate_header_comment();
        code.append("\n\n");
        if wanted && block.as_str().unicode_len() > 0 {
            code.append(block.as_str());
            code.append("\n\n");
        }
        code
    }

    /// The text of the unit's decoder file: the header, the imports where
    /// `has_imports` asks for them, and the decoders in order.
    pub fn get_decoder_code(&self, has_imports: bool, include_type_imports: bool) -> (r: String)
        ensures
            r@ == decoder_file(self@, has_imports, include_type_imports),
    {
        let import_map = self.build_import_map(include_type_imports);
        let block = generate_imports(
            true,
            self.decoder_uses_option_helpers,
            false,
            None,
            &import_map,
        );
        let mut code = Self::file_head(has_imports, block);
        let mut i: usize = 0;
        assert(self@.types.subrange(0, 0) =~= Seq::<TypeCodeView>::empty());
        let ghost head = code@;
        while i < self.types.len()
            invariant
                i <= self.types@.len(),
                code@ == with_decoders(head, self@.types.subrange(0, i as int)),
            decreases self.types@.len() - i,
        {
            assert(self@.types.subrange(0, i + 1).drop_last() =~= self@.types.subrange(
                0,
                i as int,
            ));
            if let Some(decoder) = &self.types[i].decoder {
                code.append(decoder.as_str());
                code.append("\n\n");
            }
            i += 1;
        }
        assert(self@.types.subrange(0, i as int) =~= self@.types);
        code
    }

    /// The text of the unit's encoder file: the header, the imports where
    /// `has_imports` asks for them, and the encoders in order.
    pub fn get_encoder_code(&self, has_imports: bool, include_type_imports: bool) -> (r: String)
        ensures
            r@ == encoder_file(self@, has_imports, include_type_imports),
    {
        let import_map = self.build_import_map(include_type_imports);
        let backends = if self.encoder_backends.len() == 0 {
            None
        } else {
            Some(&self.encoder_backends)
        };
        let block = generate_imports(false, false, true, backends, &import_map);
        let mut code = Self::file_head(has_imports, block);
        let mut i: usize = 0;
        assert(self@.types.subrange(0, 0) =~= Seq::<TypeCodeView>::empty());
        let ghost head = code@;
        while i < self.types.len()
            invariant
                i <= self.types@.len(),
                code@ == with_encoders(head, self@.types.subrange(0, i as int)),
            decreases self.types@.len() - i,
        {
            assert(self@.types.subrange(0, i + 1).drop_last() =~= self@.types.subrange(
                0,
                i as int,
            ));
            if let Some(encoder) = &self.types[i].encoder {
                code.append(encoder.as_str());
                code.append("\n\n");
            }
            i += 1;
        }
        assert(self@.types.subrange(0, i as int) =~= self@.types);
        code
    }

    /// The text of the unit's combined file: the header, the imports
    /// where `has_imports` asks for them and there is code, and for each
    /// type its decoder and its encoder.
    pub fn get_combined_code(&self, has_imports: bool, include_type_imports: bool) -> (r: String)
        ensures
            r@ == combined_file(self@, has_imports, include_type_imports),
    {
        let has_decoder = self.has_decoder();
        let has_encoder = self.has_encoder();
        let import_map = self.build_import_map(include_type_imports);
        let backends = if has_encoder && self.encoder_backends.len() > 0 {
            Some(&self.encoder_backends)
        } else {
            None
        };
        let block = generate_imports(
            has_decoder,
            self.decoder_uses_option_helpers,
            has_encoder,
            backends,
            &import_map,
        );
        let mut code = Self::file_head(has_imports && (has_decoder || has_encoder), block);
        let mut i: usize = 0;
        assert(self@.types.subrange(0, 0) =~= Seq::<TypeCodeView>::empty());
        let ghost head = code@;
        while i < self.types.len()
            invariant
                i <= self.types@.len(),
                code@ == with_codecs(head, self@.types.subrange(0, i as int)),
            decreases self.types@.len() - i,
        {
            assert(self@.types.subrange(0, i + 1).drop_last() =~= self@.types.subrange(
                0,
                i as int,
            ));
            if let Some(decoder) = &self.types[i].decoder {
                code.append(decoder.as_str());
                code.append("\n\n");
            }
            if let Some(encoder) = &self.types[i].encoder {
                code.append(encoder.as_str());
                code.append("\n\n");
            }
            i += 1;
        }
        assert(self@.types.subrange(0, i as int) =~= self@.types);
        code
    }
}

} // verus!
