//! Generation for a whole project: the configuration in force for each
//! type, the registry of all types, the code of each type, and the units
//! that the code of a file is gathered into.

use crate::backend::{slot_of, BackendRegistry, EncoderBackend};
use crate::config::{
    copy_opt, overridden_fn_naming, overridden_output, Config, ConfigView, OutputConfigView,
};
use crate::defaults::TypeLookup;
use crate::error::GlossError;
use crate::generator::{
    decoder_code, encoder_code, generate_decoder, generate_encoder, GenState,
};
use crate::imports::{
    ensure_no_option_alias_conflict, merge_imports, merged_imports, option_alias_conflict,
    option_alias_conflict_message, ImportEntryView, ImportMap,
};
use crate::manifest::{check_agrees, dependency_failure, ensure_backend_dependencies, Manifest};
use crate::output::{
    backend_views, code_views, note_backend, note_backends, with_used_backend, with_used_backends,
    GeneratedCode, GeneratedCodeView, TypeCode, TypeCodeView, UsedBackend, UsedBackendView,
};
use crate::parser::{
    begins_with, begins_with_pair, opt_output, prefix_mode, CustomTypeInfo, EncoderType, FileConfig,
    OutputOverride, OutputOverrideView, PathMode,
};
use crate::registry::{
    distinct_backends, entry_for, entry_views, registry_entry, unique_backends, TypeRegistry,
    TypeRegistryEntry, TypeRegistryEntryView,
};
use crate::text::{chars_of, opt_text, texts, trim_end, trimmed_end};
use vstd::prelude::*;
use vstd::string::*;

verus! {

/// The mode of a directory string: the project root behind `@` or `/`,
/// the file's directory behind `./`, else the given mode.
pub open spec fn inferred_mode(directory: Seq<char>, default_mode: PathMode) -> PathMode {
    if begins_with(directory, '@') || begins_with(directory, '/') {
        PathMode::ProjectRelative
    } else if begins_with_pair(directory, '.', '/') {
        PathMode::FileRelative
    } else {
        default_mode
    }
}

/// The mode of a directory string.
pub fn infer_path_mode(directory: &str, default_mode: PathMode) -> (r: PathMode)
    ensures
        r == inferred_mode(directory@, default_mode),
{
    let v = chars_of(directory);
    if v.len() > 0 && (v[0] == '@' || v[0] == '/') {
        PathMode::ProjectRelative
    } else if v.len() > 1 && v[0] == '.' && v[1] == '/' {
        PathMode::FileRelative
    } else {
        default_mode
    }
}

/// The mode of the directory that the configuration documents give: the
/// project root unless the string says otherwise, and the file's directory
/// where they give none.
pub open spec fn base_mode(config: ConfigView) -> PathMode {
    match config.output.directory {
        Some(d) => inferred_mode(d, PathMode::ProjectRelative),
        None => PathMode::FileRelative,
    }
}

/// The mode once a directive's output settings are applied: a directory
/// that the directive sets has the mode of its own prefix; else the
/// directory in force keeps the mode it had unless its prefix says
/// otherwise.
pub open spec fn mode_after(
    mode: PathMode,
    over: Option<OutputOverrideView>,
    directory_after: Option<Seq<char>>,
    reads_directory: bool,
) -> PathMode {
    let kept = match directory_after {
        Some(d) => inferred_mode(d, mode),
        None => mode,
    };
    match over {
        Some(o) => match o.directory {
            Some(d) => inferred_mode(d, prefix_mode(Some(d))),
            None => kept,
        },
        None => if reads_directory {
            kept
        } else {
            mode
        },
    }
}

/// The configuration, path mode and unknown-variant message in force at
/// one level: a file or a type.
pub struct TypeContext {
    pub config: Config,
    pub path_mode: PathMode,
    pub unknown_message: Option<String>,
}

/// The mathematical value of a [`TypeContext`].
pub struct TypeContextView {
    pub config: ConfigView,
    pub path_mode: PathMode,
    pub unknown_message: Option<Seq<char>>,
}

impl View for TypeContext {
    type V = TypeContextView;

    open spec fn view(&self) -> TypeContextView {
        TypeContextView {
            config: self.config@,
            path_mode: self.path_mode,
            unknown_message: opt_text(self.unknown_message),
        }
    }
}

/// What is in force for a file: the configuration of its directory with
/// the file's directives laid over it.
pub open spec fn file_context(cascaded: ConfigView, file_config: FileConfig) -> TypeContextView {
    let output = match file_config.output_override {
        Some(o) => overridden_output(cascaded.output, o@),
        None => cascaded.output,
    };
    let fn_naming = match file_config.fn_naming_override {
        Some(o) => overridden_fn_naming(cascaded.fn_naming, o@),
        None => cascaded.fn_naming,
    };
    TypeContextView {
        config: ConfigView {
            field_naming_strategy: cascaded.field_naming_strategy,
            absent_field_mode: cascaded.absent_field_mode,
            decoder_unknown_variant_message: cascaded.decoder_unknown_variant_message,
            output,
            fn_naming,
        },
        path_mode: mode_after(
            base_mode(cascaded),
            opt_output(file_config.output_override),
            output.directory,
            false,
        ),
        unknown_message: match file_config.unknown_variant_message {
            Some(m) => Some(m@),
            None => cascaded.decoder_unknown_variant_message,
        },
    }
}

/// What is in force for a type: what is in force for its file with the
/// type's directives laid over it.
pub open spec fn type_context(file: TypeContextView, info: CustomTypeInfo) -> TypeContextView {
    let output = match info.output_override {
        Some(o) => overridden_output(file.config.output, o@),
        None => file.config.output,
    };
    let fn_naming = match info.fn_naming_override {
        Some(o) => overridden_fn_naming(file.config.fn_naming, o@),
        None => file.config.fn_naming,
    };
    let unknown_message = match info.unknown_variant_message {
        Some(m) => Some(m@),
        None => file.unknown_message,
    };
    TypeContextView {
        config: ConfigView {
            field_naming_strategy: file.config.field_naming_strategy,
            absent_field_mode: file.config.absent_field_mode,
            decoder_unknown_variant_message: unknown_message,
            output,
            fn_naming,
        },
        path_mode: mode_after(
            file.path_mode,
            opt_output(info.output_override),
            output.directory,
            true,
        ),
        unknown_message,
    }
}

/// The mode once a directive's output settings are applied.
fn resolve_mode(
    mode: PathMode,
    over: &Option<OutputOverride>,
    directory_after: &Option<String>,
    reads_directory: bool,
) -> (r: PathMode)
    ensures
        r == mode_after(mode, opt_output(*over), opt_text(*directory_after), reads_directory),
{
    let sets_directory = match over {
        Some(o) => o.directory.is_some(),
        None => false,
    };
    if sets_directory {
        match over {
            Some(o) => match &o.directory {
                Some(d) => infer_path_mode(d.as_str(), o.path_mode()),
                None => mode,
            },
            None => mode,
        }
    } else if over.is_some() || reads_directory {
        match directory_after {
            Some(d) => infer_path_mode(d.as_str(), mode),
            None => mode,
        }
    } else {
        mode
    }
}

/// What is in force for a file.
pub fn file_level_context(cascaded: &Config, file_config: &FileConfig) -> (r: TypeContext)
    ensures
        r@ == file_context(cascaded@, *file_config),
{
    let mut config = cascaded.duplicate();
    let base = match &config.output.directory {
        Some(d) => infer_path_mode(d.as_str(), PathMode::ProjectRelative),
        None => PathMode::FileRelative,
    };
    if let Some(o) = &file_config.output_override {
        config.output = config.output.apply_override(o);
    }
    let path_mode = resolve_mode(base, &file_config.output_override, &config.output.directory, false);
    if let Some(o) = &file_config.fn_naming_override {
        config.fn_naming = config.fn_naming.apply_override(o);
    }
    let unknown_message = match &file_config.unknown_variant_message {
        Some(m) => Some(m.clone()),
        None => copy_opt(&config.decoder_unknown_variant_message),
    };
    TypeContext { config, path_mode, unknown_message }
}

/// What is in force for a type.
pub fn type_level_context(file: &TypeContext, info: &CustomTypeInfo) -> (r: TypeContext)
    ensures
        r@ == type_context(file@, *info),
{
    let mut config = file.config.duplicate();
    if let Some(o) = &info.output_override {
        config.output = config.output.apply_override(o);
    }
    let path_mode = resolve_mode(
        file.path_mode,
        &info.output_override,
        &config.output.directory,
        true,
    );
    if let Some(o) = &info.fn_naming_override {
        config.fn_naming = config.fn_naming.apply_override(o);
    }
    let unknown_message = match &info.unknown_variant_message {
        Some(m) => Some(m.clone()),
        None => copy_opt(&file.unknown_message),
    };
    config.decoder_unknown_variant_message = copy_opt(&unknown_message);
    TypeContext { config, path_mode, unknown_message }
}

/// What a directive at the type sets is in force for the type, whatever
/// the configuration documents and the file's directives say.
pub proof fn lemma_type_directive_overrides(
    cascaded: ConfigView,
    file_config: FileConfig,
    info: CustomTypeInfo,
)
    ensures
        ({
            let c = type_context(file_context(cascaded, file_config), info);
            &&& info.output_override matches Some(o) ==> {
                &&& o@.directory is Some ==> c.config.output.directory == o@.directory
                &&& o@.generated_file_naming matches Some(p)
                    ==> c.config.output.generated_file_naming == p
                &&& o@.encode_module_naming matches Some(p) ==> c.config.output.encode_module_naming
                    == p
                &&& o@.decode_module_naming matches Some(p) ==> c.config.output.decode_module_naming
                    == p
                &&& o@.separate_encoder_decoder matches Some(b)
                    ==> c.config.output.separate_encoder_decoder == b
            }
            &&& info.fn_naming_override matches Some(n) ==> {
                &&& n@.encoder_function_naming matches Some(p)
                    ==> c.config.fn_naming.encoder_function_naming == p
                &&& n@.decoder_function_naming matches Some(p)
                    ==> c.config.fn_naming.decoder_function_naming == p
            }
            &&& info.unknown_variant_message matches Some(m) ==> c.unknown_message == Some(m@)
            &&& info.unknown_variant_message matches Some(m)
                ==> c.config.decoder_unknown_variant_message == Some(m@)
        }),
{
}

/// What a directive at the file sets is in force for each type of the
/// file that sets nothing else.
pub proof fn lemma_file_directive_overrides(
    cascaded: ConfigView,
    file_config: FileConfig,
    info: CustomTypeInfo,
)
    requires
        info.output_override is None,
        info.fn_naming_override is None,
        info.unknown_variant_message is None,
    ensures
        ({
            let c = type_context(file_context(cascaded, file_config), info);
            &&& file_config.output_override matches Some(o) ==> {
                &&& o@.directory is Some ==> c.config.output.directory == o@.directory
                &&& o@.generated_file_naming matches Some(p)
                    ==> c.config.output.generated_file_naming == p
                &&& o@.encode_module_naming matches Some(p) ==> c.config.output.encode_module_naming
                    == p
                &&& o@.decode_module_naming matches Some(p) ==> c.config.output.decode_module_naming
                    == p
                &&& o@.separate_encoder_decoder matches Some(b)
                    ==> c.config.output.separate_encoder_decoder == b
            }
            &&& file_config.fn_naming_override matches Some(n) ==> {
                &&& n@.encoder_function_naming matches Some(p)
                    ==> c.config.fn_naming.encoder_function_naming == p
                &&& n@.decoder_function_naming matches Some(p)
                    ==> c.config.fn_naming.decoder_function_naming == p
            }
            &&& file_config.unknown_variant_message matches Some(m) ==> c.unknown_message == Some(
                m@,
            )
        }),
{
}

/// One source file of the project: its path, the configuration that its
/// directory's documents cascade to, its own directives, and its types for
/// which code is asked.
#[derive(Debug, Clone)]
pub struct ProjectFile {
    pub path: String,
    pub config: Config,
    pub file_config: FileConfig,
    pub types: Vec<CustomTypeInfo>,
}

/// The registry entries of the types of one file.
pub open spec fn file_entries(file: ProjectFile) -> Seq<TypeRegistryEntryView> {
    Seq::new(
        file.types@.len(),
        |i: int|
            entry_for(
                file.types@[i],
                type_context(file_context(file.config@, file.file_config), file.types@[i]).config.fn_naming,
            ),
    )
}

/// The registry entries of all types of the project, file after file.
pub open spec fn project_entries(files: Seq<ProjectFile>) -> Seq<TypeRegistryEntryView>
    decreases files.len(),
{
    if files.len() == 0 {
        Seq::empty()
    } else {
        project_entries(files.drop_last()) + file_entries(files.last())
    }
}

/// Builds the registry of all types of the project: each type's entry
/// holds the names that the configuration in force for that type gives its
/// functions.
pub fn build_type_registry(files: &Vec<ProjectFile>) -> (r: TypeRegistry)
    ensures
        r@ == project_entries(files@),
{
    let mut entries: Vec<TypeRegistryEntry> = Vec::new();
    let mut f: usize = 0;
    assert(files@.subrange(0, 0) =~= Seq::<ProjectFile>::empty());
    assert(entry_views(entries@) =~= Seq::<TypeRegistryEntryView>::empty());
    while f < files.len()
        invariant
            f <= files@.len(),
            entry_views(entries@) == project_entries(files@.subrange(0, f as int)),
        decreases files@.len() - f,
    {
        let file = &files[f];
        let context = file_level_context(&file.config, &file.file_config);
        let ghost before = entry_views(entries@);
        let mut i: usize = 0;
        assert(entry_views(entries@) =~= before + file_entries(*file).subrange(0, 0));
        while i < file.types.len()
            invariant
                i <= file.types@.len(),
                context@ == file_context(file.config@, file.file_config),
                entry_views(entries@) == before + file_entries(*file).subrange(0, i as int),
            decreases file.types@.len() - i,
        {
            let info = &file.types[i];
            let type_ctx = type_level_context(&context, info);
            let entry = registry_entry(info, &type_ctx.config.fn_naming);
            let ghost shown = entry_views(entries@);
            entries.push(entry);
            assert(entry_views(entries@) =~= shown.push(entry@));
            assert(shown.push(entry@) =~= before + file_entries(*file).subrange(0, i + 1));
            i += 1;
        }
        assert(file_entries(*file).subrange(0, i as int) =~= file_entries(*file));
        assert(files@.subrange(0, f + 1).drop_last() =~= files@.subrange(0, f as int));
        f += 1;
    }
    assert(files@.subrange(0, f as int) =~= files@);
    TypeRegistry { entries }
}

/// All types of the project, file after file.
pub open spec fn project_types(files: Seq<ProjectFile>) -> Seq<CustomTypeInfo>
    decreases files.len(),
{
    if files.len() == 0 {
        Seq::empty()
    } else {
        project_types(files.drop_last()) + files.last().types@
    }
}

/// Gathers all types of the project for lookup.
pub fn build_type_lookup<'a>(files: &'a Vec<ProjectFile>) -> (r: TypeLookup<'a>)
    ensures
        r@ == project_types(files@),
{
    let mut types: Vec<&'a CustomTypeInfo> = Vec::new();
    let mut f: usize = 0;
    assert(files@.subrange(0, 0) =~= Seq::<ProjectFile>::empty());
    let ghost mut shown: Seq<CustomTypeInfo> = Seq::empty();
    while f < files.len()
        invariant
            f <= files@.len(),
            shown == project_types(files@.subrange(0, f as int)),
            shown.len() == types@.len(),
            forall|k: int| 0 <= k < types@.len() ==> *types@[k] == shown[k],
        decreases files@.len() - f,
    {
        let file = &files[f];
        let ghost before = shown;
        let mut i: usize = 0;
        while i < file.types.len()
            invariant
                i <= file.types@.len(),
                shown == before + file.types@.subrange(0, i as int),
                shown.len() == types@.len(),
                forall|k: int| 0 <= k < types@.len() ==> *types@[k] == shown[k],
            decreases file.types@.len() - i,
        {
            types.push(&file.types[i]);
            proof {
                shown = shown.push(file.types@[i as int]);
                assert(shown =~= before + file.types@.subrange(0, i + 1));
            }
            i += 1;
        }
        assert(file.types@.subrange(0, i as int) =~= file.types@);
        assert(files@.subrange(0, f + 1).drop_last() =~= files@.subrange(0, f as int));
        f += 1;
    }
    assert(files@.subrange(0, f as int) =~= files@);
    let r = TypeLookup { types };
    assert(r@ =~= shown);
    r
}

/// Every registered backend says what its methods return.
pub open spec fn all_specified<B: EncoderBackend>(backends: Seq<(EncoderType, B)>) -> bool {
    forall|i: int| 0 <= i < backends.len() ==> (#[trigger] backends[i]).1.is_specified()
}

/// The name of a serialization target as debugging output shows it.
pub open spec fn debug_name(encoder: EncoderType) -> Seq<char> {
    match encoder {
        EncoderType::Json => "Json"@,
    }
}

/// The message for a target that no backend is registered for.
pub open spec fn no_backend_message(encoder: EncoderType) -> Seq<char> {
    "No encoder backend registered for "@ + debug_name(encoder)
}

/// The failure for a target that no backend is registered for.
fn no_backend(encoder: EncoderType) -> (r: GlossError)
    ensures
        r matches GlossError::GenerationError(m) && m@ == no_backend_message(encoder),
{
    let mut m = String::from_str("No encoder backend registered for ");
    match encoder {
        EncoderType::Json => m.append("Json"),
    }
    GlossError::GenerationError(m)
}

/// What the encoders of a type have come to: their text, the imports they
/// need, and the backends they were generated with.
pub struct EncoderAcc {
    pub text: Seq<char>,
    pub imports: Seq<ImportEntryView>,
    pub backends: Seq<UsedBackendView>,
}

/// The record of a backend in use.
pub open spec fn used_backend<B: EncoderBackend>(backend: &B) -> UsedBackendView {
    UsedBackendView { name: backend.name_text(), module_imports: backend.module_imports_text() }
}

/// The encoders of a type for the targets it asks for, one after the
/// other, each with an empty line behind it; the first target without
/// backend and the first encoder that cannot be generated end it.
pub open spec fn encoders_fold<B: EncoderBackend>(
    backends: Seq<(EncoderType, B)>,
    info: CustomTypeInfo,
    encoders: Seq<EncoderType>,
    config: ConfigView,
    entries: Seq<TypeRegistryEntryView>,
    acc: EncoderAcc,
) -> Result<EncoderAcc, Seq<char>>
    decreases encoders.len(),
{
    if encoders.len() == 0 {
        Ok(acc)
    } else {
        match slot_of(backends, encoders[0]) {
            None => Err(no_backend_message(encoders[0])),
            Some(b) => {
                let c = encoder_code(&b, info, encoders[0], config, entries, acc.imports);
                match c.result {
                    Err(m) => Err(m),
                    Ok(code) => encoders_fold(
                        backends,
                        info,
                        encoders.drop_first(),
                        config,
                        entries,
                        EncoderAcc {
                            text: acc.text + code + "\n\n"@,
                            imports: c.imports,
                            backends: with_used_backend(acc.backends, used_backend(&b)),
                        },
                    ),
                }
            },
        }
    }
}

/// The names of the constructors of a type.
pub open spec fn constructor_names(info: CustomTypeInfo) -> Seq<Seq<char>> {
    Seq::new(info.constructors@.len(), |i: int| info.constructors@[i].name@)
}

/// The unit of one type: its decoder where it asks for one, its encoders
/// for the targets it asks for, and what they need; nothing where the type
/// asks for neither.
pub open spec fn type_unit<B: EncoderBackend>(
    backends: Seq<(EncoderType, B)>,
    info: CustomTypeInfo,
    ctx: TypeContextView,
    entries: Seq<TypeRegistryEntryView>,
    types: Seq<CustomTypeInfo>,
) -> Result<Option<GeneratedCodeView>, Seq<char>> {
    let start = GenState { imports: Seq::empty(), uses_option: false };
    let decoded = if info.generate_decoder {
        decoder_code(info, ctx.config, entries, types, ctx.unknown_message, start)
    } else {
        crate::generator::Outcome { result: Ok(Seq::empty()), state: start }
    };
    match decoded.result {
        Err(m) => Err(m),
        Ok(decoder) => match encoders_fold(
            backends,
            info,
            info.encoders@,
            ctx.config,
            entries,
            EncoderAcc {
                text: Seq::empty(),
                imports: decoded.state.imports,
                backends: Seq::empty(),
            },
        ) {
            Err(m) => Err(m),
            Ok(acc) => if !info.generate_decoder && info.encoders@.len() == 0 {
                Ok(None)
            } else {
                Ok(
                    Some(
                        GeneratedCodeView {
                            types: seq![
                                TypeCodeView {
                                    name: info.name@,
                                    module: info.module@,
                                    constructors: constructor_names(info),
                                    decoder: if info.generate_decoder {
                                        Some(decoder)
                                    } else {
                                        None
                                    },
                                    encoder: if info.encoders@.len() > 0 {
                                        Some(trimmed_end(acc.text))
                                    } else {
                                        None
                                    },
                                },
                            ],
                            output_config: ctx.config.output,
                            path_mode: ctx.path_mode,
                            custom_imports: acc.imports,
                            encoder_backends: acc.backends,
                            decoder_uses_option_helpers: decoded.state.uses_option,
                        },
                    ),
                )
            },
        },
    }
}

/// Two units are the same but for what the backends returned: the text of
/// the encoders and the record of the backends.
pub open spec fn same_but_backend_output(x: GeneratedCodeView, g: GeneratedCodeView) -> bool {
    &&& x.output_config == g.output_config
    &&& x.path_mode == g.path_mode
    &&& x.custom_imports == g.custom_imports
    &&& x.decoder_uses_option_helpers == g.decoder_uses_option_helpers
    &&& x.types.len() == g.types.len()
    &&& forall|i: int|
        0 <= i < x.types.len() ==> {
            &&& (#[trigger] x.types[i]).name == g.types[i].name
            &&& x.types[i].module == g.types[i].module
            &&& x.types[i].constructors == g.types[i].constructors
            &&& x.types[i].decoder == g.types[i].decoder
            &&& x.types[i].encoder is Some == g.types[i].encoder is Some
        }
}

/// What generating a unit returned is what `wanted` says. With `exact`
/// unset, what the backends returned is left open.
pub open spec fn unit_agrees(
    r: Result<Option<GeneratedCode>, GlossError>,
    wanted: Result<Option<GeneratedCodeView>, Seq<char>>,
    exact: bool,
) -> bool {
    match wanted {
        Err(m) => r matches Err(GlossError::GenerationError(x)) && x@ == m,
        Ok(None) => r matches Ok(None),
        Ok(Some(g)) => r matches Ok(Some(x)) && same_but_backend_output(x@, g) && (exact ==> x@
            == g),
    }
}

/// The names of the constructors of a type.
fn constructor_name_list(info: &CustomTypeInfo) -> (r: Vec<String>)
    ensures
        texts(r@) == constructor_names(*info),
{
    let mut out: Vec<String> = Vec::new();
    let mut i: usize = 0;
    while i < info.constructors.len()
        invariant
            i <= info.constructors@.len(),
            out@.len() == i,
            forall|k: int| 0 <= k < i ==> out@[k]@ == info.constructors@[k].name@,
        decreases info.constructors@.len() - i,
    {
        out.push(info.constructors[i].name.clone());
        i += 1;
    }
    assert(texts(out@) =~= constructor_names(*info));
    out
}

/// Generates the unit of one type.
pub fn generate_type_unit<B: EncoderBackend>(
    info: &CustomTypeInfo,
    ctx: &TypeContext,
    type_registry: &TypeRegistry,
    type_lookup: &TypeLookup,
    registry: &BackendRegistry<B>,
) -> (r: Result<Option<GeneratedCode>, GlossError>)
    ensures
        unit_agrees(
            r,
            type_unit(registry.entries(), *info, ctx@, type_registry@, type_lookup@),
            all_specified(registry.entries()) || info.encoders@.len() == 0,
        ),
{
    let ghost exact = all_specified(registry.entries()) || info.encoders@.len() == 0;
    let ghost backends = registry.entries();
    let mut imports = ImportMap::new();
    let mut uses_option = false;
    let mut decoder: Option<String> = None;
    if info.generate_decoder {
        let message = match &ctx.unknown_message {
            Some(m) => Some(m.as_str()),
            None => None,
        };
        match generate_decoder(
            info,
            &ctx.config,
            type_registry,
            &mut imports,
            type_lookup,
            message,
        ) {
            Ok(out) => {
                uses_option = out.uses_option_helpers;
                decoder = Some(out.code);
            },
            Err(e) => {
                return Err(e);
            },
        }
    }
    let n = info.encoders.len();
    let mut used: Vec<UsedBackend> = Vec::new();
    let mut text = String::new();
    let ghost start = EncoderAcc { text: Seq::empty(), imports: imports@, backends: Seq::empty() };
    let ghost all = encoders_fold(backends, *info, info.encoders@, ctx@.config, type_registry@, start);
    let ghost mut acc = start;
    let ghost wanted = type_unit(backends, *info, ctx@, type_registry@, type_lookup@);
    let mut i: usize = 0;
    assert(info.encoders@.subrange(0, n as int) =~= info.encoders@);
    assert(backend_views(used@) =~= Seq::<UsedBackendView>::empty());
    while i < n
        invariant
            n == info.encoders@.len(),
            i <= n,
            backends == registry.entries(),
            exact ==> all_specified(backends) || n == 0,
            wanted == type_unit(backends, *info, ctx@, type_registry@, type_lookup@),
            all matches Err(m) ==> wanted == Err::<Option<GeneratedCodeView>, Seq<char>>(m),
            all == encoders_fold(
                backends,
                *info,
                info.encoders@.subrange(i as int, n as int),
                ctx@.config,
                type_registry@,
                acc,
            ),
            imports@ == acc.imports,
            exact ==> text@ == acc.text && backend_views(used@) == acc.backends,
        decreases n - i,
    {
        let ghost rest = info.encoders@.subrange(i as int, n as int);
        assert(rest[0] == info.encoders@[i as int]);
        assert(rest.drop_first() =~= info.encoders@.subrange(i + 1, n as int));
        let encoder_type = info.encoders[i];
        let backend = match registry.get(encoder_type) {
            Some(b) => b,
            None => {
                return Err(no_backend(encoder_type));
            },
        };
        proof {
            lemma_slot_is_registered(backends, encoder_type);
        }
        let record = UsedBackend {
            name: String::from_str(backend.name()),
            module_imports: backend.module_imports(),
        };
        note_backend(&mut used, record);
        let code = match generate_encoder(
            info,
            encoder_type,
            &ctx.config,
            type_registry,
            &mut imports,
            backend,
        ) {
            Ok(c) => c,
            Err(e) => {
                return Err(e);
            },
        };
        text.append(code.as_str());
        text.append("\n\n");
        proof {
            let c = encoder_code(
                backend,
                *info,
                encoder_type,
                ctx@.config,
                type_registry@,
                acc.imports,
            );
            acc = EncoderAcc {
                text: acc.text + c.result->Ok_0 + "\n\n"@,
                imports: c.imports,
                backends: with_used_backend(acc.backends, used_backend(backend)),
            };
        }
        i += 1;
    }
    assert(all == Ok::<EncoderAcc, Seq<char>>(acc));
    if decoder.is_none() && n == 0 {
        return Ok(None);
    }
    let encoder = if n > 0 {
        Some(trim_end(text.as_str()))
    } else {
        None
    };
    let code = TypeCode {
        name: info.name.clone(),
        module: info.module.clone(),
        constructors: constructor_name_list(info),
        decoder,
        encoder,
    };
    let mut types: Vec<TypeCode> = Vec::new();
    types.push(code);
    let unit = GeneratedCode {
        types,
        output_config: ctx.config.output.duplicate(),
        path_mode: ctx.path_mode,
        custom_imports: imports,
        encoder_backends: used,
        decoder_uses_option_helpers: uses_option,
    };
    proof {
        let g = type_unit(backends, *info, ctx@, type_registry@, type_lookup@)->Ok_0->0;
        assert(unit@.types.len() == 1);
        assert(g.types.len() == 1);
        if exact {
            assert(unit@.types =~= g.types);
        }
    }
    Ok(Some(unit))
}

/// The backend that the registry gives for a target is one of its entries.
pub proof fn lemma_slot_is_registered<B>(backends: Seq<(EncoderType, B)>, encoder: EncoderType)
    ensures
        slot_of(backends, encoder) matches Some(b) ==> exists|i: int|
            0 <= i < backends.len() && (#[trigger] backends[i]).1 == b,
    decreases backends.len(),
{
    if backends.len() > 0 && backends[0].0 != encoder {
        lemma_slot_is_registered(backends.drop_first(), encoder);
        if slot_of(backends, encoder) is Some {
            let b = slot_of(backends, encoder)->0;
            let i = choose|i: int|
                0 <= i < backends.drop_first().len() && (#[trigger] backends.drop_first()[i]).1
                    == b;
            assert(backends[i + 1].1 == b);
        }
    } else if backends.len() > 0 {
        assert(backends[0].1 == slot_of(backends, encoder)->0);
    }
}

/// The views of a sequence of units.
pub open spec fn group_views(groups: Seq<GeneratedCode>) -> Seq<GeneratedCodeView> {
    Seq::new(groups.len(), |i: int| groups[i]@)
}

/// The index of the first unit with the given destination: the same
/// path mode and the same output configuration.
pub open spec fn group_index(
    groups: Seq<GeneratedCodeView>,
    path_mode: PathMode,
    output_config: OutputConfigView,
) -> Option<int>
    decreases groups.len(),
{
    if groups.len() == 0 {
        None
    } else {
        match group_index(groups.drop_last(), path_mode, output_config) {
            Some(i) => Some(i),
            None => if groups.last().path_mode == path_mode && groups.last().output_config
                == output_config {
                Some(groups.len() - 1)
            } else {
                None
            },
        }
    }
}

/// A unit with the code of another unit of the same destination added:
/// the types behind its own, the imports merged, the backends taken
/// together, and the option helpers needed where either needs them.
pub open spec fn merged_unit(g: GeneratedCodeView, unit: GeneratedCodeView) -> GeneratedCodeView {
    GeneratedCodeView {
        types: g.types + unit.types,
        output_config: g.output_config,
        path_mode: g.path_mode,
        custom_imports: merged_imports(g.custom_imports, unit.custom_imports),
        encoder_backends: with_used_backends(g.encoder_backends, unit.encoder_backends),
        decoder_uses_option_helpers: g.decoder_uses_option_helpers
            || unit.decoder_uses_option_helpers,
    }
}

/// The alias conflict of a unit, where it needs the option helpers.
pub open spec fn unit_conflict(g: GeneratedCodeView) -> Option<Seq<char>> {
    if g.decoder_uses_option_helpers {
        option_alias_conflict(g.custom_imports)
    } else {
        None
    }
}

/// The units of a file with the unit of one more type: merged into the
/// unit of the same destination where there is one, else behind the
/// others. A unit that needs the option helpers while the alias `option`
/// is bound to another module is refused.
pub open spec fn grouped(groups: Seq<GeneratedCodeView>, unit: GeneratedCodeView) -> Result<
    Seq<GeneratedCodeView>,
    Seq<char>,
> {
    match group_index(groups, unit.path_mode, unit.output_config) {
        Some(i) => {
            let merged = merged_unit(groups[i], unit);
            match unit_conflict(merged) {
                Some(module) => Err(option_alias_conflict_message(module)),
                None => Ok(groups.update(i, merged)),
            }
        },
        None => match unit_conflict(unit) {
            Some(module) => Err(option_alias_conflict_message(module)),
            None => Ok(groups.push(unit)),
        },
    }
}

/// The index of the first unit with the destination of `unit`.
fn find_group(groups: &Vec<GeneratedCode>, unit: &GeneratedCode) -> (r: Option<usize>)
    ensures
        match r {
            Some(i) => group_index(group_views(groups@), unit@.path_mode, unit@.output_config)
                == Some(i as int) && i < groups@.len(),
            None => group_index(group_views(groups@), unit@.path_mode, unit@.output_config)
                is None,
        },
{
    let ghost all = group_views(groups@);
    let mut i: usize = 0;
    assert(all.subrange(0, 0) =~= Seq::<GeneratedCodeView>::empty());
    while i < groups.len()
        invariant
            i <= groups@.len(),
            all == group_views(groups@),
            group_index(all.subrange(0, i as int), unit@.path_mode, unit@.output_config) is None,
        decreases groups@.len() - i,
    {
        assert(all.subrange(0, i + 1).drop_last() =~= all.subrange(0, i as int));
        assert(all.subrange(0, i + 1).last() == groups@[i as int]@);
        if groups[i].path_mode == unit.path_mode && groups[i].output_config.same_as(
            &unit.output_config,
        ) {
            proof {
                lemma_group_index_prefix(all, i + 1, unit@.path_mode, unit@.output_config);
            }
            return Some(i);
        }
        i += 1;
    }
    assert(all.subrange(0, i as int) =~= all);
    None
}

/// The first unit of a destination among the first `k` units is the first
/// among all.
pub proof fn lemma_group_index_prefix(
    groups: Seq<GeneratedCodeView>,
    k: int,
    path_mode: PathMode,
    output_config: OutputConfigView,
)
    requires
        0 <= k <= groups.len(),
        group_index(groups.subrange(0, k), path_mode, output_config) is Some,
    ensures
        group_index(groups, path_mode, output_config) == group_index(
            groups.subrange(0, k),
            path_mode,
            output_config,
        ),
    decreases groups.len() - k,
{
    if k < groups.len() {
        assert(groups.drop_last().subrange(0, k) =~= groups.subrange(0, k));
        lemma_group_index_prefix(groups.drop_last(), k, path_mode, output_config);
    } else {
        assert(groups.subrange(0, k) =~= groups);
    }
}

/// What a step of generation returned is what `wanted` says.
pub open spec fn groups_agree(
    r: Result<Vec<GeneratedCode>, GlossError>,
    wanted: Result<Seq<GeneratedCodeView>, Seq<char>>,
) -> bool {
    match wanted {
        Err(m) => r matches Err(GlossError::GenerationError(x)) && x@ == m,
        Ok(gs) => r matches Ok(v) && group_views(v@) == gs,
    }
}

/// Puts the unit of one more type among the units of a file.
pub fn add_to_groups(groups: Vec<GeneratedCode>, unit: GeneratedCode) -> (r: Result<
    Vec<GeneratedCode>,
    GlossError,
>)
    ensures
        groups_agree(r, grouped(group_views(groups@), unit@)),
{
    let mut groups = groups;
    let ghost before = group_views(groups@);
    match find_group(&groups, &unit) {
        Some(i) => {
            let mut existing = groups.remove(i);
            assert(existing@ == before[i as int]);
            let mut more_types = unit.types;
            let ghost own = existing@.types;
            let ghost added = code_views(more_types@);
            existing.types.append(&mut more_types);
            assert(code_views(existing.types@) =~= own + added);
            merge_imports(&mut existing.custom_imports, &unit.custom_imports);
            note_backends(&mut existing.encoder_backends, &unit.encoder_backends);
            existing.decoder_uses_option_helpers = existing.decoder_uses_option_helpers
                || unit.decoder_uses_option_helpers;
            if existing.decoder_uses_option_helpers {
                match ensure_no_option_alias_conflict(&existing.custom_imports) {
                    Ok(()) => {},
                    Err(e) => {
                        return Err(e);
                    },
                }
            }
            let ghost merged = existing@;
            groups.insert(i, existing);
            assert(group_views(groups@) =~= before.update(i as int, merged));
            Ok(groups)
        },
        None => {
            if unit.decoder_uses_option_helpers {
                match ensure_no_option_alias_conflict(&unit.custom_imports) {
                    Ok(()) => {},
                    Err(e) => {
                        return Err(e);
                    },
                }
            }
            let ghost u = unit@;
            groups.push(unit);
            assert(group_views(groups@) =~= before.push(u));
            Ok(groups)
        },
    }
}

/// A unit that needs the option helpers while an import binds the alias
/// `option` to a module other than `gleam/option` is refused, with a
/// message that names such a module.
pub proof fn lemma_alias_conflict_is_refused(
    groups: Seq<GeneratedCodeView>,
    unit: GeneratedCodeView,
    i: int,
)
    requires
        group_index(groups, unit.path_mode, unit.output_config) is None,
        unit.decoder_uses_option_helpers,
        0 <= i < unit.custom_imports.len(),
        unit.custom_imports[i].alias == "option"@,
        unit.custom_imports[i].module != "gleam/option"@,
    ensures
        grouped(groups, unit) matches Err(m) && exists|k: int|
            0 <= k < unit.custom_imports.len() && unit.custom_imports[k].alias == "option"@
                && unit.custom_imports[k].module != "gleam/option"@ && m
                == option_alias_conflict_message(unit.custom_imports[k].module),
{
    crate::imports::lemma_alias_conflict_found(unit.custom_imports, i);
    let module = option_alias_conflict(unit.custom_imports)->0;
    let k = choose|k: int|
        0 <= k < unit.custom_imports.len() && unit.custom_imports[k].module == module
            && unit.custom_imports[k].alias == "option"@;
    assert(unit.custom_imports[k].module != "gleam/option"@);
}

/// Two lists of units are the same but for what the backends returned.
pub open spec fn similar_groups(xs: Seq<GeneratedCodeView>, gs: Seq<GeneratedCodeView>) -> bool {
    &&& xs.len() == gs.len()
    &&& forall|i: int| 0 <= i < xs.len() ==> same_but_backend_output(#[trigger] xs[i], gs[i])
}

/// What generating the units of a file returned is what `wanted` says.
/// With `exact` unset, what the backends returned is left open.
pub open spec fn groups_agree_but(
    r: Result<Vec<GeneratedCode>, GlossError>,
    wanted: Result<Seq<GeneratedCodeView>, Seq<char>>,
    exact: bool,
) -> bool {
    match wanted {
        Err(m) => r matches Err(GlossError::GenerationError(x)) && x@ == m,
        Ok(gs) => r matches Ok(v) && similar_groups(group_views(v@), gs) && (exact ==> group_views(
            v@,
        ) == gs),
    }
}

/// The destination of a unit is looked for among units that differ in what
/// the backends returned alone with the same outcome.
pub proof fn lemma_group_index_similar(
    xs: Seq<GeneratedCodeView>,
    gs: Seq<GeneratedCodeView>,
    path_mode: PathMode,
    output_config: OutputConfigView,
)
    requires
        similar_groups(xs, gs),
    ensures
        group_index(xs, path_mode, output_config) == group_index(gs, path_mode, output_config),
    decreases xs.len(),
{
    if xs.len() > 0 {
        assert(same_but_backend_output(xs[xs.len() - 1], gs[gs.len() - 1]));
        assert(similar_groups(xs.drop_last(), gs.drop_last())) by {
            assert forall|i: int| 0 <= i < xs.drop_last().len() implies same_but_backend_output(
                #[trigger] xs.drop_last()[i],
                gs.drop_last()[i],
            ) by {
                assert(same_but_backend_output(xs[i], gs[i]));
            }
        }
        lemma_group_index_similar(xs.drop_last(), gs.drop_last(), path_mode, output_config);
    }
}

/// Grouping does not look at what the backends returned: units that
/// differ in that alone are refused with the same message or grouped alike.
pub proof fn lemma_grouped_similar(
    xs: Seq<GeneratedCodeView>,
    gs: Seq<GeneratedCodeView>,
    x: GeneratedCodeView,
    g: GeneratedCodeView,
)
    requires
        similar_groups(xs, gs),
        same_but_backend_output(x, g),
    ensures
        match grouped(gs, g) {
            Err(m) => grouped(xs, x) == Err::<Seq<GeneratedCodeView>, Seq<char>>(m),
            Ok(next) => grouped(xs, x) matches Ok(got) && similar_groups(got, next),
        },
{
    lemma_group_index_similar(xs, gs, x.path_mode, x.output_config);
    match group_index(gs, g.path_mode, g.output_config) {
        Some(i) => {
            lemma_group_index_in_range(gs, g.path_mode, g.output_config);
            assert(same_but_backend_output(xs[i], gs[i]));
            let mx = merged_unit(xs[i], x);
            let mg = merged_unit(gs[i], g);
            assert(same_but_backend_output(mx, mg)) by {
                assert forall|k: int| 0 <= k < mx.types.len() implies {
                    &&& (#[trigger] mx.types[k]).name == mg.types[k].name
                    &&& mx.types[k].module == mg.types[k].module
                    &&& mx.types[k].constructors == mg.types[k].constructors
                    &&& mx.types[k].decoder == mg.types[k].decoder
                    &&& mx.types[k].encoder is Some == mg.types[k].encoder is Some
                } by {
                    if k < xs[i].types.len() {
                        assert(mx.types[k] == xs[i].types[k]);
                        assert(mg.types[k] == gs[i].types[k]);
                    } else {
                        assert(mx.types[k] == x.types[k - xs[i].types.len()]);
                        assert(mg.types[k] == g.types[k - gs[i].types.len()]);
                    }
                }
            }
            if unit_conflict(mg) is None {
                let got = xs.update(i, mx);
                let next = gs.update(i, mg);
                assert forall|k: int| 0 <= k < got.len() implies same_but_backend_output(
                    #[trigger] got[k],
                    next[k],
                ) by {
                    if k != i {
                        assert(same_but_backend_output(xs[k], gs[k]));
                    }
                }
            }
        },
        None => {
            if unit_conflict(g) is None {
                let got = xs.push(x);
                let next = gs.push(g);
                assert forall|k: int| 0 <= k < got.len() implies same_but_backend_output(
                    #[trigger] got[k],
                    next[k],
                ) by {
                    if k < xs.len() {
                        assert(same_but_backend_output(xs[k], gs[k]));
                    }
                }
            }
        },
    }
}

/// The index of the unit of a destination lies within the units.
pub proof fn lemma_group_index_in_range(
    groups: Seq<GeneratedCodeView>,
    path_mode: PathMode,
    output_config: OutputConfigView,
)
    ensures
        group_index(groups, path_mode, output_config) matches Some(i) ==> 0 <= i < groups.len(),
    decreases groups.len(),
{
    if groups.len() > 0 {
        lemma_group_index_in_range(groups.drop_last(), path_mode, output_config);
    }
}

/// The units of the types of a file, type after type; the first type
/// whose code cannot be generated and the first unit that is refused end it.
pub open spec fn groups_fold<B: EncoderBackend>(
    backends: Seq<(EncoderType, B)>,
    file: TypeContextView,
    infos: Seq<CustomTypeInfo>,
    entries: Seq<TypeRegistryEntryView>,
    types: Seq<CustomTypeInfo>,
    groups: Seq<GeneratedCodeView>,
) -> Result<Seq<GeneratedCodeView>, Seq<char>>
    decreases infos.len(),
{
    if infos.len() == 0 {
        Ok(groups)
    } else {
        match type_unit(backends, infos[0], type_context(file, infos[0]), entries, types) {
            Err(m) => Err(m),
            Ok(None) => groups_fold(backends, file, infos.drop_first(), entries, types, groups),
            Ok(Some(unit)) => match grouped(groups, unit) {
                Err(m) => Err(m),
                Ok(next) => groups_fold(backends, file, infos.drop_first(), entries, types, next),
            },
        }
    }
}

/// The units of a file.
pub open spec fn file_groups<B: EncoderBackend>(
    backends: Seq<(EncoderType, B)>,
    file: ProjectFile,
    entries: Seq<TypeRegistryEntryView>,
    types: Seq<CustomTypeInfo>,
) -> Result<Seq<GeneratedCodeView>, Seq<char>> {
    groups_fold(
        backends,
        file_context(file.config@, file.file_config),
        file.types@,
        entries,
        types,
        Seq::empty(),
    )
}

/// No type of the file asks for an encoder.
#[verifier::opaque]
pub open spec fn without_encoders(file: ProjectFile) -> bool {
    forall|k: int| 0 <= k < file.types@.len() ==> (#[trigger] file.types@[k]).encoders@.len() == 0
}

/// Generates the units of a file. Whatever the backends, the outcome is
/// the stated one but for what the backends returned: the same failure, or
/// the same units with the same types, decoders, imports and destinations.
/// Where every backend says what its methods return, or no type of the file
/// asks for an encoder, it is the stated one in full.
pub fn generate_file<B: EncoderBackend>(
    file: &ProjectFile,
    type_registry: &TypeRegistry,
    type_lookup: &TypeLookup,
    registry: &BackendRegistry<B>,
) -> (r: Result<Vec<GeneratedCode>, GlossError>)
    ensures
        groups_agree_but(
            r,
            file_groups(registry.entries(), *file, type_registry@, type_lookup@),
            all_specified(registry.entries()) || without_encoders(*file),
        ),
{
    let ghost exact = all_specified(registry.entries()) || without_encoders(*file);
    let ghost backends = registry.entries();
    let context = file_level_context(&file.config, &file.file_config);
    let n = file.types.len();
    let mut groups: Vec<GeneratedCode> = Vec::new();
    let ghost all = file_groups(backends, *file, type_registry@, type_lookup@);
    let ghost mut wanted: Seq<GeneratedCodeView> = Seq::empty();
    let mut i: usize = 0;
    assert(file.types@.subrange(0, n as int) =~= file.types@);
    assert(group_views(groups@) =~= Seq::<GeneratedCodeView>::empty());
    while i < n
        invariant
            n == file.types@.len(),
            i <= n,
            backends == registry.entries(),
            exact == (all_specified(backends) || without_encoders(*file)),
            context@ == file_context(file.config@, file.file_config),
            all == file_groups(backends, *file, type_registry@, type_lookup@),
            all == groups_fold(
                backends,
                context@,
                file.types@.subrange(i as int, n as int),
                type_registry@,
                type_lookup@,
                wanted,
            ),
            similar_groups(group_views(groups@), wanted),
            exact ==> group_views(groups@) == wanted,
        decreases n - i,
    {
        let ghost rest = file.types@.subrange(i as int, n as int);
        assert(rest[0] == file.types@[i as int]);
        assert(rest.drop_first() =~= file.types@.subrange(i + 1, n as int));
        let info = &file.types[i];
        let ctx = type_level_context(&context, info);
        assert(exact ==> all_specified(backends) || file.types@[i as int].encoders@.len() == 0) by {
            reveal(without_encoders);
        }
        let ghost wanted_unit = type_unit(backends, *info, ctx@, type_registry@, type_lookup@);
        match generate_type_unit(info, &ctx, type_registry, type_lookup, registry) {
            Err(e) => {
                return Err(e);
            },
            Ok(None) => {},
            Ok(Some(unit)) => {
                let ghost before = group_views(groups@);
                let ghost g = wanted_unit->Ok_0->0;
                proof {
                    lemma_grouped_similar(before, wanted, unit@, g);
                }
                match add_to_groups(groups, unit) {
                    Err(e) => {
                        return Err(e);
                    },
                    Ok(next) => {
                        groups = next;
                        proof {
                            wanted = grouped(wanted, g)->Ok_0;
                        }
                    },
                }
            },
        }
        i += 1;
    }
    Ok(groups)
}

/// The units generated from one source file.
#[derive(Debug, Clone)]
pub struct FileOutput {
    pub path: String,
    pub groups: Vec<GeneratedCode>,
}

/// The mathematical value of a [`FileOutput`].
pub struct FileOutputView {
    pub path: Seq<char>,
    pub groups: Seq<GeneratedCodeView>,
}

impl View for FileOutput {
    type V = FileOutputView;

    open spec fn view(&self) -> FileOutputView {
        FileOutputView { path: self.path@, groups: group_views(self.groups@) }
    }
}

/// The views of a sequence of file outputs.
pub open spec fn output_views(outputs: Seq<FileOutput>) -> Seq<FileOutputView> {
    Seq::new(outputs.len(), |i: int| outputs[i]@)
}

/// The targets that the types ask encoders for, with repetition.
pub open spec fn all_encoders(types: Seq<CustomTypeInfo>) -> Seq<EncoderType>
    decreases types.len(),
{
    if types.len() == 0 {
        Seq::empty()
    } else {
        all_encoders(types.drop_last()) + types.last().encoders@
    }
}

/// Why the backends of the targets in use cannot be used, if they cannot:
/// the first target without backend, or the first backend whose packages
/// the manifest does not name.
pub open spec fn backends_failure<B: EncoderBackend>(
    backends: Seq<(EncoderType, B)>,
    used: Seq<EncoderType>,
    manifest: Manifest,
) -> Option<Seq<char>>
    decreases used.len(),
{
    if used.len() == 0 {
        None
    } else {
        match slot_of(backends, used[0]) {
            None => Some(no_backend_message(used[0])),
            Some(b) => match dependency_failure(
                b.required_packages_text(),
                manifest.path@,
                opt_text(manifest.content),
            ) {
                Some(m) => Some(m),
                None => backends_failure(backends, used.drop_first(), manifest),
            },
        }
    }
}

/// The outputs of the files, file after file, without the files that no
/// code is generated for; the first file that fails ends it.
pub open spec fn outputs_fold<B: EncoderBackend>(
    backends: Seq<(EncoderType, B)>,
    files: Seq<ProjectFile>,
    entries: Seq<TypeRegistryEntryView>,
    types: Seq<CustomTypeInfo>,
    done: Seq<FileOutputView>,
) -> Result<Seq<FileOutputView>, Seq<char>>
    decreases files.len(),
{
    if files.len() == 0 {
        Ok(done)
    } else {
        match file_groups(backends, files[0], entries, types) {
            Err(m) => Err(m),
            Ok(groups) => outputs_fold(
                backends,
                files.drop_first(),
                entries,
                types,
                if groups.len() > 0 {
                    done.push(FileOutputView { path: files[0].path@, groups })
                } else {
                    done
                },
            ),
        }
    }
}

/// What is generated for a project: nothing but the failure where a
/// backend in use is missing or lacks a package; else the units of each
/// file, generated against the registry of all types of the project.
pub open spec fn project_outputs<B: EncoderBackend>(
    backends: Seq<(EncoderType, B)>,
    files: Seq<ProjectFile>,
    manifest: Manifest,
) -> Result<Seq<FileOutputView>, Seq<char>> {
    match backends_failure(
        backends,
        distinct_backends(all_encoders(project_types(files))),
        manifest,
    ) {
        Some(m) => Err(m),
        None => outputs_fold(
            backends,
            files,
            project_entries(files),
            project_types(files),
            Seq::empty(),
        ),
    }
}

/// Two lists of file outputs are the same but for what the backends
/// returned: the same files with units that differ in that alone.
pub open spec fn similar_outputs(xs: Seq<FileOutputView>, ws: Seq<FileOutputView>) -> bool {
    &&& xs.len() == ws.len()
    &&& forall|i: int|
        0 <= i < xs.len() ==> (#[trigger] xs[i]).path == ws[i].path && similar_groups(
            xs[i].groups,
            ws[i].groups,
        )
}

/// The units of the files of a project, generated against the registry of
/// all its types, whatever the check of the backends says.
pub open spec fn project_units<B: EncoderBackend>(
    backends: Seq<(EncoderType, B)>,
    files: Seq<ProjectFile>,
) -> Result<Seq<FileOutputView>, Seq<char>> {
    outputs_fold(backends, files, project_entries(files), project_types(files), Seq::empty())
}

/// What generation returned is what `wanted` says.
pub open spec fn outputs_agree(
    r: Result<Vec<FileOutput>, GlossError>,
    wanted: Result<Seq<FileOutputView>, Seq<char>>,
) -> bool {
    match wanted {
        Err(m) => r matches Err(GlossError::GenerationError(x)) && x@ == m,
        Ok(outputs) => r matches Ok(v) && output_views(v@) == outputs,
    }
}

/// The targets that the types ask encoders for, each once.
fn used_encoders(lookup: &TypeLookup) -> (r: Vec<EncoderType>)
    ensures
        r@ == distinct_backends(all_encoders(lookup@)),
{
    let mut all: Vec<EncoderType> = Vec::new();
    let mut i: usize = 0;
    assert(lookup@.subrange(0, 0) =~= Seq::<CustomTypeInfo>::empty());
    while i < lookup.types.len()
        invariant
            i <= lookup.types@.len(),
            all@ == all_encoders(lookup@.subrange(0, i as int)),
        decreases lookup.types@.len() - i,
    {
        let info = lookup.types[i];
        assert(lookup@.subrange(0, i + 1).drop_last() =~= lookup@.subrange(0, i as int));
        assert(lookup@.subrange(0, i + 1).last() == *info);
        let ghost before = all@;
        let mut k: usize = 0;
        while k < info.encoders.len()
            invariant
                k <= info.encoders@.len(),
                all@ == before + info.encoders@.subrange(0, k as int),
            decreases info.encoders@.len() - k,
        {
            all.push(info.encoders[k]);
            assert(all@ =~= before + info.encoders@.subrange(0, k + 1));
            k += 1;
        }
        assert(info.encoders@.subrange(0, k as int) =~= info.encoders@);
        i += 1;
    }
    assert(lookup@.subrange(0, i as int) =~= lookup@);
    unique_backends(&all)
}

/// Checks that each target in use has a backend and that the manifest
/// names the packages of that backend. Whatever the backends, the check
/// passes only where every target in use has a backend.
pub fn check_backends<B: EncoderBackend>(
    used: &Vec<EncoderType>,
    manifest: &Manifest,
    registry: &BackendRegistry<B>,
) -> (r: Result<(), GlossError>)
    ensures
        all_specified(registry.entries()) || used@.len() == 0 ==> check_agrees(
            r,
            backends_failure(registry.entries(), used@, *manifest),
        ),
        r is Ok ==> forall|k: int|
            0 <= k < used@.len() ==> slot_of(registry.entries(), #[trigger] used@[k]) is Some,
        r matches Err(e) ==> e is GenerationError,
{
    let ghost backends = registry.entries();
    let n = used.len();
    let mut i: usize = 0;
    assert(used@.subrange(0, n as int) =~= used@);
    while i < n
        invariant
            n == used@.len(),
            i <= n,
            backends == registry.entries(),
            forall|k: int| 0 <= k < i ==> slot_of(backends, #[trigger] used@[k]) is Some,
            all_specified(backends) ==> backends_failure(backends, used@, *manifest)
                == backends_failure(backends, used@.subrange(i as int, n as int), *manifest),
        decreases n - i,
    {
        let ghost rest = used@.subrange(i as int, n as int);
        assert(rest[0] == used@[i as int]);
        assert(rest.drop_first() =~= used@.subrange(i + 1, n as int));
        let backend = match registry.get(used[i]) {
            Some(b) => b,
            None => {
                return Err(no_backend(used[i]));
            },
        };
        proof {
            lemma_slot_is_registered(backends, used@[i as int]);
        }
        match ensure_backend_dependencies(manifest, backend) {
            Ok(()) => {},
            Err(e) => {
                return Err(e);
            },
        }
        i += 1;
    }
    Ok(())
}

/// Puts the units of a file behind the outputs, unless there is none.
fn push_output(outputs: &mut Vec<FileOutput>, path: &str, groups: Vec<GeneratedCode>)
    ensures
        output_views(final(outputs)@) == if groups@.len() > 0 {
            output_views(old(outputs)@).push(
                FileOutputView { path: path@, groups: group_views(groups@) },
            )
        } else {
            output_views(old(outputs)@)
        },
{
    if groups.len() > 0 {
        let ghost before = output_views(outputs@);
        let out = FileOutput { path: String::from_str(path), groups };
        let ghost shown = out@;
        outputs.push(out);
        assert(output_views(outputs@) =~= before.push(shown));
    }
}

/// No type of the project asks for an encoder.
pub open spec fn no_target_in_use(files: Seq<ProjectFile>) -> bool {
    distinct_backends(all_encoders(project_types(files))).len() == 0
}

/// A list of targets that holds each target once is empty only where
/// no target is asked for.
pub proof fn lemma_distinct_backends_empty(encoders: Seq<EncoderType>)
    requires
        distinct_backends(encoders).len() == 0,
    ensures
        encoders.len() == 0,
    decreases encoders.len(),
{
    if encoders.len() > 0 {
        let head = distinct_backends(encoders.drop_last());
        if head.contains(encoders.last()) {
            let i = choose|i: int| 0 <= i < head.len() && head[i] == encoders.last();
        }
    }
}

/// Where the types ask for no target, none of them asks for an encoder.
pub proof fn lemma_all_encoders_empty(types: Seq<CustomTypeInfo>, k: int)
    requires
        all_encoders(types).len() == 0,
        0 <= k < types.len(),
    ensures
        types[k].encoders@.len() == 0,
    decreases types.len(),
{
    if k < types.len() - 1 {
        lemma_all_encoders_empty(types.drop_last(), k);
    }
}

/// Each type of each file is among the types of the project.
pub proof fn lemma_project_types_cover(files: Seq<ProjectFile>, f: int, k: int)
    requires
        0 <= f < files.len(),
        0 <= k < files[f].types@.len(),
    ensures
        exists|i: int|
            0 <= i < project_types(files).len() && project_types(files)[i] == files[f].types@[k],
    decreases files.len(),
{
    let head = project_types(files.drop_last());
    if f == files.len() - 1 {
        assert(project_types(files)[head.len() + k] == files[f].types@[k]);
    } else {
        lemma_project_types_cover(files.drop_last(), f, k);
        let i = choose|i: int| 0 <= i < head.len() && head[i] == files.drop_last()[f].types@[k];
        assert(project_types(files)[i] == files[f].types@[k]);
    }
}

/// Where no target is in use, no file holds a type that asks for an encoder.
pub proof fn lemma_no_target_in_use(files: Seq<ProjectFile>, f: int)
    requires
        no_target_in_use(files),
        0 <= f < files.len(),
    ensures
        without_encoders(files[f]),
{
    reveal(without_encoders);
    lemma_distinct_backends_empty(all_encoders(project_types(files)));
    assert forall|k: int| 0 <= k < files[f].types@.len() implies (#[trigger] files[f].types@[
        k
    ]).encoders@.len() == 0 by {
        lemma_project_types_cover(files, f, k);
        let i = choose|i: int|
            0 <= i < project_types(files).len() && project_types(files)[i] == files[f].types@[k];
        lemma_all_encoders_empty(project_types(files), i);
    }
}

/// Generates the code of a project: checks the backends in use against
/// the manifest, fixes the names of all generated functions in the
/// registry, and then generates the units of each file.
///
/// Where every backend says what its methods return, or no type asks for
/// an encoder, the outcome is the stated one in full. Whatever the
/// backends: a failure is a generation error; nothing is generated unless
/// every target in use has a backend; where the units of some file cannot
/// be generated, generation fails; and what is generated is the stated
/// outputs but for what the backends returned.
pub fn generate_for_project<B: EncoderBackend>(
    files: &Vec<ProjectFile>,
    manifest: &Manifest,
    registry: &BackendRegistry<B>,
) -> (r: Result<Vec<FileOutput>, GlossError>)
    ensures
        all_specified(registry.entries()) || no_target_in_use(files@) ==> outputs_agree(
            r,
            project_outputs(registry.entries(), files@, *manifest),
        ),
        r matches Err(e) ==> e is GenerationError,
        r is Ok ==> forall|k: int|
            0 <= k < distinct_backends(all_encoders(project_types(files@))).len() ==> slot_of(
                registry.entries(),
                #[trigger] distinct_backends(all_encoders(project_types(files@)))[k],
            ) is Some,
        match project_units(registry.entries(), files@) {
            Err(m) => r is Err,
            Ok(w) => r matches Ok(v) ==> similar_outputs(output_views(v@), w),
        },
{
    let ghost exact = all_specified(registry.entries()) || no_target_in_use(files@);
    let ghost backends = registry.entries();
    let type_lookup = build_type_lookup(files);
    let used = used_encoders(&type_lookup);
    match check_backends(&used, manifest, registry) {
        Ok(()) => {},
        Err(e) => {
            return Err(e);
        },
    }
    let type_registry = build_type_registry(files);
    let n = files.len();
    let mut outputs: Vec<FileOutput> = Vec::new();
    let ghost all = outputs_fold(backends, files@, type_registry@, type_lookup@, Seq::empty());
    let ghost mut wanted: Seq<FileOutputView> = Seq::empty();
    let mut i: usize = 0;
    assert(files@.subrange(0, n as int) =~= files@);
    assert(output_views(outputs@) =~= Seq::<FileOutputView>::empty());
    while i < n
        invariant
            n == files@.len(),
            i <= n,
            backends == registry.entries(),
            exact == (all_specified(backends) || no_target_in_use(files@)),
            all == project_units(backends, files@),
            type_registry@ == project_entries(files@),
            type_lookup@ == project_types(files@),
            exact ==> all == project_outputs(backends, files@, *manifest),
            all == outputs_fold(
                backends,
                files@.subrange(i as int, n as int),
                type_registry@,
                type_lookup@,
                wanted,
            ),
            similar_outputs(output_views(outputs@), wanted),
            exact ==> output_views(outputs@) == wanted,
        decreases n - i,
    {
        let ghost rest = files@.subrange(i as int, n as int);
        assert(rest[0] == files@[i as int]);
        assert(rest.drop_first() =~= files@.subrange(i + 1, n as int));
        let file = &files[i];
        proof {
            if no_target_in_use(files@) {
                lemma_no_target_in_use(files@, i as int);
            }
        }
        let ghost wanted_groups = file_groups(backends, *file, type_registry@, type_lookup@);
        let groups = match generate_file(file, &type_registry, &type_lookup, registry) {
            Ok(g) => g,
            Err(e) => {
                return Err(e);
            },
        };
        let ghost before = output_views(outputs@);
        let ghost old_wanted = wanted;
        let ghost got = group_views(groups@);
        push_output(&mut outputs, file.path.as_str(), groups);
        proof {
            let gs = wanted_groups->Ok_0;
            if gs.len() > 0 {
                wanted = wanted.push(FileOutputView { path: file.path@, groups: gs });
                assert forall|k: int| 0 <= k < wanted.len() implies (#[trigger] output_views(
                    outputs@,
                )[k]).path == wanted[k].path && similar_groups(
                    output_views(outputs@)[k].groups,
                    wanted[k].groups,
                ) by {
                    if k < old_wanted.len() {
                        assert(output_views(outputs@)[k] == before[k]);
                    }
                }
            }
        }
        i += 1;
    }
    Ok(outputs)
}

/// A backend in use whose package the manifest names neither as a
/// dependency nor as a development dependency makes the check of the
/// backends fail.
pub proof fn lemma_missing_package_fails_check<B: EncoderBackend>(
    backends: Seq<(EncoderType, B)>,
    used: Seq<EncoderType>,
    manifest: Manifest,
    tables: Map<Seq<char>, Set<Seq<char>>>,
    i: int,
    k: int,
)
    requires
        0 <= i < used.len(),
        slot_of(backends, used[i]) is Some,
        manifest.content is Some,
        crate::manifest::parsed_manifest(manifest.content->0@) == Ok::<
            Map<Seq<char>, Set<Seq<char>>>,
            Seq<char>,
        >(tables),
        0 <= k < slot_of(backends, used[i])->0.required_packages_text().len(),
        !crate::manifest::names_package(
            tables,
            slot_of(backends, used[i])->0.required_packages_text()[k],
        ),
    ensures
        backends_failure(backends, used, manifest) is Some,
    decreases used.len(),
{
    if i == 0 {
        let b = slot_of(backends, used[0])->0;
        crate::manifest::lemma_missing_dependency_fails(b.required_packages_text(), tables, k);
    } else {
        assert(used.drop_first()[i - 1] == used[i]);
        if slot_of(backends, used[0]) is Some && dependency_failure(
            slot_of(backends, used[0])->0.required_packages_text(),
            manifest.path@,
            opt_text(manifest.content),
        ) is None {
            lemma_missing_package_fails_check(
                backends,
                used.drop_first(),
                manifest,
                tables,
                i - 1,
                k,
            );
        }
    }
}

/// Where a backend in use lacks a package in the manifest, nothing is
/// generated for the project: the outcome is the failure.
pub proof fn lemma_missing_package_stops_generation<B: EncoderBackend>(
    backends: Seq<(EncoderType, B)>,
    files: Seq<ProjectFile>,
    manifest: Manifest,
    tables: Map<Seq<char>, Set<Seq<char>>>,
    i: int,
    k: int,
)
    requires
        0 <= i < distinct_backends(all_encoders(project_types(files))).len(),
        slot_of(backends, distinct_backends(all_encoders(project_types(files)))[i]) is Some,
        manifest.content is Some,
        crate::manifest::parsed_manifest(manifest.content->0@) == Ok::<
            Map<Seq<char>, Set<Seq<char>>>,
            Seq<char>,
        >(tables),
        0 <= k < slot_of(
            backends,
            distinct_backends(all_encoders(project_types(files)))[i],
        )->0.required_packages_text().len(),
        !crate::manifest::names_package(
            tables,
            slot_of(
                backends,
                distinct_backends(all_encoders(project_types(files)))[i],
            )->0.required_packages_text()[k],
        ),
    ensures
        project_outputs(backends, files, manifest) is Err,
{
    lemma_missing_package_fails_check(
        backends,
        distinct_backends(all_encoders(project_types(files))),
        manifest,
        tables,
        i,
        k,
    );
}

} // verus!
