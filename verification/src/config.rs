//! Configuration: naming conventions, output routing, function naming, and
//! the rules by which one layer of configuration is laid over another.

use crate::error::GlossError;
use crate::naming::{render_fn_pattern, rendered_fn_pattern};
use crate::parser::{OutputOverride, OutputOverrideView};
use crate::text::{opt_text, same_text};
use vstd::prelude::*;
use vstd::string::*;

verus! {

/// How a field's label becomes a JSON key.
#[derive(Debug, Clone, Copy, PartialEq, Eq, Structural)]
pub enum FieldNamingConvention {
    /// The label as it is.
    SnakeCase,
    /// The label in camel case.
    CamelCase,
}

impl Default for FieldNamingConvention {
    fn default() -> (r: Self)
        ensures
            r == FieldNamingConvention::SnakeCase,
    {
        FieldNamingConvention::SnakeCase
    }
}

/// Whether a field of option type may be missing from the input.
#[derive(Debug, Clone, Copy, PartialEq, Eq, Structural)]
pub enum AbsentFieldMode {
    /// The key must be there; its value may be null.
    ErrorIfAbsent,
    /// The key may be missing.
    MaybeAbsent,
}

impl Default for AbsentFieldMode {
    fn default() -> (r: Self)
        ensures
            r == AbsentFieldMode::ErrorIfAbsent,
    {
        AbsentFieldMode::ErrorIfAbsent
    }
}

/// The default pattern of a combined output file.
pub open spec fn default_generated_file_naming_text() -> Seq<char> {
    "{module}_gloss.gleam"@
}

/// The default pattern of an encoder file.
pub open spec fn default_encode_module_naming_text() -> Seq<char> {
    "encode_{module}.gleam"@
}

/// The default pattern of a decoder file.
pub open spec fn default_decode_module_naming_text() -> Seq<char> {
    "decode_{module}.gleam"@
}

/// The default pattern of an encoder function's name.
pub open spec fn default_encoder_function_naming_text() -> Seq<char> {
    "{type_snake}_to_{backend}"@
}

/// The default pattern of a decoder function's name.
pub open spec fn default_decoder_function_naming_text() -> Seq<char> {
    "{type_snake}_decoder"@
}

/// The default pattern of a combined output file.
pub fn default_generated_file_naming() -> (r: String)
    ensures
        r@ == default_generated_file_naming_text(),
{
    String::from_str("{module}_gloss.gleam")
}

/// By default generated code goes to files of its own.
pub fn default_separate_files() -> (r: bool)
    ensures
        r,
{
    true
}

/// By default encoders and decoders share a file.
pub fn default_separate_encoder_decoder() -> (r: bool)
    ensures
        !r,
{
    false
}

/// The default pattern of an encoder file.
pub fn default_encode_module_naming() -> (r: String)
    ensures
        r@ == default_encode_module_naming_text(),
{
    String::from_str("encode_{module}.gleam")
}

/// The default pattern of a decoder file.
pub fn default_decode_module_naming() -> (r: String)
    ensures
        r@ == default_decode_module_naming_text(),
{
    String::from_str("decode_{module}.gleam")
}

/// The default pattern of an encoder function's name.
pub fn default_encoder_function_naming() -> (r: String)
    ensures
        r@ == default_encoder_function_naming_text(),
{
    String::from_str("{type_snake}_to_{backend}")
}

/// The default pattern of a decoder function's name.
pub fn default_decoder_function_naming() -> (r: String)
    ensures
        r@ == default_decoder_function_naming_text(),
{
    String::from_str("{type_snake}_decoder")
}

/// A copy of an optional string.
pub fn copy_opt(o: &Option<String>) -> (r: Option<String>)
    ensures
        r == *o,
{
    match o {
        Some(s) => Some(s.clone()),
        None => None,
    }
}

/// Where generated code goes and how its files are named.
#[derive(Debug, Clone, PartialEq, Eq)]
pub struct OutputConfig {
    /// The output directory, with its mode prefix; none means beside the source.
    pub directory: Option<String>,
    /// Pattern of the combined file.
    pub generated_file_naming: String,
    /// Whether generated code goes to files of its own.
    pub separate_files: bool,
    /// Whether encoders and decoders go to different files.
    pub separate_encoder_decoder: bool,
    /// Pattern of the encoder file.
    pub encode_module_naming: String,
    /// Pattern of the decoder file.
    pub decode_module_naming: String,
}

/// The mathematical value of an [`OutputConfig`].
pub struct OutputConfigView {
    pub directory: Option<Seq<char>>,
    pub generated_file_naming: Seq<char>,
    pub separate_files: bool,
    pub separate_encoder_decoder: bool,
    pub encode_module_naming: Seq<char>,
    pub decode_module_naming: Seq<char>,
}

impl View for OutputConfig {
    type V = OutputConfigView;

    open spec fn view(&self) -> OutputConfigView {
        OutputConfigView {
            directory: opt_text(self.directory),
            generated_file_naming: self.generated_file_naming@,
            separate_files: self.separate_files,
            separate_encoder_decoder: self.separate_encoder_decoder,
            encode_module_naming: self.encode_module_naming@,
            decode_module_naming: self.decode_module_naming@,
        }
    }
}

/// The output configuration that nothing has changed.
pub open spec fn default_output() -> OutputConfigView {
    OutputConfigView {
        directory: None,
        generated_file_naming: default_generated_file_naming_text(),
        separate_files: true,
        separate_encoder_decoder: false,
        encode_module_naming: default_encode_module_naming_text(),
        decode_module_naming: default_decode_module_naming_text(),
    }
}

/// `over` where it is set, else `base`.
pub open spec fn or_text(over: Option<Seq<char>>, base: Option<Seq<char>>) -> Option<Seq<char>> {
    if over is Some {
        over
    } else {
        base
    }
}

/// `over` where it differs from `default`, else `base`.
pub open spec fn unless_default(over: Seq<char>, base: Seq<char>, default: Seq<char>) -> Seq<
    char,
> {
    if over != default {
        over
    } else {
        base
    }
}

/// `over` laid over `base`: a directory that is set replaces; a pattern
/// replaces where it differs from that pattern's default; the two flags
/// always replace.
pub open spec fn merged_output(base: OutputConfigView, over: OutputConfigView) -> OutputConfigView {
    OutputConfigView {
        directory: or_text(over.directory, base.directory),
        generated_file_naming: unless_default(
            over.generated_file_naming,
            base.generated_file_naming,
            default_generated_file_naming_text(),
        ),
        separate_files: over.separate_files,
        separate_encoder_decoder: over.separate_encoder_decoder,
        encode_module_naming: unless_default(
            over.encode_module_naming,
            base.encode_module_naming,
            default_encode_module_naming_text(),
        ),
        decode_module_naming: unless_default(
            over.decode_module_naming,
            base.decode_module_naming,
            default_decode_module_naming_text(),
        ),
    }
}

/// A directive's output settings laid over `base`: each setting that the
/// directive holds replaces; `separate_files` stays.
pub open spec fn overridden_output(
    base: OutputConfigView,
    over: OutputOverrideView,
) -> OutputConfigView {
    OutputConfigView {
        directory: or_text(over.directory, base.directory),
        generated_file_naming: match over.generated_file_naming {
            Some(p) => p,
            None => base.generated_file_naming,
        },
        separate_files: base.separate_files,
        separate_encoder_decoder: match over.separate_encoder_decoder {
            Some(b) => b,
            None => base.separate_encoder_decoder,
        },
        encode_module_naming: match over.encode_module_naming {
            Some(p) => p,
            None => base.encode_module_naming,
        },
        decode_module_naming: match over.decode_module_naming {
            Some(p) => p,
            None => base.decode_module_naming,
        },
    }
}

/// `over` if it differs from `default`, else `base`.
fn pick_pattern(over: String, base: String, default: &str) -> (r: String)
    ensures
        r@ == unless_default(over@, base@, default@),
{
    if !same_text(over.as_str(), default) {
        over
    } else {
        base
    }
}

/// The directive's pattern where it holds one, else `base`.
fn pick_override(over: &Option<String>, base: String) -> (r: String)
    ensures
        r@ == match opt_text(*over) {
            Some(p) => p,
            None => base@,
        },
{
    match over {
        Some(p) => p.clone(),
        None => base,
    }
}

impl Default for OutputConfig {
    fn default() -> (r: Self)
        ensures
            r@ == default_output(),
    {
        OutputConfig {
            directory: None,
            generated_file_naming: default_generated_file_naming(),
            separate_files: default_separate_files(),
            separate_encoder_decoder: default_separate_encoder_decoder(),
            encode_module_naming: default_encode_module_naming(),
            decode_module_naming: default_decode_module_naming(),
        }
    }
}

impl OutputConfig {
    /// A copy of this configuration.
    pub fn duplicate(&self) -> (r: Self)
        ensures
            r@ == self@,
    {
        OutputConfig {
            directory: copy_opt(&self.directory),
            generated_file_naming: self.generated_file_naming.clone(),
            separate_files: self.separate_files,
            separate_encoder_decoder: self.separate_encoder_decoder,
            encode_module_naming: self.encode_module_naming.clone(),
            decode_module_naming: self.decode_module_naming.clone(),
        }
    }

    /// Whether two configurations hold the same values.
    pub fn same_as(&self, other: &Self) -> (r: bool)
        ensures
            r == (self@ == other@),
    {
        let same_directory = match (&self.directory, &other.directory) {
            (Some(a), Some(b)) => same_text(a.as_str(), b.as_str()),
            (None, None) => true,
            _ => false,
        };
        same_directory && same_text(
            self.generated_file_naming.as_str(),
            other.generated_file_naming.as_str(),
        ) && self.separate_files == other.separate_files && self.separate_encoder_decoder
            == other.separate_encoder_decoder && same_text(
            self.encode_module_naming.as_str(),
            other.encode_module_naming.as_str(),
        ) && same_text(self.decode_module_naming.as_str(), other.decode_module_naming.as_str())
    }

    /// Lays `other` over this configuration.
    pub fn merge_with(self, other: Self) -> (r: Self)
        ensures
            r@ == merged_output(self@, other@),
    {
        OutputConfig {
            directory: match other.directory {
                Some(d) => Some(d),
                None => self.directory,
            },
            generated_file_naming: pick_pattern(
                other.generated_file_naming,
                self.generated_file_naming,
                "{module}_gloss.gleam",
            ),
            separate_files: other.separate_files,
            separate_encoder_decoder: other.separate_encoder_decoder,
            encode_module_naming: pick_pattern(
                other.encode_module_naming,
                self.encode_module_naming,
                "encode_{module}.gleam",
            ),
            decode_module_naming: pick_pattern(
                other.decode_module_naming,
                self.decode_module_naming,
                "decode_{module}.gleam",
            ),
        }
    }

    /// Lays the output settings of a file-level or type-level directive
    /// over this configuration.
    pub fn apply_override(self, override_config: &OutputOverride) -> (r: Self)
        ensures
            r@ == overridden_output(self@, override_config@),
    {
        OutputConfig {
            directory: match &override_config.directory {
                Some(d) => Some(d.clone()),
                None => self.directory,
            },
            generated_file_naming: pick_override(
                &override_config.generated_file_naming,
                self.generated_file_naming,
            ),
            separate_files: self.separate_files,
            separate_encoder_decoder: match override_config.separate_encoder_decoder {
                Some(b) => b,
                None => self.separate_encoder_decoder,
            },
            encode_module_naming: pick_override(
                &override_config.encode_module_naming,
                self.encode_module_naming,
            ),
            decode_module_naming: pick_override(
                &override_config.decode_module_naming,
                self.decode_module_naming,
            ),
        }
    }
}

/// The patterns from which the names of generated functions are made.
#[derive(Debug, Clone, PartialEq, Eq)]
pub struct FnNamingConfig {
    pub encoder_function_naming: String,
    pub decoder_function_naming: String,
}

/// The mathematical value of a [`FnNamingConfig`].
pub struct FnNamingConfigView {
    pub encoder_function_naming: Seq<char>,
    pub decoder_function_naming: Seq<char>,
}

impl View for FnNamingConfig {
    type V = FnNamingConfigView;

    open spec fn view(&self) -> FnNamingConfigView {
        FnNamingConfigView {
            encoder_function_naming: self.encoder_function_naming@,
            decoder_function_naming: self.decoder_function_naming@,
        }
    }
}

/// Function-naming patterns set by a file-level or type-level directive.
#[derive(Debug, Clone, Default)]
pub struct FnNamingOverride {
    pub encoder_function_naming: Option<String>,
    pub decoder_function_naming: Option<String>,
}

/// The mathematical value of a [`FnNamingOverride`].
pub struct FnNamingOverrideView {
    pub encoder_function_naming: Option<Seq<char>>,
    pub decoder_function_naming: Option<Seq<char>>,
}

impl View for FnNamingOverride {
    type V = FnNamingOverrideView;

    open spec fn view(&self) -> FnNamingOverrideView {
        FnNamingOverrideView {
            encoder_function_naming: opt_text(self.encoder_function_naming),
            decoder_function_naming: opt_text(self.decoder_function_naming),
        }
    }
}

impl FnNamingOverride {
    /// A copy of this directive.
    pub fn duplicate(&self) -> (r: Self)
        ensures
            r@ == self@,
    {
        FnNamingOverride {
            encoder_function_naming: copy_opt(&self.encoder_function_naming),
            decoder_function_naming: copy_opt(&self.decoder_function_naming),
        }
    }
}

/// The function-naming patterns that nothing has changed.
pub open spec fn default_fn_naming() -> FnNamingConfigView {
    FnNamingConfigView {
        encoder_function_naming: default_encoder_function_naming_text(),
        decoder_function_naming: default_decoder_function_naming_text(),
    }
}

/// `over` laid over `base`: a pattern replaces where it differs from its
/// default.
pub open spec fn merged_fn_naming(
    base: FnNamingConfigView,
    over: FnNamingConfigView,
) -> FnNamingConfigView {
    FnNamingConfigView {
        encoder_function_naming: unless_default(
            over.encoder_function_naming,
            base.encoder_function_naming,
            default_encoder_function_naming_text(),
        ),
        decoder_function_naming: unless_default(
            over.decoder_function_naming,
            base.decoder_function_naming,
            default_decoder_function_naming_text(),
        ),
    }
}

/// A directive's patterns laid over `base`: each pattern that the directive
/// holds replaces.
pub open spec fn overridden_fn_naming(
    base: FnNamingConfigView,
    over: FnNamingOverrideView,
) -> FnNamingConfigView {
    FnNamingConfigView {
        encoder_function_naming: match over.encoder_function_naming {
            Some(p) => p,
            None => base.encoder_function_naming,
        },
        decoder_function_naming: match over.decoder_function_naming {
            Some(p) => p,
            None => base.decoder_function_naming,
        },
    }
}

impl Default for FnNamingConfig {
    fn default() -> (r: Self)
        ensures
            r@ == default_fn_naming(),
    {
        FnNamingConfig {
            encoder_function_naming: default_encoder_function_naming(),
            decoder_function_naming: default_decoder_function_naming(),
        }
    }
}

impl FnNamingConfig {
    /// A copy of these patterns.
    pub fn duplicate(&self) -> (r: Self)
        ensures
            r@ == self@,
    {
        FnNamingConfig {
            encoder_function_naming: self.encoder_function_naming.clone(),
            decoder_function_naming: self.decoder_function_naming.clone(),
        }
    }

    /// Lays `other` over these patterns.
    pub fn merge_with(self, other: Self) -> (r: Self)
        ensures
            r@ == merged_fn_naming(self@, other@),
    {
        FnNamingConfig {
            encoder_function_naming: pick_pattern(
                other.encoder_function_naming,
                self.encoder_function_naming,
                "{type_snake}_to_{backend}",
            ),
            decoder_function_naming: pick_pattern(
                other.decoder_function_naming,
                self.decoder_function_naming,
                "{type_snake}_decoder",
            ),
        }
    }

    /// Lays the patterns of a file-level or type-level directive over these.
    pub fn apply_override(self, override_cfg: &FnNamingOverride) -> (r: Self)
        ensures
            r@ == overridden_fn_naming(self@, override_cfg@),
    {
        FnNamingConfig {
            encoder_function_naming: pick_override(
                &override_cfg.encoder_function_naming,
                self.encoder_function_naming,
            ),
            decoder_function_naming: pick_override(
                &override_cfg.decoder_function_naming,
                self.decoder_function_naming,
            ),
        }
    }

    /// The name of the encoder function of a type for one backend.
    pub fn render_encoder_fn_name(&self, ty_name: &str, backend_identifier: &str) -> (r: String)
        ensures
            r@ == rendered_fn_pattern(
                self@.encoder_function_naming,
                ty_name@,
                Some(backend_identifier@),
            ),
    {
        render_fn_pattern(
            self.encoder_function_naming.as_str(),
            ty_name,
            Some(backend_identifier),
        )
    }

    /// The name of the decoder function of a type.
    pub fn render_decoder_fn_name(&self, ty_name: &str) -> (r: String)
        ensures
            r@ == rendered_fn_pattern(self@.decoder_function_naming, ty_name@, None),
    {
        render_fn_pattern(self.decoder_function_naming.as_str(), ty_name, None)
    }
}

/// The configuration of one directory level, or the effective
/// configuration of a file or a type.
#[derive(Debug, Clone)]
pub struct Config {
    /// How labels become JSON keys.
    pub field_naming_strategy: FieldNamingConvention,
    /// Whether option-typed fields may be missing.
    pub absent_field_mode: AbsentFieldMode,
    /// The failure message of a decoder that meets an unknown variant.
    pub decoder_unknown_variant_message: Option<String>,
    /// Output routing.
    pub output: OutputConfig,
    /// Names of generated functions.
    pub fn_naming: FnNamingConfig,
}

/// The mathematical value of a [`Config`].
pub struct ConfigView {
    pub field_naming_strategy: FieldNamingConvention,
    pub absent_field_mode: AbsentFieldMode,
    pub decoder_unknown_variant_message: Option<Seq<char>>,
    pub output: OutputConfigView,
    pub fn_naming: FnNamingConfigView,
}

impl View for Config {
    type V = ConfigView;

    open spec fn view(&self) -> ConfigView {
        ConfigView {
            field_naming_strategy: self.field_naming_strategy,
            absent_field_mode: self.absent_field_mode,
            decoder_unknown_variant_message: opt_text(self.decoder_unknown_variant_message),
            output: self.output@,
            fn_naming: self.fn_naming@,
        }
    }
}

/// The configuration with the two given choices and defaults elsewhere.
pub open spec fn config_with(
    field_naming_strategy: FieldNamingConvention,
    absent_field_mode: AbsentFieldMode,
) -> ConfigView {
    ConfigView {
        field_naming_strategy,
        absent_field_mode,
        decoder_unknown_variant_message: None,
        output: default_output(),
        fn_naming: default_fn_naming(),
    }
}

/// `over` laid over `base`: the two conventions always replace; a message
/// that is set replaces; output and function naming merge by their rules.
pub open spec fn merged_config(base: ConfigView, over: ConfigView) -> ConfigView {
    ConfigView {
        field_naming_strategy: over.field_naming_strategy,
        absent_field_mode: over.absent_field_mode,
        decoder_unknown_variant_message: or_text(
            over.decoder_unknown_variant_message,
            base.decoder_unknown_variant_message,
        ),
        output: merged_output(base.output, over.output),
        fn_naming: merged_fn_naming(base.fn_naming, over.fn_naming),
    }
}

/// The layers laid over `root` one after the other, the last one on top.
pub open spec fn cascaded(root: ConfigView, layers: Seq<ConfigView>) -> ConfigView
    decreases layers.len(),
{
    if layers.len() == 0 {
        root
    } else {
        merged_config(cascaded(root, layers.drop_last()), layers.last())
    }
}

/// The views of a sequence of configurations.
pub open spec fn config_views(layers: Seq<Config>) -> Seq<ConfigView> {
    Seq::new(layers.len(), |i: int| layers[i]@)
}

impl Default for Config {
    fn default() -> (r: Self)
        ensures
            r@ == config_with(FieldNamingConvention::SnakeCase, AbsentFieldMode::ErrorIfAbsent),
    {
        Config {
            field_naming_strategy: FieldNamingConvention::SnakeCase,
            absent_field_mode: AbsentFieldMode::ErrorIfAbsent,
            decoder_unknown_variant_message: None,
            output: OutputConfig::default(),
            fn_naming: FnNamingConfig::default(),
        }
    }
}

impl Config {
    /// The configuration with the two given choices and defaults elsewhere.
    pub fn new(field_naming_strategy: FieldNamingConvention, absent_field_mode: AbsentFieldMode) -> (r:
        Self)
        ensures
            r@ == config_with(field_naming_strategy, absent_field_mode),
    {
        Config {
            field_naming_strategy,
            absent_field_mode,
            decoder_unknown_variant_message: None,
            output: OutputConfig::default(),
            fn_naming: FnNamingConfig::default(),
        }
    }

    /// A copy of this configuration.
    pub fn duplicate(&self) -> (r: Self)
        ensures
            r@ == self@,
    {
        Config {
            field_naming_strategy: self.field_naming_strategy,
            absent_field_mode: self.absent_field_mode,
            decoder_unknown_variant_message: copy_opt(&self.decoder_unknown_variant_message),
            output: self.output.duplicate(),
            fn_naming: self.fn_naming.duplicate(),
        }
    }

    /// Lays `other` over this configuration.
    pub fn merge_with(self, other: Self) -> (r: Self)
        ensures
            r@ == merged_config(self@, other@),
    {
        Config {
            field_naming_strategy: other.field_naming_strategy,
            absent_field_mode: other.absent_field_mode,
            decoder_unknown_variant_message: match other.decoder_unknown_variant_message {
                Some(m) => Some(m),
                None => self.decoder_unknown_variant_message,
            },
            output: self.output.merge_with(other.output),
            fn_naming: self.fn_naming.merge_with(other.fn_naming),
        }
    }

    /// The configuration of a file: the documents found between the project
    /// root and the file's directory, laid over the root's configuration.
    /// `layers` holds them from the directory nearest the root to the file's
    /// own, so the nearest to the file ends on top.
    pub fn load_cascaded(root: Config, layers: &Vec<Config>) -> (r: Self)
        ensures
            r@ == cascaded(root@, config_views(layers@)),
    {
        let mut config = root;
        let mut i: usize = 0;
        assert(config_views(layers@).subrange(0, 0) =~= Seq::<ConfigView>::empty());
        while i < layers.len()
            invariant
                i <= layers@.len(),
                config@ == cascaded(root@, config_views(layers@).subrange(0, i as int)),
            decreases layers@.len() - i,
        {
            assert(config_views(layers@).subrange(0, i + 1).drop_last() =~= config_views(
                layers@,
            ).subrange(0, i as int));
            config = config.merge_with(layers[i].duplicate());
            i += 1;
        }
        assert(config_views(layers@).subrange(0, i as int) =~= config_views(layers@));
        config
    }
}

/// The documents of the levels below the root laid over `base` one after
/// the other; the first document that is malformed ends it with its message.
pub open spec fn cascaded_documents(base: ConfigView, layers: Seq<Result<Config, String>>) -> Result<
    ConfigView,
    Seq<char>,
>
    decreases layers.len(),
{
    if layers.len() == 0 {
        Ok(base)
    } else {
        match layers[0] {
            Err(m) => Err(m@),
            Ok(c) => cascaded_documents(merged_config(base, c@), layers.drop_first()),
        }
    }
}

/// The configuration of a file from the documents as they were found: the
/// root's document, or the defaults where the root has none, with the
/// documents of the levels below it laid over it. A malformed document at
/// any level is a failure with that document's message.
pub open spec fn resolved_documents(
    root: Option<Result<Config, String>>,
    layers: Seq<Result<Config, String>>,
) -> Result<ConfigView, Seq<char>> {
    match root {
        Some(Err(m)) => Err(m@),
        Some(Ok(c)) => cascaded_documents(c@, layers),
        None => cascaded_documents(
            config_with(FieldNamingConvention::SnakeCase, AbsentFieldMode::ErrorIfAbsent),
            layers,
        ),
    }
}

impl Config {
    /// The configuration of a file from the documents as they were found
    /// on the way from the project root to the file's directory: `root` is
    /// the root's document, if there is one, and `layers` holds the
    /// documents below it, from the nearest the root to the file's own;
    /// each is the configuration it parsed to or the message of its failure.
    pub fn load_documents(
        root: &Option<Result<Config, String>>,
        layers: &Vec<Result<Config, String>>,
    ) -> (r: Result<Config, GlossError>)
        ensures
            match resolved_documents(*root, layers@) {
                Ok(c) => r matches Ok(config) && config@ == c,
                Err(m) => r matches Err(GlossError::ConfigError(x)) && x@ == m,
            },
    {
        let mut config = match root {
            Some(Err(m)) => {
                return Err(GlossError::ConfigError(m.clone()));
            },
            Some(Ok(c)) => c.duplicate(),
            None => Config::default(),
        };
        let n = layers.len();
        let ghost all = resolved_documents(*root, layers@);
        let mut i: usize = 0;
        assert(layers@.subrange(0, n as int) =~= layers@);
        while i < n
            invariant
                n == layers@.len(),
                i <= n,
                all == resolved_documents(*root, layers@),
                all == cascaded_documents(config@, layers@.subrange(i as int, n as int)),
            decreases n - i,
        {
            let ghost rest = layers@.subrange(i as int, n as int);
            assert(rest[0] == layers@[i as int]);
            assert(rest.drop_first() =~= layers@.subrange(i + 1, n as int));
            match &layers[i] {
                Err(m) => {
                    return Err(GlossError::ConfigError(m.clone()));
                },
                Ok(c) => {
                    config = config.merge_with(c.duplicate());
                },
            }
            i += 1;
        }
        Ok(config)
    }
}

/// Laying a level over the configuration and the rest over that is laying
/// all of them over the configuration.
pub proof fn lemma_cascaded_from_front(base: ConfigView, first: ConfigView, rest: Seq<ConfigView>)
    ensures
        cascaded(merged_config(base, first), rest) == cascaded(base, seq![first] + rest),
    decreases rest.len(),
{
    let all = seq![first] + rest;
    if rest.len() == 0 {
        assert(all.drop_last() =~= Seq::<ConfigView>::empty());
        assert(all.last() == first);
        assert(cascaded(base, all.drop_last()) == base);
    } else {
        lemma_cascaded_from_front(base, first, rest.drop_last());
        assert(all.drop_last() =~= seq![first] + rest.drop_last());
        assert(all.last() == rest.last());
    }
}

/// Where every document is well formed, the configuration from the
/// documents is that of their configurations cascaded.
pub proof fn lemma_documents_cascade(base: ConfigView, layers: Seq<Result<Config, String>>)
    requires
        forall|i: int| 0 <= i < layers.len() ==> (#[trigger] layers[i]) is Ok,
    ensures
        cascaded_documents(base, layers) == Ok::<ConfigView, Seq<char>>(
            cascaded(base, Seq::new(layers.len(), |i: int| layers[i]->Ok_0@)),
        ),
    decreases layers.len(),
{
    let views = Seq::new(layers.len(), |i: int| layers[i]->Ok_0@);
    if layers.len() == 0 {
        assert(views =~= Seq::<ConfigView>::empty());
    } else {
        let rest = layers.drop_first();
        let rest_views = Seq::new(rest.len(), |i: int| rest[i]->Ok_0@);
        assert(layers[0] is Ok);
        assert forall|i: int| 0 <= i < rest.len() implies (#[trigger] rest[i]) is Ok by {
            assert(layers[i + 1] is Ok);
        }
        lemma_documents_cascade(merged_config(base, layers[0]->Ok_0@), rest);
        lemma_cascaded_from_front(base, layers[0]->Ok_0@, rest_views);
        assert(views =~= seq![layers[0]->Ok_0@] + rest_views);
    }
}

/// A value that a deeper directory sets overrides what the levels above it
/// gave: the two conventions and the two flags always; a directory or a
/// message where the deeper level holds one; a pattern where the deeper
/// level's differs from that pattern's default.
pub proof fn lemma_deeper_level_overrides(root: ConfigView, layers: Seq<ConfigView>)
    requires
        layers.len() > 0,
    ensures
        ({
            let deep = layers.last();
            let c = cascaded(root, layers);
            &&& c.field_naming_strategy == deep.field_naming_strategy
            &&& c.absent_field_mode == deep.absent_field_mode
            &&& c.output.separate_files == deep.output.separate_files
            &&& c.output.separate_encoder_decoder == deep.output.separate_encoder_decoder
            &&& deep.decoder_unknown_variant_message is Some ==> c.decoder_unknown_variant_message
                == deep.decoder_unknown_variant_message
            &&& deep.output.directory is Some ==> c.output.directory == deep.output.directory
            &&& deep.output.generated_file_naming != default_generated_file_naming_text()
                ==> c.output.generated_file_naming == deep.output.generated_file_naming
            &&& deep.output.encode_module_naming != default_encode_module_naming_text()
                ==> c.output.encode_module_naming == deep.output.encode_module_naming
            &&& deep.output.decode_module_naming != default_decode_module_naming_text()
                ==> c.output.decode_module_naming == deep.output.decode_module_naming
            &&& deep.fn_naming.encoder_function_naming != default_encoder_function_naming_text()
                ==> c.fn_naming.encoder_function_naming == deep.fn_naming.encoder_function_naming
            &&& deep.fn_naming.decoder_function_naming != default_decoder_function_naming_text()
                ==> c.fn_naming.decoder_function_naming == deep.fn_naming.decoder_function_naming
        }),
{
}

/// What a deeper level leaves unset comes from the levels above it.
pub proof fn lemma_unset_values_are_inherited(root: ConfigView, layers: Seq<ConfigView>)
    requires
        layers.len() > 0,
    ensures
        ({
            let deep = layers.last();
            let above = cascaded(root, layers.drop_last());
            let c = cascaded(root, layers);
            &&& deep.decoder_unknown_variant_message is None ==> c.decoder_unknown_variant_message
                == above.decoder_unknown_variant_message
            &&& deep.output.directory is None ==> c.output.directory == above.output.directory
            &&& deep.output.generated_file_naming == default_generated_file_naming_text()
                ==> c.output.generated_file_naming == above.output.generated_file_naming
            &&& deep.output.encode_module_naming == default_encode_module_naming_text()
                ==> c.output.encode_module_naming == above.output.encode_module_naming
            &&& deep.output.decode_module_naming == default_decode_module_naming_text()
                ==> c.output.decode_module_naming == above.output.decode_module_naming
            &&& deep.fn_naming.encoder_function_naming == default_encoder_function_naming_text()
                ==> c.fn_naming.encoder_function_naming == above.fn_naming.encoder_function_naming
            &&& deep.fn_naming.decoder_function_naming == default_decoder_function_naming_text()
                ==> c.fn_naming.decoder_function_naming == above.fn_naming.decoder_function_naming
        }),
{
}

} // verus!
