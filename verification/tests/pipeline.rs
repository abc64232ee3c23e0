use gloss_core::source::{ConstructorDecl, CustomTypeDecl, FieldDecl, ImportDecl, TypeAst};
use gloss_core::{
    generate_for_project, parse_gleam_files, AbsentFieldMode, BackendRegistry, Config,
    EncoderBackend, EncoderType, FieldNamingConvention, FileOutput, FnNamingConfig, GlossError,
    Manifest, OutputConfig, ParsedModule, PathMode, ProjectFile, SourceUnit,
};

fn named(name: &str, arguments: Vec<TypeAst>) -> TypeAst {
    TypeAst::Constructor { module: None, name: name.to_string(), arguments }
}

fn qualified(module: &str, name: &str) -> TypeAst {
    TypeAst::Constructor {
        module: Some(module.to_string()),
        name: name.to_string(),
        arguments: vec![],
    }
}

fn field(source: &str, label: &str, ast: TypeAst) -> FieldDecl {
    let needle = format!("{}:", label);
    let start = source.find(&needle).expect("field in source");
    FieldDecl { label: Some(label.to_string()), doc: None, start, ast }
}

fn constructor(name: &str, arguments: Vec<FieldDecl>) -> ConstructorDecl {
    ConstructorDecl { name: name.to_string(), arguments }
}

fn custom_type(source: &str, name: &str, constructors: Vec<ConstructorDecl>) -> CustomTypeDecl {
    let needle = format!("pub type {}", name);
    let start = source.find(&needle).expect("type in source");
    CustomTypeDecl { name: name.to_string(), documentation: None, start, constructors }
}

fn import(module: &str) -> ImportDecl {
    ImportDecl { module: module.to_string(), alias: None, unqualified_types: vec![] }
}

fn unit(
    path: &str,
    module: &str,
    source: &str,
    imports: Vec<ImportDecl>,
    types: Vec<CustomTypeDecl>,
) -> SourceUnit {
    let module_name = module.rsplit('/').next().unwrap_or(module).to_string();
    SourceUnit {
        path: path.to_string(),
        module_name,
        module: module.to_string(),
        source: source.to_string(),
        parsed: ParsedModule { imports, custom_types: types },
    }
}

fn manifest(content: &str) -> Manifest {
    Manifest { path: "gleam.toml".to_string(), content: Some(content.to_string()) }
}

fn manifest_with_json() -> Manifest {
    manifest(
        r#"[project]
name = "app"
version = "1.0.0"

[dependencies]
"gleam/json" = "~> 1.0"
"#,
    )
}

fn project_files(units: Vec<SourceUnit>, config: &Config) -> Vec<ProjectFile> {
    parse_gleam_files(&units)
        .expect("parse units")
        .into_iter()
        .map(|f| ProjectFile {
            path: f.path,
            config: config.clone(),
            file_config: f.file_config,
            types: f.types,
        })
        .collect()
}

fn generate(units: Vec<SourceUnit>, config: &Config, manifest: &Manifest) -> Vec<FileOutput> {
    let files = project_files(units, config);
    let registry = BackendRegistry::new();
    generate_for_project(&files, manifest, &registry).expect("generate project")
}

fn groups_of<'a>(generated: &'a [FileOutput], path: &str) -> Option<&'a Vec<gloss_core::GeneratedCode>> {
    generated.iter().find(|f| f.path == path).map(|f| &f.groups)
}

fn defaults() -> Config {
    Config::new(FieldNamingConvention::SnakeCase, AbsentFieldMode::ErrorIfAbsent)
}

const HEADER: &str = "// This file was generated by gloss\n// https://github.com/abs0luty/gloss\n//\n// Do not modify this file directly.\n// Any changes will be overwritten when gloss regenerates this file.\n\n";

fn simple_record(source: &str, name: &str, label: &str, ty: &str) -> CustomTypeDecl {
    custom_type(
        source,
        name,
        vec![constructor(name, vec![field(source, label, named(ty, vec![]))])],
    )
}

#[test]
fn absent_field_mode_maybe_absent_defaults_to_optional_field() {
    let source = r#"
// gloss!: decoder
pub type Settings {
  Settings(threshold: Option(Int), label: String)
}
"#;
    let settings = custom_type(
        source,
        "Settings",
        vec![constructor(
            "Settings",
            vec![
                field(source, "threshold", named("Option", vec![named("Int", vec![])])),
                field(source, "label", named("String", vec![])),
            ],
        )],
    );
    let config = Config::new(FieldNamingConvention::SnakeCase, AbsentFieldMode::MaybeAbsent);
    let generated = generate(
        vec![unit("src/settings.gleam", "settings", source, vec![], vec![settings])],
        &config,
        &manifest_with_json(),
    );

    let groups = groups_of(&generated, "src/settings.gleam").expect("settings module generated");
    assert_eq!(groups.len(), 1);

    let decoder_code = groups[0].get_decoder_code(true, false);
    assert!(decoder_code.contains("decode.optional_field(\"threshold\", option.None"));
}

#[test]
fn error_if_absent_requires_option_typed_field() {
    let source = r#"
// gloss!: decoder
pub type Settings {
  Settings(threshold: Option(Int), label: String)
}
"#;
    let settings = custom_type(
        source,
        "Settings",
        vec![constructor(
            "Settings",
            vec![
                field(source, "threshold", named("Option", vec![named("Int", vec![])])),
                field(source, "label", named("String", vec![])),
            ],
        )],
    );
    let generated = generate(
        vec![unit("src/settings.gleam", "settings", source, vec![], vec![settings])],
        &defaults(),
        &manifest_with_json(),
    );
    let groups = &generated[0].groups;
    assert!(!groups[0].decoder_uses_option_helpers);
    let decoder_code = groups[0].get_decoder_code(true, false);
    assert_eq!(
        decoder_code,
        format!(
            "{}import gleam/dynamic/decode\n\npub fn settings_decoder() -> decode.Decoder(Settings) {{\n  use threshold <- decode.field(\"threshold\", decode.optional(decode.int))\n  use label <- decode.field(\"label\", decode.string)\n  decode.success(Settings(threshold:, label:))\n}}\n\n",
            HEADER
        )
    );
}

#[test]
fn field_markers_override_absent_field_mode() {
    let source = r#"
// gloss!: decoder
pub type Toggle {
  Toggle(
    // gloss!: maybe_absent
    flag: Option(Bool),
    // gloss!: must_exist
    mode: Option(String),
  )
}

"#;
    let toggle = custom_type(
        source,
        "Toggle",
        vec![constructor(
            "Toggle",
            vec![
                field(source, "flag", named("Option", vec![named("Bool", vec![])])),
                field(source, "mode", named("Option", vec![named("String", vec![])])),
            ],
        )],
    );
    let generated = generate(
        vec![unit("src/toggle.gleam", "toggle", source, vec![], vec![toggle])],
        &defaults(),
        &manifest_with_json(),
    );

    let groups = groups_of(&generated, "src/toggle.gleam").expect("toggle module generated");
    assert_eq!(groups.len(), 1);

    let decoder_code = groups[0].get_decoder_code(true, false);
    assert!(decoder_code.contains("decode.optional_field(\"flag\", option.None"));
    assert!(decoder_code.contains("decode.field(\"mode\""));
}

#[test]
fn must_exist_forces_required_under_maybe_absent() {
    let source = r#"
// gloss!: decoder
pub type Toggle {
  Toggle(
    // gloss!: must_exist
    mode: Option(String),
    plain: Option(Int),
  )
}
"#;
    let toggle = custom_type(
        source,
        "Toggle",
        vec![constructor(
            "Toggle",
            vec![
                field(source, "mode", named("Option", vec![named("String", vec![])])),
                field(source, "plain", named("Option", vec![named("Int", vec![])])),
            ],
        )],
    );
    let config = Config::new(FieldNamingConvention::SnakeCase, AbsentFieldMode::MaybeAbsent);
    let generated = generate(
        vec![unit("src/toggle.gleam", "toggle", source, vec![], vec![toggle])],
        &config,
        &manifest_with_json(),
    );
    let decoder_code = generated[0].groups[0].get_decoder_code(true, false);
    assert!(decoder_code
        .contains("use mode <- decode.field(\"mode\", decode.optional(decode.string))"));
    assert!(decoder_code.contains(
        "use plain <- decode.optional_field(\"plain\", option.None, decode.optional(decode.int))"
    ));
    assert!(decoder_code.contains("import gleam/dynamic/decode\nimport gleam/option\n"));
}

fn root_output_config() -> Config {
    let mut root = defaults();
    root.output = OutputConfig {
        directory: Some("global_gen".to_string()),
        generated_file_naming: "{module}_root.gleam".to_string(),
        separate_files: true,
        separate_encoder_decoder: false,
        encode_module_naming: "root_encode_{module}.gleam".to_string(),
        decode_module_naming: "root_decode_{module}.gleam".to_string(),
    };
    root
}

#[test]
fn cascading_configuration_respects_hierarchy() {
    // The configuration of the project root.
    let root = root_output_config();
    // The configuration of the directory `src/api`.
    let mut api = Config::default();
    api.output = OutputConfig {
        directory: Some("@/api_gen".to_string()),
        separate_encoder_decoder: true,
        encode_module_naming: "api_encode_{module}.gleam".to_string(),
        decode_module_naming: "api_decode_{module}.gleam".to_string(),
        ..OutputConfig::default()
    };
    let cascaded = Config::load_cascaded(root, &vec![api]);

    let account_source = r#"
// gloss!: encoder(json), decoder
pub type Account {
  Account(id: String)
}
"#;
    let user_source = r#"
// gloss-file!: output_dir = "./file_gen", separate_encoder_decoder = false, encode_module_naming = "file_encode_{module}.gleam", decode_module_naming = "file_decode_{module}.gleam", generated_file_naming = "file_combined_{module}.gleam"

// gloss!: encoder(json), decoder
pub type User {
  User(id: String)
}
"#;
    let generated = generate(
        vec![
            unit(
                "src/api/account.gleam",
                "api/account",
                account_source,
                vec![],
                vec![simple_record(account_source, "Account", "id", "String")],
            ),
            unit(
                "src/api/user.gleam",
                "api/user",
                user_source,
                vec![],
                vec![simple_record(user_source, "User", "id", "String")],
            ),
        ],
        &cascaded,
        &manifest_with_json(),
    );

    let account_groups =
        groups_of(&generated, "src/api/account.gleam").expect("account module generated");
    assert_eq!(account_groups.len(), 1, "expected single group for account module");
    let account_code = &account_groups[0];
    assert_eq!(account_code.output_config.directory.as_deref(), Some("@/api_gen"));
    assert!(account_code.output_config.separate_files);
    assert!(account_code.output_config.separate_encoder_decoder);
    assert_eq!(account_code.output_config.encode_module_naming, "api_encode_{module}.gleam");
    assert_eq!(account_code.output_config.decode_module_naming, "api_decode_{module}.gleam");
    assert_eq!(account_code.output_config.generated_file_naming, "{module}_root.gleam");
    assert_eq!(account_code.path_mode, PathMode::ProjectRelative);

    let user_groups = groups_of(&generated, "src/api/user.gleam").expect("user module generated");
    assert_eq!(user_groups.len(), 1, "expected single group for user module");
    let user_code = &user_groups[0];
    assert_eq!(user_code.output_config.directory.as_deref(), Some("./file_gen"));
    assert!(user_code.output_config.separate_files);
    assert!(!user_code.output_config.separate_encoder_decoder);
    assert_eq!(user_code.output_config.encode_module_naming, "file_encode_{module}.gleam");
    assert_eq!(user_code.output_config.decode_module_naming, "file_decode_{module}.gleam");
    assert_eq!(user_code.output_config.generated_file_naming, "file_combined_{module}.gleam");
    assert_eq!(user_code.path_mode, PathMode::FileRelative);
}

#[test]
fn type_level_overrides_apply_per_type() {
    let mut root = Config::default();
    root.output = OutputConfig {
        directory: Some("@/global_gen".to_string()),
        separate_files: true,
        generated_file_naming: "{module}_global.gleam".to_string(),
        ..OutputConfig::default()
    };
    let cascaded = Config::load_cascaded(root, &vec![]);

    let source = r#"
// gloss-file!: output_dir = "@/team_file_gen", decode_module_naming = "file_decode_{module}.gleam"

// gloss!: encoder(json), decoder
pub type Member {
  Member(name: String)
}

// gloss!: encoder(json), decoder, output_dir = "./local_override", encode_module_naming = "local_encode_{module}.gleam", decode_module_naming = "local_decode_{module}.gleam"
pub type Leader {
  Leader(name: String)
}
"#;
    let member = custom_type(
        source,
        "Member",
        vec![constructor(
            "Member",
            vec![FieldDecl {
                label: Some("name".to_string()),
                doc: None,
                start: source.find("Member(name").expect("member field") + "Member(".len(),
                ast: named("String", vec![]),
            }],
        )],
    );
    let leader = custom_type(
        source,
        "Leader",
        vec![constructor(
            "Leader",
            vec![FieldDecl {
                label: Some("name".to_string()),
                doc: None,
                start: source.find("Leader(name").expect("leader field") + "Leader(".len(),
                ast: named("String", vec![]),
            }],
        )],
    );
    let generated = generate(
        vec![unit("src/team/members.gleam", "team/members", source, vec![], vec![member, leader])],
        &cascaded,
        &manifest_with_json(),
    );

    let groups =
        groups_of(&generated, "src/team/members.gleam").expect("members module generated");
    assert_eq!(groups.len(), 2, "expected two output groups for members module");

    let member_group = groups
        .iter()
        .find(|group| group.types.iter().any(|t| t.name == "Member"))
        .expect("member group");
    assert_eq!(member_group.output_config.directory.as_deref(), Some("@/team_file_gen"));
    assert_eq!(member_group.output_config.decode_module_naming, "file_decode_{module}.gleam");
    assert_eq!(member_group.path_mode, PathMode::ProjectRelative);

    let leader_group = groups
        .iter()
        .find(|group| group.types.iter().any(|t| t.name == "Leader"))
        .expect("leader group");
    assert_eq!(leader_group.output_config.directory.as_deref(), Some("./local_override"));
    assert_eq!(leader_group.output_config.encode_module_naming, "local_encode_{module}.gleam");
    assert_eq!(leader_group.output_config.decode_module_naming, "local_decode_{module}.gleam");
    assert_eq!(leader_group.path_mode, PathMode::FileRelative);
}

fn sample_units() -> Vec<SourceUnit> {
    let source = r#"
// gloss!: encoder(json), decoder
pub type Sample {
  Sample(id: Int)
}
"#;
    vec![unit(
        "src/sample.gleam",
        "sample",
        source,
        vec![],
        vec![simple_record(source, "Sample", "id", "Int")],
    )]
}

#[test]
fn missing_gleam_json_dependency_errors() {
    let files = project_files(sample_units(), &defaults());
    let registry = BackendRegistry::new();
    let error = generate_for_project(
        &files,
        &manifest(
            r#"[project]
name = "app"
version = "1.0.0"
"#,
        ),
        &registry,
    )
    .expect_err("expected dependency check error");

    match error {
        GlossError::GenerationError(message) => {
            assert!(
                message.contains("gleam/json"),
                "expected message to mention gleam/json, got: {message}"
            );
            assert_eq!(
                message,
                "Generating encoders requires the `gleam/json` dependency. Add `gleam/json = \"~> 1\"` (or your preferred version) to gleam.toml."
            );
        }
        other => panic!("unexpected error kind: {other:?}"),
    }
}

#[test]
fn dev_dependency_is_accepted_for_encoders() {
    let files = project_files(sample_units(), &defaults());
    let registry = BackendRegistry::new();
    let generated = generate_for_project(
        &files,
        &manifest(
            r#"[project]
name = "app"
version = "1.0.0"

[dev-dependencies]
"gleam/json" = "~> 1.0"
"#,
        ),
        &registry,
    )
    .expect("expected encoders to generate successfully");

    assert!(!generated.is_empty(), "expected generated output when dependency is present");
}

#[test]
fn missing_manifest_is_reported_with_its_path() {
    let files = project_files(sample_units(), &defaults());
    let registry = BackendRegistry::new();
    let error = generate_for_project(
        &files,
        &Manifest { path: "/work/app/gleam.toml".to_string(), content: None },
        &registry,
    )
    .expect_err("expected dependency check error");
    assert_eq!(
        error,
        GlossError::GenerationError(
            "Generating encoders requires the `gleam/json` dependency, but /work/app/gleam.toml was not found"
                .to_string()
        )
    );
}

#[test]
fn manifest_that_does_not_parse_is_reported() {
    let files = project_files(sample_units(), &defaults());
    let registry = BackendRegistry::new();
    let error = generate_for_project(&files, &manifest("[dependencies\n"), &registry)
        .expect_err("expected parse error");
    match error {
        GlossError::GenerationError(message) => {
            assert!(message.starts_with("Failed to parse gleam.toml: "), "got: {message}");
            assert!(message.len() > "Failed to parse gleam.toml: ".len());
        }
        other => panic!("unexpected error kind: {other:?}"),
    }
}

#[test]
fn dependency_under_another_table_does_not_count() {
    let files = project_files(sample_units(), &defaults());
    let registry = BackendRegistry::new();
    let result = generate_for_project(
        &files,
        &manifest("dependencies = \"gleam/json\"\n\n[other]\n\"gleam/json\" = \"~> 1.0\"\n"),
        &registry,
    );
    assert!(matches!(result, Err(GlossError::GenerationError(_))));
}

#[test]
fn decoders_alone_need_no_manifest() {
    let source = r#"
// gloss!: decoder
pub type Sample {
  Sample(id: Int)
}
"#;
    let files = project_files(
        vec![unit(
            "src/sample.gleam",
            "sample",
            source,
            vec![],
            vec![simple_record(source, "Sample", "id", "Int")],
        )],
        &defaults(),
    );
    let registry = BackendRegistry::new();
    let generated = generate_for_project(
        &files,
        &Manifest { path: "gleam.toml".to_string(), content: None },
        &registry,
    )
    .expect("decoders need no package");
    assert_eq!(generated.len(), 1);
    assert!(generated[0].groups[0].types[0].encoder.is_none());
}

struct CustomJsonBackend;

impl EncoderBackend for CustomJsonBackend {
    fn name(&self) -> &str {
        "custom-json"
    }

    fn module_imports(&self) -> Vec<String> {
        vec!["import custom/json as cj".to_string()]
    }

    fn return_type(&self) -> String {
        "cj.Value".to_string()
    }

    fn encode_object(
        &self,
        indent: &str,
        fields: &[(String, String)],
        closing_indent: &str,
    ) -> String {
        if fields.is_empty() {
            return self.encode_empty_object(closing_indent);
        }

        let entries = fields
            .iter()
            .map(|(key, value)| format!(r#"{indent}  #("{key}", {value})"#))
            .collect::<Vec<_>>()
            .join(",\n");

        format!(
            "{closing_indent}cj.object([\n{entries}\n{closing_indent}])",
            closing_indent = closing_indent,
            entries = entries
        )
    }

    fn encode_empty_object(&self, indent: &str) -> String {
        format!("{indent}cj.object([])", indent = indent)
    }

    fn encode_string_literal(&self, value: &str) -> String {
        format!(r#"cj.string("{value}")"#, value = value)
    }

    fn encode_string(&self, value_expr: &str) -> String {
        format!("cj.string({})", value_expr)
    }

    fn encode_int(&self, value_expr: &str) -> String {
        format!("cj.int({})", value_expr)
    }

    fn encode_float(&self, value_expr: &str) -> String {
        format!("cj.float({})", value_expr)
    }

    fn encode_bool(&self, value_expr: &str) -> String {
        format!("cj.bool({})", value_expr)
    }

    fn encode_nullable(&self, value_expr: &str, inner_encoder: &str) -> String {
        format!("cj.nullable({}, {})", value_expr, inner_encoder)
    }

    fn encode_array(&self, value_expr: &str, inner_encoder: &str) -> String {
        format!("cj.array({}, {})", value_expr, inner_encoder)
    }

    fn required_packages(&self) -> Vec<String> {
        Vec::new()
    }
}

#[test]
fn custom_encoder_backend_is_used() {
    let source = r#"
// gloss!: encoder(json), decoder
pub type Entry {
  Entry(id: Int, name: String)
}
"#;
    let entry = custom_type(
        source,
        "Entry",
        vec![constructor(
            "Entry",
            vec![
                field(source, "id", named("Int", vec![])),
                field(source, "name", named("String", vec![])),
            ],
        )],
    );
    let files = project_files(
        vec![unit("src/entry.gleam", "entry", source, vec![], vec![entry])],
        &defaults(),
    );

    let registry = BackendRegistry::new().with_backend(EncoderType::Json, CustomJsonBackend);
    let generated =
        generate_for_project(&files, &manifest_with_json(), &registry).expect("generate project");

    let groups = groups_of(&generated, "src/entry.gleam").expect("entry module generated");
    assert_eq!(groups.len(), 1);

    let encoder_code = groups[0].get_encoder_code(true, false);
    assert!(encoder_code.contains("import custom/json as cj"));
    assert!(encoder_code.contains("-> cj.Value"));
    assert!(encoder_code.contains("cj.object(["));
    assert!(encoder_code.contains("cj.string(name)"));

    let decoder_code = groups[0].get_decoder_code(true, false);
    assert!(decoder_code.contains("import gleam/dynamic/decode"));
    assert!(decoder_code.contains("decode.success"));
}

#[test]
fn function_naming_overrides() {
    let mut root = Config::default();
    root.fn_naming = FnNamingConfig {
        encoder_function_naming: "encode_{type_pascal}".to_string(),
        decoder_function_naming: "decode_{type_pascal}".to_string(),
    };
    let cascaded = Config::load_cascaded(root, &vec![]);

    let source = r#"
// gloss-file!: encoder_fn = "file_encode_{type}", decoder_fn = "file_decode_{type}"

// gloss!: encoder(json), decoder
pub type Alpha {
  Alpha(flag: Bool)
}

// gloss!: encoder(json), decoder, encoder_fn = "custom_encode_{type_snake}", decoder_fn = "custom_decode_{type_pascal}"
pub type Beta {
  Beta(value: Int)
}
"#;
    let generated = generate(
        vec![unit(
            "src/naming.gleam",
            "naming",
            source,
            vec![],
            vec![
                simple_record(source, "Alpha", "flag", "Bool"),
                simple_record(source, "Beta", "value", "Int"),
            ],
        )],
        &cascaded,
        &manifest_with_json(),
    );

    let groups = groups_of(&generated, "src/naming.gleam").expect("naming module generated");
    assert_eq!(groups.len(), 1);

    let decoder_code = groups[0].get_decoder_code(true, false);
    assert!(decoder_code.contains("pub fn file_decode_Alpha()"));
    assert!(decoder_code.contains("pub fn custom_decode_Beta()"));

    let encoder_code = groups[0].get_encoder_code(true, false);
    assert!(encoder_code.contains("pub fn file_encode_Alpha("));
    assert!(encoder_code.contains("pub fn custom_encode_beta("));
}

#[test]
fn unknown_variant_message_overrides() {
    let source = r#"
// gloss-file!: unknown_variant_message = "Unknown {type} variant encountered"

// gloss!: encoder(json), decoder
pub type Event {
  EventA(count: Int)
  EventB(label: String)
}
"#;
    let event = custom_type(
        source,
        "Event",
        vec![
            constructor("EventA", vec![field(source, "count", named("Int", vec![]))]),
            constructor("EventB", vec![field(source, "label", named("String", vec![]))]),
        ],
    );
    let generated = generate(
        vec![unit("src/events.gleam", "events", source, vec![], vec![event])],
        &defaults(),
        &manifest_with_json(),
    );

    let groups = groups_of(&generated, "src/events.gleam").expect("events module generated");
    assert_eq!(groups.len(), 1);

    let decoder_code = groups[0].get_decoder_code(true, false);
    assert!(decoder_code.contains("decode.failure("));
    assert!(!decoder_code.contains("todo as"));
    assert!(decoder_code.contains("\"Unknown Event variant encountered\""));
    assert_eq!(
        groups[0].types[0].decoder.as_deref(),
        Some(
            "pub fn event_decoder() -> decode.Decoder(Event) {\n  use variant <- decode.field(\"type\", decode.string)\n  case variant {\n    \"event_a\" -> {\n      use count <- decode.field(\"count\", decode.int)\n      decode.success(EventA(count:))\n    }\n    \"event_b\" -> {\n      use label <- decode.field(\"label\", decode.string)\n      decode.success(EventB(label:))\n    }\n    _ -> decode.failure(EventA(count: 0), \"Unknown Event variant encountered\")\n  }\n}"
        )
    );
    assert_eq!(
        groups[0].types[0].encoder.as_deref(),
        Some(
            "pub fn event_to_json(event: Event) -> json.Json {\n  case event {\n    EventA(count:) -> json.object([\n      #(\"type\", json.string(\"event_a\")),\n      #(\"count\", json.int(count))\n    ])\n    EventB(label:) -> json.object([\n      #(\"type\", json.string(\"event_b\")),\n      #(\"label\", json.string(label))\n    ])\n  }\n}"
        )
    );
}

#[test]
fn field_level_overrides_use_external_functions() {
    let profile_source = r#"
pub type Profile {
  Profile(id: Int)
}
"#;
    let wrapper_source = r#"
import profile

// gloss!: encoder(json), decoder
pub type Wrapper {
  Wrapper(
    // gloss!: decoder_with = "profile/codec.profile_decoder", encoder_with = "profile/codec.profile_to_json"
    profile: profile.Profile
  )
}
"#;
    let wrapper = custom_type(
        wrapper_source,
        "Wrapper",
        vec![constructor(
            "Wrapper",
            vec![field(wrapper_source, "profile", qualified("profile", "Profile"))],
        )],
    );
    let generated = generate(
        vec![
            unit(
                "src/profile.gleam",
                "profile",
                profile_source,
                vec![],
                vec![simple_record(profile_source, "Profile", "id", "Int")],
            ),
            unit("src/wrapper.gleam", "wrapper", wrapper_source, vec![import("profile")], vec![wrapper]),
        ],
        &defaults(),
        &manifest_with_json(),
    );

    assert!(groups_of(&generated, "src/profile.gleam").is_none());
    let groups = groups_of(&generated, "src/wrapper.gleam").expect("wrapper module generated");
    assert_eq!(groups.len(), 1);

    let group = &groups[0];
    let decoder_code = group.get_decoder_code(true, false);
    assert!(decoder_code.contains("import profile/codec as profile_codec"));
    assert!(decoder_code.contains("profile_codec.profile_decoder()"));

    let encoder_code = group.get_encoder_code(true, false);
    assert!(encoder_code.contains("profile_codec.profile_to_json(profile)"));

    assert!(group.custom_imports.values().iter().any(|entry| entry.module == "profile/codec"));
}

#[test]
fn generated_type_dependencies_are_imported() {
    let user_source = r#"
// gloss!: encoder(json), decoder
pub type User {
  User(id: Int)
}
"#;
    let order_source = r#"
import user

// gloss!: encoder(json), decoder
pub type Order {
  Order(owner: user.User)
}
"#;
    let order = custom_type(
        order_source,
        "Order",
        vec![constructor("Order", vec![field(order_source, "owner", qualified("user", "User"))])],
    );
    let generated = generate(
        vec![
            unit(
                "src/user.gleam",
                "user",
                user_source,
                vec![],
                vec![simple_record(user_source, "User", "id", "Int")],
            ),
            unit("src/order.gleam", "order", order_source, vec![import("user")], vec![order]),
        ],
        &defaults(),
        &manifest_with_json(),
    );

    let groups = groups_of(&generated, "src/order.gleam").expect("order module generated");
    assert_eq!(groups.len(), 1);

    let group = &groups[0];
    let decoder_code = group.get_decoder_code(true, false);
    assert!(decoder_code.contains("import user"));
    assert!(decoder_code.contains("user.user_decoder()"));

    let encoder_code = group.get_encoder_code(true, false);
    assert!(encoder_code.contains("user.user_to_json(owner)"));

    assert!(group.custom_imports.values().iter().any(|entry| entry.module == "user"));
}

#[test]
fn cross_module_reference_uses_registered_name_in_any_order() {
    let user_source = r#"
// gloss!: encoder(json), decoder, decoder_fn = "read_{type_snake}", encoder_fn = "write_{type_snake}"
pub type User {
  User(id: Int)
}
"#;
    let order_source = r#"
import shop/user

// gloss!: encoder(json), decoder
pub type Order {
  Order(owner: user.User)
}
"#;
    let build = |user_first: bool| {
        let order = custom_type(
            order_source,
            "Order",
            vec![constructor(
                "Order",
                vec![field(order_source, "owner", qualified("user", "User"))],
            )],
        );
        let user_unit = unit(
            "src/shop/user.gleam",
            "shop/user",
            user_source,
            vec![],
            vec![simple_record(user_source, "User", "id", "Int")],
        );
        let order_unit =
            unit("src/order.gleam", "order", order_source, vec![import("shop/user")], vec![order]);
        if user_first {
            vec![user_unit, order_unit]
        } else {
            vec![order_unit, user_unit]
        }
    };
    for user_first in [true, false] {
        let generated = generate(build(user_first), &defaults(), &manifest_with_json());
        let group = &groups_of(&generated, "src/order.gleam").expect("order generated")[0];
        assert_eq!(
            group.get_combined_code(true, false),
            format!(
                "{}import gleam/dynamic/decode\nimport gleam/json\nimport shop/user as shop_user\n\npub fn order_decoder() -> decode.Decoder(Order) {{\n  use owner <- decode.field(\"owner\", shop_user.read_user())\n  decode.success(Order(owner:))\n}}\n\npub fn order_to_json(order: Order) -> json.Json {{\n  let Order(owner:) = order\n  json.object([\n    #(\"owner\", shop_user.write_user(owner))\n  ])\n}}\n\n",
                HEADER
            )
        );
    }
}

#[test]
fn option_alias_conflict_stops_the_file() {
    let choice_source = r#"
// gloss!: decoder
pub type Choice {
  Yes
  No
}
"#;
    let app_source = r#"
import option
import gleam/option as opt

// gloss!: decoder
pub type Form {
  Form(
    choice: option.Choice,
    // gloss!: maybe_absent
    note: opt.Option(String),
  )
}
"#;
    let choice = custom_type(
        choice_source,
        "Choice",
        vec![constructor("Yes", vec![]), constructor("No", vec![])],
    );
    let form = custom_type(
        app_source,
        "Form",
        vec![constructor(
            "Form",
            vec![
                field(app_source, "choice", qualified("option", "Choice")),
                field(
                    app_source,
                    "note",
                    TypeAst::Constructor {
                        module: Some("opt".to_string()),
                        name: "Option".to_string(),
                        arguments: vec![named("String", vec![])],
                    },
                ),
            ],
        )],
    );
    let imports = vec![
        import("option"),
        ImportDecl {
            module: "gleam/option".to_string(),
            alias: Some("opt".to_string()),
            unqualified_types: vec![],
        },
    ];
    let files = project_files(
        vec![
            unit("src/option.gleam", "option", choice_source, vec![], vec![choice]),
            unit("src/form.gleam", "form", app_source, imports, vec![form]),
        ],
        &defaults(),
    );
    let registry = BackendRegistry::new();
    let error = generate_for_project(&files, &manifest_with_json(), &registry)
        .expect_err("expected alias conflict");
    assert_eq!(
        error,
        GlossError::GenerationError(
            "Cannot generate code because import alias `option` is already used for `option`. Rename the conflicting import or its alias before running gloss."
                .to_string()
        )
    );
}
