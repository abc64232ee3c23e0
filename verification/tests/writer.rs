use gloss_core::imports::{add_type_import, ensure_import, ensure_no_option_alias_conflict, merge_imports};
use gloss_core::output::{generate_header_comment, generate_imports};
use gloss_core::project::{add_to_groups, infer_path_mode};
use gloss_core::writer::{
    group_files, inline_content, merge_inline_groups, normalize_directory, plan_outputs,
    resolve_output_path, OutputLocation,
};
use gloss_core::{
    GeneratedCode, GlossError, ImportEntry, ImportMap, OutputConfig, PathMode, TypeCode,
    UsedBackend,
};

const HEADER: &str = "// This file was generated by gloss\n// https://github.com/abs0luty/gloss\n//\n// Do not modify this file directly.\n// Any changes will be overwritten when gloss regenerates this file.";

fn code(name: &str, module: &str, decoder: Option<&str>, encoder: Option<&str>) -> TypeCode {
    TypeCode {
        name: name.to_string(),
        module: module.to_string(),
        constructors: vec![name.to_string()],
        decoder: decoder.map(|d| d.to_string()),
        encoder: encoder.map(|e| e.to_string()),
    }
}

fn json_backend() -> UsedBackend {
    UsedBackend { name: "json".to_string(), module_imports: vec!["import gleam/json".to_string()] }
}

fn unit(types: Vec<TypeCode>, output_config: OutputConfig, path_mode: PathMode) -> GeneratedCode {
    let has_encoder = types.iter().any(|t| t.encoder.is_some());
    GeneratedCode {
        types,
        output_config,
        path_mode,
        custom_imports: ImportMap::new(),
        encoder_backends: if has_encoder { vec![json_backend()] } else { vec![] },
        decoder_uses_option_helpers: false,
    }
}

#[test]
fn header_is_the_fixed_comment() {
    assert_eq!(generate_header_comment(), HEADER);
}

#[test]
fn directories_are_split_into_mode_and_path() {
    let n = |d: &str, m: PathMode| normalize_directory(d, m);
    assert_eq!(n("@/gen", PathMode::FileRelative), (PathMode::ProjectRelative, "gen".to_string()));
    assert_eq!(n("@/@/gen", PathMode::FileRelative), (PathMode::ProjectRelative, "gen".to_string()));
    assert_eq!(n("@//gen", PathMode::FileRelative), (PathMode::ProjectRelative, "/gen".to_string()));
    assert_eq!(n("@gen", PathMode::FileRelative), (PathMode::ProjectRelative, "gen".to_string()));
    assert_eq!(n("@@gen", PathMode::FileRelative), (PathMode::ProjectRelative, "gen".to_string()));
    assert_eq!(n("@", PathMode::FileRelative), (PathMode::ProjectRelative, "".to_string()));
    assert_eq!(n("/a/b", PathMode::FileRelative), (PathMode::ProjectRelative, "a/b".to_string()));
    assert_eq!(n("//a", PathMode::FileRelative), (PathMode::ProjectRelative, "a".to_string()));
    assert_eq!(n("./a", PathMode::ProjectRelative), (PathMode::FileRelative, "a".to_string()));
    assert_eq!(n("././a", PathMode::ProjectRelative), (PathMode::FileRelative, "a".to_string()));
    assert_eq!(n("plain", PathMode::ProjectRelative), (PathMode::ProjectRelative, "plain".to_string()));
    assert_eq!(n("plain", PathMode::FileRelative), (PathMode::FileRelative, "plain".to_string()));
    assert_eq!(n("", PathMode::FileRelative), (PathMode::FileRelative, "".to_string()));
    assert_eq!(n(".hidden", PathMode::ProjectRelative), (PathMode::ProjectRelative, ".hidden".to_string()));
}

#[test]
fn path_mode_is_inferred_from_the_prefix() {
    assert_eq!(infer_path_mode("@/x", PathMode::FileRelative), PathMode::ProjectRelative);
    assert_eq!(infer_path_mode("@x", PathMode::FileRelative), PathMode::ProjectRelative);
    assert_eq!(infer_path_mode("/x", PathMode::FileRelative), PathMode::ProjectRelative);
    assert_eq!(infer_path_mode("./x", PathMode::ProjectRelative), PathMode::FileRelative);
    assert_eq!(infer_path_mode("x", PathMode::ProjectRelative), PathMode::ProjectRelative);
    assert_eq!(infer_path_mode("x", PathMode::FileRelative), PathMode::FileRelative);
    assert_eq!(infer_path_mode(".", PathMode::ProjectRelative), PathMode::ProjectRelative);
    assert_eq!(infer_path_mode("", PathMode::FileRelative), PathMode::FileRelative);
}

#[test]
fn output_paths_are_planned() {
    assert_eq!(
        resolve_output_path(&Some("@/gen".to_string()), PathMode::FileRelative, "a.gleam"),
        OutputLocation {
            mode: PathMode::ProjectRelative,
            directory: "gen".to_string(),
            filename: "a.gleam".to_string(),
        }
    );
    assert_eq!(
        resolve_output_path(&Some("gen".to_string()), PathMode::ProjectRelative, "a.gleam"),
        OutputLocation {
            mode: PathMode::ProjectRelative,
            directory: "gen".to_string(),
            filename: "a.gleam".to_string(),
        }
    );
    assert_eq!(
        resolve_output_path(&None, PathMode::ProjectRelative, "a.gleam"),
        OutputLocation {
            mode: PathMode::FileRelative,
            directory: "".to_string(),
            filename: "a.gleam".to_string(),
        }
    );
}

#[test]
fn combined_file_of_a_unit_apart_from_the_source() {
    let group = unit(
        vec![code("Account", "api/account", Some("DECODER"), Some("ENCODER"))],
        OutputConfig { directory: Some("@/gen".to_string()), ..OutputConfig::default() },
        PathMode::ProjectRelative,
    );
    let files = group_files(&group, "account");
    assert_eq!(files.len(), 1);
    assert_eq!(
        files[0].location,
        OutputLocation {
            mode: PathMode::ProjectRelative,
            directory: "gen".to_string(),
            filename: "account_gloss.gleam".to_string(),
        }
    );
    assert_eq!(
        files[0].content,
        format!(
            "{}\n\nimport gleam/dynamic/decode\nimport gleam/json\nimport api/account.{{type Account, Account}} as api_account\n\nDECODER\n\nENCODER\n\n",
            HEADER
        )
    );
    assert_eq!(files[0].content, group.get_combined_code(true, true));
}

#[test]
fn separate_files_for_decoders_and_encoders() {
    let group = unit(
        vec![
            code("A", "m", Some("DECODE_A"), Some("ENCODE_A")),
            code("B", "m", None, Some("ENCODE_B")),
            code("C", "m", Some("DECODE_C"), None),
        ],
        OutputConfig {
            directory: Some("./gen".to_string()),
            separate_encoder_decoder: true,
            encode_module_naming: "enc_{module_pascal}.gleam".to_string(),
            ..OutputConfig::default()
        },
        PathMode::FileRelative,
    );
    let files = group_files(&group, "my_mod");
    assert_eq!(files.len(), 2);
    assert_eq!(files[0].location.filename, "decode_my_mod.gleam");
    assert_eq!(files[0].location.directory, "gen");
    assert_eq!(files[0].location.mode, PathMode::FileRelative);
    assert_eq!(
        files[0].content,
        format!(
            "{}\n\nimport gleam/dynamic/decode\nimport m.{{type A, type B, type C, A, B, C}}\n\nDECODE_A\n\nDECODE_C\n\n",
            HEADER
        )
    );
    assert_eq!(files[1].location.filename, "enc_MyMod.gleam");
    assert_eq!(
        files[1].content,
        format!(
            "{}\n\nimport gleam/json\nimport m.{{type A, type B, type C, A, B, C}}\n\nENCODE_A\n\nENCODE_B\n\n",
            HEADER
        )
    );
    assert_eq!(files[0].content, group.get_decoder_code(true, true));
    assert_eq!(files[1].content, group.get_encoder_code(true, true));
}

#[test]
fn code_without_imports_is_the_header_and_the_functions() {
    let group = unit(
        vec![code("A", "m", Some("DECODE_A"), Some("ENCODE_A"))],
        OutputConfig::default(),
        PathMode::FileRelative,
    );
    assert_eq!(group.get_decoder_code(false, false), format!("{}\n\nDECODE_A\n\n", HEADER));
    assert_eq!(group.get_encoder_code(false, true), format!("{}\n\nENCODE_A\n\n", HEADER));
    assert_eq!(
        group.get_combined_code(false, false),
        format!("{}\n\nDECODE_A\n\nENCODE_A\n\n", HEADER)
    );
    let empty = unit(vec![], OutputConfig::default(), PathMode::FileRelative);
    assert_eq!(empty.get_combined_code(true, true), format!("{}\n\n", HEADER));
    assert_eq!(
        empty.get_decoder_code(true, false),
        format!("{}\n\nimport gleam/dynamic/decode\n\n", HEADER)
    );
    assert_eq!(empty.get_encoder_code(true, false), format!("{}\n\n", HEADER));
}

#[test]
fn import_block_orders_standard_lines_and_appends_the_others() {
    let mut imports = ImportMap::new();
    assert_eq!(ensure_import(&mut imports, "zeta/codec"), "zeta_codec");
    assert_eq!(ensure_import(&mut imports, "alpha"), "alpha");
    assert_eq!(ensure_import(&mut imports, "zeta/codec"), "zeta_codec");
    add_type_import(&mut imports, "alpha", "Thing", &vec!["Two".to_string(), "One".to_string()]);
    add_type_import(&mut imports, "alpha", "Other", &vec!["One".to_string()]);
    let backends = vec![
        UsedBackend {
            name: "yaml".to_string(),
            module_imports: vec!["import yaml".to_string(), "import gleam/json".to_string()],
        },
        json_backend(),
    ];
    assert_eq!(
        generate_imports(true, true, true, Some(&backends), &imports),
        "import gleam/dynamic/decode\nimport gleam/json\nimport gleam/option\nimport yaml\nimport alpha.{type Other, type Thing, One, Two}\nimport zeta/codec as zeta_codec"
    );
    assert_eq!(
        generate_imports(true, false, false, Some(&backends), &ImportMap::new()),
        "import gleam/dynamic/decode"
    );
    assert_eq!(generate_imports(false, true, true, None, &ImportMap::new()), "");
    assert_eq!(generate_imports(false, false, true, Some(&backends), &ImportMap::new()), "import gleam/json\nimport yaml");
}

#[test]
fn imports_merge_by_module() {
    let mut target = ImportMap::new();
    add_type_import(&mut target, "b", "B", &vec!["B1".to_string()]);
    let mut source = ImportMap::new();
    add_type_import(&mut source, "b", "A", &vec!["B0".to_string(), "B1".to_string()]);
    ensure_import(&mut source, "a");
    ensure_import(&mut source, "c");
    merge_imports(&mut target, &source);
    let entries: Vec<ImportEntry> = target.values().clone();
    assert_eq!(
        entries,
        vec![
            ImportEntry { module: "a".to_string(), alias: "a".to_string(), values: vec![], types: vec![] },
            ImportEntry {
                module: "b".to_string(),
                alias: "b".to_string(),
                values: vec!["B0".to_string(), "B1".to_string()],
                types: vec!["A".to_string(), "B".to_string()],
            },
            ImportEntry { module: "c".to_string(), alias: "c".to_string(), values: vec![], types: vec![] },
        ]
    );
    assert_eq!(target.duplicate(), target);
}

#[test]
fn alias_conflict_names_the_module() {
    let mut imports = ImportMap::new();
    ensure_import(&mut imports, "gleam/option");
    ensure_import(&mut imports, "other");
    assert_eq!(ensure_no_option_alias_conflict(&imports), Ok(()));
    ensure_import(&mut imports, "option");
    assert_eq!(
        ensure_no_option_alias_conflict(&imports),
        Err(GlossError::GenerationError(
            "Cannot generate code because import alias `option` is already used for `option`. Rename the conflicting import or its alias before running gloss."
                .to_string()
        ))
    );
}

#[test]
fn units_are_grouped_by_destination() {
    let here = OutputConfig::default();
    let there = OutputConfig { directory: Some("@/gen".to_string()), ..OutputConfig::default() };
    let mut first = unit(vec![code("A", "m", Some("DA"), None)], here.clone(), PathMode::FileRelative);
    ensure_import(&mut first.custom_imports, "x");
    let second = unit(vec![code("B", "m", None, Some("EB"))], there.clone(), PathMode::ProjectRelative);
    let mut third = unit(vec![code("C", "m", Some("DC"), Some("EC"))], here.clone(), PathMode::FileRelative);
    third.decoder_uses_option_helpers = true;
    ensure_import(&mut third.custom_imports, "y");
    let fourth = unit(vec![code("D", "m", Some("DD"), None)], here.clone(), PathMode::ProjectRelative);

    let groups = add_to_groups(vec![], first).expect("first");
    let groups = add_to_groups(groups, second).expect("second");
    let groups = add_to_groups(groups, third).expect("third");
    let groups = add_to_groups(groups, fourth).expect("fourth");
    assert_eq!(groups.len(), 3);
    let names = |g: &GeneratedCode| g.types.iter().map(|t| t.name.clone()).collect::<Vec<_>>();
    assert_eq!(names(&groups[0]), vec!["A", "C"]);
    assert_eq!(names(&groups[1]), vec!["B"]);
    assert_eq!(names(&groups[2]), vec!["D"]);
    assert!(groups[0].decoder_uses_option_helpers);
    assert!(!groups[1].decoder_uses_option_helpers);
    assert_eq!(groups[0].encoder_backends, vec![json_backend()]);
    let modules: Vec<&str> = groups[0].custom_imports.values().iter().map(|e| e.module.as_str()).collect();
    assert_eq!(modules, vec!["x", "y"]);
    assert_eq!(groups[2].path_mode, PathMode::ProjectRelative);
}

#[test]
fn grouping_refuses_an_option_alias_conflict() {
    let config = OutputConfig::default();
    let mut with_conflict = unit(vec![code("A", "m", Some("DA"), None)], config.clone(), PathMode::FileRelative);
    ensure_import(&mut with_conflict.custom_imports, "option");
    // Without need for the option helpers the import is no conflict.
    let groups = add_to_groups(vec![], with_conflict.clone()).expect("no helpers, no conflict");
    // A later type of the same unit that needs the helpers makes it one.
    let mut needs_helpers = unit(vec![code("B", "m", Some("DB"), None)], config.clone(), PathMode::FileRelative);
    needs_helpers.decoder_uses_option_helpers = true;
    let expected = GlossError::GenerationError(
        "Cannot generate code because import alias `option` is already used for `option`. Rename the conflicting import or its alias before running gloss."
            .to_string(),
    );
    assert_eq!(add_to_groups(groups, needs_helpers).map(|g| g.len()), Err(expected.clone()));
    with_conflict.decoder_uses_option_helpers = true;
    assert_eq!(add_to_groups(vec![], with_conflict).map(|g| g.len()), Err(expected));
}

#[test]
fn inline_code_replaces_what_was_appended_before() {
    let marker = "\n\n// ========== Generated by gloss ==========\n\n";
    assert_eq!(inline_content("source", "CODE"), format!("source{}CODE", marker));
    assert_eq!(
        inline_content(&format!("source{}OLD{}OLDER", marker, marker), "NEW"),
        format!("source{}NEW", marker)
    );
    // The marker line without its empty lines is no marker.
    assert_eq!(
        inline_content("a\n// ========== Generated by gloss ==========\nb", "NEW"),
        format!("a\n// ========== Generated by gloss ==========\nb{}NEW", marker)
    );
    assert_eq!(inline_content("", ""), marker);
}

#[test]
fn inline_units_are_taken_together() {
    let inline = OutputConfig { separate_files: false, ..OutputConfig::default() };
    let other_inline = OutputConfig {
        separate_files: false,
        directory: Some("ignored".to_string()),
        ..OutputConfig::default()
    };
    let mut first = unit(vec![code("A", "m", Some("DA"), None)], inline.clone(), PathMode::FileRelative);
    ensure_import(&mut first.custom_imports, "x");
    let apart = unit(
        vec![code("B", "m", Some("DB"), None)],
        OutputConfig::default(),
        PathMode::FileRelative,
    );
    let mut second = unit(vec![code("C", "m", Some("DC"), Some("EC"))], other_inline, PathMode::FileRelative);
    ensure_import(&mut second.custom_imports, "y");

    let merged = merge_inline_groups(&vec![first.clone(), second.clone()]).expect("merged");
    assert_eq!(merged.types.len(), 2);
    assert_eq!(merged.output_config, inline);
    // The backends of the first unit alone are kept.
    assert!(merged.encoder_backends.is_empty());
    assert!(merge_inline_groups(&vec![]).is_none());

    let plan = plan_outputs(&vec![first, apart.clone(), second], "m");
    assert_eq!(plan.files, group_files(&apart, "m"));
    assert_eq!(
        plan.inline_code,
        Some(format!(
            "{}\n\nimport gleam/dynamic/decode\nimport x\nimport y\n\nDA\n\nDC\n\nEC\n\n",
            HEADER
        ))
    );
    let plan = plan_outputs(&vec![apart.clone()], "m");
    assert_eq!(plan.inline_code, None);
    assert_eq!(plan.files.len(), 1);
}
