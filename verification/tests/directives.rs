use gloss_core::directives::{
    apply_field_directive, apply_file_directive, apply_type_directive, line_has_keyword,
    parse_field_annotations, parse_file_level_config, parse_fn_naming_override,
    parse_gloss_annotations, parse_output_override, parse_unknown_variant_message,
    split_directive, FieldAnnotations, TypeAnnotations,
};
use gloss_core::source::{
    compute_option_availability, extract_comment_before, extract_field_info, parse_file,
    type_ast_to_expression, type_ast_to_string, ConstructorDecl, CustomTypeDecl, FieldDecl,
    ImportDecl, TypeAst,
};
use gloss_core::{
    parse_gleam_files, EncoderType, FieldMarker, FieldNamingConvention, FileConfig, GlossError,
    OptionAvailability, ParsedModule, SourceUnit, TypeExpression,
};

fn named(name: &str, arguments: Vec<TypeAst>) -> TypeAst {
    TypeAst::Constructor { module: None, name: name.to_string(), arguments }
}

fn aliased(module: &str, name: &str, arguments: Vec<TypeAst>) -> TypeAst {
    TypeAst::Constructor { module: Some(module.to_string()), name: name.to_string(), arguments }
}

fn import(module: &str, alias: Option<&str>, unqualified: &[&str]) -> ImportDecl {
    ImportDecl {
        module: module.to_string(),
        alias: alias.map(|a| a.to_string()),
        unqualified_types: unqualified.iter().map(|s| s.to_string()).collect(),
    }
}

#[test]
fn type_directives_are_read_key_by_key() {
    let a = parse_gloss_annotations(
        "gloss!: encoder(json), decoder, camelCase, type_tag = \"kind\", unknown_variant_message = \"bad {type}\"",
    );
    assert_eq!(a.encoders, vec![EncoderType::Json]);
    assert!(a.generate_decoder);
    assert_eq!(a.field_naming_strategy, Some(FieldNamingConvention::CamelCase));
    assert_eq!(a.type_tag_field.as_deref(), Some("kind"));
    assert!(!a.disable_type_tag);
    assert!(a.output_override.is_none());
    assert_eq!(a.unknown_variant_message.as_deref(), Some("bad {type}"));
    assert!(a.fn_naming_override.is_none());

    let b = parse_gloss_annotations("gloss!: encoder(JSON), snake_case, no_type_tag");
    assert_eq!(b.encoders, vec![EncoderType::Json]);
    assert!(!b.generate_decoder);
    assert_eq!(b.field_naming_strategy, Some(FieldNamingConvention::SnakeCase));
    assert!(b.disable_type_tag);
    assert_eq!(b.type_tag_field, None);
}

#[test]
fn text_without_directive_asks_for_nothing() {
    for text in ["", "just a comment\n", "gloss: decoder", "gloss!:", "gloss!:   \n"] {
        let a = parse_gloss_annotations(text);
        assert!(a.encoders.is_empty(), "{text:?}");
        assert!(!a.generate_decoder, "{text:?}");
        assert_eq!(a.field_naming_strategy, None);
        assert!(a.output_override.is_none());
    }
    let f = parse_field_annotations("nothing here");
    assert_eq!(f.marker, FieldMarker::Default);
    assert_eq!(f.custom_name, None);
    assert_eq!(f.decoder_with, None);
    assert_eq!(f.encoder_with, None);
}

#[test]
fn unknown_keys_are_ignored() {
    let a = parse_gloss_annotations("gloss!: frobnicate, decoder, speed = \"fast\"");
    assert!(a.generate_decoder);
    assert!(a.encoders.is_empty());
    assert_eq!(a.type_tag_field, None);
    assert!(a.output_override.is_none());
    assert!(a.fn_naming_override.is_none());
}

#[test]
fn bare_keywords_are_whole_tokens() {
    // `decoder` inside another key is no keyword.
    assert!(!parse_gloss_annotations("gloss!: separate_encoder_decoder = true").generate_decoder);
    assert!(!parse_gloss_annotations("gloss!: decode_module_naming = \"x\"").generate_decoder);
    let a = parse_gloss_annotations("gloss!: encoder(json), decoder_fn = \"dec_{type}\"");
    assert_eq!(a.encoders, vec![EncoderType::Json]);
    assert!(!a.generate_decoder);
    let naming = a.fn_naming_override.expect("naming");
    assert_eq!(naming.decoder_function_naming.as_deref(), Some("dec_{type}"));
    assert_eq!(naming.encoder_function_naming, None);
    // A keyword inside a quoted value is no keyword either.
    let a = parse_gloss_annotations(
        "gloss!: unknown_variant_message = \"no decoder, no_type_tag, camelCase\"",
    );
    assert!(!a.generate_decoder);
    assert!(!a.disable_type_tag);
    assert_eq!(a.field_naming_strategy, None);
    assert_eq!(a.unknown_variant_message.as_deref(), Some("no decoder, no_type_tag, camelCase"));
    assert!(parse_gloss_annotations("gloss!: encoders(json)").encoders.is_empty());
    assert!(parse_gloss_annotations("gloss!: my_snake_case").field_naming_strategy.is_none());
    // Whitespace around a token does not count.
    let a = parse_gloss_annotations("gloss!:   decoder  ,no_type_tag,  encoder(JSON)\t");
    assert!(a.generate_decoder);
    assert!(a.disable_type_tag);
    assert_eq!(a.encoders, vec![EncoderType::Json]);
    // Both conventions in one line: camel case wins.
    assert_eq!(
        parse_gloss_annotations("gloss!: camelCase, snake_case").field_naming_strategy,
        Some(FieldNamingConvention::CamelCase)
    );
}

#[test]
fn field_keywords_are_whole_tokens() {
    assert_eq!(
        parse_field_annotations("gloss!: rename = \"optional_x\"").marker,
        FieldMarker::Default
    );
    assert_eq!(
        parse_field_annotations("gloss!: decoder_with = \"required.decode\"").marker,
        FieldMarker::Default
    );
    assert_eq!(parse_field_annotations("gloss!: optionally").marker, FieldMarker::Default);
    assert_eq!(
        parse_field_annotations("gloss!: rename = \"a, optional\", must_exist").marker,
        FieldMarker::Required
    );
    assert_eq!(
        parse_field_annotations("gloss!: rename = \"required\" , maybe_absent ").marker,
        FieldMarker::Optional
    );
}

#[test]
fn lines_split_at_commas_outside_quotes() {
    assert_eq!(
        split_directive(" encoder(json) , decoder,type_tag = \"a, b\" ,, x "),
        vec!["encoder(json)", "decoder", "type_tag = \"a, b\"", "", "x"]
    );
    assert_eq!(split_directive(""), vec![""]);
    assert_eq!(split_directive("decoder"), vec!["decoder"]);
    assert_eq!(split_directive("a = \"unclosed, b"), vec!["a = \"unclosed, b"]);
    assert!(line_has_keyword("encoder(json), decoder", "decoder"));
    assert!(line_has_keyword(" decoder ", "decoder"));
    assert!(!line_has_keyword("decoder_fn = \"x\"", "decoder"));
    assert!(!line_has_keyword("rename = \"decoder\"", "decoder"));
    assert!(line_has_keyword("a,,b", ""));
}

#[test]
fn one_directive_line_is_read_into_what_was_read_before() {
    let first = apply_type_directive(
        TypeAnnotations::default(),
        "encoder(json), type_tag = \"kind\", snake_case",
    );
    assert_eq!(first.encoders, vec![EncoderType::Json]);
    assert!(!first.generate_decoder);
    assert_eq!(first.type_tag_field.as_deref(), Some("kind"));
    let second = apply_type_directive(first, "decoder, output_dir = \"./gen\"");
    assert_eq!(second.encoders, vec![EncoderType::Json]);
    assert!(second.generate_decoder);
    assert_eq!(second.type_tag_field.as_deref(), Some("kind"));
    assert_eq!(second.field_naming_strategy, Some(FieldNamingConvention::SnakeCase));
    assert_eq!(second.output_override.expect("output").directory.as_deref(), Some("./gen"));

    let field = apply_field_directive(FieldAnnotations::default(), "required, rename = \"id\"");
    assert_eq!(field.marker, FieldMarker::Required);
    let field = apply_field_directive(field, "encoder_with = \"codec.encode\"");
    assert_eq!(field.marker, FieldMarker::Required);
    assert_eq!(field.custom_name.as_deref(), Some("id"));
    assert_eq!(field.encoder_with.as_deref(), Some("codec.encode"));

    let file = apply_file_directive(FileConfig::default(), "unknown_variant_message = \"bad\"");
    let file = apply_file_directive(file, "decoder_fn = \"d\"");
    assert_eq!(file.unknown_variant_message.as_deref(), Some("bad"));
    assert!(file.output_override.is_none());
    assert_eq!(file.fn_naming_override.expect("naming").decoder_function_naming.as_deref(), Some("d"));
}

#[test]
fn several_directive_lines_add_up() {
    let a = parse_gloss_annotations(
        "gloss!: encoder(json), type_tag = \"first\"\nsome note\ngloss!: decoder, type_tag = \"second\"\ngloss!: encoder(json)\n",
    );
    assert_eq!(a.encoders, vec![EncoderType::Json, EncoderType::Json]);
    assert!(a.generate_decoder);
    assert_eq!(a.type_tag_field.as_deref(), Some("second"));
}

#[test]
fn output_overrides_hold_what_the_line_sets() {
    let o = parse_output_override(
        "output_dir = \"@/gen\", separate_encoder_decoder = true, encode_module_naming = \"e_{module}.gleam\", decode_module_naming = \"d_{module}.gleam\", generated_file_naming = \"g_{module}.gleam\"",
    )
    .expect("override");
    assert_eq!(o.directory.as_deref(), Some("@/gen"));
    assert_eq!(o.separate_encoder_decoder, Some(true));
    assert_eq!(o.encode_module_naming.as_deref(), Some("e_{module}.gleam"));
    assert_eq!(o.decode_module_naming.as_deref(), Some("d_{module}.gleam"));
    assert_eq!(o.generated_file_naming.as_deref(), Some("g_{module}.gleam"));

    let o = parse_output_override("separate_encoder_decoder=false").expect("override");
    assert_eq!(o.separate_encoder_decoder, Some(false));
    assert_eq!(o.directory, None);

    let o = parse_output_override("output_dir   =   \"./x y\"").expect("override");
    assert_eq!(o.directory.as_deref(), Some("./x y"));

    assert!(parse_output_override("encoder(json), decoder").is_none());
    assert!(parse_output_override("output_dir = \"\"").is_none());
    assert!(parse_output_override("output_dir = unquoted").is_none());
    assert!(parse_output_override("separate_encoder_decoder = yes").is_none());
}

#[test]
fn naming_overrides_and_messages_are_quoted_values() {
    let n = parse_fn_naming_override("encoder_fn = \"enc_{type}\", decoder_fn = \"dec_{type}\"")
        .expect("override");
    assert_eq!(n.encoder_function_naming.as_deref(), Some("enc_{type}"));
    assert_eq!(n.decoder_function_naming.as_deref(), Some("dec_{type}"));
    let n = parse_fn_naming_override("decoder_fn=\"only\"").expect("override");
    assert_eq!(n.encoder_function_naming, None);
    assert_eq!(n.decoder_function_naming.as_deref(), Some("only"));
    assert!(parse_fn_naming_override("decoder").is_none());
    assert_eq!(
        parse_unknown_variant_message("unknown_variant_message = \"Unknown {type}\""),
        Some("Unknown {type}".to_string())
    );
    assert_eq!(parse_unknown_variant_message("decoder"), None);
}

#[test]
fn field_directives_prefer_optional() {
    assert_eq!(parse_field_annotations("gloss!: maybe_absent").marker, FieldMarker::Optional);
    assert_eq!(parse_field_annotations("gloss!: optional").marker, FieldMarker::Optional);
    assert_eq!(parse_field_annotations("gloss!: must_exist").marker, FieldMarker::Required);
    assert_eq!(parse_field_annotations("gloss!: required").marker, FieldMarker::Required);
    assert_eq!(parse_field_annotations("gloss!: error_if_absent").marker, FieldMarker::Required);
    assert_eq!(parse_field_annotations("gloss!: rename = \"x\"").marker, FieldMarker::Default);
    assert_eq!(
        parse_field_annotations("gloss!: required, optional").marker,
        FieldMarker::Optional
    );
    assert_eq!(
        parse_field_annotations("gloss!: must_exist, maybe_absent").marker,
        FieldMarker::Optional
    );
    // A later line decides again.
    assert_eq!(
        parse_field_annotations("gloss!: optional\ngloss!: required").marker,
        FieldMarker::Required
    );
    assert_eq!(
        parse_field_annotations("gloss!: required\ngloss!: rename = \"x\"").marker,
        FieldMarker::Required
    );
}

#[test]
fn field_directives_hold_names_and_functions() {
    let f = parse_field_annotations(
        "gloss!: rename = \"userId\", decoder_with = \"codec.decode_id\", encoder_with = \"codec.encode_id\"",
    );
    assert_eq!(f.custom_name.as_deref(), Some("userId"));
    assert_eq!(f.decoder_with.as_deref(), Some("codec.decode_id"));
    assert_eq!(f.encoder_with.as_deref(), Some("codec.encode_id"));
    assert_eq!(f.marker, FieldMarker::Default);
}

#[test]
fn file_directives_use_their_own_marker() {
    let source = "// gloss-file!: output_dir = \"./gen\", unknown_variant_message = \"bad\", decoder_fn = \"d_{type}\"\n\n// gloss!: decoder, output_dir = \"@/other\"\npub type T { T }\n";
    let c = parse_file_level_config(source);
    assert_eq!(c.output_override.expect("output").directory.as_deref(), Some("./gen"));
    assert_eq!(c.unknown_variant_message.as_deref(), Some("bad"));
    assert_eq!(
        c.fn_naming_override.expect("naming").decoder_function_naming.as_deref(),
        Some("d_{type}")
    );

    let c = parse_file_level_config("// gloss!: decoder, output_dir = \"@/other\"\n");
    assert!(c.output_override.is_none());
    assert!(c.unknown_variant_message.is_none());
    assert!(c.fn_naming_override.is_none());

    let c = parse_file_level_config(
        "// gloss-file!: output_dir = \"a\"\n//gloss-file!: output_dir = \"b\"\n",
    );
    assert_eq!(c.output_override.expect("output").directory.as_deref(), Some("b"));
}

#[test]
fn comments_right_above_a_position_are_extracted() {
    let source = "// first\n// second\n\npub type X {}\n";
    let at = source.find("pub type").unwrap();
    assert_eq!(extract_comment_before(source, at), "first\nsecond\n");

    let source = "code()\n// kept\nlet x = 1\n  // gloss!: decoder  \n\n   \n  field: Int";
    let at = source.find("field").unwrap();
    assert_eq!(extract_comment_before(source, at), "gloss!: decoder\n");

    assert_eq!(extract_comment_before("////  x\ny", 8), "x\n");
    assert_eq!(extract_comment_before("// a\nb", 0), "");
    assert_eq!(extract_comment_before("// a", 100), "a\n");
    assert_eq!(extract_comment_before("x\ny", 2), "");
    assert_eq!(extract_comment_before("//\n//\nx", 6), "\n\n");
    assert_eq!(extract_comment_before("// é ü\nx", "// é ü\n".len()), "é ü\n");
    assert_eq!(extract_comment_before("", 0), "");
}

#[test]
fn option_is_available_under_aliases_and_bare() {
    let a = compute_option_availability(&vec![]).expect("availability");
    assert!(a.unqualified);
    assert!(a.aliases.is_empty());

    let a = compute_option_availability(&vec![import("gleam/option", None, &[])]).expect("a");
    assert!(a.unqualified);
    assert_eq!(a.aliases, vec!["option".to_string()]);

    let a = compute_option_availability(&vec![
        import("gleam/option", Some("opt"), &["Option", "Some"]),
        import("gleam/list", None, &[]),
        import("gleam/option", None, &[]),
    ])
    .expect("a");
    assert!(a.unqualified);
    assert_eq!(a.aliases, vec!["opt".to_string(), "option".to_string()]);

    let a = compute_option_availability(&vec![import("my/maybe", None, &["Option"])]).expect("a");
    assert!(!a.unqualified);
    assert!(a.aliases.is_empty());

    let r = compute_option_availability(&vec![
        import("my/maybe", None, &["Option"]),
        import("gleam/option", None, &["Option"]),
    ]);
    assert_eq!(
        r.map(|a| a.unqualified),
        Err(GlossError::GenerationError(
            "Conflicting imports for `Option`. gloss requires `Option` to come from `gleam/option` when using optional fields."
                .to_string()
        ))
    );
}

#[test]
fn declared_types_are_written_as_text() {
    assert_eq!(type_ast_to_string(&named("Int", vec![])), "Int");
    assert_eq!(
        type_ast_to_string(&named("List", vec![aliased("option", "Option", vec![named("Int", vec![])])])),
        "List(Option(Int))"
    );
    assert_eq!(
        type_ast_to_string(&named("Dict", vec![named("String", vec![]), named("Int", vec![])])),
        "Dict(String, Int)"
    );
    assert_eq!(
        type_ast_to_string(&TypeAst::Tuple(vec![named("Int", vec![]), TypeAst::Var("a".to_string())])),
        "#(Int, a)"
    );
    assert_eq!(type_ast_to_string(&TypeAst::Tuple(vec![])), "#()");
    assert_eq!(
        type_ast_to_string(&TypeAst::Fn {
            arguments: vec![named("Int", vec![]), TypeAst::Hole],
            return_: Box::new(named("String", vec![])),
        }),
        "fn(Int, _) -> String"
    );
}

fn module_of(e: &TypeExpression) -> Option<&str> {
    match e {
        TypeExpression::Constructor { module, .. } => module.as_deref(),
        _ => None,
    }
}

#[test]
fn option_is_resolved_to_its_module() {
    let availability =
        OptionAvailability { unqualified: true, aliases: vec!["opt".to_string()] };
    let bare = type_ast_to_expression(&named("Option", vec![named("Int", vec![])]), &availability);
    assert_eq!(module_of(&bare), Some("gleam/option"));
    let by_alias = type_ast_to_expression(&aliased("opt", "Option", vec![]), &availability);
    assert_eq!(module_of(&by_alias), Some("gleam/option"));
    let other_alias = type_ast_to_expression(&aliased("option", "Option", vec![]), &availability);
    assert_eq!(module_of(&other_alias), Some("option"));
    let other_name = type_ast_to_expression(&aliased("opt", "Maybe", vec![]), &availability);
    assert_eq!(module_of(&other_name), Some("opt"));

    let shadowed = OptionAvailability { unqualified: false, aliases: vec![] };
    let bare = type_ast_to_expression(&named("Option", vec![]), &shadowed);
    assert_eq!(module_of(&bare), None);

    let nested = type_ast_to_expression(
        &TypeAst::Tuple(vec![
            named("List", vec![named("Option", vec![TypeAst::Var("a".to_string())])]),
            TypeAst::Fn { arguments: vec![TypeAst::Hole], return_: Box::new(named("Option", vec![])) },
        ]),
        &availability,
    );
    match nested {
        TypeExpression::Tuple(items) => {
            match &items[0] {
                TypeExpression::Constructor { name, arguments, module } => {
                    assert_eq!(name, "List");
                    assert_eq!(module, &None);
                    assert_eq!(module_of(&arguments[0]), Some("gleam/option"));
                    match &arguments[0] {
                        TypeExpression::Constructor { arguments, .. } => {
                            assert!(matches!(&arguments[0], TypeExpression::Var(v) if v == "a"))
                        }
                        other => panic!("unexpected {other:?}"),
                    }
                }
                other => panic!("unexpected {other:?}"),
            }
            match &items[1] {
                TypeExpression::Function { arguments, return_type } => {
                    assert!(matches!(arguments[0], TypeExpression::Hole));
                    assert_eq!(module_of(return_type), Some("gleam/option"));
                }
                other => panic!("unexpected {other:?}"),
            }
        }
        other => panic!("unexpected {other:?}"),
    }
}

#[test]
fn fields_take_directives_from_documentation_or_comment() {
    let source = "  // gloss!: rename = \"fromComment\"\n  id: Option(Int)";
    let availability = OptionAvailability { unqualified: true, aliases: vec![] };
    let from_comment = extract_field_info(
        &FieldDecl {
            label: Some("id".to_string()),
            doc: None,
            start: source.find("id:").unwrap(),
            ast: named("Option", vec![named("Int", vec![])]),
        },
        source,
        &availability,
    );
    assert_eq!(from_comment.label, "id");
    assert_eq!(from_comment.type_, "Option(Int)");
    assert!(from_comment.is_option);
    assert_eq!(from_comment.custom_name.as_deref(), Some("fromComment"));

    let from_doc = extract_field_info(
        &FieldDecl {
            label: None,
            doc: Some(" gloss!: rename = \"fromDoc\", optional".to_string()),
            start: source.find("id:").unwrap(),
            ast: named("Int", vec![]),
        },
        source,
        &availability,
    );
    assert_eq!(from_doc.label, "_unlabeled");
    assert!(!from_doc.is_option);
    assert_eq!(from_doc.custom_name.as_deref(), Some("fromDoc"));
    assert_eq!(from_doc.marker, FieldMarker::Optional);
}

fn plain_type(source: &str, name: &str, documentation: Option<&str>) -> CustomTypeDecl {
    CustomTypeDecl {
        name: name.to_string(),
        documentation: documentation.map(|d| d.to_string()),
        start: source.find(&format!("pub type {}", name)).expect("type in source"),
        constructors: vec![ConstructorDecl { name: name.to_string(), arguments: vec![] }],
    }
}

#[test]
fn only_types_that_ask_for_code_are_kept() {
    let source = "// gloss!: decoder\npub type A { A }\n\npub type B { B }\n\n// a note\npub type C { C }\n\n/// gloss!: encoder(json), no_type_tag\npub type D { D }\n";
    let parsed = ParsedModule {
        imports: vec![],
        custom_types: vec![
            plain_type(source, "A", None),
            plain_type(source, "B", None),
            plain_type(source, "C", None),
            plain_type(source, "D", Some(" gloss!: encoder(json), no_type_tag")),
        ],
    };
    let (file_config, types) = parse_file("things", "app/things", source, &parsed).expect("file");
    assert!(file_config.output_override.is_none());
    let names: Vec<&str> = types.iter().map(|t| t.name.as_str()).collect();
    assert_eq!(names, vec!["A", "D"]);
    assert!(types[0].generate_decoder);
    assert!(types[0].encoders.is_empty());
    assert_eq!(types[0].module, "app/things");
    assert_eq!(types[0].module_name, "things");
    assert_eq!(types[0].constructors.len(), 1);
    assert_eq!(types[0].constructors[0].name, "A");
    assert!(!types[1].generate_decoder);
    assert_eq!(types[1].encoders, vec![EncoderType::Json]);
    assert!(types[1].disable_type_tag);
    assert!(types[1].option_availability.unqualified);
}

#[test]
fn files_without_types_are_left_out_and_conflicts_end_parsing() {
    let with_type = "// gloss!: decoder\npub type A { A }\n";
    let without = "pub type B { B }\n";
    let unit = |path: &str, source: &str, name: &str, imports: Vec<ImportDecl>| SourceUnit {
        path: path.to_string(),
        module_name: "m".to_string(),
        module: "m".to_string(),
        source: source.to_string(),
        parsed: ParsedModule { imports, custom_types: vec![plain_type(source, name, None)] },
    };
    let files = parse_gleam_files(&vec![
        unit("src/a.gleam", with_type, "A", vec![]),
        unit("src/b.gleam", without, "B", vec![]),
    ])
    .expect("files");
    assert_eq!(files.len(), 1);
    assert_eq!(files[0].path, "src/a.gleam");
    assert_eq!(files[0].types.len(), 1);

    let conflict = parse_gleam_files(&vec![
        unit("src/a.gleam", with_type, "A", vec![]),
        unit(
            "src/c.gleam",
            with_type,
            "A",
            vec![import("x", None, &["Option"]), import("gleam/option", None, &["Option"])],
        ),
    ]);
    assert!(matches!(conflict, Err(GlossError::GenerationError(m)) if m.starts_with("Conflicting imports for `Option`")));
}
