use gloss_core::defaults::{default_value_for_type, panic_default_message, TypeLookup};
use gloss_core::generator::{
    convert_field_name, determine_encoding_mode, escape_gleam_string, format_expected_variants,
    format_unknown_variant_message, generate_constructor_entries, generate_decoder,
    generate_encoder, generate_type_decoder, generate_type_encoder, is_optional_field,
    parse_function_reference, EncodingMode,
};
use gloss_core::registry::{
    encoder_fn_name, find_type_entry, registry_entry, unique_backends, TypeRegistry,
    TypeRegistryEntry,
};
use gloss_core::{
    AbsentFieldMode, Config, ConstructorInfo, CustomTypeInfo, EncoderBackend, EncoderType,
    FieldInfo, FieldMarker, FieldNamingConvention, FnNamingConfig, GlossError, ImportMap,
    JsonEncoderBackend, OptionAvailability, TypeExpression,
};

fn named(name: &str) -> TypeExpression {
    TypeExpression::Constructor { module: None, name: name.to_string(), arguments: vec![] }
}

fn from_module(module: &str, name: &str) -> TypeExpression {
    TypeExpression::Constructor {
        module: Some(module.to_string()),
        name: name.to_string(),
        arguments: vec![],
    }
}

fn list(inner: TypeExpression) -> TypeExpression {
    TypeExpression::Constructor { module: None, name: "List".to_string(), arguments: vec![inner] }
}

fn option(inner: TypeExpression) -> TypeExpression {
    TypeExpression::Constructor {
        module: Some("gleam/option".to_string()),
        name: "Option".to_string(),
        arguments: vec![inner],
    }
}

fn field(label: &str, type_expr: TypeExpression) -> FieldInfo {
    let is_option = matches!(
        &type_expr,
        TypeExpression::Constructor { module: Some(m), name, .. } if name == "Option" && m == "gleam/option"
    );
    FieldInfo {
        label: label.to_string(),
        type_: String::new(),
        type_expr,
        is_option,
        marker: FieldMarker::Default,
        custom_name: None,
        decoder_with: None,
        encoder_with: None,
    }
}

fn constructor(name: &str, fields: Vec<FieldInfo>) -> ConstructorInfo {
    ConstructorInfo { name: name.to_string(), fields }
}

fn type_info(module: &str, name: &str, constructors: Vec<ConstructorInfo>) -> CustomTypeInfo {
    CustomTypeInfo {
        name: name.to_string(),
        constructors,
        encoders: vec![EncoderType::Json],
        generate_decoder: true,
        field_naming_strategy: None,
        module_name: module.rsplit('/').next().unwrap_or(module).to_string(),
        module: module.to_string(),
        type_tag_field: None,
        disable_type_tag: false,
        output_override: None,
        unknown_variant_message: None,
        fn_naming_override: None,
        option_availability: OptionAvailability::default(),
    }
}

fn registry_of(types: &[&CustomTypeInfo]) -> TypeRegistry {
    let naming = FnNamingConfig::default();
    TypeRegistry { entries: types.iter().map(|t| registry_entry(t, &naming)).collect() }
}

fn lookup_of<'a>(types: &[&'a CustomTypeInfo]) -> TypeLookup<'a> {
    TypeLookup { types: types.to_vec() }
}

fn decoder_of(info: &CustomTypeInfo, config: &Config) -> Result<(String, bool, ImportMap), GlossError> {
    let registry = registry_of(&[info]);
    let lookup = lookup_of(&[info]);
    let mut imports = ImportMap::new();
    generate_decoder(info, config, &registry, &mut imports, &lookup, None)
        .map(|out| (out.code, out.uses_option_helpers, imports))
}

fn encoder_of(info: &CustomTypeInfo, config: &Config) -> Result<String, GlossError> {
    let registry = registry_of(&[info]);
    let mut imports = ImportMap::new();
    generate_encoder(info, EncoderType::Json, config, &registry, &mut imports, &JsonEncoderBackend)
}

fn generation_error<T: std::fmt::Debug>(r: Result<T, GlossError>) -> String {
    match r {
        Err(GlossError::GenerationError(m)) => m,
        other => panic!("expected a generation error, got {other:?}"),
    }
}

fn color() -> CustomTypeInfo {
    type_info("paint", "Color", vec![constructor("Red", vec![]), constructor("Green", vec![])])
}

fn shape() -> CustomTypeInfo {
    type_info(
        "geometry",
        "Shape",
        vec![constructor("Circle", vec![field("radius", named("Float"))]), constructor("Square", vec![])],
    )
}

#[test]
fn fieldless_constructors_give_plain_string() {
    assert_eq!(determine_encoding_mode(&vec![constructor("Only", vec![])], false), EncodingMode::PlainString);
    assert_eq!(determine_encoding_mode(&color().constructors, false), EncodingMode::PlainString);
    assert_eq!(determine_encoding_mode(&color().constructors, true), EncodingMode::PlainString);
    assert_eq!(determine_encoding_mode(&vec![], false), EncodingMode::PlainString);
}

#[test]
fn constructors_with_fields_give_objects() {
    let single = vec![constructor("User", vec![field("id", named("Int"))])];
    assert_eq!(determine_encoding_mode(&single, false), EncodingMode::ObjectWithNoTypeTag);
    assert_eq!(determine_encoding_mode(&single, true), EncodingMode::ObjectWithNoTypeTag);
    assert_eq!(determine_encoding_mode(&shape().constructors, false), EncodingMode::ObjectWithTypeTag);
    assert_eq!(determine_encoding_mode(&shape().constructors, true), EncodingMode::ObjectWithNoTypeTag);
}

const COLOR_DECODER: &str = "pub fn color_decoder() -> decode.Decoder(Color) {\n  use variant <- decode.then(decode.string)\n  case variant {\n    \"red\" -> {\n  decode.success(Red)\n}\n    \"green\" -> {\n  decode.success(Green)\n}\n    _ -> decode.failure(Red, \"one of green, red\")\n  }\n}";
const COLOR_ENCODER: &str = "pub fn color_to_json(color: Color) -> json.Json {\n  case color {\n    Red -> json.string(\"red\")\n    Green -> json.string(\"green\")\n  }\n}";

#[test]
fn plain_string_code_never_mentions_a_discriminant_key() {
    let config = Config::default();
    let (decoder, uses_option, imports) = decoder_of(&color(), &config).expect("decoder");
    assert_eq!(decoder, COLOR_DECODER);
    assert!(!uses_option);
    assert_eq!(imports.len(), 0);
    assert_eq!(encoder_of(&color(), &config).expect("encoder"), COLOR_ENCODER);

    let mut keyed = color();
    keyed.type_tag_field = Some("kind".to_string());
    assert_eq!(decoder_of(&keyed, &config).expect("decoder").0, COLOR_DECODER);
    assert_eq!(encoder_of(&keyed, &config).expect("encoder"), COLOR_ENCODER);
    assert!(!COLOR_DECODER.contains("decode.field"));
    assert!(!COLOR_ENCODER.contains("#("));

    let mut untagged = color();
    untagged.disable_type_tag = true;
    assert_eq!(decoder_of(&untagged, &config).expect("decoder").0, COLOR_DECODER);
    assert_eq!(encoder_of(&untagged, &config).expect("encoder"), COLOR_ENCODER);
}

#[test]
fn single_fieldless_constructor_is_a_plain_string() {
    let unit = type_info("m", "Unit", vec![constructor("Unit", vec![])]);
    let config = Config::default();
    assert_eq!(
        decoder_of(&unit, &config).expect("decoder").0,
        "pub fn unit_decoder() -> decode.Decoder(Unit) {\n  decode.success(Unit)\n}"
    );
    assert_eq!(
        encoder_of(&unit, &config).expect("encoder"),
        "pub fn unit_to_json(unit: Unit) -> json.Json {\n  json.string(\"unit\")\n}"
    );
}

#[test]
fn tagged_encoder_emits_the_discriminant_first() {
    let config = Config::default();
    assert_eq!(
        encoder_of(&shape(), &config).expect("encoder"),
        "pub fn shape_to_json(shape: Shape) -> json.Json {\n  case shape {\n    Circle(radius:) -> json.object([\n      #(\"type\", json.string(\"circle\")),\n      #(\"radius\", json.float(radius))\n    ])\n    Square -> json.object([\n      #(\"type\", json.string(\"square\"))\n    ])\n  }\n}"
    );
    let mut keyed = shape();
    keyed.type_tag_field = Some("kind".to_string());
    let encoder = encoder_of(&keyed, &config).expect("encoder");
    assert!(encoder.contains("json.object([\n      #(\"kind\", json.string(\"circle\")),"));
    assert!(encoder.contains("json.object([\n      #(\"kind\", json.string(\"square\"))"));
    assert!(!encoder.contains("\"type\""));
}

#[test]
fn tagged_decoder_reads_the_discriminant_first() {
    let config = Config::default();
    let (decoder, _, _) = decoder_of(&shape(), &config).expect("decoder");
    assert_eq!(
        decoder,
        "pub fn shape_decoder() -> decode.Decoder(Shape) {\n  use variant <- decode.field(\"type\", decode.string)\n  case variant {\n    \"circle\" -> {\n      use radius <- decode.field(\"radius\", decode.float)\n      decode.success(Circle(radius:))\n    }\n    \"square\" -> {\n  decode.success(Square)\n}\n    _ -> decode.failure(Circle(radius: 0.0), \"one of circle, square\")\n  }\n}"
    );
}

#[test]
fn disabled_tag_leaves_the_discriminant_out_of_the_encoder_only() {
    let mut untagged = shape();
    untagged.disable_type_tag = true;
    let config = Config::default();
    assert_eq!(
        encoder_of(&untagged, &config).expect("encoder"),
        "pub fn shape_to_json(shape: Shape) -> json.Json {\n  case shape {\n    Circle(radius:) -> json.object([\n      #(\"radius\", json.float(radius))\n    ])\n    Square -> json.object([])\n  }\n}"
    );
    let (decoder, _, _) = decoder_of(&untagged, &config).expect("decoder");
    assert!(decoder.contains("use variant <- decode.field(\"type\", decode.string)"));
}

#[test]
fn single_constructor_object_has_no_discriminant() {
    let mut user = type_info(
        "accounts",
        "User",
        vec![constructor("User", vec![field("user_name", named("String")), field("age", named("Int"))])],
    );
    let config = Config::default();
    assert_eq!(
        encoder_of(&user, &config).expect("encoder"),
        "pub fn user_to_json(user: User) -> json.Json {\n  let User(user_name:, age:) = user\n  json.object([\n    #(\"user_name\", json.string(user_name)),\n    #(\"age\", json.int(age))\n  ])\n}"
    );
    user.field_naming_strategy = Some(FieldNamingConvention::CamelCase);
    user.constructors[0].fields[1].custom_name = Some("years".to_string());
    assert_eq!(
        decoder_of(&user, &config).expect("decoder").0,
        "pub fn user_decoder() -> decode.Decoder(User) {\n  use user_name <- decode.field(\"userName\", decode.string)\n  use age <- decode.field(\"years\", decode.int)\n  decode.success(User(user_name:, age:))\n}"
    );
    let camel = Config::new(FieldNamingConvention::CamelCase, AbsentFieldMode::ErrorIfAbsent);
    user.field_naming_strategy = Some(FieldNamingConvention::SnakeCase);
    assert!(encoder_of(&user, &camel).expect("encoder").contains("#(\"user_name\", "));
    user.field_naming_strategy = None;
    assert!(encoder_of(&user, &camel).expect("encoder").contains("#(\"userName\", "));
}

#[test]
fn field_names_follow_the_convention() {
    assert_eq!(convert_field_name("user_name", FieldNamingConvention::SnakeCase), "user_name");
    assert_eq!(convert_field_name("user_name", FieldNamingConvention::CamelCase), "userName");
}

#[test]
fn markers_decide_before_the_configuration() {
    for mode in [AbsentFieldMode::ErrorIfAbsent, AbsentFieldMode::MaybeAbsent] {
        for is_option in [true, false] {
            assert!(is_optional_field(FieldMarker::Optional, is_option, mode));
            assert!(!is_optional_field(FieldMarker::Required, is_option, mode));
        }
    }
    assert!(is_optional_field(FieldMarker::Default, true, AbsentFieldMode::MaybeAbsent));
    assert!(!is_optional_field(FieldMarker::Default, false, AbsentFieldMode::MaybeAbsent));
    assert!(!is_optional_field(FieldMarker::Default, true, AbsentFieldMode::ErrorIfAbsent));
    assert!(!is_optional_field(FieldMarker::Default, false, AbsentFieldMode::ErrorIfAbsent));
}

fn decode_type(t: &TypeExpression, registry: &TypeRegistry, current: &str) -> (Result<String, GlossError>, ImportMap) {
    let mut imports = ImportMap::new();
    let r = generate_type_decoder(t, None, registry, &mut imports, current);
    (r, imports)
}

fn encode_type(var: &str, t: &TypeExpression, registry: &TypeRegistry, current: &str) -> (Result<String, GlossError>, ImportMap) {
    let mut imports = ImportMap::new();
    let r = generate_type_encoder(
        var,
        t,
        None,
        registry,
        &mut imports,
        current,
        &JsonEncoderBackend,
        EncoderType::Json,
    );
    (r, imports)
}

#[test]
fn primitives_and_one_level_of_wrapping_are_derived() {
    let registry = TypeRegistry::default();
    let decode = |t: TypeExpression| decode_type(&t, &registry, "m").0.expect("decoder");
    assert_eq!(decode(named("String")), "decode.string");
    assert_eq!(decode(named("Int")), "decode.int");
    assert_eq!(decode(named("Float")), "decode.float");
    assert_eq!(decode(named("Bool")), "decode.bool");
    assert_eq!(decode(list(named("Int"))), "decode.list(decode.int)");
    assert_eq!(decode(option(named("String"))), "decode.optional(decode.string)");

    let encode = |t: TypeExpression| encode_type("value", &t, &registry, "m").0.expect("encoder");
    assert_eq!(encode(named("String")), "json.string(value)");
    assert_eq!(encode(named("Int")), "json.int(value)");
    assert_eq!(encode(named("Float")), "json.float(value)");
    assert_eq!(encode(named("Bool")), "json.bool(value)");
    assert_eq!(encode(list(named("Int"))), "json.array(value, json.int(_))");
    assert_eq!(encode(option(named("String"))), "json.nullable(value, json.string(_))");
}

#[test]
fn nested_wrappers_are_refused() {
    let registry = TypeRegistry::default();
    assert_eq!(
        generation_error(decode_type(&list(list(named("Int"))), &registry, "m").0),
        "Cannot derive decoder for nested type `List(List(..))`. Provide `decoder_with` override."
    );
    assert_eq!(
        generation_error(decode_type(&list(option(named("Int"))), &registry, "m").0),
        "Cannot derive decoder for nested type `List(Option(..))`. Provide `decoder_with` override."
    );
    assert_eq!(
        generation_error(encode_type("x", &option(list(named("Int"))), &registry, "m").0),
        "Cannot derive encoder for nested type `Option(List(..))`. Provide `encoder_with` override."
    );
}

#[test]
fn unsupported_shapes_are_refused_with_a_remedy() {
    let registry = TypeRegistry::default();
    assert_eq!(
        generation_error(decode_type(&TypeExpression::Var("a".to_string()), &registry, "m").0),
        "Cannot derive decoder for generic field `a`. Provide `decoder_with` override."
    );
    assert_eq!(
        generation_error(encode_type("x", &TypeExpression::Var("a".to_string()), &registry, "m").0),
        "Cannot derive encoder for generic field `a`. Provide `encoder_with` override."
    );
    let complex = [
        TypeExpression::Tuple(vec![named("Int")]),
        TypeExpression::Function { arguments: vec![], return_type: Box::new(named("Int")) },
        TypeExpression::Hole,
    ];
    for t in &complex {
        assert_eq!(
            generation_error(decode_type(t, &registry, "m").0),
            "Cannot derive decoder for complex type expression. Provide `decoder_with` override."
        );
        assert_eq!(
            generation_error(encode_type("x", t, &registry, "m").0),
            "Cannot derive encoder for complex type expression. Provide `encoder_with` override."
        );
        assert_eq!(
            generation_error(decode_type(&list(t.clone()), &registry, "m").0),
            "Cannot derive decoder for complex type expression. Provide `decoder_with` override."
        );
    }
    assert_eq!(
        generation_error(decode_type(&named("Missing"), &registry, "m").0),
        "Unable to determine decoder for type `Missing`. Add a gloss annotation for that type or specify `decoder_with`."
    );
    assert_eq!(
        generation_error(encode_type("x", &named("Missing"), &registry, "m").0),
        "Unable to determine encoder for type `Missing`. Add a gloss annotation for that type or specify `encoder_with`."
    );
    // An option that is not the one of `gleam/option` is a type like any other.
    let foreign = TypeExpression::Constructor {
        module: None,
        name: "Option".to_string(),
        arguments: vec![named("Int")],
    };
    assert_eq!(
        generation_error(decode_type(&foreign, &registry, "m").0),
        "Unable to determine decoder for type `Option`. Add a gloss annotation for that type or specify `decoder_with`."
    );
}

#[test]
fn missing_capability_is_refused() {
    let mut user = type_info("accounts", "User", vec![constructor("User", vec![])]);
    user.generate_decoder = false;
    user.encoders = vec![];
    let registry = registry_of(&[&user]);
    assert_eq!(
        generation_error(decode_type(&named("User"), &registry, "accounts").0),
        "Decoder requested for type `User` but gloss is not generating one. Provide `decoder_with` override."
    );
    assert_eq!(
        generation_error(encode_type("u", &named("User"), &registry, "accounts").0),
        "Encoder requested for type `User` with backend `json` but gloss is not generating one. Provide `encoder_with` override."
    );
}

#[test]
fn references_resolve_within_and_across_modules() {
    let user = type_info("shop/user", "User", vec![constructor("User", vec![])]);
    let registry = registry_of(&[&user]);

    let (r, imports) = decode_type(&named("User"), &registry, "shop/user");
    assert_eq!(r.expect("decoder"), "user_decoder()");
    assert_eq!(imports.len(), 0);

    // By the full path of the module.
    let (r, imports) = decode_type(&from_module("shop/user", "User"), &registry, "order");
    assert_eq!(r.expect("decoder"), "shop_user.user_decoder()");
    assert_eq!(imports.values()[0].module, "shop/user");
    assert_eq!(imports.values()[0].alias, "shop_user");

    // By the last segment of the module's path.
    let (r, imports) = encode_type("owner", &from_module("user", "User"), &registry, "order");
    assert_eq!(r.expect("encoder"), "shop_user.user_to_json(owner)");
    assert_eq!(imports.len(), 1);

    let (r, _) = decode_type(&option(from_module("user", "User")), &registry, "order");
    assert_eq!(r.expect("decoder"), "decode.optional(shop_user.user_decoder())");
    let (r, _) = encode_type("owners", &list(from_module("user", "User")), &registry, "order");
    assert_eq!(r.expect("encoder"), "json.array(owners, shop_user.user_to_json(_))");

    // Without a hint only the current module is looked at.
    assert!(decode_type(&named("User"), &registry, "order").0.is_err());
    assert!(decode_type(&from_module("other", "User"), &registry, "order").0.is_err());
}

#[test]
fn registry_entries_hold_the_names_of_pass_one() {
    let mut user = type_info("shop/user", "UserProfile", vec![]);
    let naming = FnNamingConfig {
        encoder_function_naming: "write_{type_snake}".to_string(),
        decoder_function_naming: "read_{type}".to_string(),
    };
    let entry = registry_entry(&user, &naming);
    assert_eq!(entry.module, "shop/user");
    assert_eq!(entry.name, "UserProfile");
    assert!(entry.generates_decoder);
    assert_eq!(entry.decoder_fn_name.as_deref(), Some("read_UserProfile"));
    assert_eq!(
        entry.encoder_fn_names,
        vec![("json".to_string(), "write_user_profile".to_string())]
    );

    user.generate_decoder = false;
    user.encoders = vec![EncoderType::Json, EncoderType::Json];
    let entry = registry_entry(&user, &FnNamingConfig::default());
    assert_eq!(entry.decoder_fn_name, None);
    assert_eq!(
        entry.encoder_fn_names,
        vec![("json".to_string(), "user_profile_to_json".to_string())]
    );
    assert_eq!(unique_backends(&user.encoders), vec![EncoderType::Json]);
}

#[test]
fn later_entry_counts_for_one_module_and_name() {
    let entry = |decoder: &str| TypeRegistryEntry {
        module: "m".to_string(),
        name: "T".to_string(),
        generates_decoder: true,
        decoder_fn_name: Some(decoder.to_string()),
        encoder_fn_names: vec![],
    };
    let registry = TypeRegistry { entries: vec![entry("first"), entry("second")] };
    let found = find_type_entry(&registry, None, "T", "m").expect("entry");
    assert_eq!(found.decoder_fn_name.as_deref(), Some("second"));
    assert!(find_type_entry(&registry, Some("n"), "T", "m").is_none());
    assert!(find_type_entry(&registry, None, "U", "m").is_none());
}

#[test]
fn two_backends_without_placeholder_get_a_suffix() {
    let plain = FnNamingConfig {
        encoder_function_naming: "encode_{type_snake}".to_string(),
        decoder_function_naming: "{type_snake}_decoder".to_string(),
    };
    assert_eq!(encoder_fn_name(&plain, "UserProfile", "json", 2), "encode_user_profile_json");
    assert_eq!(encoder_fn_name(&plain, "UserProfile", "yaml", 2), "encode_user_profile_yaml");
    assert_eq!(encoder_fn_name(&plain, "UserProfile", "json", 1), "encode_user_profile");
    let with_placeholder = FnNamingConfig::default();
    assert_eq!(encoder_fn_name(&with_placeholder, "UserProfile", "json", 2), "user_profile_to_json");
    assert_eq!(encoder_fn_name(&with_placeholder, "UserProfile", "yaml", 2), "user_profile_to_yaml");
    let pascal = FnNamingConfig {
        encoder_function_naming: "as{backend_pascal}".to_string(),
        decoder_function_naming: String::new(),
    };
    assert_eq!(encoder_fn_name(&pascal, "T", "json", 3), "asJson");
}

#[test]
fn function_references_split_at_the_last_dot() {
    let parse = |v: &str| parse_function_reference(v).map(|f| (f.module, f.function));
    assert_eq!(parse("codec.decode"), Ok((Some("codec".to_string()), "decode".to_string())));
    assert_eq!(
        parse("profile/codec.profile_decoder"),
        Ok((Some("profile/codec".to_string()), "profile_decoder".to_string()))
    );
    assert_eq!(parse("decode"), Ok((None, "decode".to_string())));
    assert_eq!(parse("  a/b . f  "), Ok((Some("a/b".to_string()), "f".to_string())));
    assert_eq!(parse(".f"), Ok((None, "f".to_string())));
    assert_eq!(parse("f."), Ok((None, "f.".to_string())));
    assert_eq!(parse("a.b.c"), Ok((Some("a.b".to_string()), "c".to_string())));
    assert_eq!(
        parse(""),
        Err(GlossError::GenerationError("Function reference cannot be empty".to_string()))
    );
    assert_eq!(
        parse(" \t "),
        Err(GlossError::GenerationError("Function reference cannot be empty".to_string()))
    );
}

#[test]
fn overrides_take_the_place_of_derived_codecs() {
    let registry = TypeRegistry::default();
    let mut imports = ImportMap::new();
    let t = TypeExpression::Hole;
    assert_eq!(
        generate_type_decoder(&t, Some("codec.thing_decoder"), &registry, &mut imports, "m"),
        Ok("codec.thing_decoder()".to_string())
    );
    assert_eq!(
        generate_type_decoder(&t, Some("m.local_decoder"), &registry, &mut imports, "m"),
        Ok("local_decoder()".to_string())
    );
    assert_eq!(
        generate_type_decoder(&t, Some("bare"), &registry, &mut imports, "m"),
        Ok("bare()".to_string())
    );
    assert_eq!(
        generate_type_encoder(
            "thing",
            &t,
            Some("a/b.encode_thing"),
            &registry,
            &mut imports,
            "m",
            &JsonEncoderBackend,
            EncoderType::Json,
        ),
        Ok("a_b.encode_thing(thing)".to_string())
    );
    assert_eq!(
        generate_type_decoder(&t, Some("  "), &registry, &mut imports, "m"),
        Err(GlossError::GenerationError("Function reference cannot be empty".to_string()))
    );
    let modules: Vec<&str> = imports.values().iter().map(|e| e.module.as_str()).collect();
    assert_eq!(modules, vec!["a/b", "codec"]);
}

#[test]
fn gleam_strings_are_escaped() {
    assert_eq!(escape_gleam_string("a\"b\\c\nd"), "a\\\"b\\\\c\\nd");
    assert_eq!(escape_gleam_string("plain"), "plain");
    assert_eq!(panic_default_message("a \"b\""), "panic(\"No default value for a \\\"b\\\"\")");
}

#[test]
fn expected_variants_are_sorted_and_distinct() {
    assert_eq!(format_expected_variants(&vec![]), "value");
    assert_eq!(format_expected_variants(&vec![constructor("OnlyOne", vec![])]), "only_one");
    assert_eq!(
        format_expected_variants(&vec![
            constructor("Zeta", vec![]),
            constructor("Alpha", vec![]),
            constructor("Zeta", vec![]),
        ]),
        "one of alpha, zeta"
    );
    assert_eq!(
        format_expected_variants(&vec![constructor("Same", vec![]), constructor("Same", vec![])]),
        "same"
    );
}

#[test]
fn unknown_variant_message_fills_the_type() {
    assert_eq!(
        format_unknown_variant_message("Event", Some("Unknown {type}: {type}"), "one of a, b"),
        "Unknown Event: Event"
    );
    assert_eq!(format_unknown_variant_message("Event", None, "one of a, b"), "one of a, b");
    let mut event = shape();
    event.unknown_variant_message = None;
    let registry = registry_of(&[&event]);
    let lookup = lookup_of(&[&event]);
    let mut imports = ImportMap::new();
    let out = generate_decoder(
        &event,
        &Config::default(),
        &registry,
        &mut imports,
        &lookup,
        Some("bad \"{type}\"\n"),
    )
    .expect("decoder");
    assert!(out.code.contains("_ -> decode.failure(Circle(radius: 0.0), \"bad \\\"Shape\\\"\\n\")"));
}

fn default_of(info: &CustomTypeInfo, all: &[&CustomTypeInfo]) -> (String, ImportMap, bool) {
    let lookup = lookup_of(all);
    let mut imports = ImportMap::new();
    let mut uses_option = false;
    let text = default_value_for_type(info, &lookup, &mut imports, &mut uses_option);
    (text, imports, uses_option)
}

#[test]
fn default_values_are_built_from_first_constructors() {
    let a = type_info(
        "m",
        "A",
        vec![
            constructor(
                "A",
                vec![
                    field("b", named("B")),
                    field("n", named("Int")),
                    field("s", named("String")),
                    field("f", named("Float")),
                    field("ok", named("Bool")),
                    field("xs", list(named("Int"))),
                    field("o", option(named("Int"))),
                    field("t", TypeExpression::Tuple(vec![named("Int"), named("String")])),
                ],
            ),
            constructor("Other", vec![]),
        ],
    );
    let b = type_info("m", "B", vec![constructor("B", vec![field("a", named("A"))])]);
    let (text, imports, uses_option) = default_of(&a, &[&a, &b]);
    assert_eq!(
        text,
        "A(b: B(a: panic(\"No default value for A\")), n: 0, s: \"\", f: 0.0, ok: False, xs: [], o: option.None, t: #(0, \"\"))"
    );
    assert_eq!(imports.len(), 0);
    assert!(uses_option);
}

#[test]
fn default_values_of_degenerate_types_fail_at_run_time() {
    let empty = type_info("m", "Empty", vec![]);
    assert_eq!(default_of(&empty, &[&empty]).0, "panic(\"No default value for Empty\")");
    let unknown = type_info("m", "Unknown", vec![constructor("Unknown", vec![])]);
    assert_eq!(default_of(&unknown, &[]).0, "panic(\"No default value for Unknown\")");

    let odd = type_info(
        "m",
        "Odd",
        vec![constructor(
            "Odd",
            vec![
                field("_unlabeled", TypeExpression::Var("a".to_string())),
                field("h", TypeExpression::Hole),
                field(
                    "f",
                    TypeExpression::Function { arguments: vec![], return_type: Box::new(named("Int")) },
                ),
                field("gone", from_module("far/away", "Gone")),
                field("here", named("Nowhere")),
                field("twice", named("Odd")),
            ],
        )],
    );
    let (text, imports, uses_option) = default_of(&odd, &[&odd]);
    assert_eq!(
        text,
        "Odd(panic(\"No default value for type variable\"), h: panic(\"No default value for type hole\"), f: panic(\"No default value for function\"), gone: panic(\"No default value for far.away.Gone\"), here: panic(\"No default value for Nowhere\"), twice: panic(\"No default value for Odd\"))"
    );
    assert_eq!(imports.len(), 0);
    assert!(!uses_option);
}

#[test]
fn default_values_qualify_constructors_of_other_modules() {
    let inner = type_info("geo/point", "Point", vec![constructor("Point", vec![field("x", named("Int"))])]);
    let outer = type_info(
        "shapes",
        "Shape",
        vec![constructor(
            "Circle",
            vec![field("center", from_module("geo/point", "Point")), field("again", from_module("geo/point", "Point"))],
        )],
    );
    let (text, imports, _) = default_of(&outer, &[&inner, &outer]);
    assert_eq!(text, "Circle(center: geo_point.Point(x: 0), again: geo_point.Point(x: 0))");
    assert_eq!(imports.len(), 1);
    assert_eq!(imports.values()[0].module, "geo/point");
    assert_eq!(imports.values()[0].alias, "geo_point");
}

/// A backend that says nothing of what it returns.
struct Terse;

impl EncoderBackend for Terse {
    fn name(&self) -> &str {
        "terse"
    }

    fn module_imports(&self) -> Vec<String> {
        vec!["import terse".to_string()]
    }

    fn return_type(&self) -> String {
        "terse.T".to_string()
    }

    fn encode_object(&self, _indent: &str, fields: &[(String, String)], _closing: &str) -> String {
        let entries: Vec<String> = fields.iter().map(|(k, v)| format!("{k}={v}")).collect();
        format!("o[{}]", entries.join(";"))
    }

    fn encode_empty_object(&self, _indent: &str) -> String {
        "o[]".to_string()
    }

    fn encode_string_literal(&self, value: &str) -> String {
        format!("lit:{value}")
    }

    fn encode_string(&self, value_expr: &str) -> String {
        format!("s:{value_expr}")
    }

    fn encode_int(&self, value_expr: &str) -> String {
        format!("i:{value_expr}")
    }

    fn encode_float(&self, value_expr: &str) -> String {
        format!("f:{value_expr}")
    }

    fn encode_bool(&self, value_expr: &str) -> String {
        format!("b:{value_expr}")
    }

    fn encode_nullable(&self, value_expr: &str, inner_encoder: &str) -> String {
        format!("n:{value_expr}:{inner_encoder}")
    }

    fn encode_array(&self, value_expr: &str, inner_encoder: &str) -> String {
        format!("a:{value_expr}:{inner_encoder}")
    }

    fn required_packages(&self) -> Vec<String> {
        Vec::new()
    }
}

#[test]
fn registered_types_are_encoded_alike_by_every_backend() {
    let user = type_info("shop/user", "User", vec![constructor("User", vec![])]);
    let registry = registry_of(&[&user]);
    let mut imports = ImportMap::new();
    let r = generate_type_encoder(
        "owner",
        &from_module("user", "User"),
        None,
        &registry,
        &mut imports,
        "order",
        &Terse,
        EncoderType::Json,
    );
    assert_eq!(r, Ok("shop_user.user_to_json(owner)".to_string()));
    assert_eq!(imports.values()[0].module, "shop/user");
    let r = generate_type_encoder(
        "me",
        &named("User"),
        None,
        &registry,
        &mut imports,
        "shop/user",
        &Terse,
        EncoderType::Json,
    );
    assert_eq!(r, Ok("user_to_json(me)".to_string()));
}

#[test]
fn keys_handed_to_any_backend_are_the_library_s() {
    let user = type_info("shop/user", "User", vec![constructor("User", vec![])]);
    let registry = registry_of(&[&user]);
    let mut keyed = field("user_name", named("String"));
    keyed.custom_name = Some("login".to_string());
    let mut with_function = field("extra", TypeExpression::Hole);
    with_function.encoder_with = Some("codec.encode_extra".to_string());
    let circle = constructor(
        "BigCircle",
        vec![keyed, field("owner_id", from_module("user", "User")), with_function],
    );
    let mut imports = ImportMap::new();
    let entries = generate_constructor_entries(
        &circle,
        EncodingMode::ObjectWithTypeTag,
        FieldNamingConvention::CamelCase,
        "kind",
        EncoderType::Json,
        &Terse,
        &registry,
        &mut imports,
        "shapes",
    )
    .expect("entries");
    assert_eq!(
        entries,
        vec![
            ("kind".to_string(), "lit:big_circle".to_string()),
            ("login".to_string(), "s:user_name".to_string()),
            ("ownerId".to_string(), "shop_user.user_to_json(owner_id)".to_string()),
            ("extra".to_string(), "codec.encode_extra(extra)".to_string()),
        ]
    );
    let mut imports = ImportMap::new();
    let untagged = generate_constructor_entries(
        &constructor("Empty", vec![]),
        EncodingMode::ObjectWithNoTypeTag,
        FieldNamingConvention::SnakeCase,
        "kind",
        EncoderType::Json,
        &Terse,
        &registry,
        &mut imports,
        "shapes",
    )
    .expect("entries");
    assert!(untagged.is_empty());
}

#[test]
fn encoder_of_any_backend_has_the_named_header() {
    let registry = registry_of(&[&shape()]);
    let mut imports = ImportMap::new();
    let naming = FnNamingConfig {
        encoder_function_naming: "encode_{type_pascal}_as_{backend}".to_string(),
        decoder_function_naming: "{type_snake}_decoder".to_string(),
    };
    let mut config = Config::default();
    config.fn_naming = naming;
    let text =
        generate_encoder(&shape(), EncoderType::Json, &config, &registry, &mut imports, &Terse)
            .expect("encoder");
    assert_eq!(
        text,
        "pub fn encode_Shape_as_json(shape: Shape) -> terse.T {\n  case shape {\n    Circle(radius:) -> o[type=lit:circle;radius=f:radius]\n    Square -> o[type=lit:square]\n  }\n}"
    );
}
