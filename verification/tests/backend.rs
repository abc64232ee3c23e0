use gloss_core::{BackendRegistry, EncoderBackend, EncoderType, JsonEncoderBackend};

struct CustomJsonBackend;

impl EncoderBackend for CustomJsonBackend {
    fn name(&self) -> &str {
        "custom-json"
    }

    fn module_imports(&self) -> Vec<String> {
        vec!["import custom/json as cj".to_string()]
    }

    fn return_type(&self) -> String {
        "cj.Value".to_string()
    }

    fn encode_object(
        &self,
        indent: &str,
        fields: &[(String, String)],
        closing_indent: &str,
    ) -> String {
        if fields.is_empty() {
            return self.encode_empty_object(closing_indent);
        }

        let entries = fields
            .iter()
            .map(|(key, value)| format!(r#"{indent}  #("{key}", {value})"#))
            .collect::<Vec<_>>()
            .join(",\n");

        format!(
            "{closing_indent}cj.object([\n{entries}\n{closing_indent}])",
            closing_indent = closing_indent,
            entries = entries
        )
    }

    fn encode_empty_object(&self, indent: &str) -> String {
        format!("{indent}cj.object([])", indent = indent)
    }

    fn encode_string_literal(&self, value: &str) -> String {
        format!(r#"cj.string("{value}")"#, value = value)
    }

    fn encode_string(&self, value_expr: &str) -> String {
        format!("cj.string({})", value_expr)
    }

    fn encode_int(&self, value_expr: &str) -> String {
        format!("cj.int({})", value_expr)
    }

    fn encode_float(&self, value_expr: &str) -> String {
        format!("cj.float({})", value_expr)
    }

    fn encode_bool(&self, value_expr: &str) -> String {
        format!("cj.bool({})", value_expr)
    }

    fn encode_nullable(&self, value_expr: &str, inner_encoder: &str) -> String {
        format!("cj.nullable({}, {})", value_expr, inner_encoder)
    }

    fn encode_array(&self, value_expr: &str, inner_encoder: &str) -> String {
        format!("cj.array({}, {})", value_expr, inner_encoder)
    }

    fn required_packages(&self) -> Vec<String> {
        Vec::new()
    }
}

#[test]
fn json_backend_renders_object() {
    let backend = JsonEncoderBackend;
    let fields = vec![
        ("id".to_string(), "json.int(id)".to_string()),
        ("name".to_string(), "json.string(name)".to_string()),
    ];
    assert_eq!(
        backend.encode_object("  ", &fields, "  "),
        "  json.object([\n    #(\"id\", json.int(id)),\n    #(\"name\", json.string(name))\n  ])"
    );
    assert_eq!(backend.encode_object("  ", &[], "    "), "    json.object([])");
    assert_eq!(backend.return_type(), "json.Json");
    assert_eq!(backend.encode_string_literal("circle"), "json.string(\"circle\")");
    assert_eq!(backend.encode_nullable("x", "_"), "json.nullable(x, _)");
}

#[test]
fn registry_replaces_backend_of_target() {
    let registry = BackendRegistry::new();
    assert_eq!(registry.get(EncoderType::Json).map(|b| b.name().to_string()), Some("json".to_string()));
    assert_eq!(registry.values().len(), 1);
    let registry = registry.with_backend(EncoderType::Json, CustomJsonBackend);
    assert_eq!(registry.values().len(), 1);
    let backend = registry.get(EncoderType::Json).expect("backend");
    assert_eq!(backend.name(), "custom-json");
    assert_eq!(backend.encode_string("name"), "cj.string(name)");
}
