use gloss_core::imports::module_alias;
use gloss_core::naming::{
    apply_file_pattern, render_fn_pattern, to_camel_case, to_pascal_case, to_pascal_case_name,
    to_snake_case, to_snake_case_name,
};
use gloss_core::ordered::{holds_text, insert_text, sort_distinct, text_less};
use gloss_core::text::{
    chars_of, concat2, concat3, contains, indent_of, join, last_segment_of, opt_is_text, replace,
    same_text, starts_with, string_of, strip_prefix, trim, trim_end, trim_start_matches,
};

fn strings(items: &[&str]) -> Vec<String> {
    items.iter().map(|s| s.to_string()).collect()
}

#[test]
fn characters_round_trip() {
    let v = chars_of("aé\u{1F600}z");
    assert_eq!(v, vec!['a', 'é', '\u{1F600}', 'z']);
    assert_eq!(string_of(&v), "aé\u{1F600}z");
    assert_eq!(chars_of(""), Vec::<char>::new());
}

#[test]
fn replace_takes_matches_from_the_left() {
    assert_eq!(replace("a{type}b{type}", "{type}", "X"), "aXbX");
    assert_eq!(replace("aaa", "aa", "b"), "ba");
    assert_eq!(replace("abc", "abcd", "x"), "abc");
    assert_eq!(replace("abab", "ab", "abab"), "abababab");
    assert_eq!(replace("", "a", "b"), "");
}

#[test]
fn replace_with_empty_pattern_puts_text_around_each_character() {
    assert_eq!(replace("abc", "", "-"), "-a-b-c-");
    assert_eq!(replace("", "", "x"), "x");
    assert_eq!(replace("abc", "", "-"), "abc".replace("", "-"));
}

#[test]
fn replace_agrees_with_the_standard_library() {
    let cases = [
        ("{type}_{type_snake}", "{type}", "User"),
        ("path/to/module", "/", "."),
        ("xxxx", "xx", "y"),
        ("a\\b\"c\n", "\\", "\\\\"),
        ("ééé", "é", "e"),
    ];
    for (s, pat, to) in cases {
        assert_eq!(replace(s, pat, to), s.replace(pat, to));
    }
}

#[test]
fn trim_takes_unicode_whitespace_off() {
    assert_eq!(trim("  a b \n"), "a b");
    assert_eq!(trim("\u{a0}x\u{2003}"), "x");
    assert_eq!(trim(" \t\r\n"), "");
    assert_eq!(trim(""), "");
    assert_eq!(trim_end("a \n\n"), "a");
    assert_eq!(trim_end("  a"), "  a");
}

#[test]
fn contains_and_starts_with_look_for_the_pattern() {
    assert!(contains("hello", "ll"));
    assert!(contains("hello", ""));
    assert!(contains("", ""));
    assert!(!contains("", "a"));
    assert!(!contains("hello", "lo!"));
    assert!(contains("encoder(json), decoder", "decoder"));
    assert!(starts_with("// x", "//"));
    assert!(!starts_with("/", "//"));
    assert!(starts_with("abc", ""));
}

#[test]
fn prefixes_are_taken_off() {
    assert_eq!(trim_start_matches("@/@/x", "@/"), "x");
    assert_eq!(trim_start_matches("////x", "//"), "x");
    assert_eq!(trim_start_matches("///x", "//"), "/x");
    assert_eq!(trim_start_matches("abc", ""), "abc");
    assert_eq!(strip_prefix("./x", "./"), Some("x".to_string()));
    assert_eq!(strip_prefix("././x", "./"), Some("./x".to_string()));
    assert_eq!(strip_prefix("x", "./"), None);
}

#[test]
fn last_segment_follows_the_last_separator() {
    assert_eq!(last_segment_of("a/b/c", '/'), "c");
    assert_eq!(last_segment_of("abc", '/'), "abc");
    assert_eq!(last_segment_of("a/", '/'), "");
    assert_eq!(last_segment_of("", '/'), "");
    assert_eq!(last_segment_of("gleam/option", '/'), "option");
}

#[test]
fn join_puts_the_separator_between_parts() {
    assert_eq!(join(&strings(&["a", "b", "c"]), ", "), "a, b, c");
    assert_eq!(join(&strings(&["a"]), ", "), "a");
    assert_eq!(join(&strings(&[]), ", "), "");
    assert_eq!(join(&strings(&["", ""]), "-"), "-");
}

#[test]
fn small_text_helpers() {
    assert_eq!(indent_of(0), "");
    assert_eq!(indent_of(3), "   ");
    assert_eq!(concat2("a", "b"), "ab");
    assert_eq!(concat3("a", "", "c"), "ac");
    assert!(same_text("é", "é"));
    assert!(!same_text("a", "ab"));
    assert!(!same_text("ab", "ac"));
    assert!(opt_is_text(&Some("x".to_string()), "x"));
    assert!(!opt_is_text(&None, "x"));
    assert!(!opt_is_text(&Some("y".to_string()), "x"));
}

#[test]
fn snake_case_puts_an_underscore_before_each_uppercase_character() {
    assert_eq!(to_snake_case("UserProfile"), "user_profile");
    assert_eq!(to_snake_case("HTTPServer"), "h_t_t_p_server");
    assert_eq!(to_snake_case("already_snake"), "already_snake");
    assert_eq!(to_snake_case("camelCase"), "camel_case");
    assert_eq!(to_snake_case(""), "");
    assert_eq!(to_snake_case_name("UserProfile"), "user_profile");
    assert_eq!(to_snake_case_name("json"), "json");
}

#[test]
fn snake_case_variants_differ_on_long_lowercase_mappings() {
    // The lowercase mapping of U+0130 has two characters.
    assert_eq!(to_snake_case("\u{130}x"), "ix");
    assert_eq!(to_snake_case_name("\u{130}x"), "i\u{307}x");
    assert_eq!(to_snake_case("a\u{130}"), "a_i");
}

#[test]
fn pascal_case_raises_word_starts_and_drops_underscores() {
    assert_eq!(to_pascal_case("user_profile"), "UserProfile");
    assert_eq!(to_pascal_case("__a_b"), "AB");
    assert_eq!(to_pascal_case("UserProfile"), "UserProfile");
    assert_eq!(to_pascal_case("a_"), "A");
    assert_eq!(to_pascal_case(""), "");
    assert_eq!(to_pascal_case_name("user_profile"), "UserProfile");
    // The uppercase mapping of U+00DF has two characters.
    assert_eq!(to_pascal_case("\u{df}x"), "Sx");
    assert_eq!(to_pascal_case_name("\u{df}x"), "SSx");
}

#[test]
fn camel_case_lowers_the_first_character_and_raises_after_underscores() {
    assert_eq!(to_camel_case("user_name"), "userName");
    assert_eq!(to_camel_case("UserName"), "userName");
    assert_eq!(to_camel_case("_private"), "Private");
    assert_eq!(to_camel_case("a__b"), "aB");
    assert_eq!(to_camel_case("a_"), "a");
    assert_eq!(to_camel_case("id"), "id");
    assert_eq!(to_camel_case(""), "");
}

#[test]
fn default_encoder_pattern_renders_snake_type_and_backend() {
    assert_eq!(
        render_fn_pattern("{type_snake}_to_{backend}", "UserProfile", Some("json")),
        "user_profile_to_json"
    );
}

#[test]
fn function_patterns_fill_every_placeholder() {
    assert_eq!(render_fn_pattern("{type_snake}_decoder", "UserProfile", None), "user_profile_decoder");
    assert_eq!(render_fn_pattern("{type}_x{backend}", "UserProfile", None), "UserProfile_x");
    assert_eq!(render_fn_pattern("encode_{type_pascal}", "user_profile", None), "encode_UserProfile");
    assert_eq!(render_fn_pattern("{backend_pascal}{type}", "T", Some("json")), "JsonT");
    assert_eq!(render_fn_pattern("{backend_snake}", "T", Some("JSON")), "j_s_o_n");
    assert_eq!(render_fn_pattern("{backend_snake}{backend_pascal}", "T", None), "");
    assert_eq!(render_fn_pattern("plain", "T", Some("json")), "plain");
    assert_eq!(render_fn_pattern("{type}{type}", "Ab", None), "AbAb");
}

#[test]
fn file_patterns_fill_the_module_name() {
    assert_eq!(apply_file_pattern("{module}_gloss.gleam", "user"), "user_gloss.gleam");
    assert_eq!(apply_file_pattern("{module_pascal}.gleam", "my_mod"), "MyMod.gleam");
    assert_eq!(apply_file_pattern("{module_snake}.gleam", "MyMod"), "my_mod.gleam");
    assert_eq!(apply_file_pattern("encode_{module}.gleam", "account"), "encode_account.gleam");
    assert_eq!(apply_file_pattern("fixed.gleam", "account"), "fixed.gleam");
}

#[test]
fn text_order_is_that_of_the_standard_library() {
    let samples = ["", "a", "ab", "b", "Z", "z", "é", "import a", "import b", "aé", "a\u{1F600}"];
    for a in samples {
        for b in samples {
            assert_eq!(text_less(a, b), a < b, "{a:?} < {b:?}");
        }
    }
}

#[test]
fn sort_distinct_orders_and_removes_repetitions() {
    assert_eq!(sort_distinct(&strings(&["b", "a", "b", "c", "a"])), strings(&["a", "b", "c"]));
    assert_eq!(sort_distinct(&strings(&[])), strings(&[]));
    let lists: [&[&str]; 4] = [
        &["import gleam/json", "import gleam/dynamic/decode", "import gleam/json"],
        &["z", "y", "x"],
        &["same", "same", "same"],
        &["é", "e", "f", "E"],
    ];
    for list in lists {
        let mut expected = strings(list);
        expected.sort();
        expected.dedup();
        assert_eq!(sort_distinct(&strings(list)), expected);
    }
}

#[test]
fn insert_text_keeps_the_list_in_order() {
    let mut list = strings(&["b", "d"]);
    insert_text(&mut list, "c".to_string());
    insert_text(&mut list, "a".to_string());
    insert_text(&mut list, "e".to_string());
    insert_text(&mut list, "c".to_string());
    assert_eq!(list, strings(&["a", "b", "c", "d", "e"]));
    assert!(holds_text(&list, "d"));
    assert!(!holds_text(&list, "f"));
}

#[test]
fn module_alias_replaces_what_is_neither_letter_nor_digit() {
    assert_eq!(module_alias("profile/codec"), "profile_codec");
    assert_eq!(module_alias("gleam/option"), "gleam_option");
    assert_eq!(module_alias("option"), "option");
    assert_eq!(module_alias("a-b.c2"), "a_b_c2");
    assert_eq!(module_alias("é/x"), "é_x");
    assert_eq!(module_alias(""), "module");
}
