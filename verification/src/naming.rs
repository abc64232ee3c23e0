//! Conversions between naming styles, and the rendering of naming patterns.

use crate::text::{
    char_is_uppercase, char_lowercase, char_uppercase, chars_of, is_uppercase, lowercase_of,
    replace, replaced, uppercase_of,
};
use vstd::prelude::*;
use vstd::string::*;

verus! {

/// Snake case with one lowercase character for each uppercase one: every
/// uppercase character becomes the first character of its lowercase mapping,
/// with `_` before it unless it stands first.
pub open spec fn snake_case(s: Seq<char>) -> Seq<char>
    decreases s.len(),
{
    if s.len() == 0 {
        Seq::empty()
    } else {
        let head = snake_case(s.drop_last());
        let c = s.last();
        if char_is_uppercase(c) {
            if s.len() > 1 {
                head.push('_').push(char_lowercase(c)[0])
            } else {
                head.push(char_lowercase(c)[0])
            }
        } else {
            head.push(c)
        }
    }
}

/// Snake case with the whole lowercase mapping of each uppercase character.
pub open spec fn snake_case_full(s: Seq<char>) -> Seq<char>
    decreases s.len(),
{
    if s.len() == 0 {
        Seq::empty()
    } else {
        let head = snake_case_full(s.drop_last());
        let c = s.last();
        if char_is_uppercase(c) {
            if s.len() > 1 {
                head.push('_') + char_lowercase(c)
            } else {
                head + char_lowercase(c)
            }
        } else {
            head.push(c)
        }
    }
}

/// Whether the character at the end of `s` starts a word: it stands first
/// or behind an underscore.
pub open spec fn starts_word(s: Seq<char>) -> bool {
    s.len() == 1 || (s.len() > 1 && s[s.len() - 2] == '_')
}

/// Pascal case with one uppercase character for each word start:
/// underscores are dropped, and the character that starts a word becomes
/// the first character of its uppercase mapping.
pub open spec fn pascal_case(s: Seq<char>) -> Seq<char>
    decreases s.len(),
{
    if s.len() == 0 {
        Seq::empty()
    } else {
        let head = pascal_case(s.drop_last());
        let c = s.last();
        if c == '_' {
            head
        } else if starts_word(s) {
            head.push(char_uppercase(c)[0])
        } else {
            head.push(c)
        }
    }
}

/// Pascal case with the whole uppercase mapping of each word start.
pub open spec fn pascal_case_full(s: Seq<char>) -> Seq<char>
    decreases s.len(),
{
    if s.len() == 0 {
        Seq::empty()
    } else {
        let head = pascal_case_full(s.drop_last());
        let c = s.last();
        if c == '_' {
            head
        } else if starts_word(s) {
            head + char_uppercase(c)
        } else {
            head.push(c)
        }
    }
}

/// Camel case: underscores are dropped, the first character is lowered
/// unless it is an underscore, and each character behind an underscore is
/// raised.
pub open spec fn camel_case(s: Seq<char>) -> Seq<char>
    decreases s.len(),
{
    if s.len() == 0 {
        Seq::empty()
    } else {
        let head = camel_case(s.drop_last());
        let c = s.last();
        if c == '_' {
            head
        } else if s.len() == 1 {
            head.push(char_lowercase(c)[0])
        } else if s[s.len() - 2] == '_' {
            head.push(char_uppercase(c)[0])
        } else {
            head.push(c)
        }
    }
}

/// Appends the characters of `v` to `out`.
fn push_all(out: &mut String, v: &Vec<char>)
    ensures
        final(out)@ == old(out)@ + v@,
{
    let mut i: usize = 0;
    assert(out@ =~= old(out)@ + v@.subrange(0, 0));
    while i < v.len()
        invariant
            i <= v@.len(),
            out@ == old(out)@ + v@.subrange(0, i as int),
        decreases v@.len() - i,
    {
        out.push(v[i]);
        assert(old(out)@ + v@.subrange(0, i + 1) =~= (old(out)@ + v@.subrange(0, i as int)).push(
            v@[i as int],
        ));
        i += 1;
    }
    assert(v@.subrange(0, i as int) =~= v@);
}

/// Converts a name to snake case, one character for each uppercase one.
pub fn to_snake_case(s: &str) -> (r: String)
    ensures
        r@ == snake_case(s@),
{
    let v = chars_of(s);
    let mut out = String::new();
    let mut i: usize = 0;
    assert(v@.subrange(0, 0) =~= Seq::<char>::empty());
    while i < v.len()
        invariant
            i <= v@.len(),
            out@ == snake_case(v@.subrange(0, i as int)),
        decreases v@.len() - i,
    {
        assert(v@.subrange(0, i + 1).drop_last() =~= v@.subrange(0, i as int));
        let c = v[i];
        if is_uppercase(c) {
            if i > 0 {
                out.push('_');
            }
            let lower = lowercase_of(c);
            out.push(lower[0]);
        } else {
            out.push(c);
        }
        i += 1;
    }
    assert(v@.subrange(0, i as int) =~= v@);
    out
}

/// Converts a name to snake case, with the whole lowercase mapping of each
/// uppercase character.
pub fn to_snake_case_name(s: &str) -> (r: String)
    ensures
        r@ == snake_case_full(s@),
{
    let v = chars_of(s);
    let mut out = String::new();
    let mut i: usize = 0;
    assert(v@.subrange(0, 0) =~= Seq::<char>::empty());
    while i < v.len()
        invariant
            i <= v@.len(),
            out@ == snake_case_full(v@.subrange(0, i as int)),
        decreases v@.len() - i,
    {
        assert(v@.subrange(0, i + 1).drop_last() =~= v@.subrange(0, i as int));
        let c = v[i];
        if is_uppercase(c) {
            if i > 0 {
                out.push('_');
            }
            let lower = lowercase_of(c);
            push_all(&mut out, &lower);
        } else {
            out.push(c);
        }
        i += 1;
    }
    assert(v@.subrange(0, i as int) =~= v@);
    out
}

/// Converts a name to Pascal case, one character for each word start.
pub fn to_pascal_case(s: &str) -> (r: String)
    ensures
        r@ == pascal_case(s@),
{
    let v = chars_of(s);
    let mut out = String::new();
    let mut i: usize = 0;
    assert(v@.subrange(0, 0) =~= Seq::<char>::empty());
    while i < v.len()
        invariant
            i <= v@.len(),
            out@ == pascal_case(v@.subrange(0, i as int)),
        decreases v@.len() - i,
    {
        assert(v@.subrange(0, i + 1).drop_last() =~= v@.subrange(0, i as int));
        let c = v[i];
        if c == '_' {
        } else if i == 0 || v[i - 1] == '_' {
            let upper = uppercase_of(c);
            out.push(upper[0]);
        } else {
            out.push(c);
        }
        i += 1;
    }
    assert(v@.subrange(0, i as int) =~= v@);
    out
}

/// Converts a name to Pascal case, with the whole uppercase mapping of each
/// word start.
pub fn to_pascal_case_name(s: &str) -> (r: String)
    ensures
        r@ == pascal_case_full(s@),
{
    let v = chars_of(s);
    let mut out = String::new();
    let mut i: usize = 0;
    assert(v@.subrange(0, 0) =~= Seq::<char>::empty());
    while i < v.len()
        invariant
            i <= v@.len(),
            out@ == pascal_case_full(v@.subrange(0, i as int)),
        decreases v@.len() - i,
    {
        assert(v@.subrange(0, i + 1).drop_last() =~= v@.subrange(0, i as int));
        let c = v[i];
        if c == '_' {
        } else if i == 0 || v[i - 1] == '_' {
            let upper = uppercase_of(c);
            push_all(&mut out, &upper);
        } else {
            out.push(c);
        }
        i += 1;
    }
    assert(v@.subrange(0, i as int) =~= v@);
    out
}

/// Converts a field label to camel case.
pub fn to_camel_case(s: &str) -> (r: String)
    ensures
        r@ == camel_case(s@),
{
    let v = chars_of(s);
    let mut out = String::new();
    let mut i: usize = 0;
    assert(v@.subrange(0, 0) =~= Seq::<char>::empty());
    while i < v.len()
        invariant
            i <= v@.len(),
            out@ == camel_case(v@.subrange(0, i as int)),
        decreases v@.len() - i,
    {
        assert(v@.subrange(0, i + 1).drop_last() =~= v@.subrange(0, i as int));
        let c = v[i];
        if c == '_' {
        } else if i == 0 {
            let lower = lowercase_of(c);
            out.push(lower[0]);
        } else if v[i - 1] == '_' {
            let upper = uppercase_of(c);
            out.push(upper[0]);
        } else {
            out.push(c);
        }
        i += 1;
    }
    assert(v@.subrange(0, i as int) =~= v@);
    out
}

/// A function-naming pattern with its placeholders filled in: `{type}`,
/// `{type_snake}` and `{type_pascal}` by the type's name in the three
/// styles, then `{backend}`, `{backend_snake}` and `{backend_pascal}` by the
/// backend's identifier, or by nothing where no backend is given.
pub open spec fn rendered_fn_pattern(
    pattern: Seq<char>,
    ty_name: Seq<char>,
    backend: Option<Seq<char>>,
) -> Seq<char> {
    let with_type = replaced(
        replaced(
            replaced(pattern, "{type}"@, ty_name),
            "{type_snake}"@,
            snake_case_full(ty_name),
        ),
        "{type_pascal}"@,
        pascal_case_full(ty_name),
    );
    match backend {
        Some(id) => replaced(
            replaced(replaced(with_type, "{backend}"@, id), "{backend_snake}"@, snake_case_full(id)),
            "{backend_pascal}"@,
            pascal_case_full(id),
        ),
        None => replaced(
            replaced(replaced(with_type, "{backend}"@, Seq::empty()), "{backend_snake}"@, Seq::empty()),
            "{backend_pascal}"@,
            Seq::empty(),
        ),
    }
}

/// Fills the placeholders of a function-naming pattern.
pub fn render_fn_pattern(pattern: &str, ty_name: &str, backend_identifier: Option<&str>) -> (r:
    String)
    ensures
        r@ == rendered_fn_pattern(
            pattern@,
            ty_name@,
            match backend_identifier {
                Some(id) => Some(id@),
                None => None,
            },
        ),
{
    let a = replace(pattern, "{type}", ty_name);
    let b = replace(a.as_str(), "{type_snake}", to_snake_case_name(ty_name).as_str());
    let c = replace(b.as_str(), "{type_pascal}", to_pascal_case_name(ty_name).as_str());
    match backend_identifier {
        Some(id) => {
            let d = replace(c.as_str(), "{backend}", id);
            let e = replace(d.as_str(), "{backend_snake}", to_snake_case_name(id).as_str());
            replace(e.as_str(), "{backend_pascal}", to_pascal_case_name(id).as_str())
        },
        None => {
            let empty = String::new();
            let d = replace(c.as_str(), "{backend}", empty.as_str());
            let e = replace(d.as_str(), "{backend_snake}", empty.as_str());
            replace(e.as_str(), "{backend_pascal}", empty.as_str())
        },
    }
}

/// A file-naming pattern with `{module}`, `{module_snake}` and
/// `{module_pascal}` filled in.
pub open spec fn applied_file_pattern(pattern: Seq<char>, module_name: Seq<char>) -> Seq<char> {
    replaced(
        replaced(
            replaced(pattern, "{module}"@, module_name),
            "{module_snake}"@,
            snake_case(module_name),
        ),
        "{module_pascal}"@,
        pascal_case(module_name),
    )
}

/// Fills the placeholders of a file-naming pattern with the module's name.
pub fn apply_file_pattern(pattern: &str, module_name: &str) -> (r: String)
    ensures
        r@ == applied_file_pattern(pattern@, module_name@),
{
    let a = replace(pattern, "{module}", module_name);
    let b = replace(a.as_str(), "{module_snake}", to_snake_case(module_name).as_str());
    replace(b.as_str(), "{module_pascal}", to_pascal_case(module_name).as_str())
}

} // verus!
