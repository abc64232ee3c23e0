//! The registry of the project's types: for each type the names of the
//! functions generated for it, fixed before any code is generated.

use crate::config::{FnNamingConfig, FnNamingConfigView};
use crate::naming::rendered_fn_pattern;
use crate::parser::{identifier_text, CustomTypeInfo, EncoderType};
use crate::text::{
    chars_of, contains, last_segment, last_separator_end, opt_text, same_text, text_contains,
};
use vstd::prelude::*;
use vstd::string::*;

verus! {

/// What is generated for one type, and under which names.
#[derive(Debug, Clone)]
pub struct TypeRegistryEntry {
    /// The path of the module that declares the type.
    pub module: String,
    /// The type's name.
    pub name: String,
    pub generates_decoder: bool,
    pub decoder_fn_name: Option<String>,
    /// For each backend's identifier the name of the encoder function.
    pub encoder_fn_names: Vec<(String, String)>,
}

/// The entries of all types of the project, in the order of their
/// declaration. Of two entries for one module and name the later one counts.
#[derive(Debug, Clone, Default)]
pub struct TypeRegistry {
    pub entries: Vec<TypeRegistryEntry>,
}

/// The views of the entries of a registry.
pub open spec fn entry_views(entries: Seq<TypeRegistryEntry>) -> Seq<TypeRegistryEntryView> {
    Seq::new(entries.len(), |i: int| entries[i]@)
}

impl View for TypeRegistry {
    type V = Seq<TypeRegistryEntryView>;

    open spec fn view(&self) -> Seq<TypeRegistryEntryView> {
        entry_views(self.entries@)
    }
}

/// The name registered under `key` in a list of pairs: that of the last
/// pair with this key.
pub open spec fn name_for(names: Seq<(Seq<char>, Seq<char>)>, key: Seq<char>) -> Option<Seq<char>>
    decreases names.len(),
{
    if names.len() == 0 {
        None
    } else if names.last().0 == key {
        Some(names.last().1)
    } else {
        name_for(names.drop_last(), key)
    }
}

/// The name registered under `key`.
pub fn lookup_name<'a>(names: &'a Vec<(String, String)>, key: &str) -> (r: Option<&'a String>)
    ensures
        match r {
            Some(n) => name_for(name_pairs(names@), key@) == Some(n@),
            None => name_for(name_pairs(names@), key@) is None,
        },
{
    let ghost all = name_pairs(names@);
    let mut j: usize = names.len();
    assert(all.subrange(0, j as int) =~= all);
    while j > 0
        invariant
            j <= names@.len(),
            all == name_pairs(names@),
            name_for(all, key@) == name_for(all.subrange(0, j as int), key@),
        decreases j,
    {
        assert(all.subrange(0, j as int).last() == (names@[j - 1].0@, names@[j - 1].1@));
        if same_text(names[j - 1].0.as_str(), key) {
            return Some(&names[j - 1].1);
        }
        assert(all.subrange(0, j as int).drop_last() =~= all.subrange(0, j - 1));
        j -= 1;
    }
    None
}

/// Whether an entry is the one of `name` in `module`, or, by segment, in a
/// module whose path ends in the segment `module`.
pub open spec fn entry_matches(
    e: TypeRegistryEntryView,
    module: Seq<char>,
    name: Seq<char>,
    by_segment: bool,
) -> bool {
    e.name == name && if by_segment {
        last_segment(e.module, '/') == module
    } else {
        e.module == module
    }
}

/// The index of the last entry that matches.
pub open spec fn last_match(
    entries: Seq<TypeRegistryEntryView>,
    module: Seq<char>,
    name: Seq<char>,
    by_segment: bool,
) -> Option<int>
    decreases entries.len(),
{
    if entries.len() == 0 {
        None
    } else if entry_matches(entries.last(), module, name, by_segment) {
        Some(entries.len() - 1)
    } else {
        last_match(entries.drop_last(), module, name, by_segment)
    }
}

/// The index of the entry that a reference resolves to: with a module
/// hint, the type of that name in the module of that path, else in a module
/// whose path ends in the hint; without a hint, the type of that name in
/// the current module.
pub open spec fn found_entry(
    entries: Seq<TypeRegistryEntryView>,
    module_hint: Option<Seq<char>>,
    name: Seq<char>,
    current_module: Seq<char>,
) -> Option<int> {
    match module_hint {
        Some(hint) => match last_match(entries, hint, name, false) {
            Some(i) => Some(i),
            None => last_match(entries, hint, name, true),
        },
        None => last_match(entries, current_module, name, false),
    }
}

/// Whether the path `module` ends in the segment `segment`.
fn ends_in_segment(module: &str, segment: &str) -> (r: bool)
    ensures
        r == (last_segment(module@, '/') == segment@),
{
    let v = chars_of(module);
    let w = chars_of(segment);
    let j = last_separator_end(&v, '/');
    if v.len() - j != w.len() {
        return false;
    }
    let mut i: usize = 0;
    while i < w.len()
        invariant
            v@ == module@,
            w@ == segment@,
            j + w@.len() == v@.len() <= usize::MAX,
            j == crate::text::segment_start(v@, '/'),
            i <= w@.len(),
            forall|k: int| 0 <= k < i ==> v@[j + k] == w@[k],
        decreases w@.len() - i,
    {
        if v[j + i] != w[i] {
            assert(last_segment(v@, '/')[i as int] != w@[i as int]);
            return false;
        }
        i += 1;
    }
    assert(last_segment(v@, '/') =~= w@);
    true
}

fn find_last(entries: &Vec<TypeRegistryEntry>, module: &str, name: &str, by_segment: bool) -> (r:
    Option<usize>)
    ensures
        match r {
            Some(i) => last_match(entry_views(entries@), module@, name@, by_segment) == Some(
                i as int,
            ) && i < entries@.len(),
            None => last_match(entry_views(entries@), module@, name@, by_segment) is None,
        },
{
    let ghost all = entry_views(entries@);
    let mut j: usize = entries.len();
    assert(all.subrange(0, j as int) =~= all);
    while j > 0
        invariant
            j <= entries@.len(),
            all == entry_views(entries@),
            last_match(all, module@, name@, by_segment) == last_match(
                all.subrange(0, j as int),
                module@,
                name@,
                by_segment,
            ),
        decreases j,
    {
        let e = &entries[j - 1];
        assert(all.subrange(0, j as int).last() == e@);
        let fits = same_text(e.name.as_str(), name) && if by_segment {
            ends_in_segment(e.module.as_str(), module)
        } else {
            same_text(e.module.as_str(), module)
        };
        if fits {
            return Some(j - 1);
        }
        assert(all.subrange(0, j as int).drop_last() =~= all.subrange(0, j - 1));
        j -= 1;
    }
    None
}

/// Resolves a reference to a type of the project.
pub fn find_type_entry<'a>(
    registry: &'a TypeRegistry,
    module_hint: Option<&str>,
    ty_name: &str,
    current_module: &str,
) -> (r: Option<&'a TypeRegistryEntry>)
    ensures
        match found_entry(
            registry@,
            match module_hint {
                Some(h) => Some(h@),
                None => None,
            },
            ty_name@,
            current_module@,
        ) {
            Some(i) => 0 <= i < registry.entries@.len() && r == Some(&registry.entries@[i]),
            None => r is None,
        },
{
    let found = match module_hint {
        Some(hint) => match find_last(&registry.entries, hint, ty_name, false) {
            Some(i) => Some(i),
            None => find_last(&registry.entries, hint, ty_name, true),
        },
        None => find_last(&registry.entries, current_module, ty_name, false),
    };
    match found {
        Some(i) => Some(&registry.entries[i]),
        None => None,
    }
}

/// The identifiers of the backends in `encoders`, each once, in the order
/// of their first occurrence.
pub open spec fn distinct_backends(encoders: Seq<EncoderType>) -> Seq<EncoderType>
    decreases encoders.len(),
{
    if encoders.len() == 0 {
        Seq::empty()
    } else {
        let head = distinct_backends(encoders.drop_last());
        if head.contains(encoders.last()) {
            head
        } else {
            head.push(encoders.last())
        }
    }
}

/// Whether `list` holds `e`.
fn holds_backend(list: &Vec<EncoderType>, e: EncoderType) -> (r: bool)
    ensures
        r == list@.contains(e),
{
    let mut k: usize = 0;
    while k < list.len()
        invariant
            k <= list@.len(),
            forall|w: int| 0 <= w < k ==> list@[w] != e,
        decreases list@.len() - k,
    {
        if list[k] == e {
            return true;
        }
        k += 1;
    }
    false
}

/// The backends of `encoders`, each once, in the order of their first
/// occurrence.
pub fn unique_backends(encoders: &Vec<EncoderType>) -> (r: Vec<EncoderType>)
    ensures
        r@ == distinct_backends(encoders@),
{
    let mut out: Vec<EncoderType> = Vec::new();
    let mut i: usize = 0;
    assert(encoders@.subrange(0, 0) =~= Seq::<EncoderType>::empty());
    while i < encoders.len()
        invariant
            i <= encoders@.len(),
            out@ == distinct_backends(encoders@.subrange(0, i as int)),
        decreases encoders@.len() - i,
    {
        assert(encoders@.subrange(0, i + 1).drop_last() =~= encoders@.subrange(0, i as int));
        let e = encoders[i];
        let known = holds_backend(&out, e);
        if !known {
            out.push(e);
        }
        i += 1;
    }
    assert(encoders@.subrange(0, i as int) =~= encoders@);
    out
}

/// The name of the encoder function of a type for one backend: the
/// pattern with its placeholders filled in, and behind it `_` and the
/// backend's identifier where the type asks for more than one backend and
/// the pattern holds no backend placeholder.
pub open spec fn encoder_fn_name_text(
    pattern: Seq<char>,
    ty_name: Seq<char>,
    backend: Seq<char>,
    backends: nat,
) -> Seq<char> {
    let rendered = rendered_fn_pattern(pattern, ty_name, Some(backend));
    if backends > 1 && !text_contains(pattern, "{backend"@) {
        rendered + "_"@ + backend
    } else {
        rendered
    }
}

/// The name of the encoder function of a type for one backend, where the
/// type asks for `backends` different backends.
pub fn encoder_fn_name(naming: &FnNamingConfig, ty_name: &str, backend: &str, backends: usize) -> (r:
    String)
    ensures
        r@ == encoder_fn_name_text(
            naming@.encoder_function_naming,
            ty_name@,
            backend@,
            backends as nat,
        ),
{
    let mut name = naming.render_encoder_fn_name(ty_name, backend);
    if backends > 1 && !contains(naming.encoder_function_naming.as_str(), "{backend") {
        name.append("_");
        name.append(backend);
    }
    name
}

/// The views of the pairs of backend identifier and function name.
pub open spec fn name_pairs(names: Seq<(String, String)>) -> Seq<(Seq<char>, Seq<char>)> {
    Seq::new(names.len(), |i: int| (names[i].0@, names[i].1@))
}

/// For each of the backends its identifier and the encoder function's name.
pub open spec fn encoder_names(
    pattern: Seq<char>,
    ty_name: Seq<char>,
    backends: Seq<EncoderType>,
) -> Seq<(Seq<char>, Seq<char>)> {
    Seq::new(
        backends.len(),
        |i: int|
            (
                identifier_text(backends[i]),
                encoder_fn_name_text(
                    pattern,
                    ty_name,
                    identifier_text(backends[i]),
                    backends.len(),
                ),
            ),
    )
}

/// The mathematical value of a [`TypeRegistryEntry`].
pub struct TypeRegistryEntryView {
    pub module: Seq<char>,
    pub name: Seq<char>,
    pub generates_decoder: bool,
    pub decoder_fn_name: Option<Seq<char>>,
    pub encoder_fn_names: Seq<(Seq<char>, Seq<char>)>,
}

impl View for TypeRegistryEntry {
    type V = TypeRegistryEntryView;

    open spec fn view(&self) -> TypeRegistryEntryView {
        TypeRegistryEntryView {
            module: self.module@,
            name: self.name@,
            generates_decoder: self.generates_decoder,
            decoder_fn_name: opt_text(self.decoder_fn_name),
            encoder_fn_names: name_pairs(self.encoder_fn_names@),
        }
    }
}

/// The entry of a type under the given naming patterns: the decoder's name
/// where the type asks for a decoder, and an encoder's name for each
/// backend it asks for.
pub open spec fn entry_for(info: CustomTypeInfo, naming: FnNamingConfigView) -> TypeRegistryEntryView {
    TypeRegistryEntryView {
        module: info.module@,
        name: info.name@,
        generates_decoder: info.generate_decoder,
        decoder_fn_name: if info.generate_decoder {
            Some(rendered_fn_pattern(naming.decoder_function_naming, info.name@, None))
        } else {
            None
        },
        encoder_fn_names: encoder_names(
            naming.encoder_function_naming,
            info.name@,
            distinct_backends(info.encoders@),
        ),
    }
}

/// The registry entry of a type under the naming patterns in force for it.
pub fn registry_entry(info: &CustomTypeInfo, naming: &FnNamingConfig) -> (r: TypeRegistryEntry)
    ensures
        r@ == entry_for(*info, naming@),
{
    let decoder_fn_name = if info.generate_decoder {
        Some(naming.render_decoder_fn_name(info.name.as_str()))
    } else {
        None
    };
    let backends = unique_backends(&info.encoders);
    let mut names: Vec<(String, String)> = Vec::new();
    let mut i: usize = 0;
    let ghost wanted = encoder_names(naming@.encoder_function_naming, info.name@, backends@);
    assert(name_pairs(names@) =~= wanted.subrange(0, 0));
    while i < backends.len()
        invariant
            i <= backends@.len(),
            backends@ == distinct_backends(info.encoders@),
            wanted == encoder_names(naming@.encoder_function_naming, info.name@, backends@),
            name_pairs(names@) == wanted.subrange(0, i as int),
        decreases backends@.len() - i,
    {
        let id = backends[i].identifier();
        let fn_name = encoder_fn_name(naming, info.name.as_str(), id, backends.len());
        let ghost before = name_pairs(names@);
        let pair = (String::from_str(id), fn_name);
        assert((pair.0@, pair.1@) == wanted[i as int]);
        names.push(pair);
        assert(name_pairs(names@) =~= before.push(wanted[i as int]));
        assert(before.push(wanted[i as int]) =~= wanted.subrange(0, i + 1));
        i += 1;
    }
    assert(wanted.subrange(0, i as int) =~= wanted);
    TypeRegistryEntry {
        module: info.module.clone(),
        name: info.name.clone(),
        generates_decoder: info.generate_decoder,
        decoder_fn_name,
        encoder_fn_names: names,
    }
}

/// Where a type asks for two or more different backends and the pattern
/// holds no backend placeholder, every encoder name ends in `_` and the
/// backend's identifier.
pub proof fn lemma_backend_suffix(
    pattern: Seq<char>,
    ty_name: Seq<char>,
    backends: Seq<EncoderType>,
    i: int,
)
    requires
        backends.len() >= 2,
        !text_contains(pattern, "{backend"@),
        0 <= i < backends.len(),
    ensures
        encoder_names(pattern, ty_name, backends)[i].1 == rendered_fn_pattern(
            pattern,
            ty_name,
            Some(identifier_text(backends[i])),
        ) + "_"@ + identifier_text(backends[i]),
{
}

} // verus!
