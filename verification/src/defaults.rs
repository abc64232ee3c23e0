//! Placeholder values: for the failure branch of a decoder, a value of the
//! decoded type is written down from the first constructor of each type on
//! the way, and a type that is met again on that way ends in a `panic`.

use crate::generator::{escape_gleam_string, escaped, GenState};
use crate::imports::{ensure_import, import_alias, with_import, ImportMap};
use crate::parser::{ConstructorInfo, CustomTypeInfo, FieldInfo, TypeExpression};
use crate::text::{
    join, joined, opt_is_text, opt_text, replace, replaced, same_text, starts_with,
    text_starts_with, texts,
};
use vstd::prelude::*;
use vstd::string::*;

verus! {

/// All types of the project for which code is generated, in the order of
/// their declaration. Of two types of one module and name the later counts.
pub struct TypeLookup<'a> {
    pub types: Vec<&'a CustomTypeInfo>,
}

impl<'a> View for TypeLookup<'a> {
    type V = Seq<CustomTypeInfo>;

    open spec fn view(&self) -> Seq<CustomTypeInfo> {
        Seq::new(self.types@.len(), |i: int| *self.types@[i])
    }
}

/// The index of the last type of that name in that module.
pub open spec fn lookup_index(types: Seq<CustomTypeInfo>, module: Seq<char>, name: Seq<char>) -> Option<
    int,
>
    decreases types.len(),
{
    if types.len() == 0 {
        None
    } else if types.last().module@ == module && types.last().name@ == name {
        Some(types.len() - 1)
    } else {
        lookup_index(types.drop_last(), module, name)
    }
}

impl<'a> TypeLookup<'a> {
    /// The index of the type of that name in that module.
    pub fn find(&self, module: &str, name: &str) -> (r: Option<usize>)
        ensures
            match r {
                Some(i) => lookup_index(self@, module@, name@) == Some(i as int) && i
                    < self.types@.len(),
                None => lookup_index(self@, module@, name@) is None,
            },
    {
        let mut j: usize = self.types.len();
        assert(self@.subrange(0, j as int) =~= self@);
        while j > 0
            invariant
                j <= self.types@.len(),
                lookup_index(self@, module@, name@) == lookup_index(
                    self@.subrange(0, j as int),
                    module@,
                    name@,
                ),
            decreases j,
        {
            let t = self.types[j - 1];
            assert(self@.subrange(0, j as int).last() == *t);
            if same_text(t.module.as_str(), module) && same_text(t.name.as_str(), name) {
                return Some(j - 1);
            }
            assert(self@.subrange(0, j as int).drop_last() =~= self@.subrange(0, j - 1));
            j -= 1;
        }
        None
    }
}

/// The expression that fails at run time for want of a value.
pub open spec fn panic_default(subject: Seq<char>) -> Seq<char> {
    "panic(\""@ + escaped("No default value for "@ + subject) + "\")"@
}

/// The expression that fails at run time for want of a value.
pub fn panic_default_message(subject: &str) -> (r: String)
    ensures
        r@ == panic_default(subject@),
{
    let mut m = String::from_str("No default value for ");
    m.append(subject);
    let mut out = String::from_str("panic(\"");
    out.append(escape_gleam_string(m.as_str()).as_str());
    out.append("\")");
    out
}

/// A value as the argument of a constructor: with the field's label
/// before it, unless the field has none.
pub open spec fn labelled_argument(field: FieldInfo, value: Seq<char>) -> Seq<char> {
    if text_starts_with(field.label@, "_unlabeled"@) {
        value
    } else {
        field.label@ + ": "@ + value
    }
}

/// A value as the argument of a constructor.
pub fn constructor_argument(field: &FieldInfo, value: String) -> (r: String)
    ensures
        r@ == labelled_argument(*field, value@),
{
    if starts_with(field.label.as_str(), "_unlabeled") {
        value
    } else {
        let mut out = field.label.clone();
        out.append(": ");
        out.append(value.as_str());
        out
    }
}

/// The name under which a type appears in a `panic`: bare in the module
/// that the value is written for, else behind its module's path with dots.
pub open spec fn display_name(module: Seq<char>, name: Seq<char>, context_module: Seq<char>) -> Seq<
    char,
> {
    if module == context_module {
        name
    } else {
        replaced(module, "/"@, "."@) + "."@ + name
    }
}

/// The value of a type of the project, written from its first constructor;
/// nothing where the type is unknown, has no constructor, or is already
/// on the way from the type the value is wanted for.
pub open spec fn default_for_custom(
    types: Seq<CustomTypeInfo>,
    module: Seq<char>,
    name: Seq<char>,
    context_module: Seq<char>,
    st: GenState,
    visited: Seq<int>,
) -> (Option<Seq<char>>, GenState)
    decreases types.len() - visited.len(), 0nat, TypeExpression::Hole, 0nat,
{
    if visited.len() >= types.len() {
        (None, st)
    } else {
        match lookup_index(types, module, name) {
            None => (None, st),
            Some(i) => if visited.contains(i) || !(0 <= i < types.len())
                || types[i].constructors@.len() == 0 {
                (None, st)
            } else {
                let (text, after) = default_constructor(
                    types,
                    types[i].constructors@[0],
                    module,
                    context_module,
                    st,
                    visited.push(i),
                );
                (Some(text), after)
            },
        }
    }
}

/// A constructor applied to the values of its fields. A constructor of
/// another module than the one the value is written for is qualified by
/// that module's alias, and the module is imported.
pub open spec fn default_constructor(
    types: Seq<CustomTypeInfo>,
    constructor: ConstructorInfo,
    constructor_module: Seq<char>,
    context_module: Seq<char>,
    st: GenState,
    visited: Seq<int>,
) -> (Seq<char>, GenState)
    decreases types.len() - visited.len(), 3nat, TypeExpression::Hole, 0nat,
{
    let (prefix, st1) = if constructor_module == context_module {
        (constructor.name@, st)
    } else {
        (
            import_alias(st.imports, constructor_module) + "."@ + constructor.name@,
            GenState {
                imports: with_import(st.imports, constructor_module),
                uses_option: st.uses_option,
            },
        )
    };
    if constructor.fields@.len() == 0 {
        (prefix, st1)
    } else {
        let (values, st2) = default_fields(
            types,
            constructor.fields@,
            constructor_module,
            context_module,
            st1,
            visited,
        );
        (prefix + "("@ + joined(values, ", "@) + ")"@, st2)
    }
}

/// The arguments for the fields of a constructor, in order.
pub open spec fn default_fields(
    types: Seq<CustomTypeInfo>,
    fields: Seq<FieldInfo>,
    constructor_module: Seq<char>,
    context_module: Seq<char>,
    st: GenState,
    visited: Seq<int>,
) -> (Seq<Seq<char>>, GenState)
    decreases types.len() - visited.len(), 2nat, TypeExpression::Hole, fields.len(),
{
    if fields.len() == 0 {
        (Seq::empty(), st)
    } else {
        let (value, st1) = default_for_expr(
            types,
            fields[0].type_expr,
            constructor_module,
            context_module,
            st,
            visited,
        );
        let (rest, st2) = default_fields(
            types,
            fields.drop_first(),
            constructor_module,
            context_module,
            st1,
            visited,
        );
        (seq![labelled_argument(fields[0], value)] + rest, st2)
    }
}

/// The value of a type expression: the zero value of a primitive, the
/// empty list, the absent option, the value of a type of the project or a
/// `panic` where it has none, a tuple of its elements' values, and a
/// `panic` for a function, a type variable and a hole.
pub open spec fn default_for_expr(
    types: Seq<CustomTypeInfo>,
    t: TypeExpression,
    current_module: Seq<char>,
    context_module: Seq<char>,
    st: GenState,
    visited: Seq<int>,
) -> (Seq<char>, GenState)
    decreases types.len() - visited.len(), 1nat, t, 0nat,
{
    match t {
        TypeExpression::Constructor { module, name, arguments } => {
            if name@ == "String"@ {
                ("\"\""@, st)
            } else if name@ == "Int"@ {
                ("0"@, st)
            } else if name@ == "Float"@ {
                ("0.0"@, st)
            } else if name@ == "Bool"@ {
                ("False"@, st)
            } else if name@ == "List"@ && arguments@.len() == 1 {
                ("[]"@, st)
            } else if name@ == "Option"@ && arguments@.len() == 1 && opt_text(module) == Some(
                "gleam/option"@,
            ) {
                ("option.None"@, GenState { imports: st.imports, uses_option: true })
            } else {
                let target = match module {
                    Some(m) => m@,
                    None => current_module,
                };
                let (found, after) = default_for_custom(
                    types,
                    target,
                    name@,
                    context_module,
                    st,
                    visited,
                );
                (
                    match found {
                        Some(text) => text,
                        None => panic_default(display_name(target, name@, context_module)),
                    },
                    after,
                )
            }
        },
        TypeExpression::Tuple(elements) => {
            let (values, after) = default_elements(
                types,
                elements@,
                current_module,
                context_module,
                st,
                visited,
            );
            ("#("@ + joined(values, ", "@) + ")"@, after)
        },
        TypeExpression::Function { arguments, return_type } => (panic_default("function"@), st),
        TypeExpression::Var(name) => (panic_default("type variable"@), st),
        TypeExpression::Hole => (panic_default("type hole"@), st),
    }
}

/// The values of the elements of a tuple, in order.
pub open spec fn default_elements(
    types: Seq<CustomTypeInfo>,
    elements: Seq<TypeExpression>,
    current_module: Seq<char>,
    context_module: Seq<char>,
    st: GenState,
    visited: Seq<int>,
) -> (Seq<Seq<char>>, GenState)
    decreases types.len() - visited.len(), 1nat, elements, 0nat,
{
    if elements.len() == 0 {
        (Seq::empty(), st)
    } else {
        let (value, st1) = default_for_expr(
            types,
            elements[0],
            current_module,
            context_module,
            st,
            visited,
        );
        let (rest, st2) = default_elements(
            types,
            elements.drop_first(),
            current_module,
            context_module,
            st1,
            visited,
        );
        (seq![value] + rest, st2)
    }
}

/// The placeholder value of a type: its value, or a `panic` that names the
/// type where it has none.
pub open spec fn default_value(types: Seq<CustomTypeInfo>, info: CustomTypeInfo, st: GenState) -> (
    Seq<char>,
    GenState,
) {
    let (found, after) = default_for_custom(
        types,
        info.module@,
        info.name@,
        info.module@,
        st,
        Seq::empty(),
    );
    (
        match found {
            Some(text) => text,
            None => panic_default(info.name@),
        },
        after,
    )
}

/// The indices of a list as integers.
pub open spec fn ints(v: Seq<usize>) -> Seq<int> {
    Seq::new(v.len(), |k: int| v[k] as int)
}

/// Whether `list` holds the index `i`.
fn holds_index(list: &Vec<usize>, i: usize) -> (r: bool)
    ensures
        r == ints(list@).contains(i as int),
{
    let mut k: usize = 0;
    while k < list.len()
        invariant
            k <= list@.len(),
            forall|w: int| 0 <= w < k ==> ints(list@)[w] != i,
        decreases list@.len() - k,
    {
        if list[k] == i {
            assert(ints(list@)[k as int] == i);
            return true;
        }
        k += 1;
    }
    false
}

/// The list with `i` behind its items.
fn with_index(list: &Vec<usize>, i: usize) -> (r: Vec<usize>)
    ensures
        ints(r@) == ints(list@).push(i as int),
        r@.len() == list@.len() + 1,
{
    let mut out: Vec<usize> = Vec::new();
    let mut k: usize = 0;
    while k < list.len()
        invariant
            k <= list@.len(),
            out@ == list@.subrange(0, k as int),
        decreases list@.len() - k,
    {
        out.push(list[k]);
        assert(out@ =~= list@.subrange(0, k + 1));
        k += 1;
    }
    assert(list@.subrange(0, k as int) =~= list@);
    out.push(i);
    assert(ints(out@) =~= ints(list@).push(i as int));
    out
}

/// The value of a type of the project, written from its first constructor.
pub fn build_default_for_custom_type(
    target_module: &str,
    ty_name: &str,
    context_module: &str,
    lookup: &TypeLookup,
    imports: &mut ImportMap,
    visited: &Vec<usize>,
    uses_option_helpers: &mut bool,
) -> (r: Option<String>)
    ensures
        (opt_text(r), GenState { imports: final(imports)@, uses_option: *final(uses_option_helpers) })
            == default_for_custom(
            lookup@,
            target_module@,
            ty_name@,
            context_module@,
            GenState { imports: old(imports)@, uses_option: *old(uses_option_helpers) },
            ints(visited@),
        ),
    decreases lookup@.len() - visited@.len(), 0nat, TypeExpression::Hole, 0nat,
{
    if visited.len() >= lookup.types.len() {
        return None;
    }
    match lookup.find(target_module, ty_name) {
        None => None,
        Some(i) => {
            if holds_index(visited, i) {
                return None;
            }
            let info = lookup.types[i];
            assert(lookup@[i as int] == *info);
            if info.constructors.len() == 0 {
                return None;
            }
            let next = with_index(visited, i);
            let text = build_constructor_expression(
                &info.constructors[0],
                target_module,
                context_module,
                lookup,
                imports,
                &next,
                uses_option_helpers,
            );
            Some(text)
        },
    }
}

/// A constructor applied to the values of its fields.
pub fn build_constructor_expression(
    constructor: &ConstructorInfo,
    constructor_module: &str,
    context_module: &str,
    lookup: &TypeLookup,
    imports: &mut ImportMap,
    visited: &Vec<usize>,
    uses_option_helpers: &mut bool,
) -> (r: String)
    ensures
        (r@, GenState { imports: final(imports)@, uses_option: *final(uses_option_helpers) })
            == default_constructor(
            lookup@,
            *constructor,
            constructor_module@,
            context_module@,
            GenState { imports: old(imports)@, uses_option: *old(uses_option_helpers) },
            ints(visited@),
        ),
    decreases lookup@.len() - visited@.len(), 3nat, TypeExpression::Hole, 0nat,
{
    let mut out = if same_text(constructor_module, context_module) {
        constructor.name.clone()
    } else {
        let mut prefix = ensure_import(imports, constructor_module);
        prefix.append(".");
        prefix.append(constructor.name.as_str());
        prefix
    };
    let n = constructor.fields.len();
    if n == 0 {
        return out;
    }
    let ghost fields = constructor.fields@;
    let ghost start = GenState { imports: imports@, uses_option: *uses_option_helpers };
    let ghost all = default_fields(
        lookup@,
        fields,
        constructor_module@,
        context_module@,
        start,
        ints(visited@),
    );
    let mut values: Vec<String> = Vec::new();
    let mut i: usize = 0;
    assert(fields.subrange(0, n as int) =~= fields);
    assert(texts(values@) + all.0 =~= all.0);
    while i < n
        invariant
            n == constructor.fields@.len(),
            fields == constructor.fields@,
            i <= n,
            all == ({
                let tail = default_fields(
                    lookup@,
                    fields.subrange(i as int, n as int),
                    constructor_module@,
                    context_module@,
                    GenState { imports: imports@, uses_option: *uses_option_helpers },
                    ints(visited@),
                );
                (texts(values@) + tail.0, tail.1)
            }),
        decreases n - i,
    {
        let ghost rest = fields.subrange(i as int, n as int);
        let ghost done = texts(values@);
        assert(rest[0] == fields[i as int]);
        assert(rest.drop_first() =~= fields.subrange(i + 1, n as int));
        let field = &constructor.fields[i];
        let value = default_value_for_type_expr(
            &field.type_expr,
            constructor_module,
            context_module,
            lookup,
            imports,
            visited,
            uses_option_helpers,
        );
        let arg = constructor_argument(field, value);
        let ghost tail = default_fields(
            lookup@,
            fields.subrange(i + 1, n as int),
            constructor_module@,
            context_module@,
            GenState { imports: imports@, uses_option: *uses_option_helpers },
            ints(visited@),
        );
        values.push(arg);
        assert(texts(values@) =~= done.push(arg@));
        assert(done + (seq![arg@] + tail.0) =~= done.push(arg@) + tail.0);
        i += 1;
    }
    assert(fields.subrange(n as int, n as int) =~= Seq::<FieldInfo>::empty());
    assert(texts(values@) + Seq::<Seq<char>>::empty() =~= texts(values@));
    out.append("(");
    out.append(join(&values, ", ").as_str());
    out.append(")");
    out
}

/// The value of a type expression.
pub fn default_value_for_type_expr(
    type_expr: &TypeExpression,
    current_module: &str,
    context_module: &str,
    lookup: &TypeLookup,
    imports: &mut ImportMap,
    visited: &Vec<usize>,
    uses_option_helpers: &mut bool,
) -> (r: String)
    ensures
        (r@, GenState { imports: final(imports)@, uses_option: *final(uses_option_helpers) })
            == default_for_expr(
            lookup@,
            *type_expr,
            current_module@,
            context_module@,
            GenState { imports: old(imports)@, uses_option: *old(uses_option_helpers) },
            ints(visited@),
        ),
    decreases lookup@.len() - visited@.len(), 1nat, type_expr, 0nat,
{
    match type_expr {
        TypeExpression::Constructor { module, name, arguments } => {
            if same_text(name.as_str(), "String") {
                return String::from_str("\"\"");
            }
            if same_text(name.as_str(), "Int") {
                return String::from_str("0");
            }
            if same_text(name.as_str(), "Float") {
                return String::from_str("0.0");
            }
            if same_text(name.as_str(), "Bool") {
                return String::from_str("False");
            }
            if same_text(name.as_str(), "List") && arguments.len() == 1 {
                return String::from_str("[]");
            }
            if same_text(name.as_str(), "Option") && arguments.len() == 1 && opt_is_text(
                module,
                "gleam/option",
            ) {
                *uses_option_helpers = true;
                return String::from_str("option.None");
            }
            let target: &str = match module {
                Some(m) => m.as_str(),
                None => current_module,
            };
            match build_default_for_custom_type(
                target,
                name.as_str(),
                context_module,
                lookup,
                imports,
                visited,
                uses_option_helpers,
            ) {
                Some(text) => text,
                None => {
                    if same_text(target, context_module) {
                        panic_default_message(name.as_str())
                    } else {
                        let mut display = replace(target, "/", ".");
                        display.append(".");
                        display.append(name.as_str());
                        panic_default_message(display.as_str())
                    }
                },
            }
        },
        TypeExpression::Tuple(elements) => {
            let n = elements.len();
            let ghost start = GenState { imports: imports@, uses_option: *uses_option_helpers };
            let ghost all = default_elements(
                lookup@,
                elements@,
                current_module@,
                context_module@,
                start,
                ints(visited@),
            );
            let mut values: Vec<String> = Vec::new();
            let mut i: usize = 0;
            assert(elements@.subrange(0, n as int) =~= elements@);
            assert(texts(values@) + all.0 =~= all.0);
            while i < n
                invariant
                    n == elements@.len(),
                    type_expr == TypeExpression::Tuple(*elements),
                    i <= n,
                    all == ({
                        let tail = default_elements(
                            lookup@,
                            elements@.subrange(i as int, n as int),
                            current_module@,
                            context_module@,
                            GenState { imports: imports@, uses_option: *uses_option_helpers },
                            ints(visited@),
                        );
                        (texts(values@) + tail.0, tail.1)
                    }),
                decreases n - i,
            {
                let ghost rest = elements@.subrange(i as int, n as int);
                let ghost done = texts(values@);
                assert(rest[0] == elements@[i as int]);
                assert(rest.drop_first() =~= elements@.subrange(i + 1, n as int));
                assert(type_expr->Tuple_0 == *elements);
                assert(decreases_to!(*type_expr => type_expr->Tuple_0));
                assert(decreases_to!(type_expr->Tuple_0 => type_expr->Tuple_0@));
                assert(decreases_to!(type_expr->Tuple_0@ => type_expr->Tuple_0@[i as int]));
                let value = default_value_for_type_expr(
                    &elements[i],
                    current_module,
                    context_module,
                    lookup,
                    imports,
                    visited,
                    uses_option_helpers,
                );
                let ghost tail = default_elements(
                    lookup@,
                    elements@.subrange(i + 1, n as int),
                    current_module@,
                    context_module@,
                    GenState { imports: imports@, uses_option: *uses_option_helpers },
                    ints(visited@),
                );
                values.push(value);
                assert(texts(values@) =~= done.push(value@));
                assert(done + (seq![value@] + tail.0) =~= done.push(value@) + tail.0);
                i += 1;
            }
            assert(elements@.subrange(n as int, n as int) =~= Seq::<TypeExpression>::empty());
            assert(texts(values@) + Seq::<Seq<char>>::empty() =~= texts(values@));
            let mut out = String::from_str("#(");
            out.append(join(&values, ", ").as_str());
            out.append(")");
            out
        },
        TypeExpression::Function { arguments, return_type } => panic_default_message("function"),
        TypeExpression::Var(name) => panic_default_message("type variable"),
        TypeExpression::Hole => panic_default_message("type hole"),
    }
}

/// The placeholder value of a type.
pub fn default_value_for_type(
    type_info: &CustomTypeInfo,
    lookup: &TypeLookup,
    imports: &mut ImportMap,
    uses_option_helpers: &mut bool,
) -> (r: String)
    ensures
        (r@, GenState { imports: final(imports)@, uses_option: *final(uses_option_helpers) })
            == default_value(
            lookup@,
            *type_info,
            GenState { imports: old(imports)@, uses_option: *old(uses_option_helpers) },
        ),
{
    let visited: Vec<usize> = Vec::new();
    assert(ints(visited@) =~= Seq::<int>::empty());
    match build_default_for_custom_type(
        type_info.module.as_str(),
        type_info.name.as_str(),
        type_info.module.as_str(),
        lookup,
        imports,
        &visited,
        uses_option_helpers,
    ) {
        Some(text) => text,
        None => panic_default_message(type_info.name.as_str()),
    }
}

} // verus!
