//! Serialization backends: how one target renders primitives and
//! composites, the built-in JSON backend, and the registry of backends.

use crate::parser::EncoderType;
use crate::text::{join, joined, texts};
use vstd::prelude::*;
use vstd::string::*;

verus! {

/// The views of a sequence of key and value expressions.
pub open spec fn pairs(fields: Seq<(String, String)>) -> Seq<(Seq<char>, Seq<char>)> {
    Seq::new(fields.len(), |i: int| (fields[i].0@, fields[i].1@))
}

/// The rendering rules of one serialization target.
///
/// An implementation may state what its methods return by the functions
/// whose names end in `_text`, and then declares itself specified. Of an
/// implementation that does not, nothing is claimed.
pub trait EncoderBackend: Send + Sync {
    /// Whether the `_text` functions say what the methods return.
    open spec fn is_specified(&self) -> bool {
        false
    }

    open spec fn name_text(&self) -> Seq<char> {
        Seq::empty()
    }

    open spec fn module_imports_text(&self) -> Seq<Seq<char>> {
        Seq::empty()
    }

    open spec fn return_type_text(&self) -> Seq<char> {
        Seq::empty()
    }

    open spec fn object_text(
        &self,
        indent: Seq<char>,
        fields: Seq<(Seq<char>, Seq<char>)>,
        closing_indent: Seq<char>,
    ) -> Seq<char> {
        Seq::empty()
    }

    open spec fn empty_object_text(&self, indent: Seq<char>) -> Seq<char> {
        Seq::empty()
    }

    open spec fn string_literal_text(&self, value: Seq<char>) -> Seq<char> {
        Seq::empty()
    }

    open spec fn string_text(&self, value_expr: Seq<char>) -> Seq<char> {
        Seq::empty()
    }

    open spec fn int_text(&self, value_expr: Seq<char>) -> Seq<char> {
        Seq::empty()
    }

    open spec fn float_text(&self, value_expr: Seq<char>) -> Seq<char> {
        Seq::empty()
    }

    open spec fn bool_text(&self, value_expr: Seq<char>) -> Seq<char> {
        Seq::empty()
    }

    open spec fn nullable_text(&self, value_expr: Seq<char>, inner_encoder: Seq<char>) -> Seq<char> {
        Seq::empty()
    }

    open spec fn array_text(&self, value_expr: Seq<char>, inner_encoder: Seq<char>) -> Seq<char> {
        Seq::empty()
    }

    open spec fn required_packages_text(&self) -> Seq<Seq<char>> {
        Seq::empty()
    }

    /// The backend's identifier.
    fn name(&self) -> (r: &str)
        ensures
            self.is_specified() ==> r@ == self.name_text(),
    ;

    /// The import lines that generated encoders need.
    fn module_imports(&self) -> (r: Vec<String>)
        ensures
            self.is_specified() ==> texts(r@) == self.module_imports_text(),
    ;

    /// The type that encoders return.
    fn return_type(&self) -> (r: String)
        ensures
            self.is_specified() ==> r@ == self.return_type_text(),
    ;

    /// An object from ordered pairs of key and value expression.
    fn encode_object(&self, indent: &str, fields: &[(String, String)], closing_indent: &str) -> (r:
        String)
        ensures
            self.is_specified() ==> r@ == self.object_text(indent@, pairs(fields@), closing_indent@),
    ;

    /// The object without entries.
    fn encode_empty_object(&self, indent: &str) -> (r: String)
        ensures
            self.is_specified() ==> r@ == self.empty_object_text(indent@),
    ;

    /// A string literal as an encoded value.
    fn encode_string_literal(&self, value: &str) -> (r: String)
        ensures
            self.is_specified() ==> r@ == self.string_literal_text(value@),
    ;

    fn encode_string(&self, value_expr: &str) -> (r: String)
        ensures
            self.is_specified() ==> r@ == self.string_text(value_expr@),
    ;

    fn encode_int(&self, value_expr: &str) -> (r: String)
        ensures
            self.is_specified() ==> r@ == self.int_text(value_expr@),
    ;

    fn encode_float(&self, value_expr: &str) -> (r: String)
        ensures
            self.is_specified() ==> r@ == self.float_text(value_expr@),
    ;

    fn encode_bool(&self, value_expr: &str) -> (r: String)
        ensures
            self.is_specified() ==> r@ == self.bool_text(value_expr@),
    ;

    /// An optional value with the encoder of what it holds.
    fn encode_nullable(&self, value_expr: &str, inner_encoder: &str) -> (r: String)
        ensures
            self.is_specified() ==> r@ == self.nullable_text(value_expr@, inner_encoder@),
    ;

    /// A list with the encoder of its items.
    fn encode_array(&self, value_expr: &str, inner_encoder: &str) -> (r: String)
        ensures
            self.is_specified() ==> r@ == self.array_text(value_expr@, inner_encoder@),
    ;

    /// The packages that the project's manifest must name.
    fn required_packages(&self) -> (r: Vec<String>)
        ensures
            self.is_specified() ==> texts(r@) == self.required_packages_text(),
    ;
}

/// The built-in backend, which renders calls into `gleam/json`.
#[derive(Debug, Clone, Copy, Default)]
pub struct JsonEncoderBackend;

/// `json.` and a function's name.
pub open spec fn json_qualified(fn_name: Seq<char>) -> Seq<char> {
    "json"@ + "."@ + fn_name
}

/// `json.<fn_name>(<value_expr>)`.
pub open spec fn json_call(fn_name: Seq<char>, value_expr: Seq<char>) -> Seq<char> {
    json_qualified(fn_name) + "("@ + value_expr + ")"@
}

/// `json.<fn_name>(<value_expr>, <inner>)`.
pub open spec fn json_call2(fn_name: Seq<char>, value_expr: Seq<char>, inner: Seq<char>) -> Seq<
    char,
> {
    json_qualified(fn_name) + "("@ + value_expr + ", "@ + inner + ")"@
}

/// One line of an object: `<indent>  #("<key>", <value>)`.
pub open spec fn json_entry(indent: Seq<char>, field: (Seq<char>, Seq<char>)) -> Seq<char> {
    indent + "  #(\""@ + field.0 + "\", "@ + field.1 + ")"@
}

/// The lines of an object's entries.
pub open spec fn json_entries(indent: Seq<char>, fields: Seq<(Seq<char>, Seq<char>)>) -> Seq<
    Seq<char>,
> {
    Seq::new(fields.len(), |i: int| json_entry(indent, fields[i]))
}

/// `<indent>json.object([])`.
pub open spec fn json_empty_object(indent: Seq<char>) -> Seq<char> {
    indent + json_qualified("object"@) + "([])"@
}

/// The object expression of the JSON backend: the empty object at the
/// closing indentation where there is no field, else one line for each
/// entry between `json.object([` and `])`.
pub open spec fn json_object(
    indent: Seq<char>,
    fields: Seq<(Seq<char>, Seq<char>)>,
    closing_indent: Seq<char>,
) -> Seq<char> {
    if fields.len() == 0 {
        json_empty_object(closing_indent)
    } else {
        closing_indent + json_qualified("object"@) + "([\n"@ + joined(
            json_entries(indent, fields),
            ",\n"@,
        ) + "\n"@ + closing_indent + "])"@
    }
}

impl JsonEncoderBackend {
    /// `json.` and a function's name.
    pub fn qualify(fn_name: &str) -> (r: String)
        ensures
            r@ == json_qualified(fn_name@),
    {
        let mut out = String::from_str("json");
        out.append(".");
        out.append(fn_name);
        out
    }

    fn call(fn_name: &str, value_expr: &str) -> (r: String)
        ensures
            r@ == json_call(fn_name@, value_expr@),
    {
        let mut out = Self::qualify(fn_name);
        out.append("(");
        out.append(value_expr);
        out.append(")");
        out
    }

    fn call2(fn_name: &str, value_expr: &str, inner: &str) -> (r: String)
        ensures
            r@ == json_call2(fn_name@, value_expr@, inner@),
    {
        let mut out = Self::qualify(fn_name);
        out.append("(");
        out.append(value_expr);
        out.append(", ");
        out.append(inner);
        out.append(")");
        out
    }
}

impl EncoderBackend for JsonEncoderBackend {
    open spec fn is_specified(&self) -> bool {
        true
    }

    open spec fn name_text(&self) -> Seq<char> {
        "json"@
    }

    open spec fn module_imports_text(&self) -> Seq<Seq<char>> {
        seq!["import gleam/json"@]
    }

    open spec fn return_type_text(&self) -> Seq<char> {
        "json"@ + "."@ + "Json"@
    }

    open spec fn object_text(
        &self,
        indent: Seq<char>,
        fields: Seq<(Seq<char>, Seq<char>)>,
        closing_indent: Seq<char>,
    ) -> Seq<char> {
        json_object(indent, fields, closing_indent)
    }

    open spec fn empty_object_text(&self, indent: Seq<char>) -> Seq<char> {
        json_empty_object(indent)
    }

    open spec fn string_literal_text(&self, value: Seq<char>) -> Seq<char> {
        "json"@ + ".string(\""@ + value + "\")"@
    }

    open spec fn string_text(&self, value_expr: Seq<char>) -> Seq<char> {
        json_call("string"@, value_expr)
    }

    open spec fn int_text(&self, value_expr: Seq<char>) -> Seq<char> {
        json_call("int"@, value_expr)
    }

    open spec fn float_text(&self, value_expr: Seq<char>) -> Seq<char> {
        json_call("float"@, value_expr)
    }

    open spec fn bool_text(&self, value_expr: Seq<char>) -> Seq<char> {
        json_call("bool"@, value_expr)
    }

    open spec fn nullable_text(&self, value_expr: Seq<char>, inner_encoder: Seq<char>) -> Seq<char> {
        json_call2("nullable"@, value_expr, inner_encoder)
    }

    open spec fn array_text(&self, value_expr: Seq<char>, inner_encoder: Seq<char>) -> Seq<char> {
        json_call2("array"@, value_expr, inner_encoder)
    }

    open spec fn required_packages_text(&self) -> Seq<Seq<char>> {
        seq!["gleam/json"@]
    }

    fn name(&self) -> (r: &str) {
        "json"
    }

    fn module_imports(&self) -> (r: Vec<String>) {
        let mut v: Vec<String> = Vec::new();
        v.push(String::from_str("import gleam/json"));
        assert(texts(v@) =~= seq!["import gleam/json"@]);
        v
    }

    fn return_type(&self) -> (r: String) {
        let mut out = String::from_str("json");
        out.append(".");
        out.append("Json");
        out
    }

    fn encode_object(&self, indent: &str, fields: &[(String, String)], closing_indent: &str) -> (r:
        String) {
        if fields.len() == 0 {
            return self.encode_empty_object(closing_indent);
        }
        let mut entries: Vec<String> = Vec::new();
        let mut i: usize = 0;
        assert(texts(entries@) =~= json_entries(indent@, pairs(fields@)).subrange(0, 0));
        while i < fields.len()
            invariant
                i <= fields@.len(),
                texts(entries@) == json_entries(indent@, pairs(fields@)).subrange(0, i as int),
            decreases fields@.len() - i,
        {
            let mut line = String::from_str(indent);
            line.append("  #(\"");
            line.append(fields[i].0.as_str());
            line.append("\", ");
            line.append(fields[i].1.as_str());
            line.append(")");
            assert(pairs(fields@)[i as int] == (fields@[i as int].0@, fields@[i as int].1@));
            assert(line@ == json_entries(indent@, pairs(fields@))[i as int]);
            let ghost before = texts(entries@);
            entries.push(line);
            assert(texts(entries@) =~= before.push(line@));
            i += 1;
        }
        assert(texts(entries@) =~= json_entries(indent@, pairs(fields@)));
        let mut out = String::from_str(closing_indent);
        out.append(Self::qualify("object").as_str());
        out.append("([\n");
        out.append(join(&entries, ",\n").as_str());
        out.append("\n");
        out.append(closing_indent);
        out.append("])");
        out
    }

    fn encode_empty_object(&self, indent: &str) -> (r: String) {
        let mut out = String::from_str(indent);
        out.append(Self::qualify("object").as_str());
        out.append("([])");
        out
    }

    fn encode_string_literal(&self, value: &str) -> (r: String) {
        let mut out = String::from_str("json");
        out.append(".string(\"");
        out.append(value);
        out.append("\")");
        out
    }

    fn encode_string(&self, value_expr: &str) -> (r: String) {
        Self::call("string", value_expr)
    }

    fn encode_int(&self, value_expr: &str) -> (r: String) {
        Self::call("int", value_expr)
    }

    fn encode_float(&self, value_expr: &str) -> (r: String) {
        Self::call("float", value_expr)
    }

    fn encode_bool(&self, value_expr: &str) -> (r: String) {
        Self::call("bool", value_expr)
    }

    fn encode_nullable(&self, value_expr: &str, inner_encoder: &str) -> (r: String) {
        Self::call2("nullable", value_expr, inner_encoder)
    }

    fn encode_array(&self, value_expr: &str, inner_encoder: &str) -> (r: String) {
        Self::call2("array", value_expr, inner_encoder)
    }

    fn required_packages(&self) -> (r: Vec<String>) {
        let mut v: Vec<String> = Vec::new();
        v.push(String::from_str("gleam/json"));
        assert(texts(v@) =~= seq!["gleam/json"@]);
        v
    }
}

/// One of two kinds of backend: a registry that already holds backends of
/// kind `A` holds, once one of kind `B` has been registered, slots of both.
#[derive(Debug, Clone)]
pub enum BackendSlot<A, B> {
    Earlier(A),
    Later(B),
}

impl<A: EncoderBackend, B: EncoderBackend> EncoderBackend for BackendSlot<A, B> {
    open spec fn is_specified(&self) -> bool {
        match self {
            BackendSlot::Earlier(b) => b.is_specified(),
            BackendSlot::Later(b) => b.is_specified(),
        }
    }

    open spec fn name_text(&self) -> Seq<char> {
        match self {
            BackendSlot::Earlier(b) => b.name_text(),
            BackendSlot::Later(b) => b.name_text(),
        }
    }

    open spec fn module_imports_text(&self) -> Seq<Seq<char>> {
        match self {
            BackendSlot::Earlier(b) => b.module_imports_text(),
            BackendSlot::Later(b) => b.module_imports_text(),
        }
    }

    open spec fn return_type_text(&self) -> Seq<char> {
        match self {
            BackendSlot::Earlier(b) => b.return_type_text(),
            BackendSlot::Later(b) => b.return_type_text(),
        }
    }

    open spec fn object_text(
        &self,
        indent: Seq<char>,
        fields: Seq<(Seq<char>, Seq<char>)>,
        closing_indent: Seq<char>,
    ) -> Seq<char> {
        match self {
            BackendSlot::Earlier(b) => b.object_text(indent, fields, closing_indent),
            BackendSlot::Later(b) => b.object_text(indent, fields, closing_indent),
        }
    }

    open spec fn empty_object_text(&self, indent: Seq<char>) -> Seq<char> {
        match self {
            BackendSlot::Earlier(b) => b.empty_object_text(indent),
            BackendSlot::Later(b) => b.empty_object_text(indent),
        }
    }

    open spec fn string_literal_text(&self, value: Seq<char>) -> Seq<char> {
        match self {
            BackendSlot::Earlier(b) => b.string_literal_text(value),
            BackendSlot::Later(b) => b.string_literal_text(value),
        }
    }

    open spec fn string_text(&self, value_expr: Seq<char>) -> Seq<char> {
        match self {
            BackendSlot::Earlier(b) => b.string_text(value_expr),
            BackendSlot::Later(b) => b.string_text(value_expr),
        }
    }

    open spec fn int_text(&self, value_expr: Seq<char>) -> Seq<char> {
        match self {
            BackendSlot::Earlier(b) => b.int_text(value_expr),
            BackendSlot::Later(b) => b.int_text(value_expr),
        }
    }

    open spec fn float_text(&self, value_expr: Seq<char>) -> Seq<char> {
        match self {
            BackendSlot::Earlier(b) => b.float_text(value_expr),
            BackendSlot::Later(b) => b.float_text(value_expr),
        }
    }

    open spec fn bool_text(&self, value_expr: Seq<char>) -> Seq<char> {
        match self {
            BackendSlot::Earlier(b) => b.bool_text(value_expr),
            BackendSlot::Later(b) => b.bool_text(value_expr),
        }
    }

    open spec fn nullable_text(
        &self,
        value_expr: Seq<char>,
        inner_encoder: Seq<char>,
    ) -> Seq<char> {
        match self {
            BackendSlot::Earlier(b) => b.nullable_text(value_expr, inner_encoder),
            BackendSlot::Later(b) => b.nullable_text(value_expr, inner_encoder),
        }
    }

    open spec fn array_text(&self, value_expr: Seq<char>, inner_encoder: Seq<char>) -> Seq<char> {
        match self {
            BackendSlot::Earlier(b) => b.array_text(value_expr, inner_encoder),
            BackendSlot::Later(b) => b.array_text(value_expr, inner_encoder),
        }
    }

    open spec fn required_packages_text(&self) -> Seq<Seq<char>> {
        match self {
            BackendSlot::Earlier(b) => b.required_packages_text(),
            BackendSlot::Later(b) => b.required_packages_text(),
        }
    }

    fn name(&self) -> (r: &str) {
        match self {
            BackendSlot::Earlier(b) => b.name(),
            BackendSlot::Later(b) => b.name(),
        }
    }

    fn module_imports(&self) -> (r: Vec<String>) {
        match self {
            BackendSlot::Earlier(b) => b.module_imports(),
            BackendSlot::Later(b) => b.module_imports(),
        }
    }

    fn return_type(&self) -> (r: String) {
        match self {
            BackendSlot::Earlier(b) => b.return_type(),
            BackendSlot::Later(b) => b.return_type(),
        }
    }

    fn encode_object(
        &self,
        indent: &str,
        fields: &[(String, String)],
        closing_indent: &str,
    ) -> (r: String) {
        match self {
            BackendSlot::Earlier(b) => b.encode_object(indent, fields, closing_indent),
            BackendSlot::Later(b) => b.encode_object(indent, fields, closing_indent),
        }
    }

    fn encode_empty_object(&self, indent: &str) -> (r: String) {
        match self {
            BackendSlot::Earlier(b) => b.encode_empty_object(indent),
            BackendSlot::Later(b) => b.encode_empty_object(indent),
        }
    }

    fn encode_string_literal(&self, value: &str) -> (r: String) {
        match self {
            BackendSlot::Earlier(b) => b.encode_string_literal(value),
            BackendSlot::Later(b) => b.encode_string_literal(value),
        }
    }

    fn encode_string(&self, value_expr: &str) -> (r: String) {
        match self {
            BackendSlot::Earlier(b) => b.encode_string(value_expr),
            BackendSlot::Later(b) => b.encode_string(value_expr),
        }
    }

    fn encode_int(&self, value_expr: &str) -> (r: String) {
        match self {
            BackendSlot::Earlier(b) => b.encode_int(value_expr),
            BackendSlot::Later(b) => b.encode_int(value_expr),
        }
    }

    fn encode_float(&self, value_expr: &str) -> (r: String) {
        match self {
            BackendSlot::Earlier(b) => b.encode_float(value_expr),
            BackendSlot::Later(b) => b.encode_float(value_expr),
        }
    }

    fn encode_bool(&self, value_expr: &str) -> (r: String) {
        match self {
            BackendSlot::Earlier(b) => b.encode_bool(value_expr),
            BackendSlot::Later(b) => b.encode_bool(value_expr),
        }
    }

    fn encode_nullable(&self, value_expr: &str, inner_encoder: &str) -> (r: String) {
        match self {
            BackendSlot::Earlier(b) => b.encode_nullable(value_expr, inner_encoder),
            BackendSlot::Later(b) => b.encode_nullable(value_expr, inner_encoder),
        }
    }

    fn encode_array(&self, value_expr: &str, inner_encoder: &str) -> (r: String) {
        match self {
            BackendSlot::Earlier(b) => b.encode_array(value_expr, inner_encoder),
            BackendSlot::Later(b) => b.encode_array(value_expr, inner_encoder),
        }
    }

    fn required_packages(&self) -> (r: Vec<String>) {
        match self {
            BackendSlot::Earlier(b) => b.required_packages(),
            BackendSlot::Later(b) => b.required_packages(),
        }
    }
}

/// The backend registered for `encoder`.
pub open spec fn slot_of<B>(entries: Seq<(EncoderType, B)>, encoder: EncoderType) -> Option<B>
    decreases entries.len(),
{
    if entries.len() == 0 {
        None
    } else if entries[0].0 == encoder {
        Some(entries[0].1)
    } else {
        slot_of(entries.drop_first(), encoder)
    }
}

/// The entries with `slot` registered for `encoder`: in the place of the
/// target's entry where it has one, else at the end.
pub open spec fn registered<B>(entries: Seq<(EncoderType, B)>, encoder: EncoderType, slot: B) -> Seq<
    (EncoderType, B),
>
    decreases entries.len(),
{
    if entries.len() == 0 {
        seq![(encoder, slot)]
    } else if entries[0].0 == encoder {
        seq![(encoder, slot)] + entries.drop_first()
    } else {
        seq![entries[0]] + registered(entries.drop_first(), encoder, slot)
    }
}

/// The entries with each backend in the earlier place of a slot.
pub open spec fn as_earlier<A, B>(entries: Seq<(EncoderType, A)>) -> Seq<
    (EncoderType, BackendSlot<A, B>),
> {
    Seq::new(entries.len(), |i: int| (entries[i].0, BackendSlot::Earlier(entries[i].1)))
}

/// The backends by serialization target.
#[derive(Debug, Clone)]
pub struct BackendRegistry<B = JsonEncoderBackend> {
    backends: Vec<(EncoderType, B)>,
}

impl BackendRegistry<JsonEncoderBackend> {
    /// The registry that holds the built-in JSON backend.
    pub fn new() -> (r: Self)
        ensures
            r.entries() == seq![(EncoderType::Json, JsonEncoderBackend)],
    {
        let mut backends: Vec<(EncoderType, JsonEncoderBackend)> = Vec::new();
        backends.push((EncoderType::Json, JsonEncoderBackend));
        assert(backends@ =~= seq![(EncoderType::Json, JsonEncoderBackend)]);
        BackendRegistry { backends }
    }
}

impl<B: EncoderBackend> BackendRegistry<B> {
    /// The registered backends, each with its target, in order of registration.
    pub closed spec fn entries(&self) -> Seq<(EncoderType, B)> {
        self.backends@
    }

    /// Registers `backend` for `encoder_type`, in place of what was
    /// registered for it.
    pub fn with_backend<C: EncoderBackend>(self, encoder_type: EncoderType, backend: C) -> (r:
        BackendRegistry<BackendSlot<B, C>>)
        ensures
            r.entries() == registered(
                as_earlier::<B, C>(self.entries()),
                encoder_type,
                BackendSlot::Later(backend),
            ),
    {
        let ghost before = as_earlier::<B, C>(self.backends@);
        let ghost slot = BackendSlot::<B, C>::Later(backend);
        let mut pending: Option<C> = Some(backend);
        let mut out: Vec<(EncoderType, BackendSlot<B, C>)> = Vec::new();
        let mut rest = self.backends;
        let n = rest.len();
        let mut i: usize = 0;
        assert(before.subrange(0, before.len() as int) =~= before);
        while rest.len() > 0
            invariant
                before == as_earlier::<B, C>(self.backends@),
                slot == BackendSlot::<B, C>::Later(backend),
                before.len() == n,
                rest@.len() + i == before.len(),
                rest@ =~= self.backends@.subrange(i as int, before.len() as int),
                pending is Some ==> pending == Some(backend) && registered(before, encoder_type, slot)
                    == out@ + registered(
                    before.subrange(i as int, before.len() as int),
                    encoder_type,
                    slot,
                ),
                pending is None ==> registered(before, encoder_type, slot) == out@
                    + before.subrange(i as int, before.len() as int),
            decreases rest@.len(),
        {
            let ghost cur = before.subrange(i as int, before.len() as int);
            let entry = rest.remove(0);
            assert(cur[0] == (entry.0, BackendSlot::<B, C>::Earlier(entry.1)));
            assert(cur.drop_first() =~= before.subrange(i + 1, before.len() as int));
            let ghost shown = out@;
            if pending.is_some() && entry.0 == encoder_type {
                let b = pending.unwrap();
                pending = None;
                out.push((encoder_type, BackendSlot::Later(b)));
                assert(shown + (seq![(encoder_type, slot)] + cur.drop_first()) =~= shown.push(
                    (encoder_type, slot),
                ) + cur.drop_first());
            } else {
                out.push((entry.0, BackendSlot::Earlier(entry.1)));
                assert(shown + (seq![cur[0]] + registered(cur.drop_first(), encoder_type, slot))
                    =~= shown.push(cur[0]) + registered(cur.drop_first(), encoder_type, slot));
                assert(shown + cur =~= shown.push(cur[0]) + cur.drop_first());
            }
            i += 1;
        }
        assert(before.subrange(i as int, before.len() as int) =~= Seq::empty());
        match pending {
            Some(b) => {
                out.push((encoder_type, BackendSlot::Later(b)));
                assert(out@ =~= out@.drop_last() + seq![(encoder_type, slot)]);
            },
            None => {
                assert(out@ + Seq::empty() =~= out@);
            },
        }
        BackendRegistry { backends: out }
    }

    /// The backend registered for `encoder_type`.
    pub fn get(&self, encoder_type: EncoderType) -> (r: Option<&B>)
        ensures
            match r {
                Some(b) => slot_of(self.entries(), encoder_type) == Some(*b),
                None => slot_of(self.entries(), encoder_type) is None,
            },
    {
        let n = self.backends.len();
        let mut i: usize = 0;
        assert(self.backends@.subrange(0, n as int) =~= self.backends@);
        while i < n
            invariant
                n == self.backends@.len(),
                i <= n,
                slot_of(self.entries(), encoder_type) == slot_of(
                    self.backends@.subrange(i as int, n as int),
                    encoder_type,
                ),
            decreases n - i,
        {
            if self.backends[i].0 == encoder_type {
                return Some(&self.backends[i].1);
            }
            assert(self.backends@.subrange(i as int, n as int).drop_first()
                =~= self.backends@.subrange(i + 1, n as int));
            i += 1;
        }
        None
    }

    /// The registered backends, in order of registration.
    pub fn values(&self) -> (r: Vec<&B>)
        ensures
            r@.len() == self.entries().len(),
            forall|i: int| 0 <= i < r@.len() ==> *r@[i] == self.entries()[i].1,
    {
        let mut out: Vec<&B> = Vec::new();
        let mut i: usize = 0;
        while i < self.backends.len()
            invariant
                i <= self.backends@.len(),
                out@.len() == i,
                forall|k: int| 0 <= k < i ==> *out@[k] == self.backends@[k].1,
            decreases self.backends@.len() - i,
        {
            out.push(&self.backends[i].1);
            i += 1;
        }
        out
    }
}

/// What was registered for a target is what the registry gives for it, and
/// the other targets keep their backends.
pub proof fn lemma_registered_lookup<B>(
    entries: Seq<(EncoderType, B)>,
    encoder: EncoderType,
    slot: B,
    other: EncoderType,
)
    ensures
        slot_of(registered(entries, encoder, slot), encoder) == Some(slot),
        other != encoder ==> slot_of(registered(entries, encoder, slot), other) == slot_of(
            entries,
            other,
        ),
    decreases entries.len(),
{
    let r = registered(entries, encoder, slot);
    if entries.len() == 0 {
        assert(r.drop_first() =~= entries);
    } else if entries[0].0 == encoder {
        assert(r.drop_first() =~= entries.drop_first());
    } else {
        lemma_registered_lookup(entries.drop_first(), encoder, slot, other);
        assert(r.drop_first() =~= registered(entries.drop_first(), encoder, slot));
    }
}

} // verus!
