//! The imports that generated code needs, kept in the order of their
//! module paths.

use crate::error::GlossError;
use crate::ordered::{
    copy_texts, insert_all_texts, insert_text, inserted, inserted_all, text_less, text_lt,
};
use crate::text::{
    char_is_alphanumeric, chars_of, is_alphanumeric, same_text, texts,
};
use vstd::prelude::*;
use vstd::string::*;

verus! {

/// One imported module: its path, the alias it is bound to, and the values
/// and types imported from it without qualification, each list in order and
/// without repetition.
#[derive(Debug, Clone, PartialEq, Eq)]
pub struct ImportEntry {
    pub module: String,
    pub alias: String,
    pub values: Vec<String>,
    pub types: Vec<String>,
}

/// The mathematical value of an [`ImportEntry`].
pub struct ImportEntryView {
    pub module: Seq<char>,
    pub alias: Seq<char>,
    pub values: Seq<Seq<char>>,
    pub types: Seq<Seq<char>>,
}

impl View for ImportEntry {
    type V = ImportEntryView;

    open spec fn view(&self) -> ImportEntryView {
        ImportEntryView {
            module: self.module@,
            alias: self.alias@,
            values: texts(self.values@),
            types: texts(self.types@),
        }
    }
}

/// The alias derived from a module path: each character that is neither a
/// letter nor a digit becomes `_`; the empty path gives `module`.
pub open spec fn module_alias_text(module: Seq<char>) -> Seq<char> {
    if module.len() == 0 {
        "module"@
    } else {
        Seq::new(
            module.len(),
            |i: int|
                if char_is_alphanumeric(module[i]) {
                    module[i]
                } else {
                    '_'
                },
        )
    }
}

/// The alias derived from a module path.
pub fn module_alias(module: &str) -> (r: String)
    ensures
        r@ == module_alias_text(module@),
{
    let v = chars_of(module);
    if v.len() == 0 {
        return String::from_str("module");
    }
    let mut out = String::new();
    let mut i: usize = 0;
    while i < v.len()
        invariant
            i <= v@.len(),
            v@.len() > 0,
            out@ =~= module_alias_text(v@).subrange(0, i as int),
        decreases v@.len() - i,
    {
        let c = v[i];
        if is_alphanumeric(c) {
            out.push(c);
        } else {
            out.push('_');
        }
        i += 1;
    }
    assert(module_alias_text(v@).subrange(0, i as int) =~= module_alias_text(v@));
    out
}

/// The entry of a module that nothing was imported from yet.
pub open spec fn fresh_entry(module: Seq<char>) -> ImportEntryView {
    ImportEntryView {
        module,
        alias: module_alias_text(module),
        values: Seq::empty(),
        types: Seq::empty(),
    }
}

impl ImportEntry {
    /// The entry of a module with the given alias and nothing imported
    /// without qualification.
    pub fn new(module: &str, alias: String) -> (r: Self)
        ensures
            r@ == (ImportEntryView {
                module: module@,
                alias: alias@,
                values: Seq::empty(),
                types: Seq::empty(),
            }),
    {
        let r = ImportEntry {
            module: String::from_str(module),
            alias,
            values: Vec::new(),
            types: Vec::new(),
        };
        assert(texts(r.values@) =~= Seq::<Seq<char>>::empty());
        assert(texts(r.types@) =~= Seq::<Seq<char>>::empty());
        r
    }

    /// A copy of this entry.
    pub fn duplicate(&self) -> (r: Self)
        ensures
            r@ == self@,
    {
        ImportEntry {
            module: self.module.clone(),
            alias: self.alias.clone(),
            values: copy_texts(&self.values),
            types: copy_texts(&self.types),
        }
    }
}

/// The index behind the last entry whose path is `path` or stands before
/// it; 0 where there is none.
pub open spec fn entry_slot(s: Seq<ImportEntryView>, path: Seq<char>) -> int
    decreases s.len(),
{
    if s.len() == 0 {
        0
    } else if s.last().module == path || text_lt(s.last().module, path) {
        s.len() as int
    } else {
        entry_slot(s.drop_last(), path)
    }
}

/// Whether the entry before the slot of `path` is the entry of `path`.
pub open spec fn has_entry(s: Seq<ImportEntryView>, path: Seq<char>) -> bool {
    entry_slot(s, path) > 0 && s[entry_slot(s, path) - 1].module == path
}

/// The index of the entry of `path` once it has one.
pub open spec fn entry_index(s: Seq<ImportEntryView>, path: Seq<char>) -> int {
    if has_entry(s, path) {
        entry_slot(s, path) - 1
    } else {
        entry_slot(s, path)
    }
}

/// The entries with `e` put at the slot of its path, unless the path has an
/// entry.
pub open spec fn with_entry(s: Seq<ImportEntryView>, e: ImportEntryView) -> Seq<ImportEntryView> {
    if has_entry(s, e.module) {
        s
    } else {
        s.insert(entry_slot(s, e.module), e)
    }
}

/// The entries with one for `path`, a fresh one unless the path has one.
pub open spec fn with_import(s: Seq<ImportEntryView>, path: Seq<char>) -> Seq<ImportEntryView> {
    with_entry(s, fresh_entry(path))
}

/// The alias under which generated code refers to `path` once it is
/// imported.
pub open spec fn import_alias(s: Seq<ImportEntryView>, path: Seq<char>) -> Seq<char> {
    with_import(s, path)[entry_index(s, path)].alias
}

/// The entries with a type and its constructors imported without
/// qualification from `path`.
pub open spec fn with_type_import(
    s: Seq<ImportEntryView>,
    path: Seq<char>,
    ty_name: Seq<char>,
    constructors: Seq<Seq<char>>,
) -> Seq<ImportEntryView> {
    let s1 = with_import(s, path);
    let i = entry_index(s, path);
    s1.update(
        i,
        ImportEntryView {
            module: s1[i].module,
            alias: s1[i].alias,
            values: inserted_all(s1[i].values, constructors),
            types: inserted(s1[i].types, ty_name),
        },
    )
}

/// The entries with `e` merged in: what `e` imports without qualification
/// is added to the entry of its path where there is one, else `e` is put
/// at its slot.
pub open spec fn with_merged_entry(s: Seq<ImportEntryView>, e: ImportEntryView) -> Seq<
    ImportEntryView,
> {
    if has_entry(s, e.module) {
        let i = entry_slot(s, e.module) - 1;
        s.update(
            i,
            ImportEntryView {
                module: s[i].module,
                alias: s[i].alias,
                values: inserted_all(s[i].values, e.values),
                types: inserted_all(s[i].types, e.types),
            },
        )
    } else {
        s.insert(entry_slot(s, e.module), e)
    }
}

/// The entries of `src` merged into `target` one after the other.
pub open spec fn merged_imports(target: Seq<ImportEntryView>, src: Seq<ImportEntryView>) -> Seq<
    ImportEntryView,
>
    decreases src.len(),
{
    if src.len() == 0 {
        target
    } else {
        with_merged_entry(merged_imports(target, src.drop_last()), src.last())
    }
}

/// The first entry that binds the alias `option` to a module other than
/// `gleam/option`.
pub open spec fn option_alias_conflict(s: Seq<ImportEntryView>) -> Option<Seq<char>>
    decreases s.len(),
{
    if s.len() == 0 {
        None
    } else if s[0].alias == "option"@ && s[0].module != "gleam/option"@ {
        Some(s[0].module)
    } else {
        option_alias_conflict(s.drop_first())
    }
}

/// The message that reports an alias conflict with `module`.
pub open spec fn option_alias_conflict_message(module: Seq<char>) -> Seq<char> {
    "Cannot generate code because import alias `option` is already used for `"@ + module
        + "`. Rename the conflicting import or its alias before running gloss."@
}

/// The entries are in the strict order of their module paths.
pub open spec fn sorted_by_path(s: Seq<ImportEntryView>) -> bool {
    forall|i: int, j: int|
        0 <= i < j < s.len() ==> text_lt((#[trigger] s[i]).module, (#[trigger] s[j]).module)
}

/// The imports of one unit of generated code, by module path.
#[derive(Debug, Clone, PartialEq, Eq, Default)]
pub struct ImportMap {
    entries: Vec<ImportEntry>,
}

impl View for ImportMap {
    type V = Seq<ImportEntryView>;

    closed spec fn view(&self) -> Seq<ImportEntryView> {
        Seq::new(self.entries@.len(), |i: int| self.entries@[i]@)
    }
}

impl ImportMap {
    /// The entries stand in the strict order of their module paths, so no
    /// module has two entries.
    pub open spec fn wf(&self) -> bool {
        sorted_by_path(self@)
    }

    /// The map without entries.
    pub fn new() -> (r: Self)
        ensures
            r@ == Seq::<ImportEntryView>::empty(),
            r.wf(),
    {
        let r = ImportMap { entries: Vec::new() };
        assert(r@ =~= Seq::<ImportEntryView>::empty());
        r
    }

    /// The entries, in the order of their module paths.
    pub fn values(&self) -> (r: &Vec<ImportEntry>)
        ensures
            r@.len() == self@.len(),
            forall|i: int| 0 <= i < r@.len() ==> r@[i]@ == self@[i],
    {
        &self.entries
    }

    /// The number of entries.
    pub fn len(&self) -> (r: usize)
        ensures
            r == self@.len(),
    {
        self.entries.len()
    }

    /// A copy of this map.
    pub fn duplicate(&self) -> (r: Self)
        ensures
            r@ == self@,
    {
        let mut out: Vec<ImportEntry> = Vec::new();
        let mut i: usize = 0;
        while i < self.entries.len()
            invariant
                i <= self.entries@.len(),
                out@.len() == i,
                forall|k: int| 0 <= k < i ==> out@[k]@ == self.entries@[k]@,
            decreases self.entries@.len() - i,
        {
            out.push(self.entries[i].duplicate());
            i += 1;
        }
        let r = ImportMap { entries: out };
        assert(r@ =~= self@);
        r
    }

    /// The slot of `path`.
    fn slot(&self, path: &str) -> (j: usize)
        ensures
            j == entry_slot(self@, path@),
            j <= self@.len(),
    {
        let mut j: usize = self.entries.len();
        assert(self@.subrange(0, j as int) =~= self@);
        while j > 0 && !same_text(self.entries[j - 1].module.as_str(), path) && !text_less(
            self.entries[j - 1].module.as_str(),
            path,
        )
            invariant
                j <= self.entries@.len(),
                entry_slot(self@, path@) == entry_slot(self@.subrange(0, j as int), path@),
            decreases j,
        {
            assert(self@.subrange(0, j as int).drop_last() =~= self@.subrange(0, j - 1));
            assert(self@.subrange(0, j as int).last() == self.entries@[j - 1]@);
            j -= 1;
        }
        proof {
            if j > 0 {
                assert(self@.subrange(0, j as int).last() == self.entries@[j - 1]@);
            }
        }
        j
    }

    /// Gives `path` an entry unless it has one, and returns the entry's index.
    pub fn ensure_entry(&mut self, path: &str) -> (i: usize)
        ensures
            final(self)@ == with_import(old(self)@, path@),
            i == entry_index(old(self)@, path@),
            i < final(self)@.len(),
            final(self)@[i as int].module == path@,
            old(self).wf() ==> final(self).wf(),
    {
        proof {
            if self.wf() {
                lemma_with_entry_sorted(self@, fresh_entry(path@));
            }
        }
        let j = self.slot(path);
        if j > 0 && same_text(self.entries[j - 1].module.as_str(), path) {
            j - 1
        } else {
            let alias = module_alias(path);
            let entry = ImportEntry::new(path, alias);
            self.entries.insert(j, entry);
            assert(self@ =~= old(self)@.insert(j as int, fresh_entry(path@)));
            j
        }
    }

    /// Merges one entry into the map.
    pub fn merge_entry(&mut self, entry: &ImportEntry)
        ensures
            final(self)@ == with_merged_entry(old(self)@, entry@),
            old(self).wf() ==> final(self).wf(),
    {
        proof {
            if self.wf() {
                lemma_with_merged_entry_sorted(self@, entry@);
            }
        }
        let j = self.slot(entry.module.as_str());
        if j > 0 && same_text(
            self.entries[j - 1].module.as_str(),
            entry.module.as_str(),
        ) {
            let mut existing = self.entries.remove(j - 1);
            insert_all_texts(&mut existing.values, &entry.values);
            insert_all_texts(&mut existing.types, &entry.types);
            self.entries.insert(j - 1, existing);
            assert(self@ =~= with_merged_entry(old(self)@, entry@));
        } else {
            self.entries.insert(j, entry.duplicate());
            assert(self@ =~= old(self)@.insert(j as int, entry@));
        }
    }
}

/// Gives `module` an import unless it has one, and returns the alias
/// under which generated code refers to the module.
pub fn ensure_import(imports: &mut ImportMap, module: &str) -> (r: String)
    ensures
        final(imports)@ == with_import(old(imports)@, module@),
        r@ == import_alias(old(imports)@, module@),
        old(imports).wf() ==> final(imports).wf(),
{
    let i = imports.ensure_entry(module);
    imports.values()[i].alias.clone()
}

/// Merges the entries of `src` into `target`.
pub fn merge_imports(target: &mut ImportMap, src: &ImportMap)
    ensures
        final(target)@ == merged_imports(old(target)@, src@),
        old(target).wf() ==> final(target).wf(),
{
    let entries = src.values();
    let mut i: usize = 0;
    assert(src@.subrange(0, 0) =~= Seq::<ImportEntryView>::empty());
    while i < entries.len()
        invariant
            old(target).wf() ==> target.wf(),
            entries@.len() == src@.len(),
            forall|k: int| 0 <= k < entries@.len() ==> entries@[k]@ == src@[k],
            i <= entries@.len(),
            target@ == merged_imports(old(target)@, src@.subrange(0, i as int)),
        decreases entries@.len() - i,
    {
        assert(src@.subrange(0, i + 1).drop_last() =~= src@.subrange(0, i as int));
        target.merge_entry(&entries[i]);
        i += 1;
    }
    assert(src@.subrange(0, i as int) =~= src@);
}

/// Imports a type and its constructors without qualification.
pub fn add_type_import(
    imports: &mut ImportMap,
    module: &str,
    ty_name: &str,
    constructors: &Vec<String>,
)
    ensures
        final(imports)@ == with_type_import(
            old(imports)@,
            module@,
            ty_name@,
            texts(constructors@),
        ),
        old(imports).wf() ==> final(imports).wf(),
{
    let i = imports.ensure_entry(module);
    let ghost s1 = imports@;
    let mut entry = imports.entries.remove(i);
    insert_text(&mut entry.types, String::from_str(ty_name));
    insert_all_texts(&mut entry.values, constructors);
    imports.entries.insert(i, entry);
    assert(imports@ =~= with_type_import(
        old(imports)@,
        module@,
        ty_name@,
        texts(constructors@),
    ));
    proof {
        if old(imports).wf() {
            lemma_same_paths_sorted(s1, imports@);
        }
    }
}

/// Fails where an entry binds the alias `option` to a module other than
/// `gleam/option`, naming the first such module.
pub fn ensure_no_option_alias_conflict(imports: &ImportMap) -> (r: Result<(), GlossError>)
    ensures
        match option_alias_conflict(imports@) {
            Some(module) => r matches Err(GlossError::GenerationError(m)) && m@
                == option_alias_conflict_message(module),
            None => r is Ok,
        },
{
    let entries = imports.values();
    let n = entries.len();
    let mut i: usize = 0;
    assert(imports@.subrange(0, n as int) =~= imports@);
    while i < n
        invariant
            n == entries@.len(),
            entries@.len() == imports@.len(),
            forall|k: int| 0 <= k < entries@.len() ==> entries@[k]@ == imports@[k],
            i <= n,
            option_alias_conflict(imports@) == option_alias_conflict(
                imports@.subrange(i as int, n as int),
            ),
        decreases n - i,
    {
        let entry = &entries[i];
        assert(imports@.subrange(i as int, n as int)[0] == entry@);
        if same_text(entry.alias.as_str(), "option") && !same_text(
            entry.module.as_str(),
            "gleam/option",
        ) {
            let mut m = String::from_str(
                "Cannot generate code because import alias `option` is already used for `",
            );
            m.append(entry.module.as_str());
            m.append("`. Rename the conflicting import or its alias before running gloss.");
            return Err(GlossError::GenerationError(m));
        }
        assert(imports@.subrange(i as int, n as int).drop_first() =~= imports@.subrange(
            i + 1,
            n as int,
        ));
        i += 1;
    }
    Ok(())
}

/// An entry that binds the alias `option` to a module other than
/// `gleam/option` is a conflict, and the conflict that is reported names
/// such a module.
pub proof fn lemma_alias_conflict_found(s: Seq<ImportEntryView>, i: int)
    requires
        0 <= i < s.len(),
        s[i].alias == "option"@,
        s[i].module != "gleam/option"@,
    ensures
        option_alias_conflict(s) matches Some(module) && module != "gleam/option"@ && exists|k: int|
            0 <= k < s.len() && s[k].module == module && s[k].alias == "option"@,
    decreases s.len(),
{
    if s[0].alias == "option"@ && s[0].module != "gleam/option"@ {
    } else {
        lemma_alias_conflict_found(s.drop_first(), i - 1);
        let module = option_alias_conflict(s.drop_first())->0;
        let k = choose|k: int|
            0 <= k < s.drop_first().len() && s.drop_first()[k].module == module
                && s.drop_first()[k].alias == "option"@;
        assert(s[k + 1].module == module && s[k + 1].alias == "option"@);
    }
}

/// Once a module is imported it has an entry.
pub proof fn lemma_with_import_has_entry(s: Seq<ImportEntryView>, path: Seq<char>)
    ensures
        0 <= entry_index(s, path) < with_import(s, path).len(),
        with_import(s, path)[entry_index(s, path)].module == path,
        has_entry(s, path) ==> with_import(s, path) == s,
        !has_entry(s, path) ==> with_import(s, path)[entry_index(s, path)] == fresh_entry(path),
{
    lemma_entry_slot_bounds(s, path);
}

/// A module that has no entry yet is imported under the alias derived
/// from its path.
pub proof fn lemma_fresh_alias(s: Seq<ImportEntryView>, path: Seq<char>)
    requires
        !has_entry(s, path),
    ensures
        import_alias(s, path) == module_alias_text(path),
        with_import(s, path) == s.insert(entry_slot(s, path), fresh_entry(path)),
{
    lemma_entry_slot_bounds(s, path);
}

/// The alias derived from a path of letters and digits alone is the path.
pub proof fn lemma_alias_of_plain_path(path: Seq<char>)
    requires
        path.len() > 0,
        forall|i: int| 0 <= i < path.len() ==> char_is_alphanumeric(#[trigger] path[i]),
    ensures
        module_alias_text(path) == path,
{
    assert(module_alias_text(path) =~= path);
}

/// The slot of a path lies within the entries.
pub proof fn lemma_entry_slot_bounds(s: Seq<ImportEntryView>, path: Seq<char>)
    ensures
        0 <= entry_slot(s, path) <= s.len(),
    decreases s.len(),
{
    if s.len() > 0 && !(s.last().module == path || text_lt(s.last().module, path)) {
        lemma_entry_slot_bounds(s.drop_last(), path);
    }
}

/// What stands at or behind the slot of a path is neither the path nor
/// before it, and what stands right before the slot is the path or before it.
pub proof fn lemma_entry_slot(s: Seq<ImportEntryView>, path: Seq<char>)
    ensures
        0 <= entry_slot(s, path) <= s.len(),
        forall|k: int|
            entry_slot(s, path) <= k < s.len() ==> (#[trigger] s[k]).module != path && !text_lt(
                s[k].module,
                path,
            ),
        entry_slot(s, path) > 0 ==> s[entry_slot(s, path) - 1].module == path || text_lt(
            s[entry_slot(s, path) - 1].module,
            path,
        ),
    decreases s.len(),
{
    if s.len() > 0 && !(s.last().module == path || text_lt(s.last().module, path)) {
        lemma_entry_slot(s.drop_last(), path);
        assert forall|k: int| entry_slot(s, path) <= k < s.len() implies (#[trigger] s[k]).module
            != path && !text_lt(s[k].module, path) by {
            if k < s.len() - 1 {
                assert(s.drop_last()[k] == s[k]);
            }
        }
        if entry_slot(s, path) > 0 {
            assert(s.drop_last()[entry_slot(s, path) - 1] == s[entry_slot(s, path) - 1]);
        }
    }
}

/// Putting an entry at the slot of its path keeps the entries in order.
pub proof fn lemma_with_entry_sorted(s: Seq<ImportEntryView>, e: ImportEntryView)
    requires
        sorted_by_path(s),
    ensures
        sorted_by_path(with_entry(s, e)),
{
    lemma_entry_slot(s, e.module);
    let j = entry_slot(s, e.module);
    let r = with_entry(s, e);
    if !has_entry(s, e.module) {
        assert forall|a: int, b: int| 0 <= a < b < r.len() implies text_lt(
            (#[trigger] r[a]).module,
            (#[trigger] r[b]).module,
        ) by {
            if b < j {
                assert(text_lt(s[a].module, s[b].module));
            } else if b == j {
                if a < j - 1 {
                    assert(text_lt(s[a].module, s[j - 1].module));
                    crate::ordered::lemma_text_lt_transitive(
                        s[a].module,
                        s[j - 1].module,
                        e.module,
                    );
                }
            } else if a == j {
                crate::ordered::lemma_text_lt_total(s[b - 1].module, e.module);
            } else if a < j {
                assert(text_lt(s[a].module, s[b - 1].module));
            } else {
                assert(text_lt(s[a - 1].module, s[b - 1].module));
            }
        }
    }
}

/// Entries with the same module paths in the same places are in order
/// together.
pub proof fn lemma_same_paths_sorted(s: Seq<ImportEntryView>, t: Seq<ImportEntryView>)
    requires
        sorted_by_path(s),
        s.len() == t.len(),
        forall|k: int| 0 <= k < s.len() ==> (#[trigger] s[k]).module == t[k].module,
    ensures
        sorted_by_path(t),
{
    assert forall|a: int, b: int| 0 <= a < b < t.len() implies text_lt(
        (#[trigger] t[a]).module,
        (#[trigger] t[b]).module,
    ) by {
        assert(text_lt(s[a].module, s[b].module));
    }
}

/// Merging an entry in keeps the entries in order.
pub proof fn lemma_with_merged_entry_sorted(s: Seq<ImportEntryView>, e: ImportEntryView)
    requires
        sorted_by_path(s),
    ensures
        sorted_by_path(with_merged_entry(s, e)),
{
    if has_entry(s, e.module) {
        lemma_entry_slot(s, e.module);
        lemma_same_paths_sorted(s, with_merged_entry(s, e));
    } else {
        lemma_with_entry_sorted(s, e);
    }
}

} // verus!
