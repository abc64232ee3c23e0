//! What is to be written where: the destination of each file, the files
//! of a unit that stands apart from the source, and the text of a source
//! file with generated code appended.

use crate::imports::{merge_imports, merged_imports};
use crate::naming::{applied_file_pattern, apply_file_pattern};
use crate::output::{
    code_views, combined_file, decoder_file, encoder_file, GeneratedCode, GeneratedCodeView,
};
use crate::parser::{begins_with, begins_with_pair, PathMode};
use crate::project::group_views;
use crate::text::{
    chars_of, find_from, matches_at, opt_text, skip_leading, string_of_range, trim, trimmed,
    without_leading,
};
use vstd::prelude::*;
use vstd::string::*;

verus! {

/// The mode that a directory string names, and the directory without its
/// mode prefix: behind `@/`, `@` and `/` the project root, behind `./` the
/// file's directory, each prefix taken off as often as it stands in front;
/// else the given mode and the string as it is.
pub open spec fn normalized_directory(dir: Seq<char>, default_mode: PathMode) -> (PathMode, Seq<char>) {
    if begins_with_pair(dir, '@', '/') {
        (PathMode::ProjectRelative, without_leading(dir, seq!['@', '/']))
    } else if begins_with(dir, '@') {
        (PathMode::ProjectRelative, without_leading(without_leading(dir, seq!['@']), seq!['/']))
    } else if begins_with(dir, '/') {
        (PathMode::ProjectRelative, without_leading(dir, seq!['/']))
    } else if begins_with_pair(dir, '.', '/') {
        (PathMode::FileRelative, without_leading(dir, seq!['.', '/']))
    } else {
        (default_mode, dir)
    }
}

/// The characters `a`, `b`.
fn pair_of(a: char, b: char) -> (r: Vec<char>)
    ensures
        r@ == seq![a, b],
{
    let mut v: Vec<char> = Vec::new();
    v.push(a);
    v.push(b);
    assert(v@ =~= seq![a, b]);
    v
}

/// The character `a`.
fn single(a: char) -> (r: Vec<char>)
    ensures
        r@ == seq![a],
{
    let mut v: Vec<char> = Vec::new();
    v.push(a);
    assert(v@ =~= seq![a]);
    v
}

/// Splits a directory string into its mode and the directory itself.
pub fn normalize_directory(dir: &str, default_mode: PathMode) -> (r: (PathMode, String))
    ensures
        (r.0, r.1@) == normalized_directory(dir@, default_mode),
{
    let v = chars_of(dir);
    let n = v.len();
    assert(v@.subrange(0, n as int) =~= v@);
    if n > 1 && v[0] == '@' && v[1] == '/' {
        let i = skip_leading(&v, &pair_of('@', '/'), 0);
        (PathMode::ProjectRelative, string_of_range(&v, i, n))
    } else if n > 0 && v[0] == '@' {
        let i = skip_leading(&v, &single('@'), 0);
        let j = skip_leading(&v, &single('/'), i);
        (PathMode::ProjectRelative, string_of_range(&v, j, n))
    } else if n > 0 && v[0] == '/' {
        let i = skip_leading(&v, &single('/'), 0);
        (PathMode::ProjectRelative, string_of_range(&v, i, n))
    } else if n > 1 && v[0] == '.' && v[1] == '/' {
        let i = skip_leading(&v, &pair_of('.', '/'), 0);
        (PathMode::FileRelative, string_of_range(&v, i, n))
    } else {
        (default_mode, String::from_str(dir))
    }
}

/// Where a file goes: below the project root or below the directory of
/// the source file, in the given directory where it is not empty.
#[derive(Debug, Clone, PartialEq, Eq)]
pub struct OutputLocation {
    pub mode: PathMode,
    pub directory: String,
    pub filename: String,
}

/// The mathematical value of an [`OutputLocation`].
pub struct OutputLocationView {
    pub mode: PathMode,
    pub directory: Seq<char>,
    pub filename: Seq<char>,
}

impl View for OutputLocation {
    type V = OutputLocationView;

    open spec fn view(&self) -> OutputLocationView {
        OutputLocationView {
            mode: self.mode,
            directory: self.directory@,
            filename: self.filename@,
        }
    }
}

/// The place of a file: with an output directory, that directory under its
/// mode; without one, the directory of the source file.
pub open spec fn output_location(
    output_dir: Option<Seq<char>>,
    path_mode: PathMode,
    filename: Seq<char>,
) -> OutputLocationView {
    match output_dir {
        Some(dir) => OutputLocationView {
            mode: normalized_directory(dir, path_mode).0,
            directory: normalized_directory(dir, path_mode).1,
            filename,
        },
        None => OutputLocationView {
            mode: PathMode::FileRelative,
            directory: Seq::empty(),
            filename,
        },
    }
}

/// The place of a file.
pub fn resolve_output_path(output_dir: &Option<String>, path_mode: PathMode, filename: &str) -> (r:
    OutputLocation)
    ensures
        r@ == output_location(opt_text(*output_dir), path_mode, filename@),
{
    match output_dir {
        Some(dir) => {
            let (mode, directory) = normalize_directory(dir.as_str(), path_mode);
            OutputLocation { mode, directory, filename: String::from_str(filename) }
        },
        None => OutputLocation {
            mode: PathMode::FileRelative,
            directory: String::new(),
            filename: String::from_str(filename),
        },
    }
}

/// A file to write: its place and its text.
#[derive(Debug, Clone, PartialEq, Eq)]
pub struct OutputFile {
    pub location: OutputLocation,
    pub content: String,
}

/// The mathematical value of an [`OutputFile`].
pub struct OutputFileView {
    pub location: OutputLocationView,
    pub content: Seq<char>,
}

impl View for OutputFile {
    type V = OutputFileView;

    open spec fn view(&self) -> OutputFileView {
        OutputFileView { location: self.location@, content: self.content@ }
    }
}

/// The views of a sequence of files.
pub open spec fn file_views(files: Seq<OutputFile>) -> Seq<OutputFileView> {
    Seq::new(files.len(), |i: int| files[i]@)
}

/// A file of a unit: its text at the place that the unit's output
/// configuration and the given naming pattern give it.
pub open spec fn unit_file(
    g: GeneratedCodeView,
    pattern: Seq<char>,
    module_name: Seq<char>,
    content: Seq<char>,
) -> OutputFileView {
    OutputFileView {
        location: output_location(
            g.output_config.directory,
            g.path_mode,
            applied_file_pattern(pattern, module_name),
        ),
        content,
    }
}

/// The files of a unit that stands apart from the source: the decoder
/// file and the encoder file where the two are kept apart, each unless its
/// text is blank; else the combined file.
pub open spec fn unit_files(g: GeneratedCodeView, module_name: Seq<char>) -> Seq<OutputFileView> {
    if g.output_config.separate_encoder_decoder {
        let decoders = decoder_file(g, true, true);
        let encoders = encoder_file(g, true, true);
        let first = if trimmed(decoders).len() > 0 {
            seq![unit_file(g, g.output_config.decode_module_naming, module_name, decoders)]
        } else {
            Seq::empty()
        };
        if trimmed(encoders).len() > 0 {
            first.push(unit_file(g, g.output_config.encode_module_naming, module_name, encoders))
        } else {
            first
        }
    } else {
        seq![
            unit_file(
                g,
                g.output_config.generated_file_naming,
                module_name,
                combined_file(g, true, true),
            ),
        ]
    }
}

/// One file of a unit.
fn make_unit_file(group: &GeneratedCode, pattern: &str, module_name: &str, content: String) -> (r:
    OutputFile)
    ensures
        r@ == unit_file(group@, pattern@, module_name@, content@),
{
    let filename = apply_file_pattern(pattern, module_name);
    OutputFile {
        location: resolve_output_path(
            &group.output_config.directory,
            group.path_mode,
            filename.as_str(),
        ),
        content,
    }
}

/// The files of a unit that stands apart from the source.
pub fn group_files(group: &GeneratedCode, module_name: &str) -> (r: Vec<OutputFile>)
    ensures
        file_views(r@) == unit_files(group@, module_name@),
{
    let mut files: Vec<OutputFile> = Vec::new();
    if group.output_config.separate_encoder_decoder {
        let decoders = group.get_decoder_code(true, true);
        if trim(decoders.as_str()).as_str().unicode_len() > 0 {
            files.push(
                make_unit_file(
                    group,
                    group.output_config.decode_module_naming.as_str(),
                    module_name,
                    decoders,
                ),
            );
        }
        let encoders = group.get_encoder_code(true, true);
        if trim(encoders.as_str()).as_str().unicode_len() > 0 {
            files.push(
                make_unit_file(
                    group,
                    group.output_config.encode_module_naming.as_str(),
                    module_name,
                    encoders,
                ),
            );
        }
    } else {
        let combined = group.get_combined_code(true, true);
        files.push(
            make_unit_file(
                group,
                group.output_config.generated_file_naming.as_str(),
                module_name,
                combined,
            ),
        );
    }
    assert(file_views(files@) =~= unit_files(group@, module_name@));
    files
}

/// The units that go into the source file taken together: the first
/// unit with the types of the others behind its own and their imports
/// merged into its own.
pub open spec fn inline_unit(first: GeneratedCodeView, others: Seq<GeneratedCodeView>) -> GeneratedCodeView
    decreases others.len(),
{
    if others.len() == 0 {
        first
    } else {
        let head = inline_unit(first, others.drop_last());
        GeneratedCodeView {
            types: head.types + others.last().types,
            output_config: head.output_config,
            path_mode: head.path_mode,
            custom_imports: merged_imports(head.custom_imports, others.last().custom_imports),
            encoder_backends: head.encoder_backends,
            decoder_uses_option_helpers: head.decoder_uses_option_helpers,
        }
    }
}

/// Takes the units that go into the source file together; nothing where
/// there is none.
pub fn merge_inline_groups(groups: &Vec<GeneratedCode>) -> (r: Option<GeneratedCode>)
    ensures
        match r {
            Some(g) => groups@.len() > 0 && g@ == inline_unit(
                groups@[0]@,
                group_views(groups@).subrange(1, groups@.len() as int),
            ),
            None => groups@.len() == 0,
        },
{
    if groups.len() == 0 {
        return None;
    }
    let mut combined = groups[0].duplicate();
    let ghost all = group_views(groups@);
    let mut i: usize = 1;
    assert(all.subrange(1, 1) =~= Seq::<GeneratedCodeView>::empty());
    while i < groups.len()
        invariant
            1 <= i <= groups@.len(),
            all == group_views(groups@),
            combined@ == inline_unit(groups@[0]@, all.subrange(1, i as int)),
        decreases groups@.len() - i,
    {
        assert(all.subrange(1, i + 1).drop_last() =~= all.subrange(1, i as int));
        assert(all.subrange(1, i + 1).last() == groups@[i as int]@);
        let other = groups[i].duplicate();
        let mut more = other.types;
        let ghost own = combined@.types;
        let ghost added = code_views(more@);
        combined.types.append(&mut more);
        assert(code_views(combined.types@) =~= own + added);
        merge_imports(&mut combined.custom_imports, &other.custom_imports);
        i += 1;
    }
    Some(combined)
}

/// The line that separates a source from the code appended to it.
pub open spec fn inline_marker() -> Seq<char> {
    "\n\n// ========== Generated by gloss ==========\n\n"@
}

/// The first index at or after `from` where `pat` occurs in `s`.
pub open spec fn first_match(s: Seq<char>, pat: Seq<char>, from: int) -> Option<int>
    decreases s.len() + 1 - from,
{
    if from < 0 || from > s.len() {
        None
    } else if matches_at(s, pat, from) {
        Some(from)
    } else {
        first_match(s, pat, from + 1)
    }
}

/// The first match is a match, and nothing before it is one.
pub proof fn lemma_first_match(s: Seq<char>, pat: Seq<char>, from: int)
    requires
        0 <= from,
    ensures
        match first_match(s, pat, from) {
            Some(i) => from <= i && matches_at(s, pat, i) && forall|k: int|
                from <= k < i ==> !matches_at(s, pat, k),
            None => forall|k: int| from <= k ==> !matches_at(s, pat, k),
        },
    decreases s.len() + 1 - from,
{
    if from <= s.len() && !matches_at(s, pat, from) {
        lemma_first_match(s, pat, from + 1);
    }
}

/// The text of a source file with generated code: what stands before the
/// first marker, or all of the source where it holds none, then the marker
/// and the code.
pub open spec fn inline_text(existing: Seq<char>, code: Seq<char>) -> Seq<char> {
    match first_match(existing, inline_marker(), 0) {
        Some(i) => existing.subrange(0, i) + inline_marker() + code,
        None => existing + inline_marker() + code,
    }
}

/// The text of a source file with the generated code in place of what was
/// appended before.
pub fn inline_content(existing: &str, code: &str) -> (r: String)
    ensures
        r@ == inline_text(existing@, code@),
{
    let marker = "\n\n// ========== Generated by gloss ==========\n\n";
    let v = chars_of(existing);
    let m = chars_of(marker);
    proof {
        lemma_first_match(v@, m@, 0);
    }
    let mut out = match find_from(&v, &m, 0) {
        Some(i) => string_of_range(&v, 0, i),
        None => String::from_str(existing),
    };
    out.append(marker);
    out.append(code);
    out
}

/// What is to be written for one source file: the files that stand apart
/// from it, and the code that goes into the source file itself.
#[derive(Debug, Clone)]
pub struct WritePlan {
    pub files: Vec<OutputFile>,
    pub inline_code: Option<String>,
}

/// The files of all units that stand apart from the source, in order.
pub open spec fn planned_files(groups: Seq<GeneratedCodeView>, module_name: Seq<char>) -> Seq<
    OutputFileView,
>
    decreases groups.len(),
{
    if groups.len() == 0 {
        Seq::empty()
    } else {
        let head = planned_files(groups.drop_last(), module_name);
        if groups.last().output_config.separate_files {
            head + unit_files(groups.last(), module_name)
        } else {
            head
        }
    }
}

/// The units in order that go into the source.
pub open spec fn inline_list(groups: Seq<GeneratedCodeView>) -> Seq<GeneratedCodeView>
    decreases groups.len(),
{
    if groups.len() == 0 {
        Seq::empty()
    } else {
        let head = inline_list(groups.drop_last());
        if groups.last().output_config.separate_files {
            head
        } else {
            head.push(groups.last())
        }
    }
}

/// The code that goes into the source file: the combined text of the
/// inline units taken together, without imports for the types themselves.
pub open spec fn planned_inline(groups: Seq<GeneratedCodeView>) -> Option<Seq<char>> {
    let inline = inline_list(groups);
    if inline.len() == 0 {
        None
    } else {
        Some(
            combined_file(
                inline_unit(inline[0], inline.subrange(1, inline.len() as int)),
                true,
                false,
            ),
        )
    }
}

/// Plans what is to be written for the units of one source file.
pub fn plan_outputs(groups: &Vec<GeneratedCode>, module_name: &str) -> (r: WritePlan)
    ensures
        file_views(r.files@) == planned_files(group_views(groups@), module_name@),
        opt_text(r.inline_code) == planned_inline(group_views(groups@)),
{
    let ghost all = group_views(groups@);
    let mut files: Vec<OutputFile> = Vec::new();
    let mut inline: Vec<GeneratedCode> = Vec::new();
    let mut i: usize = 0;
    assert(all.subrange(0, 0) =~= Seq::<GeneratedCodeView>::empty());
    assert(file_views(files@) =~= Seq::<OutputFileView>::empty());
    assert(group_views(inline@) =~= Seq::<GeneratedCodeView>::empty());
    while i < groups.len()
        invariant
            i <= groups@.len(),
            all == group_views(groups@),
            file_views(files@) == planned_files(all.subrange(0, i as int), module_name@),
            group_views(inline@) == inline_list(all.subrange(0, i as int)),
        decreases groups@.len() - i,
    {
        assert(all.subrange(0, i + 1).drop_last() =~= all.subrange(0, i as int));
        assert(all.subrange(0, i + 1).last() == groups@[i as int]@);
        let group = &groups[i];
        if group.output_config.separate_files {
            let mut more = group_files(group, module_name);
            let ghost own = file_views(files@);
            let ghost added = file_views(more@);
            files.append(&mut more);
            assert(file_views(files@) =~= own + added);
        } else {
            let ghost own = group_views(inline@);
            let copy = group.duplicate();
            inline.push(copy);
            assert(group_views(inline@) =~= own.push(group@));
        }
        i += 1;
    }
    assert(all.subrange(0, i as int) =~= all);
    let inline_code = match merge_inline_groups(&inline) {
        Some(combined) => Some(combined.get_combined_code(true, false)),
        None => None,
    };
    WritePlan { files, inline_code }
}

} // verus!
