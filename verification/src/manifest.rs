//! The check that the project's manifest names the packages that the
//! backends in use depend on.

use crate::backend::EncoderBackend;
use crate::error::GlossError;
use crate::text::{join, joined, texts};
use vstd::prelude::*;
use vstd::string::*;

verus! {

/// A parsed TOML document, as the `toml` crate holds it.
#[verifier::external_type_specification]
#[verifier::external_body]
pub struct ExTomlValue(toml::Value);

/// The tables of a document: for each key of the document whose value is a
/// table, the keys of that table.
pub uninterp spec fn document_tables(doc: toml::Value) -> Map<Seq<char>, Set<Seq<char>>>;

/// What `toml::from_str` makes of a text: the tables of the document it
/// parses to, or the text of the error it reports.
pub uninterp spec fn parsed_manifest(content: Seq<char>) -> Result<
    Map<Seq<char>, Set<Seq<char>>>,
    Seq<char>,
>;

/// Calls `toml::from_str` for a `toml::Value`. The outcome depends on the
/// text alone: for a document, its tables are those that the text parses
/// to; for an error, its displayed text is the one that the text leads to.
#[verifier::external_body]
pub(crate) fn parse_manifest(content: &str) -> (r: Result<toml::Value, String>)
    ensures
        match r {
            Ok(doc) => parsed_manifest(content@) == Ok::<
                Map<Seq<char>, Set<Seq<char>>>,
                Seq<char>,
            >(document_tables(doc)),
            Err(m) => parsed_manifest(content@) == Err::<
                Map<Seq<char>, Set<Seq<char>>>,
                Seq<char>,
            >(m@),
        },
{
    toml::from_str::<toml::Value>(content).map_err(|e| e.to_string())
}

/// Whether the tables hold `key` in the table `section`.
pub open spec fn tables_hold(
    tables: Map<Seq<char>, Set<Seq<char>>>,
    section: Seq<char>,
    key: Seq<char>,
) -> bool {
    tables.dom().contains(section) && tables[section].contains(key)
}

/// Calls `toml::Value::get` with the section's name, `Value::as_table` on
/// what it finds, and `Map::contains_key` with the key: true exactly where
/// the document holds a table under `section` and that table holds `key`.
#[verifier::external_body]
pub(crate) fn table_contains(doc: &toml::Value, section: &str, key: &str) -> (r: bool)
    ensures
        r == tables_hold(document_tables(*doc), section@, key@),
{
    doc.get(section).and_then(|entry| entry.as_table()).map_or(false, |table| table.contains_key(key))
}

/// Whether the manifest names a package as a dependency or as a
/// development dependency.
pub open spec fn names_package(tables: Map<Seq<char>, Set<Seq<char>>>, package: Seq<char>) -> bool {
    tables_hold(tables, "dependencies"@, package) || tables_hold(
        tables,
        "dev-dependencies"@,
        package,
    )
}

/// The first of the packages that the manifest does not name.
pub open spec fn first_missing(
    required: Seq<Seq<char>>,
    tables: Map<Seq<char>, Set<Seq<char>>>,
) -> Option<Seq<char>>
    decreases required.len(),
{
    if required.len() == 0 {
        None
    } else if !names_package(tables, required[0]) {
        Some(required[0])
    } else {
        first_missing(required.drop_first(), tables)
    }
}

/// The message that asks for a missing package.
pub open spec fn missing_package_message(package: Seq<char>) -> Seq<char> {
    "Generating encoders requires the `"@ + package + "` dependency. Add `"@ + package
        + " = \"~> 1\"` (or your preferred version) to gleam.toml."@
}

/// Checks that the document names each of the packages as a dependency or
/// a development dependency, and names the first that it lacks.
pub fn check_dependencies(required: &Vec<String>, doc: &toml::Value) -> (r: Result<(), GlossError>)
    ensures
        match first_missing(texts(required@), document_tables(*doc)) {
            Some(package) => r matches Err(GlossError::GenerationError(m)) && m@
                == missing_package_message(package),
            None => r is Ok,
        },
{
    let n = required.len();
    let mut i: usize = 0;
    assert(texts(required@).subrange(0, n as int) =~= texts(required@));
    while i < n
        invariant
            n == required@.len(),
            i <= n,
            first_missing(texts(required@), document_tables(*doc)) == first_missing(
                texts(required@).subrange(i as int, n as int),
                document_tables(*doc),
            ),
        decreases n - i,
    {
        let package = required[i].as_str();
        assert(texts(required@).subrange(i as int, n as int)[0] == package@);
        let present = table_contains(doc, "dependencies", package) || table_contains(
            doc,
            "dev-dependencies",
            package,
        );
        if !present {
            let mut m = String::from_str("Generating encoders requires the `");
            m.append(package);
            m.append("` dependency. Add `");
            m.append(package);
            m.append(" = \"~> 1\"` (or your preferred version) to gleam.toml.");
            return Err(GlossError::GenerationError(m));
        }
        assert(texts(required@).subrange(i as int, n as int).drop_first() =~= texts(
            required@,
        ).subrange(i + 1, n as int));
        i += 1;
    }
    Ok(())
}

/// The project's manifest: where it stands, and its text where the file
/// is there.
#[derive(Debug, Clone)]
pub struct Manifest {
    pub path: String,
    pub content: Option<String>,
}

/// Why a backend's packages are not all there, if they are not: the
/// manifest is missing, it does not parse, or it lacks a package. A
/// backend that needs no package passes.
pub open spec fn dependency_failure(
    required: Seq<Seq<char>>,
    manifest_path: Seq<char>,
    content: Option<Seq<char>>,
) -> Option<Seq<char>> {
    if required.len() == 0 {
        None
    } else {
        match content {
            None => Some(
                "Generating encoders requires the `"@ + joined(required, "`, `"@)
                    + "` dependency, but "@ + manifest_path + " was not found"@,
            ),
            Some(text) => match parsed_manifest(text) {
                Err(e) => Some("Failed to parse "@ + manifest_path + ": "@ + e),
                Ok(tables) => match first_missing(required, tables) {
                    Some(package) => Some(missing_package_message(package)),
                    None => None,
                },
            },
        }
    }
}

/// What a check returned is what `failure` says.
pub open spec fn check_agrees(r: Result<(), GlossError>, failure: Option<Seq<char>>) -> bool {
    match failure {
        Some(m) => r matches Err(GlossError::GenerationError(x)) && x@ == m,
        None => r is Ok,
    }
}

/// Checks the packages that were asked of a backend against the manifest.
pub fn ensure_packages(required: &Vec<String>, manifest: &Manifest) -> (r: Result<(), GlossError>)
    ensures
        check_agrees(
            r,
            dependency_failure(
                texts(required@),
                manifest.path@,
                crate::text::opt_text(manifest.content),
            ),
        ),
{
    if required.len() == 0 {
        return Ok(());
    }
    match &manifest.content {
        None => {
            let mut m = String::from_str("Generating encoders requires the `");
            m.append(join(required, "`, `").as_str());
            m.append("` dependency, but ");
            m.append(manifest.path.as_str());
            m.append(" was not found");
            Err(GlossError::GenerationError(m))
        },
        Some(text) => match parse_manifest(text.as_str()) {
            Err(e) => {
                let mut m = String::from_str("Failed to parse ");
                m.append(manifest.path.as_str());
                m.append(": ");
                m.append(e.as_str());
                Err(GlossError::GenerationError(m))
            },
            Ok(doc) => check_dependencies(required, &doc),
        },
    }
}

/// Checks that the manifest names the packages that a backend depends on.
/// Of a backend that does not say what it depends on, the outcome is that
/// of the packages it returns.
pub fn ensure_backend_dependencies<B: EncoderBackend>(manifest: &Manifest, backend: &B) -> (r: Result<
    (),
    GlossError,
>)
    ensures
        backend.is_specified() ==> check_agrees(
            r,
            dependency_failure(
                backend.required_packages_text(),
                manifest.path@,
                crate::text::opt_text(manifest.content),
            ),
        ),
        exists|required: Seq<Seq<char>>| #[trigger]
            check_agrees(
                r,
                dependency_failure(required, manifest.path@, crate::text::opt_text(manifest.content)),
            ),
        r matches Err(e) ==> e is GenerationError,
{
    let required = backend.required_packages();
    let r = ensure_packages(&required, manifest);
    assert(check_agrees(
        r,
        dependency_failure(
            texts(required@),
            manifest.path@,
            crate::text::opt_text(manifest.content),
        ),
    ));
    r
}

/// A package that the manifest names neither as a dependency nor as a
/// development dependency fails the check of every backend that needs it,
/// with a message that names a package the manifest lacks.
pub proof fn lemma_missing_dependency_fails(
    required: Seq<Seq<char>>,
    tables: Map<Seq<char>, Set<Seq<char>>>,
    i: int,
)
    requires
        0 <= i < required.len(),
        !names_package(tables, required[i]),
    ensures
        first_missing(required, tables) matches Some(package) && !names_package(tables, package)
            && required.contains(package),
    decreases required.len(),
{
    if names_package(tables, required[0]) {
        lemma_missing_dependency_fails(required.drop_first(), tables, i - 1);
        let package = first_missing(required.drop_first(), tables)->0;
        let k = choose|k: int|
            0 <= k < required.drop_first().len() && required.drop_first()[k] == package;
        assert(required[k + 1] == package);
    } else {
        assert(required[0] == required[0]);
    }
}

} // verus!
