//! The `init` command: its options, the name of the crate to fuzz, and the files written from
//! the templates.

use vstd::prelude::*;
use crate::cli::{underscored, underscored_crate_name};
use crate::text::{chars_of, concat, ends_with, push_char};

verus! {

/// What `init` is told on the command line.
pub struct Options {
    /// Target directory for init; the Tauri project found from the working directory otherwise
    pub directory: Option<String>,
    /// Name of the crate to be fuzzed; the package name of its manifest otherwise
    pub crate_name: Option<String>,
}

/// The `[package]` table of a Cargo manifest, as far as `init` reads it.
pub struct ManifestPackage {
    /// The package name
    pub name: Option<String>,
}

/// A Cargo manifest (`Cargo.toml`), as far as `init` reads it.
pub struct CargoManifest {
    /// The `[package]` table
    pub package: Option<ManifestPackage>,
}

#[verifier::external_type_specification]
#[verifier::external_body]
pub struct ExRenderError(handlebars::RenderError);

/// Why `init` could not prepare the fuzz directory.
#[derive(Debug)]
pub enum InitError {
    /// No crate name was given and the manifest names no package
    NoPackageName,
    /// A template could not be rendered
    Template(handlebars::RenderError),
}

/// The package name of a manifest, if it has one.
pub open spec fn manifest_package_name(manifest: Option<CargoManifest>) -> Option<Seq<char>> {
    match manifest {
        Some(m) => match m.package {
            Some(p) => match p.name {
                Some(n) => Some(n@),
                None => None,
            },
            None => None,
        },
        None => None,
    }
}

/// The name of the crate to fuzz: the one given on the command line, else the package name of
/// the project's manifest.
pub fn crate_name(given: Option<String>, manifest: Option<CargoManifest>) -> (r: Result<String, InitError>)
    ensures
        given matches Some(n) ==> (r matches Ok(s) && s@ == n@),
        given is None ==> match manifest_package_name(manifest) {
            Some(n) => r matches Ok(s) && s@ == n,
            None => r matches Err(InitError::NoPackageName),
        },
{
    match given {
        Some(n) => Ok(n),
        None => match manifest {
            Some(m) => match m.package {
                Some(p) => match p.name {
                    Some(n) => Ok(n),
                    None => Err(InitError::NoPackageName),
                },
                None => Err(InitError::NoPackageName),
            },
            None => Err(InitError::NoPackageName),
        },
    }
}

/// The values the templates are rendered with, for the crate `crate_name`.
pub fn template_data(crate_name: &str) -> (data: Vec<(String, String)>)
    ensures
        data.deep_view() == seq![("crate_name_underscored"@, underscored(crate_name@)), ("crate_name"@, crate_name@)],
{
    let mut data: Vec<(String, String)> = Vec::new();
    data.push((String::from_str("crate_name_underscored"), underscored_crate_name(crate_name)));
    data.push((String::from_str("crate_name"), String::from_str(crate_name)));
    assert(data.deep_view() =~= seq![("crate_name_underscored"@, underscored(crate_name@)), ("crate_name"@, crate_name@)]);
    data
}

/// The text that handlebars renders from `template` with the values `data` (each a name and
/// its value), HTML escaping turned off; none when rendering fails.
pub uninterp spec fn rendered_template(template: Seq<char>, data: Seq<(Seq<char>, Seq<char>)>) -> Option<Seq<char>>;

/// Renders `template` with `data` by handlebars' `Registry::render_template`, in a registry
/// whose escape function is `handlebars::no_escape`; the values are handed over as a map from
/// names to values. The contract claims only that the outcome depends on the template and the
/// data alone (the registry holds no helper and no other template): it is named, not stated.
#[verifier::external_body]
fn render_text(template: &str, data: &Vec<(String, String)>) -> (r: Result<String, handlebars::RenderError>)
    ensures
        r is Ok <==> rendered_template(template@, data.deep_view()) is Some,
        r matches Ok(s) ==> s@ == rendered_template(template@, data.deep_view())->0,
{
    let mut registry = handlebars::Handlebars::new();
    registry.register_escape_fn(handlebars::no_escape);
    let values: std::collections::BTreeMap<&str, &str> =
        data.iter().map(|(name, value)| (name.as_str(), value.as_str())).collect();
    registry.render_template(template, &values)
}

/// The extension that marks the manifest template, so that cargo does not take the template
/// folder for a crate.
pub open spec fn manifest_template_extension() -> Seq<char> {
    ".crate-manifest"@
}

/// Where a template at the relative path `p` is written: a file whose name ends with the
/// extension `.crate-manifest` after a non-empty stem gets the extension `.toml` instead; any
/// other path stays as it is. Paths use `/` between their components.
pub open spec fn renamed_output(p: Seq<char>) -> Seq<char> {
    let k = manifest_template_extension().len();
    if p.len() > k && p.subrange(p.len() - k, p.len() as int) == manifest_template_extension() && p[p.len() - k - 1] != '/' {
        p.subrange(0, p.len() - k) + ".toml"@
    } else {
        p
    }
}

/// Where the template at the relative path `relative` is written.
pub fn output_path(relative: &str) -> (r: String)
    ensures
        r@ == renamed_output(relative@),
{
    proof {
        reveal_strlit(".crate-manifest");
    }
    let chars: Vec<char> = chars_of(relative);
    let n: usize = chars.len();
    let k: usize = 15;
    if n > k && ends_with(relative, ".crate-manifest") && chars[n - k - 1] != '/' {
        let mut out: String = String::new();
        let mut i: usize = 0;
        while i < n - k
            invariant
                chars@ == relative@,
                n == chars@.len(),
                k == 15,
                n > k,
                i <= n - k,
                out@ == relative@.subrange(0, i as int),
            decreases n - k - i,
        {
            push_char(&mut out, chars[i]);
            assert(relative@.subrange(0, i + 1) =~= relative@.subrange(0, i as int).push(chars@[i as int]));
            i = i + 1;
        }
        concat(out, ".toml")
    } else {
        String::from_str(relative)
    }
}

/// The file written from the template `contents` at the relative path `path`: where it goes,
/// and its text rendered with `data`.
pub fn render_file(path: &str, contents: &str, data: &Vec<(String, String)>) -> (r: Result<(String, String), InitError>)
    ensures
        match rendered_template(contents@, data.deep_view()) {
            Some(text) => r matches Ok((p, t)) && p@ == renamed_output(path@) && t@ == text,
            None => r matches Err(InitError::Template(_)),
        },
{
    match render_text(contents, data) {
        Ok(text) => Ok((output_path(path), text)),
        Err(e) => Err(InitError::Template(e)),
    }
}

} // verus!
