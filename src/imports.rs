use vstd::prelude::*;

use crate::emulation::text;

verus! {

/// The module name under which a Python package is imported, for the
/// packages whose import name differs from their distribution name.
pub open spec fn import_name_of(package: Seq<char>) -> Seq<char> {
    if package == "python-dotenv"@ {
        "dotenv"@
    } else if package == "ffmpeg-python"@ {
        "ffmpeg"@
    } else if package == "beautifulsoup4"@ {
        "bs4"@
    } else if package == "selectolax"@ {
        "selectolax.parser"@
    } else if package == "Pillow"@ {
        "PIL"@
    } else if package == "opentelemetry-api"@ {
        "opentelemetry"@
    } else if package == "wrapt"@ {
        "wrapt"@
    } else if package == "opentelemetry-sdk"@ {
        "opentelemetry.sdk"@
    } else if package == "opentelemetry-instrumentation"@ {
        "opentelemetry.instrumentation"@
    } else if package == "opentelemetry-semantic-conventions"@ {
        "opentelemetry.semantic_conventions"@
    } else if package == "opencv-python"@ {
        "cv2"@
    } else {
        package
    }
}

/// The name to import `package` by: its known import name, or the package
/// name itself.
pub fn get_import_name(package: &str) -> (r: &str)
    ensures
        r@ == import_name_of(package@),
{
    let key = text(package);
    if key == text("python-dotenv") {
        "dotenv"
    } else if key == text("ffmpeg-python") {
        "ffmpeg"
    } else if key == text("beautifulsoup4") {
        "bs4"
    } else if key == text("selectolax") {
        "selectolax.parser"
    } else if key == text("Pillow") {
        "PIL"
    } else if key == text("opentelemetry-api") {
        "opentelemetry"
    } else if key == text("wrapt") {
        "wrapt"
    } else if key == text("opentelemetry-sdk") {
        "opentelemetry.sdk"
    } else if key == text("opentelemetry-instrumentation") {
        "opentelemetry.instrumentation"
    } else if key == text("opentelemetry-semantic-conventions") {
        "opentelemetry.semantic_conventions"
    } else if key == text("opencv-python") {
        "cv2"
    } else {
        package
    }
}

/// `s` with every `-` replaced by `_`.
pub open spec fn underscored(s: Seq<char>) -> Seq<char> {
    s.map_values(|c: char| if c == '-' { '_' } else { c })
}

/// Relies on `str::replace`, which replaces each `-` by `_` and keeps every
/// other character.
#[verifier::external_body]
fn replace_dashes(s: &str) -> (r: String)
    ensures
        r@ == underscored(s@),
{
    s.replace('-', "_")
}

/// The names to try, in order, when importing `package`: its import name,
/// the package name itself, and, when it differs, the package name with
/// dashes turned into underscores.
pub open spec fn import_candidates_of(package: Seq<char>) -> Seq<Seq<char>> {
    let base = seq![import_name_of(package), package];
    if underscored(package) != package {
        base.push(underscored(package))
    } else {
        base
    }
}

/// The names under which an import of `package` is attempted, in order.
pub fn import_candidates(package: &str) -> (r: Vec<String>)
    ensures
        r@.map_values(|s: String| s@) == import_candidates_of(package@),
{
    let mut names: Vec<String> = Vec::new();
    names.push(text(get_import_name(package)));
    names.push(text(package));
    let underscore_name = replace_dashes(package);
    let original = text(package);
    if underscore_name != original {
        names.push(underscore_name);
    }
    assert(names@.map_values(|s: String| s@) =~= import_candidates_of(package@));
    names
}

} // verus!
