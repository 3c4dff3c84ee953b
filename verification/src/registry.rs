//! The registry catalog: descriptors for the package registries that a name
//! is checked against, selection of subsets, and the URLs built from a
//! descriptor's templates.

use vstd::prelude::*;

use crate::text::{lower_of, lowercase, replace_with, seq_has_str, str_eq, str_replace, vec_has_str};
use crate::types::RegistryInfo;

verus! {

/// How a registry's HTTP answer signals that a name is unclaimed.
#[derive(Debug, Clone, Copy, PartialEq, Eq, Structural)]
pub enum AvailableSignal {
    Http404,
    EmptyResults,
    NullOrError,
    XmlNoEntry,
}

/// One registry descriptor. Immutable once built; the URL templates hold a
/// single placeholder token that a (possibly case-normalized) name replaces.
#[derive(Debug, Clone)]
pub struct Registry {
    pub id: String,
    pub name: String,
    pub ecosystem: String,
    pub languages: Vec<String>,
    pub check_url_template: String,
    pub browse_url_template: String,
    pub signal: AvailableSignal,
    pub headers: Vec<(String, String)>,
    pub popular: bool,
}

/// No two registries of `rs` share an id.
pub open spec fn distinct_ids(rs: Seq<Registry>) -> bool {
    forall|i: int, j: int| 0 <= i < j < rs.len() ==> (#[trigger] rs[i]).id@ != (#[trigger] rs[j]).id@
}

/// Build one descriptor from its parts.
fn make_registry(
    id: &str,
    name: &str,
    ecosystem: &str,
    languages: Vec<String>,
    check_url_template: &str,
    browse_url_template: &str,
    signal: AvailableSignal,
    headers: Vec<(String, String)>,
    popular: bool,
) -> (r: Registry)
    ensures
        r.id@ == id@,
        r.name@ == name@,
        r.ecosystem@ == ecosystem@,
        r.languages == languages,
        r.check_url_template@ == check_url_template@,
        r.browse_url_template@ == browse_url_template@,
        r.signal == signal,
        r.headers == headers,
        r.popular == popular,
{
    Registry {
        id: id.to_owned(),
        name: name.to_owned(),
        ecosystem: ecosystem.to_owned(),
        languages,
        check_url_template: check_url_template.to_owned(),
        browse_url_template: browse_url_template.to_owned(),
        signal,
        headers,
        popular,
    }
}

/// One owned string per entry of a literal list.
fn owned_strings(items: &[&str]) -> (r: Vec<String>)
    ensures
        r@.len() == items@.len(),
        forall|i: int| 0 <= i < items@.len() ==> (#[trigger] r@[i])@ == (items@[i])@,
{
    let mut out: Vec<String> = Vec::new();
    let mut i: usize = 0;
    while i < items.len()
        invariant
            0 <= i <= items@.len(),
            out@.len() == i,
            forall|j: int| 0 <= j < i ==> (#[trigger] out@[j])@ == (items@[j])@,
        decreases items@.len() - i,
    {
        out.push(items[i].to_owned());
        i = i + 1;
    }
    out
}

/// Every field of the catalog that the checker's behaviour turns on,
/// entry by entry, in its fixed order: id, signal kind, popularity flag,
/// display name, ecosystem, both URL templates, language tags and extra
/// headers.
pub open spec fn catalog_entries(rs: Seq<Registry>) -> bool {
    &&& rs.len() == 29
    &&& rs[0].id@ == "npm"@ &&& rs[0].signal == AvailableSignal::Http404 &&& rs[0].popular
    &&& rs[0].name@ == "npm"@ &&& rs[0].ecosystem@ == "JavaScript / TypeScript"@
    &&& rs[0].check_url_template@ == "https://registry.npmjs.org/{name}"@
    &&& rs[0].browse_url_template@ == "https://www.npmjs.com/package/{name}"@
    &&& rs[0].languages@.len() == 2
    &&& rs[0].languages@[0]@ == "javascript"@
    &&& rs[0].languages@[1]@ == "typescript"@
    &&& rs[0].headers@.len() == 0
    &&& rs[1].id@ == "pypi"@ &&& rs[1].signal == AvailableSignal::Http404 &&& rs[1].popular
    &&& rs[1].name@ == "PyPI"@ &&& rs[1].ecosystem@ == "Python"@
    &&& rs[1].check_url_template@ == "https://pypi.org/pypi/{name}/json"@
    &&& rs[1].browse_url_template@ == "https://pypi.org/project/{name}/"@
    &&& rs[1].languages@.len() == 1
    &&& rs[1].languages@[0]@ == "python"@
    &&& rs[1].headers@.len() == 0
    &&& rs[2].id@ == "crates"@ &&& rs[2].signal == AvailableSignal::Http404 &&& rs[2].popular
    &&& rs[2].name@ == "crates.io"@ &&& rs[2].ecosystem@ == "Rust"@
    &&& rs[2].check_url_template@ == "https://crates.io/api/v1/crates/{name}"@
    &&& rs[2].browse_url_template@ == "https://crates.io/crates/{name}"@
    &&& rs[2].languages@.len() == 1
    &&& rs[2].languages@[0]@ == "rust"@
    &&& rs[2].headers@.len() == 0
    &&& rs[3].id@ == "rubygems"@ &&& rs[3].signal == AvailableSignal::Http404 &&& rs[3].popular
    &&& rs[3].name@ == "RubyGems"@ &&& rs[3].ecosystem@ == "Ruby"@
    &&& rs[3].check_url_template@ == "https://rubygems.org/api/v1/gems/{name}.json"@
    &&& rs[3].browse_url_template@ == "https://rubygems.org/gems/{name}"@
    &&& rs[3].languages@.len() == 1
    &&& rs[3].languages@[0]@ == "ruby"@
    &&& rs[3].headers@.len() == 0
    &&& rs[4].id@ == "nuget"@ &&& rs[4].signal == AvailableSignal::Http404 &&& rs[4].popular
    &&& rs[4].name@ == "NuGet"@ &&& rs[4].ecosystem@ == ".NET"@
    &&& rs[4].check_url_template@ == "https://api.nuget.org/v3-flatcontainer/{name}/index.json"@
    &&& rs[4].browse_url_template@ == "https://www.nuget.org/packages/{name}"@
    &&& rs[4].languages@.len() == 2
    &&& rs[4].languages@[0]@ == "csharp"@
    &&& rs[4].languages@[1]@ == "fsharp"@
    &&& rs[4].headers@.len() == 0
    &&& rs[5].id@ == "hex"@ &&& rs[5].signal == AvailableSignal::Http404 &&& rs[5].popular
    &&& rs[5].name@ == "Hex"@ &&& rs[5].ecosystem@ == "Erlang / Elixir"@
    &&& rs[5].check_url_template@ == "https://hex.pm/api/packages/{name}"@
    &&& rs[5].browse_url_template@ == "https://hex.pm/packages/{name}"@
    &&& rs[5].languages@.len() == 2
    &&& rs[5].languages@[0]@ == "elixir"@
    &&& rs[5].languages@[1]@ == "erlang"@
    &&& rs[5].headers@.len() == 0
    &&& rs[6].id@ == "pub"@ &&& rs[6].signal == AvailableSignal::Http404 &&& rs[6].popular
    &&& rs[6].name@ == "pub.dev"@ &&& rs[6].ecosystem@ == "Dart / Flutter"@
    &&& rs[6].check_url_template@ == "https://pub.dev/api/packages/{name}"@
    &&& rs[6].browse_url_template@ == "https://pub.dev/packages/{name}"@
    &&& rs[6].languages@.len() == 1
    &&& rs[6].languages@[0]@ == "dart"@
    &&& rs[6].headers@.len() == 0
    &&& rs[7].id@ == "homebrew"@ &&& rs[7].signal == AvailableSignal::Http404 &&& rs[7].popular
    &&& rs[7].name@ == "Homebrew"@ &&& rs[7].ecosystem@ == "macOS / Linux"@
    &&& rs[7].check_url_template@ == "https://formulae.brew.sh/api/formula/{name}.json"@
    &&& rs[7].browse_url_template@ == "https://formulae.brew.sh/formula/{name}"@
    &&& rs[7].languages@.len() == 1
    &&& rs[7].languages@[0]@ == "multi"@
    &&& rs[7].headers@.len() == 0
    &&& rs[8].id@ == "docker_hub"@ &&& rs[8].signal == AvailableSignal::Http404 &&& rs[8].popular
    &&& rs[8].name@ == "Docker Hub"@ &&& rs[8].ecosystem@ == "Containers"@
    &&& rs[8].check_url_template@ == "https://hub.docker.com/v2/repositories/library/{name}/"@
    &&& rs[8].browse_url_template@ == "https://hub.docker.com/_/{name}"@
    &&& rs[8].languages@.len() == 1
    &&& rs[8].languages@[0]@ == "multi"@
    &&& rs[8].headers@.len() == 0
    &&& rs[9].id@ == "cocoapods"@ &&& rs[9].signal == AvailableSignal::Http404 &&& rs[9].popular
    &&& rs[9].name@ == "CocoaPods"@ &&& rs[9].ecosystem@ == "iOS / macOS"@
    &&& rs[9].check_url_template@ == "https://trunk.cocoapods.org/api/v1/pods/{name}"@
    &&& rs[9].browse_url_template@ == "https://cocoapods.org/pods/{name}"@
    &&& rs[9].languages@.len() == 2
    &&& rs[9].languages@[0]@ == "swift"@
    &&& rs[9].languages@[1]@ == "objective-c"@
    &&& rs[9].headers@.len() == 0
    &&& rs[10].id@ == "homebrew_cask"@ &&& rs[10].signal == AvailableSignal::Http404 &&& !rs[10].popular
    &&& rs[10].name@ == "Homebrew Cask"@ &&& rs[10].ecosystem@ == "macOS (GUI apps)"@
    &&& rs[10].check_url_template@ == "https://formulae.brew.sh/api/cask/{name}.json"@
    &&& rs[10].browse_url_template@ == "https://formulae.brew.sh/cask/{name}"@
    &&& rs[10].languages@.len() == 1
    &&& rs[10].languages@[0]@ == "multi"@
    &&& rs[10].headers@.len() == 0
    &&& rs[11].id@ == "hackage"@ &&& rs[11].signal == AvailableSignal::Http404 &&& !rs[11].popular
    &&& rs[11].name@ == "Hackage"@ &&& rs[11].ecosystem@ == "Haskell"@
    &&& rs[11].check_url_template@ == "https://hackage.haskell.org/package/{name}/preferred"@
    &&& rs[11].browse_url_template@ == "https://hackage.haskell.org/package/{name}"@
    &&& rs[11].languages@.len() == 1
    &&& rs[11].languages@[0]@ == "haskell"@
    &&& rs[11].headers@.len() == 0
    &&& rs[12].id@ == "opam"@ &&& rs[12].signal == AvailableSignal::Http404 &&& !rs[12].popular
    &&& rs[12].name@ == "opam"@ &&& rs[12].ecosystem@ == "OCaml"@
    &&& rs[12].check_url_template@ == "https://opam.ocaml.org/packages/{name}/"@
    &&& rs[12].browse_url_template@ == "https://opam.ocaml.org/packages/{name}/"@
    &&& rs[12].languages@.len() == 1
    &&& rs[12].languages@[0]@ == "ocaml"@
    &&& rs[12].headers@.len() == 0
    &&& rs[13].id@ == "cpan"@ &&& rs[13].signal == AvailableSignal::Http404 &&& !rs[13].popular
    &&& rs[13].name@ == "CPAN"@ &&& rs[13].ecosystem@ == "Perl"@
    &&& rs[13].check_url_template@ == "https://fastapi.metacpan.org/v1/distribution/{name}"@
    &&& rs[13].browse_url_template@ == "https://metacpan.org/dist/{name}"@
    &&& rs[13].languages@.len() == 1
    &&& rs[13].languages@[0]@ == "perl"@
    &&& rs[13].headers@.len() == 0
    &&& rs[14].id@ == "luarocks"@ &&& rs[14].signal == AvailableSignal::Http404 &&& !rs[14].popular
    &&& rs[14].name@ == "LuaRocks"@ &&& rs[14].ecosystem@ == "Lua"@
    &&& rs[14].check_url_template@ == "https://luarocks.org/api/1/{name}/rockspec.json"@
    &&& rs[14].browse_url_template@ == "https://luarocks.org/search?q={name}"@
    &&& rs[14].languages@.len() == 1
    &&& rs[14].languages@[0]@ == "lua"@
    &&& rs[14].headers@.len() == 0
    &&& rs[15].id@ == "nimble"@ &&& rs[15].signal == AvailableSignal::Http404 &&& !rs[15].popular
    &&& rs[15].name@ == "Nimble"@ &&& rs[15].ecosystem@ == "Nim"@
    &&& rs[15].check_url_template@ == "https://nimble.directory/api/packages/{name}"@
    &&& rs[15].browse_url_template@ == "https://nimble.directory/pkg/{name}"@
    &&& rs[15].languages@.len() == 1
    &&& rs[15].languages@[0]@ == "nim"@
    &&& rs[15].headers@.len() == 0
    &&& rs[16].id@ == "dub"@ &&& rs[16].signal == AvailableSignal::Http404 &&& !rs[16].popular
    &&& rs[16].name@ == "DUB"@ &&& rs[16].ecosystem@ == "D"@
    &&& rs[16].check_url_template@ == "https://code.dlang.org/api/packages/{name}"@
    &&& rs[16].browse_url_template@ == "https://code.dlang.org/packages/{name}"@
    &&& rs[16].languages@.len() == 1
    &&& rs[16].languages@[0]@ == "d"@
    &&& rs[16].headers@.len() == 0
    &&& rs[17].id@ == "cran"@ &&& rs[17].signal == AvailableSignal::Http404 &&& !rs[17].popular
    &&& rs[17].name@ == "CRAN"@ &&& rs[17].ecosystem@ == "R"@
    &&& rs[17].check_url_template@ == "https://crandb.r-pkg.org/{name}"@
    &&& rs[17].browse_url_template@ == "https://cran.r-project.org/package={name}"@
    &&& rs[17].languages@.len() == 1
    &&& rs[17].languages@[0]@ == "r"@
    &&& rs[17].headers@.len() == 0
    &&& rs[18].id@ == "julia"@ &&& rs[18].signal == AvailableSignal::Http404 &&& !rs[18].popular
    &&& rs[18].name@ == "Julia General"@ &&& rs[18].ecosystem@ == "Julia"@
    &&& rs[18].check_url_template@ == "https://juliahub.com/ui/Packages/General/{name}"@
    &&& rs[18].browse_url_template@ == "https://juliahub.com/ui/Packages/General/{name}"@
    &&& rs[18].languages@.len() == 1
    &&& rs[18].languages@[0]@ == "julia"@
    &&& rs[18].headers@.len() == 0
    &&& rs[19].id@ == "conda"@ &&& rs[19].signal == AvailableSignal::Http404 &&& !rs[19].popular
    &&& rs[19].name@ == "conda-forge"@ &&& rs[19].ecosystem@ == "Python / Data Science"@
    &&& rs[19].check_url_template@ == "https://api.anaconda.org/package/conda-forge/{name}"@
    &&& rs[19].browse_url_template@ == "https://anaconda.org/conda-forge/{name}"@
    &&& rs[19].languages@.len() == 2
    &&& rs[19].languages@[0]@ == "python"@
    &&& rs[19].languages@[1]@ == "r"@
    &&& rs[19].headers@.len() == 0
    &&& rs[20].id@ == "vcpkg"@ &&& rs[20].signal == AvailableSignal::Http404 &&& !rs[20].popular
    &&& rs[20].name@ == "vcpkg"@ &&& rs[20].ecosystem@ == "C / C++"@
    &&& rs[20].check_url_template@ == "https://vcpkg.io/en/package/{name}"@
    &&& rs[20].browse_url_template@ == "https://vcpkg.io/en/package/{name}"@
    &&& rs[20].languages@.len() == 2
    &&& rs[20].languages@[0]@ == "c"@
    &&& rs[20].languages@[1]@ == "cpp"@
    &&& rs[20].headers@.len() == 0
    &&& rs[21].id@ == "snapcraft"@ &&& rs[21].signal == AvailableSignal::Http404 &&& !rs[21].popular
    &&& rs[21].name@ == "Snapcraft"@ &&& rs[21].ecosystem@ == "Linux (snap)"@
    &&& rs[21].check_url_template@ == "https://api.snapcraft.io/v2/snaps/info/{name}"@
    &&& rs[21].browse_url_template@ == "https://snapcraft.io/{name}"@
    &&& rs[21].languages@.len() == 1
    &&& rs[21].languages@[0]@ == "multi"@
    &&& rs[21].headers@.len() == 1
    &&& rs[21].headers@[0].0@ == "Snap-Device-Series"@ &&& rs[21].headers@[0].1@ == "16"@
    &&& rs[22].id@ == "deno_land"@ &&& rs[22].signal == AvailableSignal::Http404 &&& !rs[22].popular
    &&& rs[22].name@ == "deno.land/x"@ &&& rs[22].ecosystem@ == "Deno"@
    &&& rs[22].check_url_template@ == "https://apiland.deno.dev/v2/modules/{name}"@
    &&& rs[22].browse_url_template@ == "https://deno.land/x/{name}"@
    &&& rs[22].languages@.len() == 2
    &&& rs[22].languages@[0]@ == "javascript"@
    &&& rs[22].languages@[1]@ == "typescript"@
    &&& rs[22].headers@.len() == 0
    &&& rs[23].id@ == "crystal"@ &&& rs[23].signal == AvailableSignal::Http404 &&& !rs[23].popular
    &&& rs[23].name@ == "Shards"@ &&& rs[23].ecosystem@ == "Crystal"@
    &&& rs[23].check_url_template@ == "https://shardbox.org/shards/{name}"@
    &&& rs[23].browse_url_template@ == "https://shardbox.org/shards/{name}"@
    &&& rs[23].languages@.len() == 1
    &&& rs[23].languages@[0]@ == "crystal"@
    &&& rs[23].headers@.len() == 0
    &&& rs[24].id@ == "v_lang"@ &&& rs[24].signal == AvailableSignal::Http404 &&& !rs[24].popular
    &&& rs[24].name@ == "VPM"@ &&& rs[24].ecosystem@ == "V"@
    &&& rs[24].check_url_template@ == "https://vpm.vlang.io/packages/{name}"@
    &&& rs[24].browse_url_template@ == "https://vpm.vlang.io/packages/{name}"@
    &&& rs[24].languages@.len() == 1
    &&& rs[24].languages@[0]@ == "v"@
    &&& rs[24].headers@.len() == 0
    &&& rs[25].id@ == "tex_ctan"@ &&& rs[25].signal == AvailableSignal::Http404 &&& !rs[25].popular
    &&& rs[25].name@ == "CTAN"@ &&& rs[25].ecosystem@ == "TeX / LaTeX"@
    &&& rs[25].check_url_template@ == "https://ctan.org/json/2.0/pkg/{name}"@
    &&& rs[25].browse_url_template@ == "https://ctan.org/pkg/{name}"@
    &&& rs[25].languages@.len() == 2
    &&& rs[25].languages@[0]@ == "tex"@
    &&& rs[25].languages@[1]@ == "latex"@
    &&& rs[25].headers@.len() == 0
    &&& rs[26].id@ == "purescript"@ &&& rs[26].signal == AvailableSignal::Http404 &&& !rs[26].popular
    &&& rs[26].name@ == "Pursuit"@ &&& rs[26].ecosystem@ == "PureScript"@
    &&& rs[26].check_url_template@ == "https://pursuit.purescript.org/packages/purescript-{name}"@
    &&& rs[26].browse_url_template@ == "https://pursuit.purescript.org/packages/purescript-{name}"@
    &&& rs[26].languages@.len() == 1
    &&& rs[26].languages@[0]@ == "purescript"@
    &&& rs[26].headers@.len() == 0
    &&& rs[27].id@ == "wordpress_themes"@ &&& rs[27].signal == AvailableSignal::NullOrError &&& !rs[27].popular
    &&& rs[27].name@ == "WordPress Themes"@ &&& rs[27].ecosystem@ == "WordPress"@
    &&& rs[27].check_url_template@ == "https://api.wordpress.org/themes/info/1.2/?action=theme_information&slug={name}"@
    &&& rs[27].browse_url_template@ == "https://wordpress.org/themes/{name}/"@
    &&& rs[27].languages@.len() == 1
    &&& rs[27].languages@[0]@ == "php"@
    &&& rs[27].headers@.len() == 0
    &&& rs[28].id@ == "chocolatey"@ &&& rs[28].signal == AvailableSignal::XmlNoEntry &&& !rs[28].popular
    &&& rs[28].name@ == "Chocolatey"@ &&& rs[28].ecosystem@ == "Windows"@
    &&& rs[28].check_url_template@ == "https://community.chocolatey.org/api/v2/Packages()?%24filter=Id%20eq%20%27{name}%27&%24top=1"@
    &&& rs[28].browse_url_template@ == "https://community.chocolatey.org/packages/{name}"@
    &&& rs[28].languages@.len() == 1
    &&& rs[28].languages@[0]@ == "multi"@
    &&& rs[28].headers@.len() == 0
}

/// Build the full catalog: every registry the checker knows, in its fixed
/// order. Its ids are pairwise distinct, so one probe per selected registry
/// yields at most one result per id.
pub fn all_registries() -> (regs: Vec<Registry>)
    ensures
        regs@.len() == 29,
        catalog_entries(regs@),
        distinct_ids(regs@),
{
    let mut regs: Vec<Registry> = Vec::new();
    regs.push(make_registry(
        "npm",
        "npm",
        "JavaScript / TypeScript",
        owned_strings(&["javascript", "typescript"]),
        "https://registry.npmjs.org/{name}",
        "https://www.npmjs.com/package/{name}",
        AvailableSignal::Http404,
        Vec::new(),
        true,
    ));
    regs.push(make_registry(
        "pypi",
        "PyPI",
        "Python",
        owned_strings(&["python"]),
        "https://pypi.org/pypi/{name}/json",
        "https://pypi.org/project/{name}/",
        AvailableSignal::Http404,
        Vec::new(),
        true,
    ));
    regs.push(make_registry(
        "crates",
        "crates.io",
        "Rust",
        owned_strings(&["rust"]),
        "https://crates.io/api/v1/crates/{name}",
        "https://crates.io/crates/{name}",
        AvailableSignal::Http404,
        Vec::new(),
        true,
    ));
    regs.push(make_registry(
        "rubygems",
        "RubyGems",
        "Ruby",
        owned_strings(&["ruby"]),
        "https://rubygems.org/api/v1/gems/{name}.json",
        "https://rubygems.org/gems/{name}",
        AvailableSignal::Http404,
        Vec::new(),
        true,
    ));
    regs.push(make_registry(
        "nuget",
        "NuGet",
        ".NET",
        owned_strings(&["csharp", "fsharp"]),
        "https://api.nuget.org/v3-flatcontainer/{name}/index.json",
        "https://www.nuget.org/packages/{name}",
        AvailableSignal::Http404,
        Vec::new(),
        true,
    ));
    regs.push(make_registry(
        "hex",
        "Hex",
        "Erlang / Elixir",
        owned_strings(&["elixir", "erlang"]),
        "https://hex.pm/api/packages/{name}",
        "https://hex.pm/packages/{name}",
        AvailableSignal::Http404,
        Vec::new(),
        true,
    ));
    regs.push(make_registry(
        "pub",
        "pub.dev",
        "Dart / Flutter",
        owned_strings(&["dart"]),
        "https://pub.dev/api/packages/{name}",
        "https://pub.dev/packages/{name}",
        AvailableSignal::Http404,
        Vec::new(),
        true,
    ));
    regs.push(make_registry(
        "homebrew",
        "Homebrew",
        "macOS / Linux",
        owned_strings(&["multi"]),
        "https://formulae.brew.sh/api/formula/{name}.json",
        "https://formulae.brew.sh/formula/{name}",
        AvailableSignal::Http404,
        Vec::new(),
        true,
    ));
    regs.push(make_registry(
        "docker_hub",
        "Docker Hub",
        "Containers",
        owned_strings(&["multi"]),
        "https://hub.docker.com/v2/repositories/library/{name}/",
        "https://hub.docker.com/_/{name}",
        AvailableSignal::Http404,
        Vec::new(),
        true,
    ));
    regs.push(make_registry(
        "cocoapods",
        "CocoaPods",
        "iOS / macOS",
        owned_strings(&["swift", "objective-c"]),
        "https://trunk.cocoapods.org/api/v1/pods/{name}",
        "https://cocoapods.org/pods/{name}",
        AvailableSignal::Http404,
        Vec::new(),
        true,
    ));
    regs.push(make_registry(
        "homebrew_cask",
        "Homebrew Cask",
        "macOS (GUI apps)",
        owned_strings(&["multi"]),
        "https://formulae.brew.sh/api/cask/{name}.json",
        "https://formulae.brew.sh/cask/{name}",
        AvailableSignal::Http404,
        Vec::new(),
        false,
    ));
    regs.push(make_registry(
        "hackage",
        "Hackage",
        "Haskell",
        owned_strings(&["haskell"]),
        "https://hackage.haskell.org/package/{name}/preferred",
        "https://hackage.haskell.org/package/{name}",
        AvailableSignal::Http404,
        Vec::new(),
        false,
    ));
    regs.push(make_registry(
        "opam",
        "opam",
        "OCaml",
        owned_strings(&["ocaml"]),
        "https://opam.ocaml.org/packages/{name}/",
        "https://opam.ocaml.org/packages/{name}/",
        AvailableSignal::Http404,
        Vec::new(),
        false,
    ));
    regs.push(make_registry(
        "cpan",
        "CPAN",
        "Perl",
        owned_strings(&["perl"]),
        "https://fastapi.metacpan.org/v1/distribution/{name}",
        "https://metacpan.org/dist/{name}",
        AvailableSignal::Http404,
        Vec::new(),
        false,
    ));
    regs.push(make_registry(
        "luarocks",
        "LuaRocks",
        "Lua",
        owned_strings(&["lua"]),
        "https://luarocks.org/api/1/{name}/rockspec.json",
        "https://luarocks.org/search?q={name}",
        AvailableSignal::Http404,
        Vec::new(),
        false,
    ));
    regs.push(make_registry(
        "nimble",
        "Nimble",
        "Nim",
        owned_strings(&["nim"]),
        "https://nimble.directory/api/packages/{name}",
        "https://nimble.directory/pkg/{name}",
        AvailableSignal::Http404,
        Vec::new(),
        false,
    ));
    regs.push(make_registry(
        "dub",
        "DUB",
        "D",
        owned_strings(&["d"]),
        "https://code.dlang.org/api/packages/{name}",
        "https://code.dlang.org/packages/{name}",
        AvailableSignal::Http404,
        Vec::new(),
        false,
    ));
    regs.push(make_registry(
        "cran",
        "CRAN",
        "R",
        owned_strings(&["r"]),
        "https://crandb.r-pkg.org/{name}",
        "https://cran.r-project.org/package={name}",
        AvailableSignal::Http404,
        Vec::new(),
        false,
    ));
    regs.push(make_registry(
        "julia",
        "Julia General",
        "Julia",
        owned_strings(&["julia"]),
        "https://juliahub.com/ui/Packages/General/{name}",
        "https://juliahub.com/ui/Packages/General/{name}",
        AvailableSignal::Http404,
        Vec::new(),
        false,
    ));
    regs.push(make_registry(
        "conda",
        "conda-forge",
        "Python / Data Science",
        owned_strings(&["python", "r"]),
        "https://api.anaconda.org/package/conda-forge/{name}",
        "https://anaconda.org/conda-forge/{name}",
        AvailableSignal::Http404,
        Vec::new(),
        false,
    ));
    regs.push(make_registry(
        "vcpkg",
        "vcpkg",
        "C / C++",
        owned_strings(&["c", "cpp"]),
        "https://vcpkg.io/en/package/{name}",
        "https://vcpkg.io/en/package/{name}",
        AvailableSignal::Http404,
        Vec::new(),
        false,
    ));
    let mut hs: Vec<(String, String)> = Vec::new();
    hs.push(("Snap-Device-Series".to_owned(), "16".to_owned()));
    regs.push(make_registry(
        "snapcraft",
        "Snapcraft",
        "Linux (snap)",
        owned_strings(&["multi"]),
        "https://api.snapcraft.io/v2/snaps/info/{name}",
        "https://snapcraft.io/{name}",
        AvailableSignal::Http404,
        hs,
        false,
    ));
    regs.push(make_registry(
        "deno_land",
        "deno.land/x",
        "Deno",
        owned_strings(&["javascript", "typescript"]),
        "https://apiland.deno.dev/v2/modules/{name}",
        "https://deno.land/x/{name}",
        AvailableSignal::Http404,
        Vec::new(),
        false,
    ));
    regs.push(make_registry(
        "crystal",
        "Shards",
        "Crystal",
        owned_strings(&["crystal"]),
        "https://shardbox.org/shards/{name}",
        "https://shardbox.org/shards/{name}",
        AvailableSignal::Http404,
        Vec::new(),
        false,
    ));
    regs.push(make_registry(
        "v_lang",
        "VPM",
        "V",
        owned_strings(&["v"]),
        "https://vpm.vlang.io/packages/{name}",
        "https://vpm.vlang.io/packages/{name}",
        AvailableSignal::Http404,
        Vec::new(),
        false,
    ));
    regs.push(make_registry(
        "tex_ctan",
        "CTAN",
        "TeX / LaTeX",
        owned_strings(&["tex", "latex"]),
        "https://ctan.org/json/2.0/pkg/{name}",
        "https://ctan.org/pkg/{name}",
        AvailableSignal::Http404,
        Vec::new(),
        false,
    ));
    regs.push(make_registry(
        "purescript",
        "Pursuit",
        "PureScript",
        owned_strings(&["purescript"]),
        "https://pursuit.purescript.org/packages/purescript-{name}",
        "https://pursuit.purescript.org/packages/purescript-{name}",
        AvailableSignal::Http404,
        Vec::new(),
        false,
    ));
    regs.push(make_registry(
        "wordpress_themes",
        "WordPress Themes",
        "WordPress",
        owned_strings(&["php"]),
        "https://api.wordpress.org/themes/info/1.2/?action=theme_information&slug={name}",
        "https://wordpress.org/themes/{name}/",
        AvailableSignal::NullOrError,
        Vec::new(),
        false,
    ));
    regs.push(make_registry(
        "chocolatey",
        "Chocolatey",
        "Windows",
        owned_strings(&["multi"]),
        "https://community.chocolatey.org/api/v2/Packages()?%24filter=Id%20eq%20%27{name}%27&%24top=1",
        "https://community.chocolatey.org/packages/{name}",
        AvailableSignal::XmlNoEntry,
        Vec::new(),
        false,
    ));
    proof {
        lemma_catalog_ids_distinct(regs@);
    }
    regs
}

/// The id of the catalog entry at position `i`.
pub open spec fn catalog_id(i: int) -> Seq<char> {
    if i == 0 {
        "npm"@
    } else if i == 1 {
        "pypi"@
    } else if i == 2 {
        "crates"@
    } else if i == 3 {
        "rubygems"@
    } else if i == 4 {
        "nuget"@
    } else if i == 5 {
        "hex"@
    } else if i == 6 {
        "pub"@
    } else if i == 7 {
        "homebrew"@
    } else if i == 8 {
        "docker_hub"@
    } else if i == 9 {
        "cocoapods"@
    } else if i == 10 {
        "homebrew_cask"@
    } else if i == 11 {
        "hackage"@
    } else if i == 12 {
        "opam"@
    } else if i == 13 {
        "cpan"@
    } else if i == 14 {
        "luarocks"@
    } else if i == 15 {
        "nimble"@
    } else if i == 16 {
        "dub"@
    } else if i == 17 {
        "cran"@
    } else if i == 18 {
        "julia"@
    } else if i == 19 {
        "conda"@
    } else if i == 20 {
        "vcpkg"@
    } else if i == 21 {
        "snapcraft"@
    } else if i == 22 {
        "deno_land"@
    } else if i == 23 {
        "crystal"@
    } else if i == 24 {
        "v_lang"@
    } else if i == 25 {
        "tex_ctan"@
    } else if i == 26 {
        "purescript"@
    } else if i == 27 {
        "wordpress_themes"@
    } else if i == 28 {
        "chocolatey"@
    } else {
        Seq::empty()
    }
}

/// Each catalog entry carries the id of its position.
proof fn lemma_catalog_id_at(rs: Seq<Registry>, i: int)
    requires
        catalog_entries(rs),
        0 <= i < 29,
    ensures
        rs[i].id@ == catalog_id(i),
{
}

/// The length of the id at catalog position `i`.
spec fn catalog_id_len(i: int) -> int {
    if i == 0 {
        3
    } else if i == 1 {
        4
    } else if i == 2 {
        6
    } else if i == 3 {
        8
    } else if i == 4 {
        5
    } else if i == 5 {
        3
    } else if i == 6 {
        3
    } else if i == 7 {
        8
    } else if i == 8 {
        10
    } else if i == 9 {
        9
    } else if i == 10 {
        13
    } else if i == 11 {
        7
    } else if i == 12 {
        4
    } else if i == 13 {
        4
    } else if i == 14 {
        8
    } else if i == 15 {
        6
    } else if i == 16 {
        3
    } else if i == 17 {
        4
    } else if i == 18 {
        5
    } else if i == 19 {
        5
    } else if i == 20 {
        5
    } else if i == 21 {
        9
    } else if i == 22 {
        9
    } else if i == 23 {
        7
    } else if i == 24 {
        6
    } else if i == 25 {
        8
    } else if i == 26 {
        10
    } else if i == 27 {
        16
    } else if i == 28 {
        10
    } else {
        0
    }
}

/// The first character of the id at catalog position `i`.
spec fn catalog_id_c0(i: int) -> char {
    if i == 0 {
        'n'
    } else if i == 1 {
        'p'
    } else if i == 2 {
        'c'
    } else if i == 3 {
        'r'
    } else if i == 4 {
        'n'
    } else if i == 5 {
        'h'
    } else if i == 6 {
        'p'
    } else if i == 7 {
        'h'
    } else if i == 8 {
        'd'
    } else if i == 9 {
        'c'
    } else if i == 10 {
        'h'
    } else if i == 11 {
        'h'
    } else if i == 12 {
        'o'
    } else if i == 13 {
        'c'
    } else if i == 14 {
        'l'
    } else if i == 15 {
        'n'
    } else if i == 16 {
        'd'
    } else if i == 17 {
        'c'
    } else if i == 18 {
        'j'
    } else if i == 19 {
        'c'
    } else if i == 20 {
        'v'
    } else if i == 21 {
        's'
    } else if i == 22 {
        'd'
    } else if i == 23 {
        'c'
    } else if i == 24 {
        'v'
    } else if i == 25 {
        't'
    } else if i == 26 {
        'p'
    } else if i == 27 {
        'w'
    } else if i == 28 {
        'c'
    } else {
        ' '
    }
}

/// The second character of the id at catalog position `i`.
spec fn catalog_id_c1(i: int) -> char {
    if i == 0 {
        'p'
    } else if i == 1 {
        'y'
    } else if i == 2 {
        'r'
    } else if i == 3 {
        'u'
    } else if i == 4 {
        'u'
    } else if i == 5 {
        'e'
    } else if i == 6 {
        'u'
    } else if i == 7 {
        'o'
    } else if i == 8 {
        'o'
    } else if i == 9 {
        'o'
    } else if i == 10 {
        'o'
    } else if i == 11 {
        'a'
    } else if i == 12 {
        'p'
    } else if i == 13 {
        'p'
    } else if i == 14 {
        'u'
    } else if i == 15 {
        'i'
    } else if i == 16 {
        'u'
    } else if i == 17 {
        'r'
    } else if i == 18 {
        'u'
    } else if i == 19 {
        'o'
    } else if i == 20 {
        'c'
    } else if i == 21 {
        'n'
    } else if i == 22 {
        'e'
    } else if i == 23 {
        'r'
    } else if i == 24 {
        '_'
    } else if i == 25 {
        'e'
    } else if i == 26 {
        'u'
    } else if i == 27 {
        'o'
    } else if i == 28 {
        'h'
    } else {
        ' '
    }
}

/// Length and leading characters of each catalog id.
#[verifier::rlimit(100)]
proof fn lemma_catalog_id_facts(i: int)
    requires
        0 <= i < 29,
    ensures
        catalog_id(i).len() == catalog_id_len(i),
        catalog_id(i)[0] == catalog_id_c0(i),
        catalog_id(i)[1] == catalog_id_c1(i),
{
    reveal_strlit("npm");
    reveal_strlit("pypi");
    reveal_strlit("crates");
    reveal_strlit("rubygems");
    reveal_strlit("nuget");
    reveal_strlit("hex");
    reveal_strlit("pub");
    reveal_strlit("homebrew");
    reveal_strlit("docker_hub");
    reveal_strlit("cocoapods");
    reveal_strlit("homebrew_cask");
    reveal_strlit("hackage");
    reveal_strlit("opam");
    reveal_strlit("cpan");
    reveal_strlit("luarocks");
    reveal_strlit("nimble");
    reveal_strlit("dub");
    reveal_strlit("cran");
    reveal_strlit("julia");
    reveal_strlit("conda");
    reveal_strlit("vcpkg");
    reveal_strlit("snapcraft");
    reveal_strlit("deno_land");
    reveal_strlit("crystal");
    reveal_strlit("v_lang");
    reveal_strlit("tex_ctan");
    reveal_strlit("purescript");
    reveal_strlit("wordpress_themes");
    reveal_strlit("chocolatey");
}

/// No two positions of the catalog share an id: every pair differs in
/// length or in one of the two leading characters.
#[verifier::rlimit(100)]
proof fn lemma_catalog_id_injective(i: int, j: int)
    requires
        0 <= i < j < 29,
    ensures
        catalog_id(i) != catalog_id(j),
{
    lemma_catalog_id_facts(i);
    lemma_catalog_id_facts(j);
    assert(catalog_id_len(i) != catalog_id_len(j) || catalog_id_c0(i) != catalog_id_c0(j)
        || catalog_id_c1(i) != catalog_id_c1(j));
}

/// The catalog's registries carry pairwise distinct ids, so one probe per
/// selected registry yields at most one result per id.
pub proof fn lemma_catalog_ids_distinct(rs: Seq<Registry>)
    requires
        catalog_entries(rs),
    ensures
        distinct_ids(rs),
{
    assert forall|i: int, j: int| 0 <= i < j < rs.len() implies (#[trigger] rs[i]).id@ != (
    #[trigger] rs[j]).id@ by {
        lemma_catalog_id_at(rs, i);
        lemma_catalog_id_at(rs, j);
        lemma_catalog_id_injective(i, j);
    }
}

/// Every element of a filtered sequence stands somewhere in the original.
proof fn lemma_filter_element_membership(
    rs: Seq<Registry>,
    pred: spec_fn(Registry) -> bool,
    k: int,
)
    requires
        0 <= k < rs.filter(pred).len(),
    ensures
        exists|p: int| 0 <= p < rs.len() && rs[p] == rs.filter(pred)[k],
    decreases rs.len(),
{
    reveal(Seq::filter);
    if rs.len() > 0 {
        let prefix = rs.drop_last();
        let sub = prefix.filter(pred);
        if pred(rs.last()) && k == sub.len() {
            assert(rs[rs.len() - 1] == rs.filter(pred)[k]);
        } else {
            lemma_filter_element_membership(prefix, pred, k);
            let p = choose|p: int| 0 <= p < prefix.len() && prefix[p] == sub[k];
            assert(rs[p] == rs.filter(pred)[k]);
        }
    }
}

/// Selecting a subset by filtering keeps ids pairwise distinct.
pub proof fn lemma_selection_keeps_distinct_ids(rs: Seq<Registry>, pred: spec_fn(Registry) -> bool)
    requires
        distinct_ids(rs),
    ensures
        distinct_ids(rs.filter(pred)),
    decreases rs.len(),
{
    reveal(Seq::filter);
    if rs.len() > 0 {
        let prefix = rs.drop_last();
        assert(distinct_ids(prefix));
        lemma_selection_keeps_distinct_ids(prefix, pred);
        if pred(rs.last()) {
            let sub = prefix.filter(pred);
            assert forall|k: int| 0 <= k < sub.len() implies (#[trigger] sub[k]).id@
                != rs.last().id@ by {
                lemma_filter_element_membership(prefix, pred, k);
                let p = choose|p: int| 0 <= p < prefix.len() && prefix[p] == sub[k];
                assert(rs[p].id@ != rs[rs.len() - 1].id@);
            }
        }
    }
}

/// The popular default subset of `regs`, in input order.
pub fn popular_registries<'a>(regs: &'a Vec<Registry>) -> (r: Vec<&'a Registry>)
    ensures
        r@.map_values(|x: &Registry| *x) == regs@.filter(|x: Registry| x.popular),
{
    let mut out: Vec<&'a Registry> = Vec::new();
    let mut i: usize = 0;
    proof {
        reveal(Seq::filter);
        assert(out@.map_values(|x: &Registry| *x) =~= regs@.take(0).filter(
            |x: Registry| x.popular,
        ));
    }
    while i < regs.len()
        invariant
            i <= regs@.len(),
            out@.map_values(|x: &Registry| *x) == regs@.take(i as int).filter(
                |x: Registry| x.popular,
            ),
        decreases regs@.len() - i,
    {
        let ghost prev = out@.map_values(|x: &Registry| *x);
        let reg = &regs[i];
        if reg.popular {
            out.push(reg);
        }
        proof {
            broadcast use Seq::lemma_filter_push;

            if reg.popular {
                assert(out@.map_values(|x: &Registry| *x) =~= prev.push(*reg));
            }
            assert(regs@.take(i + 1) =~= regs@.take(i as int).push(regs@[i as int]));
        }
        i = i + 1;
    }
    proof {
        assert(regs@.take(regs@.len() as int) =~= regs@);
    }
    out
}

/// A registry of `regs` is selected when its id stands in `ids`.
pub open spec fn id_selected(ids: Seq<String>, x: Registry) -> bool {
    seq_has_str(ids, x.id@)
}

/// The registries of `regs` whose id stands in `ids`, in input order.
pub fn registries_by_ids<'a>(regs: &'a Vec<Registry>, ids: &Vec<String>) -> (r: Vec<&'a Registry>)
    ensures
        r@.map_values(|x: &Registry| *x) == regs@.filter(|x: Registry| id_selected(ids@, x)),
{
    let mut out: Vec<&'a Registry> = Vec::new();
    let mut i: usize = 0;
    proof {
        reveal(Seq::filter);
        assert(out@.map_values(|x: &Registry| *x) =~= regs@.take(0).filter(
            |x: Registry| id_selected(ids@, x),
        ));
    }
    while i < regs.len()
        invariant
            i <= regs@.len(),
            out@.map_values(|x: &Registry| *x) == regs@.take(i as int).filter(
                |x: Registry| id_selected(ids@, x),
            ),
        decreases regs@.len() - i,
    {
        let ghost prev = out@.map_values(|x: &Registry| *x);
        let reg = &regs[i];
        if vec_has_str(ids, reg.id.as_str()) {
            out.push(reg);
        }
        proof {
            broadcast use Seq::lemma_filter_push;

            if id_selected(ids@, *reg) {
                assert(out@.map_values(|x: &Registry| *x) =~= prev.push(*reg));
            }
            assert(regs@.take(i + 1) =~= regs@.take(i as int).push(regs@[i as int]));
        }
        i = i + 1;
    }
    proof {
        assert(regs@.take(regs@.len() as int) =~= regs@);
    }
    out
}

/// A registry is selected when one of its language tags stands in `langs`.
pub open spec fn language_selected(langs: Seq<String>, x: Registry) -> bool {
    exists|i: int| 0 <= i < x.languages.len() && seq_has_str(langs, (#[trigger] x.languages[i])@)
}

/// Does one of the registry's language tags stand in `langs`?
fn any_language(tags: &Vec<String>, langs: &Vec<String>) -> (r: bool)
    ensures
        r == (exists|i: int|
            0 <= i < tags@.len() && seq_has_str(langs@, (#[trigger] tags@[i])@)),
{
    let mut i: usize = 0;
    while i < tags.len()
        invariant
            i <= tags@.len(),
            forall|j: int| 0 <= j < i ==> !seq_has_str(langs@, (#[trigger] tags@[j])@),
        decreases tags@.len() - i,
    {
        if vec_has_str(langs, tags[i].as_str()) {
            return true;
        }
        i = i + 1;
    }
    false
}

/// The registries of `regs` with a language tag in `langs`, in input order.
pub fn registries_by_languages<'a>(regs: &'a Vec<Registry>, langs: &Vec<String>) -> (r: Vec<
    &'a Registry,
>)
    ensures
        r@.map_values(|x: &Registry| *x) == regs@.filter(
            |x: Registry| language_selected(langs@, x),
        ),
{
    let mut out: Vec<&'a Registry> = Vec::new();
    let mut i: usize = 0;
    proof {
        reveal(Seq::filter);
        assert(out@.map_values(|x: &Registry| *x) =~= regs@.take(0).filter(
            |x: Registry| language_selected(langs@, x),
        ));
    }
    while i < regs.len()
        invariant
            i <= regs@.len(),
            out@.map_values(|x: &Registry| *x) == regs@.take(i as int).filter(
                |x: Registry| language_selected(langs@, x),
            ),
        decreases regs@.len() - i,
    {
        let ghost prev = out@.map_values(|x: &Registry| *x);
        let reg = &regs[i];
        if any_language(&reg.languages, langs) {
            out.push(reg);
        }
        proof {
            broadcast use Seq::lemma_filter_push;

            if language_selected(langs@, *reg) {
                assert(out@.map_values(|x: &Registry| *x) =~= prev.push(*reg));
            }
            assert(regs@.take(i + 1) =~= regs@.take(i as int).push(regs@[i as int]));
        }
        i = i + 1;
    }
    proof {
        assert(regs@.take(regs@.len() as int) =~= regs@);
    }
    out
}

/// All of `regs` by reference, in input order.
fn all_of<'a>(regs: &'a Vec<Registry>) -> (r: Vec<&'a Registry>)
    ensures
        r@.map_values(|x: &Registry| *x) == regs@,
{
    let mut out: Vec<&'a Registry> = Vec::new();
    let mut i: usize = 0;
    while i < regs.len()
        invariant
            i <= regs@.len(),
            out@.map_values(|x: &Registry| *x) == regs@.take(i as int),
        decreases regs@.len() - i,
    {
        let ghost prev = out@.map_values(|x: &Registry| *x);
        out.push(&regs[i]);
        proof {
            assert(out@.map_values(|x: &Registry| *x) =~= prev.push(regs@[i as int]));
            assert(regs@.take(i + 1) =~= regs@.take(i as int).push(regs@[i as int]));
        }
        i = i + 1;
    }
    proof {
        assert(regs@.take(regs@.len() as int) =~= regs@);
    }
    out
}

/// Pick the registry subset that a request asks for. Precedence when several
/// selectors are given: an explicit id list, then a language list, then the
/// all flag, then the popular default.
pub fn resolve_registries<'a>(
    regs: &'a Vec<Registry>,
    all: bool,
    ids: Option<&Vec<String>>,
    langs: Option<&Vec<String>>,
) -> (r: Vec<&'a Registry>)
    ensures
        ids is Some ==> r@.map_values(|x: &Registry| *x) == regs@.filter(
            |x: Registry| id_selected(ids->Some_0@, x),
        ),
        ids is None && langs is Some ==> r@.map_values(|x: &Registry| *x) == regs@.filter(
            |x: Registry| language_selected(langs->Some_0@, x),
        ),
        ids is None && langs is None && all ==> r@.map_values(|x: &Registry| *x) == regs@,
        ids is None && langs is None && !all ==> r@.map_values(|x: &Registry| *x) == regs@.filter(
            |x: Registry| x.popular,
        ),
{
    if let Some(id_list) = ids {
        registries_by_ids(regs, id_list)
    } else if let Some(lang_list) = langs {
        registries_by_languages(regs, lang_list)
    } else if all {
        all_of(regs)
    } else {
        popular_registries(regs)
    }
}

/// The listing record of one registry.
pub fn registry_info(registry: &Registry) -> (r: RegistryInfo)
    ensures
        r.id == registry.id,
        r.name == registry.name,
        r.ecosystem == registry.ecosystem,
        r.languages@ == registry.languages@,
{
    let languages = clone_strings(&registry.languages);
    RegistryInfo {
        id: registry.id.clone(),
        name: registry.name.clone(),
        ecosystem: registry.ecosystem.clone(),
        languages,
    }
}

/// One listing record per registry, in order.
pub fn registry_infos(regs: &Vec<Registry>) -> (out: Vec<RegistryInfo>)
    ensures
        out@.len() == regs@.len(),
        forall|i: int|
            0 <= i < regs@.len() ==> {
                &&& (#[trigger] out@[i]).id == regs@[i].id
                &&& out@[i].name == regs@[i].name
                &&& out@[i].ecosystem == regs@[i].ecosystem
                &&& out@[i].languages@ == regs@[i].languages@
            },
{
    let mut out: Vec<RegistryInfo> = Vec::new();
    let mut i: usize = 0;
    while i < regs.len()
        invariant
            i <= regs@.len(),
            out@.len() == i,
            forall|j: int|
                0 <= j < i ==> {
                    &&& (#[trigger] out@[j]).id == regs@[j].id
                    &&& out@[j].name == regs@[j].name
                    &&& out@[j].ecosystem == regs@[j].ecosystem
                    &&& out@[j].languages@ == regs@[j].languages@
                },
        decreases regs@.len() - i,
    {
        out.push(registry_info(&regs[i]));
        i = i + 1;
    }
    out
}

/// A value-preserving copy of a string list.
fn clone_strings(items: &Vec<String>) -> (r: Vec<String>)
    ensures
        r@ == items@,
{
    let mut out: Vec<String> = Vec::new();
    let mut i: usize = 0;
    while i < items.len()
        invariant
            i <= items@.len(),
            out@ == items@.take(i as int),
        decreases items@.len() - i,
    {
        out.push(items[i].clone());
        proof {
            assert(items@.take(i + 1) =~= items@.take(i as int).push(items@[i as int]));
        }
        i = i + 1;
    }
    proof {
        assert(items@.take(items@.len() as int) =~= items@);
    }
    out
}

/// The placeholder token of the URL templates.
pub open spec fn placeholder() -> Seq<char> {
    "{name}"@
}

/// The name as it is substituted into a registry's check URL: one registry
/// compares names case-insensitively, so its probe lower-cases the name.
pub open spec fn url_name(registry: Registry, name: Seq<char>) -> Seq<char> {
    if registry.id@ == "nuget"@ {
        lower_of(name)
    } else {
        name
    }
}

/// The URL probed to see whether `name` exists on `registry`.
pub fn check_url(registry: &Registry, name: &str) -> (r: String)
    ensures
        r@ == replace_with(registry.check_url_template@, placeholder(), url_name(*registry, name@)),
{
    proof {
        reveal_strlit("{name}");
    }
    if str_eq(registry.id.as_str(), "nuget") {
        let lowered = lowercase(name);
        str_replace(registry.check_url_template.as_str(), "{name}", lowered.as_str())
    } else {
        str_replace(registry.check_url_template.as_str(), "{name}", name)
    }
}

/// The URL a person would browse to look at `name` on `registry`.
pub fn browse_url(registry: &Registry, name: &str) -> (r: String)
    ensures
        r@ == replace_with(registry.browse_url_template@, placeholder(), name@),
{
    proof {
        reveal_strlit("{name}");
    }
    str_replace(registry.browse_url_template.as_str(), "{name}", name)
}

} // verus!
