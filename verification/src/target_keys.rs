//! Version-key presets for target files: which keys a file of a given name
//! or extension usually keeps its version under, and stepping through them.

use vstd::prelude::*;
use crate::paths::{extension_of, path_extension, path_file_name, plain_file_name};
use crate::text::{
    chars_of, contains_seq, ends_with, lower_seq, lower_vec, trim, trimmed_chars, vec_contains_seq,
    vec_ends_with, vec_eq, vec_eq_str,
};

verus! {

/// What the workflow knows of a target file beyond its name.
#[derive(Clone, Copy, Debug, PartialEq, Eq, Structural)]
pub enum TargetFileClass {
    /// A bare version file (such as `VERSION`).
    PlainVersion,
    /// A Go module file.
    GoMod,
    Other,
}

/// The characters of each preset.
pub open spec fn str_views(v: Seq<&'static str>) -> Seq<Seq<char>> {
    v.map_values(|s: &'static str| s@)
}

/// The key presets for a file whose (lower-cased) name is `name`: a chain of
/// well-known file names and suffixes.
pub open spec fn named_file_presets(name: Seq<char>) -> Option<Seq<Seq<char>>> {
    if name == "gemfile"@ {
        Some(seq!["version"@, "gem."@])
    } else if ends_with(name, ".gemspec"@) {
        Some(seq!["version"@, "gem."@])
    } else if ends_with(name, ".csproj"@) {
        Some(seq!["PropertyGroup.Version"@, "PropertyGroup.PackageVersion"@, "Version"@])
    } else if name == "pubspec.yaml"@ {
        Some(seq!["version"@, "appVersion"@])
    } else if name == "project.toml"@ {
        Some(seq!["project.version"@, "version"@])
    } else if name == "description"@ {
        Some(seq!["Version"@])
    } else if name == "cmakelists.txt"@ {
        Some(seq!["project"@, "VERSION"@, "PROJECT_VERSION"@])
    } else if name == "makefile"@ || name == "gnumakefile"@ {
        Some(seq!["VERSION"@, "version"@])
    } else if name == "build.gradle"@ || name == "build.gradle.kts"@ {
        Some(seq!["version"@, "versionName"@, "versionCode"@])
    } else if name == "project.clj"@ {
        Some(seq!["defproject"@, "version"@])
    } else if ends_with(name, ".plist"@) {
        Some(seq!["CFBundleShortVersionString"@, "CFBundleVersion"@])
    } else if name == "package.swift"@ {
        Some(seq!["version"@, "packageVersion"@, "comment"@])
    } else if name == "mix.exs"@ {
        Some(seq!["version"@])
    } else if name == "build.sbt"@ {
        Some(seq!["version"@, "ThisBuild / version"@])
    } else if ends_with(name, ".cabal"@) {
        Some(seq!["version"@, "name"@])
    } else if name == "configure.ac"@ {
        Some(seq!["AC_INIT"@])
    } else if name == "meson.build"@ {
        Some(seq!["project"@, "version"@])
    } else if ends_with(name, ".nimble"@) {
        Some(seq!["version"@])
    } else if ends_with(name, ".rockspec"@) {
        Some(seq!["version"@])
    } else if name == "composer.json"@ || name == "deno.json"@ || name == "meta.json"@ {
        Some(seq!["version"@, "package.version"@])
    } else if name == "package.yaml"@ || name == "shard.yml"@ {
        Some(seq!["version"@])
    } else if name == "makefile.pl"@ {
        Some(seq!["VERSION"@, "version"@])
    } else if name == "module.bazel"@ {
        Some(seq!["module"@, "version"@])
    } else {
        None
    }
}

fn named_file_presets_of(name: &Vec<char>) -> (r: Option<Vec<&'static str>>)
    ensures
        match named_file_presets(name@) {
            Some(p) => r matches Some(v) && str_views(v@) == p,
            None => r is None,
        },
        r matches Some(v) ==> v@.len() > 0,
{
    let v = if vec_eq_str(&name, "gemfile") {
        vec!["version", "gem."]
    } else if vec_ends_with(&name, &chars_of(".gemspec")) {
        vec!["version", "gem."]
    } else if vec_ends_with(&name, &chars_of(".csproj")) {
        vec!["PropertyGroup.Version", "PropertyGroup.PackageVersion", "Version"]
    } else if vec_eq_str(&name, "pubspec.yaml") {
        vec!["version", "appVersion"]
    } else if vec_eq_str(&name, "project.toml") {
        vec!["project.version", "version"]
    } else if vec_eq_str(&name, "description") {
        vec!["Version"]
    } else if vec_eq_str(&name, "cmakelists.txt") {
        vec!["project", "VERSION", "PROJECT_VERSION"]
    } else if vec_eq_str(&name, "makefile") || vec_eq_str(&name, "gnumakefile") {
        vec!["VERSION", "version"]
    } else if vec_eq_str(&name, "build.gradle") || vec_eq_str(&name, "build.gradle.kts") {
        vec!["version", "versionName", "versionCode"]
    } else if vec_eq_str(&name, "project.clj") {
        vec!["defproject", "version"]
    } else if vec_ends_with(&name, &chars_of(".plist")) {
        vec!["CFBundleShortVersionString", "CFBundleVersion"]
    } else if vec_eq_str(&name, "package.swift") {
        vec!["version", "packageVersion", "comment"]
    } else if vec_eq_str(&name, "mix.exs") {
        vec!["version"]
    } else if vec_eq_str(&name, "build.sbt") {
        vec!["version", "ThisBuild / version"]
    } else if vec_ends_with(&name, &chars_of(".cabal")) {
        vec!["version", "name"]
    } else if vec_eq_str(&name, "configure.ac") {
        vec!["AC_INIT"]
    } else if vec_eq_str(&name, "meson.build") {
        vec!["project", "version"]
    } else if vec_ends_with(&name, &chars_of(".nimble")) {
        vec!["version"]
    } else if vec_ends_with(&name, &chars_of(".rockspec")) {
        vec!["version"]
    } else if vec_eq_str(&name, "composer.json") || vec_eq_str(&name, "deno.json") || vec_eq_str(&name, "meta.json") {
        vec!["version", "package.version"]
    } else if vec_eq_str(&name, "package.yaml") || vec_eq_str(&name, "shard.yml") {
        vec!["version"]
    } else if vec_eq_str(&name, "makefile.pl") {
        vec!["VERSION", "version"]
    } else if vec_eq_str(&name, "module.bazel") {
        vec!["module", "version"]
    } else {
        return None;
    };
    proof {
        assert(str_views(v@) =~= named_file_presets(name@)->0);
    }
    Some(v)
}

/// The presets chosen by the file's extension (lower-cased) when its name
/// is not a well-known one.
pub open spec fn extension_presets(path_lower: Seq<char>, ext: Option<Seq<char>>) -> Seq<Seq<char>> {
    match ext {
        Some(e) => if e == "toml"@ {
            if contains_seq(path_lower, "pyproject"@) {
                seq!["project.version"@, "tool.poetry.version"@, "version"@]
            } else if ends_with(path_lower, "project.toml"@) {
                seq!["project.version"@, "version"@]
            } else {
                seq!["package.version"@, "workspace.package.version"@, "version"@]
            }
        } else if e == "json"@ {
            seq!["version"@, "package.version"@, "workspace.package.version"@]
        } else if e == "yaml"@ || e == "yml"@ {
            seq!["version"@, "appVersion"@, "chart.version"@]
        } else if e == "xml"@ {
            seq!["project.version"@, "version"@]
        } else if e == "cfg"@ {
            seq!["metadata.version"@, "version"@]
        } else {
            seq!["version"@, "package.version"@, "workspace.package.version"@]
        },
        None => seq!["version"@, "package.version"@, "workspace.package.version"@],
    }
}

/// The presets for `path`, given what `Path::file_name` and `Path::extension`
/// made of it and the file's class.
pub open spec fn presets_spec(path: Seq<char>, file_name: Option<Seq<char>>, extension: Option<Seq<char>>, class: TargetFileClass) -> Seq<Seq<char>> {
    let name = lower_seq(match file_name { Some(n) => n, None => path });
    if class == TargetFileClass::PlainVersion {
        seq![""@, "."@, "@"@]
    } else if class == TargetFileClass::GoMod {
        seq!["comment"@, "require."@]
    } else {
        match named_file_presets(name) {
            Some(p) => p,
            None => extension_presets(lower_seq(trim(path)), match extension { Some(e) => Some(lower_seq(e)), None => None }),
        }
    }
}

fn extension_presets_of(path_lower: &Vec<char>, ext: &Option<Vec<char>>) -> (r: Vec<&'static str>)
    ensures
        str_views(r@) == extension_presets(path_lower@, match ext { Some(e) => Some(e@), None => None }),
        r@.len() > 0,
{
    let v = match ext {
        Some(e) => if vec_eq_str(e, "toml") {
            if vec_contains_seq(path_lower, &chars_of("pyproject")) {
                vec!["project.version", "tool.poetry.version", "version"]
            } else if vec_ends_with(path_lower, &chars_of("project.toml")) {
                vec!["project.version", "version"]
            } else {
                vec!["package.version", "workspace.package.version", "version"]
            }
        } else if vec_eq_str(e, "json") {
            vec!["version", "package.version", "workspace.package.version"]
        } else if vec_eq_str(e, "yaml") || vec_eq_str(e, "yml") {
            vec!["version", "appVersion", "chart.version"]
        } else if vec_eq_str(e, "xml") {
            vec!["project.version", "version"]
        } else if vec_eq_str(e, "cfg") {
            vec!["metadata.version", "version"]
        } else {
            vec!["version", "package.version", "workspace.package.version"]
        },
        None => vec!["version", "package.version", "workspace.package.version"],
    };
    proof {
        assert(str_views(v@) =~= extension_presets(path_lower@, match ext { Some(e) => Some(e@), None => None }));
    }
    v
}

/// The presets for `path` from what `Path::file_name` and `Path::extension`
/// made of it.
pub fn target_key_presets_for(path: &str, file_name: Option<String>, extension: Option<String>, class: TargetFileClass) -> (r: Vec<&'static str>)
    ensures
        str_views(r@) == presets_spec(path@, match file_name { Some(n) => Some(n@), None => None },
            match extension { Some(e) => Some(e@), None => None }, class),
        r@.len() > 0,
{
    if class == TargetFileClass::PlainVersion {
        let v = vec!["", ".", "@"];
        assert(str_views(v@) =~= seq![""@, "."@, "@"@]);
        return v;
    }
    if class == TargetFileClass::GoMod {
        let v = vec!["comment", "require."];
        assert(str_views(v@) =~= seq!["comment"@, "require."@]);
        return v;
    }
    let raw_name = match &file_name {
        Some(n) => chars_of(n.as_str()),
        None => chars_of(path),
    };
    let name = lower_vec(&raw_name);
    match named_file_presets_of(&name) {
        Some(v) => v,
        None => {
            let path_lower = lower_vec(&trimmed_chars(path));
            let ext = match &extension {
                Some(e) => Some(lower_vec(&chars_of(e.as_str()))),
                None => None,
            };
            extension_presets_of(&path_lower, &ext)
        },
    }
}

/// The presets for `path` where its file name is plain: chosen by that name
/// and its extension. `None` where the platform's reading of separators
/// decides the file name.
pub open spec fn plain_presets(path: Seq<char>, class: TargetFileClass) -> Option<Seq<Seq<char>>> {
    match plain_file_name(path) {
        Some(n) => Some(presets_spec(path, Some(n), extension_of(n), class)),
        None => None,
    }
}

/// The presets for `path`. The file name and extension come from
/// `std::path::Path`; where the platform's reading of separators decides
/// them, the presets are those of some file name and extension.
pub fn target_key_presets(path: &str, class: TargetFileClass) -> (r: Vec<&'static str>)
    ensures
        r@.len() > 0,
        plain_presets(path@, class) matches Some(p) ==> str_views(r@) == p,
        exists|file_name: Option<Seq<char>>, extension: Option<Seq<char>>|
            str_views(r@) == presets_spec(path@, file_name, extension, class),
{
    let file_name = path_file_name(path);
    let extension = path_extension(path);
    let r = target_key_presets_for(path, file_name, extension, class);
    r
}

/// The first index whose preset is `key`, or 0 when none is.
pub open spec fn preset_index(presets: Seq<Seq<char>>, key: Seq<char>) -> int {
    if exists|i: int| 0 <= i < presets.len() && presets[i] == key {
        choose|i: int| 0 <= i < presets.len() && presets[i] == key && forall|j: int| 0 <= j < i ==> #[trigger] presets[j] != key
    } else {
        0
    }
}

fn position_of_preset(presets: &Vec<&'static str>, key: &Vec<char>) -> (r: usize)
    ensures
        r == preset_index(str_views(presets@), key@),
        presets@.len() > 0 ==> r < presets@.len(),
{
    let ghost views = str_views(presets@);
    let mut i: usize = 0;
    while i < presets.len()
        invariant
            i <= presets@.len(),
            views == str_views(presets@),
            forall|j: int| 0 <= j < i ==> #[trigger] views[j] != key@,
        decreases presets.len() - i,
    {
        let candidate = chars_of(presets[i]);
        if vec_eq(&candidate, key) {
            proof {
                assert(views[i as int] == key@);
                let k = preset_index(views, key@);
                assert(exists|m: int| 0 <= m < views.len() && views[m] == key@ && forall|j: int| 0 <= j < m ==> #[trigger] views[j] != key@);
                if k < i {
                    assert(views[k] != key@);
                } else if k > i {
                    assert(views[i as int] != key@);
                }
            }
            return i;
        }
        i = i + 1;
    }
    0
}

/// The preset one step after (`delta >= 0`) or before `key`'s, wrapping.
pub open spec fn cycled_preset(presets: Seq<Seq<char>>, key: Seq<char>, delta: i32) -> Seq<char> {
    let step: int = if delta >= 0 { 1 } else { -1 };
    presets[(preset_index(presets, key) + step) % (presets.len() as int)]
}

/// The key a target of this kind starts with: the first preset.
pub fn default_target_key(presets: &Vec<&'static str>) -> (key: &'static str)
    requires
        presets@.len() > 0,
    ensures
        key@ == str_views(presets@)[0],
{
    presets[0]
}

/// Whether `value` (trimmed) is none of the presets.
pub fn target_key_is_custom_among(presets: &Vec<&'static str>, value: &str) -> (custom: bool)
    ensures
        custom == !str_views(presets@).contains(trim(value@)),
{
    let wanted = trimmed_chars(value);
    let ghost views = str_views(presets@);
    let mut i: usize = 0;
    while i < presets.len()
        invariant
            i <= presets@.len(),
            views == str_views(presets@),
            wanted@ == trim(value@),
            forall|j: int| 0 <= j < i ==> #[trigger] views[j] != wanted@,
        decreases presets.len() - i,
    {
        if vec_eq(&chars_of(presets[i]), &wanted) {
            assert(views[i as int] == wanted@);
            return false;
        }
        i = i + 1;
    }
    true
}

/// The preset after (`delta >= 0`) or before the one `current` (trimmed)
/// names, wrapping around; an unknown key counts as the first preset.
pub fn cycle_preset_among(presets: &Vec<&'static str>, current: &str, delta: i32) -> (next: String)
    requires
        presets@.len() > 0,
    ensures
        next@ == cycled_preset(str_views(presets@), trim(current@), delta),
{
    let wanted = trimmed_chars(current);
    let index = position_of_preset(presets, &wanted);
    let step: isize = if delta >= 0 { 1 } else { -1 };
    let next_index = crate::layout::wrap_index(index, step, presets.len());
    String::from_str(presets[next_index])
}

/// The default key for a target file at `path`.
pub fn default_target_key_for_path(path: &str, class: TargetFileClass) -> (key: &'static str)
    ensures
        plain_presets(path@, class) matches Some(p) ==> key@ == p[0],
        exists|file_name: Option<Seq<char>>, extension: Option<Seq<char>>|
            key@ == presets_spec(path@, file_name, extension, class)[0],
{
    let presets = target_key_presets(path, class);
    default_target_key(&presets)
}

/// Whether `value` is none of the presets for `path`.
pub fn target_key_is_custom(path: &str, value: &str, class: TargetFileClass) -> (custom: bool)
    ensures
        plain_presets(path@, class) matches Some(p) ==> custom == !p.contains(trim(value@)),
        exists|file_name: Option<Seq<char>>, extension: Option<Seq<char>>|
            custom == !presets_spec(path@, file_name, extension, class).contains(trim(value@)),
{
    let presets = target_key_presets(path, class);
    target_key_is_custom_among(&presets, value)
}

/// The next (or previous) preset for `path` after `current`.
pub fn cycle_target_key_preset(path: &str, current: &str, delta: i32, class: TargetFileClass) -> (next: String)
    ensures
        plain_presets(path@, class) matches Some(p) ==> next@ == cycled_preset(p, trim(current@), delta),
        exists|file_name: Option<Seq<char>>, extension: Option<Seq<char>>|
            next@ == cycled_preset(#[trigger] presets_spec(path@, file_name, extension, class), trim(current@), delta),
{
    let presets = target_key_presets(path, class);
    cycle_preset_among(&presets, current, delta)
}

} // verus!
