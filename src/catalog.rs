//! The path catalog: where each kind of developer tool keeps its caches, as
//! templates anchored at the home directory, the temporary directory or the
//! filesystem root, resolved against the actual directories when a scan runs.
//! Nothing here looks at the filesystem.
use vstd::prelude::*;
use crate::records::{
    collect_records, lemma_nothing_measured_nothing_reported, measured_records, record_views,
    RecordView, ScanResult,
};
use crate::text::{
    chars_of, concat, has_prefix, option_view, same_chars, slice_chars, starts_with, string_views,
};

verus! {

/// The directory that a path template is relative to.
#[derive(Debug, Clone, Copy, PartialEq, Eq, Structural)]
pub enum Anchor {
    /// The user's home directory.
    Home,
    /// The system's temporary directory.
    Temp,
    /// None: the template is a full path.
    Root,
}

/// `rel` appended to `base` with one `/` between them, as `Path::join` does with a
/// relative path: no separator is added to an empty base or one that ends in `/`.
pub open spec fn join(base: Seq<char>, rel: Seq<char>) -> Seq<char> {
    if base.len() == 0 || base.last() == '/' {
        base + rel
    } else {
        base + "/"@ + rel
    }
}

/// `rel` appended to `base`.
pub fn join_path(base: &str, rel: &str) -> (r: String)
    ensures
        r@ == join(base@, rel@),
{
    let v = chars_of(base);
    if v.len() == 0 || v[v.len() - 1] == '/' {
        concat(base, rel)
    } else {
        concat(concat(base, "/").as_str(), rel)
    }
}

/// A template resolved against the home and temporary directories.
pub open spec fn resolve(t: (Anchor, Seq<char>), home: Seq<char>, temp: Seq<char>) -> Seq<char> {
    match t.0 {
        Anchor::Home => join(home, t.1),
        Anchor::Temp => join(temp, t.1),
        Anchor::Root => t.1,
    }
}

pub open spec fn template_views(v: Seq<(Anchor, &str)>) -> Seq<(Anchor, Seq<char>)> {
    v.map_values(|t: (Anchor, &str)| (t.0, t.1@))
}

/// The cache categories that the catalog knows.
#[derive(Debug, Clone, Copy, PartialEq, Eq, Structural)]
pub enum Category {
    Expo,
    Metro,
    Ios,
    Android,
    Npm,
    Watchman,
    Cocoapods,
    Flipper,
    ReactNative,
    Hermes,
    Vscode,
    AndroidStudio,
    Homebrew,
    Git,
    Intellij,
    Python,
    Rust,
    Browser,
    SystemLogs,
    Pnpm,
    Unity,
    Simulator,
}

/// The tag of the records that a category's scan produces.
pub open spec fn tag(c: Category) -> Seq<char> {
    match c {
        Category::Expo => "expo_cache"@,
        Category::Metro => "metro_cache"@,
        Category::Ios => "ios_cache"@,
        Category::Android => "android_cache"@,
        Category::Npm => "npm_cache"@,
        Category::Watchman => "watchman_cache"@,
        Category::Cocoapods => "cocoapods_cache"@,
        Category::Flipper => "flipper_logs"@,
        Category::ReactNative => "react_native_cache"@,
        Category::Hermes => "hermes_cache"@,
        Category::Vscode => "vscode_cache"@,
        Category::AndroidStudio => "android_studio_cache"@,
        Category::Homebrew => "homebrew_cache"@,
        Category::Git => "git_cache"@,
        Category::Intellij => "intellij_cache"@,
        Category::Python => "python_cache"@,
        Category::Rust => "rust_cache"@,
        Category::Browser => "browser_cache"@,
        Category::SystemLogs => "system_logs"@,
        Category::Pnpm => "pnpm_cache"@,
        Category::Unity => "unity_cache"@,
        Category::Simulator => "simulator_cache"@,
    }
}

/// Where each category keeps its caches, in the order they are scanned.
pub open spec fn templates(c: Category) -> Seq<(Anchor, Seq<char>)> {
    match c {
        Category::Expo => seq![
            (Anchor::Home, ".expo"@),
            (Anchor::Home, "Library/Caches/Expo"@),
            (Anchor::Home, "AppData/Local/Expo"@),
        ],
        Category::Metro => seq![
            (Anchor::Home, ".metro"@),
            (Anchor::Home, "Library/Caches/Metro"@),
            (Anchor::Home, "AppData/Local/Metro"@),
            (Anchor::Temp, "metro-cache"@),
            (Anchor::Temp, "react-native-packager-cache"@),
        ],
        Category::Ios => seq![
            (Anchor::Home, "Library/Developer/Xcode/DerivedData"@),
            (Anchor::Home, "Library/Caches/com.apple.dt.Xcode"@),
            (Anchor::Home, "Library/Developer/CoreSimulator/Caches"@),
            (Anchor::Home, "Library/Logs/CoreSimulator"@),
            (Anchor::Home, "Library/Developer/Xcode/iOS DeviceSupport"@),
            (Anchor::Home, "Library/Developer/Xcode/watchOS DeviceSupport"@),
            (Anchor::Home, "Library/Developer/Xcode/tvOS DeviceSupport"@),
        ],
        Category::Android => seq![
            (Anchor::Home, ".gradle/caches"@),
            (Anchor::Home, ".gradle/daemon"@),
            (Anchor::Home, ".android/cache"@),
            (Anchor::Home, ".android/avd/.temp"@),
            (Anchor::Home, "Library/Android/sdk/.temp"@),
            (Anchor::Home, "AppData/Local/Android/Sdk/.temp"@),
            (Anchor::Home, "AppData/Local/Temp/AndroidEmulator"@),
        ],
        Category::Npm => seq![
            (Anchor::Home, ".npm/_cacache"@),
            (Anchor::Home, ".yarn/cache"@),
            (Anchor::Home, "Library/Caches/npm"@),
            (Anchor::Home, "Library/Caches/yarn"@),
            (Anchor::Home, "AppData/Roaming/npm-cache"@),
            (Anchor::Home, "AppData/Local/Yarn/Cache"@),
        ],
        Category::Watchman => seq![
            (Anchor::Home, ".watchman"@),
            (Anchor::Temp, "watchman"@),
            (Anchor::Home, "Library/Logs/watchman"@),
        ],
        Category::Cocoapods => seq![
            (Anchor::Home, "Library/Caches/CocoaPods"@),
            (Anchor::Home, ".cocoapods/repos"@),
        ],
        Category::Flipper => seq![
            (Anchor::Home, ".flipper"@),
            (Anchor::Home, "Library/Application Support/flipper"@),
            (Anchor::Home, "AppData/Roaming/flipper"@),
        ],
        Category::ReactNative => seq![
            (Anchor::Home, ".react-native"@),
            (Anchor::Home, "Library/Caches/com.facebook.react"@),
            (Anchor::Home, "AppData/Local/React Native"@),
        ],
        Category::Hermes => seq![
            (Anchor::Home, ".hermes"@),
            (Anchor::Home, "Library/Caches/Hermes"@),
            (Anchor::Home, "AppData/Local/Hermes"@),
            (Anchor::Temp, "hermes-*"@),
        ],
        Category::Vscode => seq![
            (Anchor::Home, ".vscode/extensions"@),
            (Anchor::Home, "Library/Application Support/Code/logs"@),
            (Anchor::Home, "Library/Caches/com.microsoft.VSCode"@),
            (Anchor::Home, "AppData/Roaming/Code/logs"@),
            (Anchor::Home, "AppData/Roaming/Code/CachedExtensions"@),
        ],
        Category::AndroidStudio => seq![
            (Anchor::Home, "Library/Application Support/Google/AndroidStudio*/system"@),
            (Anchor::Home, "Library/Logs/Google/AndroidStudio*"@),
            (Anchor::Home, "Library/Caches/Google/AndroidStudio*"@),
            (Anchor::Home, "AppData/Local/Google/AndroidStudio*/system"@),
            (Anchor::Home, "AppData/Local/Google/AndroidStudio*/log"@),
        ],
        Category::Homebrew => seq![
            (Anchor::Root, "/opt/homebrew/var/cache"@),
            (Anchor::Root, "/usr/local/var/cache"@),
            (Anchor::Home, "Library/Caches/Homebrew"@),
        ],
        Category::Git => seq![
            (Anchor::Home, "Library/Caches/com.github.GitHubDesktop"@),
            (Anchor::Home, "AppData/Roaming/GitHub Desktop/logs"@),
        ],
        Category::Intellij => seq![
            (Anchor::Home, "Library/Caches/JetBrains"@),
            (Anchor::Home, "Library/Logs/JetBrains"@),
            (Anchor::Home, "AppData/Local/JetBrains"@),
        ],
        Category::Python => seq![
            (Anchor::Home, ".pip/cache"@),
            (Anchor::Home, "Library/Caches/pip"@),
            (Anchor::Home, "AppData/Local/pip/Cache"@),
            (Anchor::Home, ".cache/pypoetry"@),
            (Anchor::Home, "Library/Caches/pypoetry"@),
            (Anchor::Home, ".conda/pkgs"@),
            (Anchor::Home, "Library/Caches/conda"@),
        ],
        Category::Rust => seq![
            (Anchor::Home, ".cargo/registry"@),
            (Anchor::Home, ".cargo/git"@),
            (Anchor::Home, ".rustup/downloads"@),
            (Anchor::Home, ".rustup/tmp"@),
        ],
        Category::Browser => seq![
            (Anchor::Home, "Library/Caches/Google/Chrome"@),
            (Anchor::Home, "Library/Caches/Mozilla/Firefox"@),
            (Anchor::Home, "Library/Caches/com.apple.Safari"@),
            (Anchor::Home, "AppData/Local/Google/Chrome/User Data/Default/Cache"@),
            (Anchor::Home, "AppData/Local/Mozilla/Firefox/Profiles"@),
            (Anchor::Home, "AppData/Local/Microsoft/Edge/User Data/Default/Cache"@),
        ],
        Category::SystemLogs => seq![
            (Anchor::Home, "Library/Logs"@),
            (Anchor::Home, "Library/Application Support/CrashReporter"@),
            (Anchor::Root, "/tmp"@),
        ],
        Category::Pnpm => seq![
            (Anchor::Home, ".pnpm-store"@),
            (Anchor::Home, "Library/pnpm"@),
            (Anchor::Home, "AppData/Local/pnpm-cache"@),
        ],
        Category::Unity => seq![
            (Anchor::Home, "Library/Unity/cache"@),
            (Anchor::Home, "Library/Logs/Unity"@),
            (Anchor::Home, "AppData/Local/Unity/cache"@),
            (Anchor::Home, "AppData/LocalLow/Unity"@),
        ],
        Category::Simulator => seq![
            (Anchor::Home, "Library/Developer/CoreSimulator/Devices"@),
            (Anchor::Home, "Library/Logs/CoreSimulator"@),
            (Anchor::Home, "Library/Saved Application State/com.apple.iphonesimulator.savedState"@),
        ],
    }
}

/// The tag of the records that a category's scan produces.
pub fn category_tag(c: Category) -> (r: &'static str)
    ensures
        r@ == tag(c),
{
    match c {
        Category::Expo => "expo_cache",
        Category::Metro => "metro_cache",
        Category::Ios => "ios_cache",
        Category::Android => "android_cache",
        Category::Npm => "npm_cache",
        Category::Watchman => "watchman_cache",
        Category::Cocoapods => "cocoapods_cache",
        Category::Flipper => "flipper_logs",
        Category::ReactNative => "react_native_cache",
        Category::Hermes => "hermes_cache",
        Category::Vscode => "vscode_cache",
        Category::AndroidStudio => "android_studio_cache",
        Category::Homebrew => "homebrew_cache",
        Category::Git => "git_cache",
        Category::Intellij => "intellij_cache",
        Category::Python => "python_cache",
        Category::Rust => "rust_cache",
        Category::Browser => "browser_cache",
        Category::SystemLogs => "system_logs",
        Category::Pnpm => "pnpm_cache",
        Category::Unity => "unity_cache",
        Category::Simulator => "simulator_cache",
    }
}

/// Where a category keeps its caches.
pub fn category_templates(c: Category) -> (r: Vec<(Anchor, &'static str)>)
    ensures
        template_views(r@) == templates(c),
{
    let r: Vec<(Anchor, &'static str)> = match c {
        Category::Expo => vec![
            (Anchor::Home, ".expo"),
            (Anchor::Home, "Library/Caches/Expo"),
            (Anchor::Home, "AppData/Local/Expo"),
        ],
        Category::Metro => vec![
            (Anchor::Home, ".metro"),
            (Anchor::Home, "Library/Caches/Metro"),
            (Anchor::Home, "AppData/Local/Metro"),
            (Anchor::Temp, "metro-cache"),
            (Anchor::Temp, "react-native-packager-cache"),
        ],
        Category::Ios => vec![
            (Anchor::Home, "Library/Developer/Xcode/DerivedData"),
            (Anchor::Home, "Library/Caches/com.apple.dt.Xcode"),
            (Anchor::Home, "Library/Developer/CoreSimulator/Caches"),
            (Anchor::Home, "Library/Logs/CoreSimulator"),
            (Anchor::Home, "Library/Developer/Xcode/iOS DeviceSupport"),
            (Anchor::Home, "Library/Developer/Xcode/watchOS DeviceSupport"),
            (Anchor::Home, "Library/Developer/Xcode/tvOS DeviceSupport"),
        ],
        Category::Android => vec![
            (Anchor::Home, ".gradle/caches"),
            (Anchor::Home, ".gradle/daemon"),
            (Anchor::Home, ".android/cache"),
            (Anchor::Home, ".android/avd/.temp"),
            (Anchor::Home, "Library/Android/sdk/.temp"),
            (Anchor::Home, "AppData/Local/Android/Sdk/.temp"),
            (Anchor::Home, "AppData/Local/Temp/AndroidEmulator"),
        ],
        Category::Npm => vec![
            (Anchor::Home, ".npm/_cacache"),
            (Anchor::Home, ".yarn/cache"),
            (Anchor::Home, "Library/Caches/npm"),
            (Anchor::Home, "Library/Caches/yarn"),
            (Anchor::Home, "AppData/Roaming/npm-cache"),
            (Anchor::Home, "AppData/Local/Yarn/Cache"),
        ],
        Category::Watchman => vec![
            (Anchor::Home, ".watchman"),
            (Anchor::Temp, "watchman"),
            (Anchor::Home, "Library/Logs/watchman"),
        ],
        Category::Cocoapods => vec![
            (Anchor::Home, "Library/Caches/CocoaPods"),
            (Anchor::Home, ".cocoapods/repos"),
        ],
        Category::Flipper => vec![
            (Anchor::Home, ".flipper"),
            (Anchor::Home, "Library/Application Support/flipper"),
            (Anchor::Home, "AppData/Roaming/flipper"),
        ],
        Category::ReactNative => vec![
            (Anchor::Home, ".react-native"),
            (Anchor::Home, "Library/Caches/com.facebook.react"),
            (Anchor::Home, "AppData/Local/React Native"),
        ],
        Category::Hermes => vec![
            (Anchor::Home, ".hermes"),
            (Anchor::Home, "Library/Caches/Hermes"),
            (Anchor::Home, "AppData/Local/Hermes"),
            (Anchor::Temp, "hermes-*"),
        ],
        Category::Vscode => vec![
            (Anchor::Home, ".vscode/extensions"),
            (Anchor::Home, "Library/Application Support/Code/logs"),
            (Anchor::Home, "Library/Caches/com.microsoft.VSCode"),
            (Anchor::Home, "AppData/Roaming/Code/logs"),
            (Anchor::Home, "AppData/Roaming/Code/CachedExtensions"),
        ],
        Category::AndroidStudio => vec![
            (Anchor::Home, "Library/Application Support/Google/AndroidStudio*/system"),
            (Anchor::Home, "Library/Logs/Google/AndroidStudio*"),
            (Anchor::Home, "Library/Caches/Google/AndroidStudio*"),
            (Anchor::Home, "AppData/Local/Google/AndroidStudio*/system"),
            (Anchor::Home, "AppData/Local/Google/AndroidStudio*/log"),
        ],
        Category::Homebrew => vec![
            (Anchor::Root, "/opt/homebrew/var/cache"),
            (Anchor::Root, "/usr/local/var/cache"),
            (Anchor::Home, "Library/Caches/Homebrew"),
        ],
        Category::Git => vec![
            (Anchor::Home, "Library/Caches/com.github.GitHubDesktop"),
            (Anchor::Home, "AppData/Roaming/GitHub Desktop/logs"),
        ],
        Category::Intellij => vec![
            (Anchor::Home, "Library/Caches/JetBrains"),
            (Anchor::Home, "Library/Logs/JetBrains"),
            (Anchor::Home, "AppData/Local/JetBrains"),
        ],
        Category::Python => vec![
            (Anchor::Home, ".pip/cache"),
            (Anchor::Home, "Library/Caches/pip"),
            (Anchor::Home, "AppData/Local/pip/Cache"),
            (Anchor::Home, ".cache/pypoetry"),
            (Anchor::Home, "Library/Caches/pypoetry"),
            (Anchor::Home, ".conda/pkgs"),
            (Anchor::Home, "Library/Caches/conda"),
        ],
        Category::Rust => vec![
            (Anchor::Home, ".cargo/registry"),
            (Anchor::Home, ".cargo/git"),
            (Anchor::Home, ".rustup/downloads"),
            (Anchor::Home, ".rustup/tmp"),
        ],
        Category::Browser => vec![
            (Anchor::Home, "Library/Caches/Google/Chrome"),
            (Anchor::Home, "Library/Caches/Mozilla/Firefox"),
            (Anchor::Home, "Library/Caches/com.apple.Safari"),
            (Anchor::Home, "AppData/Local/Google/Chrome/User Data/Default/Cache"),
            (Anchor::Home, "AppData/Local/Mozilla/Firefox/Profiles"),
            (Anchor::Home, "AppData/Local/Microsoft/Edge/User Data/Default/Cache"),
        ],
        Category::SystemLogs => vec![
            (Anchor::Home, "Library/Logs"),
            (Anchor::Home, "Library/Application Support/CrashReporter"),
            (Anchor::Root, "/tmp"),
        ],
        Category::Pnpm => vec![
            (Anchor::Home, ".pnpm-store"),
            (Anchor::Home, "Library/pnpm"),
            (Anchor::Home, "AppData/Local/pnpm-cache"),
        ],
        Category::Unity => vec![
            (Anchor::Home, "Library/Unity/cache"),
            (Anchor::Home, "Library/Logs/Unity"),
            (Anchor::Home, "AppData/Local/Unity/cache"),
            (Anchor::Home, "AppData/LocalLow/Unity"),
        ],
        Category::Simulator => vec![
            (Anchor::Home, "Library/Developer/CoreSimulator/Devices"),
            (Anchor::Home, "Library/Logs/CoreSimulator"),
            (Anchor::Home, "Library/Saved Application State/com.apple.iphonesimulator.savedState"),
        ],
    };
    assert(template_views(r@) =~= templates(c));
    r
}

/// The candidate locations of a category, in order.
pub open spec fn candidates(c: Category, home: Seq<char>, temp: Seq<char>) -> Seq<Seq<char>> {
    Seq::new(templates(c).len(), |i: int| resolve(templates(c)[i], home, temp))
}

/// The candidate locations of a category under the given home and temporary directories.
pub fn candidate_paths(c: Category, home: &str, temp: &str) -> (r: Vec<String>)
    ensures
        string_views(r@) == candidates(c, home@, temp@),
{
    let ts = category_templates(c);
    let mut out: Vec<String> = Vec::new();
    let mut i: usize = 0;
    while i < ts.len()
        invariant
            i <= ts.len(),
            template_views(ts@) == templates(c),
            out.len() == i,
            forall|k: int| 0 <= k < i ==> #[trigger] out@[k]@ == resolve(templates(c)[k], home@, temp@),
        decreases ts.len() - i,
    {
        let (anchor, rel) = ts[i];
        assert(templates(c)[i as int] == (anchor, rel@));
        let p = match anchor {
            Anchor::Home => join_path(home, rel),
            Anchor::Temp => join_path(temp, rel),
            Anchor::Root => rel.to_owned(),
        };
        out.push(p);
        i = i + 1;
    }
    assert(string_views(out@) =~= candidates(c, home@, temp@));
    out
}

/// Whether a category's scan needs the home directory: all do but Homebrew's,
/// which then looks at its locations relative to an empty home.
pub open spec fn needs_home(c: Category) -> bool {
    c != Category::Homebrew
}

/// Whether a category counts a candidate only where it is a directory.
pub open spec fn directories_only(c: Category) -> bool {
    c == Category::Git
}

/// Whether a category counts a candidate only where it is a directory.
pub fn requires_directory(c: Category) -> (r: bool)
    ensures
        r == directories_only(c),
{
    match c {
        Category::Git => true,
        _ => false,
    }
}

/// The locations a category's scan looks at, or the error of a scan that cannot
/// resolve the home directory it needs.
pub open spec fn plan(c: Category, home: Option<Seq<char>>, temp: Seq<char>) -> Result<
    Seq<Seq<char>>,
    Seq<char>,
> {
    match home {
        Some(h) => Ok(candidates(c, h, temp)),
        None => if needs_home(c) {
            Err("Could not find home directory"@)
        } else {
            Ok(candidates(c, Seq::empty(), temp))
        },
    }
}

/// The locations a category's scan looks at, given the home directory if it could
/// be resolved and the temporary directory.
pub fn scan_plan(c: Category, home: Option<&str>, temp: &str) -> (r: Result<Vec<String>, String>)
    ensures
        match r {
            Ok(paths) => plan(c, option_view(home), temp@) == Ok::<Seq<Seq<char>>, Seq<char>>(
                string_views(paths@),
            ),
            Err(e) => plan(c, option_view(home), temp@) == Err::<Seq<Seq<char>>, Seq<char>>(
                e@,
            ),
        },
{
    match home {
        Some(h) => Ok(candidate_paths(c, h, temp)),
        None => {
            if c != Category::Homebrew {
                Err("Could not find home directory".to_owned())
            } else {
                let r = candidate_paths(c, "", temp);
                assert(""@ =~= Seq::<char>::empty()) by {
                    reveal_strlit("");
                }
                Ok(r)
            }
        },
    }
}

/// The records of a category's scan: candidate `i` is `paths[i]`, and `sizes[i]`
/// is its size, or `None` where it is absent or could not be measured.
pub fn category_records(c: Category, paths: &Vec<String>, sizes: &Vec<Option<u64>>) -> (r: Vec<
    ScanResult,
>)
    requires
        paths.len() == sizes.len(),
    ensures
        record_views(r@) == measured_records(string_views(paths@), sizes@, tag(c)),
{
    collect_records(category_tag(c), paths, sizes)
}

/// A category scan whose every candidate is absent succeeds, with no records,
/// wherever the home directory is.
pub proof fn lemma_absent_candidates_scan_empty(
    c: Category,
    home: Seq<char>,
    temp: Seq<char>,
    sizes: Seq<Option<u64>>,
)
    requires
        sizes.len() == candidates(c, home, temp).len(),
        forall|i: int| 0 <= i < sizes.len() ==> #[trigger] sizes[i] is None,
    ensures
        plan(c, Some(home), temp) is Ok,
        measured_records(plan(c, Some(home), temp)->Ok_0, sizes, tag(c)) == Seq::<
            RecordView,
        >::empty(),
{
    lemma_nothing_measured_nothing_reported(candidates(c, home, temp), sizes, tag(c));
}

/// The tag of records of leftover temporary directories.
pub const TEMP_FILES_TAG: &'static str = "temp_files";

/// The tag of records of build artifacts.
pub const BUILD_ARTIFACTS_TAG: &'static str = "build_artifacts";

/// The tag of records of installed package directories.
pub const NODE_MODULES_TAG: &'static str = "node_modules";

/// The directories listed to find leftovers of bundlers and packagers, each
/// once: the temporary directory, where the "react-native-*", "metro-*",
/// "expo-*" and "haste-map-*" leftovers lie, and the home directory, where ".tmp" lies.
pub open spec fn leftover_dirs(home: Seq<char>, temp: Seq<char>) -> Seq<Seq<char>> {
    seq![temp, home]
}

/// The directories listed to find leftovers, in order.
pub fn leftover_scan_dirs(home: &str, temp: &str) -> (r: Vec<String>)
    ensures
        string_views(r@) == leftover_dirs(home@, temp@),
{
    let r = vec![temp.to_owned(), home.to_owned()];
    assert(string_views(r@) =~= leftover_dirs(home@, temp@));
    r
}

/// Whether a directory entry's name marks a leftover: it begins with one of the
/// bundlers' and packagers' prefixes, or it is ".tmp".
pub open spec fn leftover_name(name: Seq<char>) -> bool {
    has_prefix(name, "react-native-"@) || has_prefix(name, "metro-"@) || has_prefix(
        name,
        "expo-"@,
    ) || has_prefix(name, "haste-map-"@) || name == ".tmp"@
}

/// Whether a directory entry's name marks a leftover.
pub fn is_leftover_name(name: &str) -> (r: bool)
    ensures
        r == leftover_name(name@),
{
    let v = chars_of(name);
    starts_with(&v, "react-native-") || starts_with(&v, "metro-") || starts_with(&v, "expo-")
        || starts_with(&v, "haste-map-") || same_chars(&v, ".tmp")
}

/// The directories listed to find build artifacts, each once: Desktop, Downloads
/// and Documents under the home directory.
pub open spec fn artifact_dirs(home: Seq<char>) -> Seq<Seq<char>> {
    seq![join(home, "Desktop"@), join(home, "Downloads"@), join(home, "Documents"@)]
}

/// The directories listed to find build artifacts, in order.
pub fn artifact_scan_dirs(home: &str) -> (r: Vec<String>)
    ensures
        string_views(r@) == artifact_dirs(home@),
{
    let r = vec![
        join_path(home, "Desktop"),
        join_path(home, "Downloads"),
        join_path(home, "Documents"),
    ];
    assert(string_views(r@) =~= artifact_dirs(home@));
    r
}

/// Whether a file's name has the extension of a mobile build artifact, "apk" or
/// "ipa", after a point that does not begin the name.
pub open spec fn artifact_name(name: Seq<char>) -> bool {
    name.len() > 4 && (name.skip(name.len() - 4) == ".apk"@ || name.skip(name.len() - 4)
        == ".ipa"@)
}

/// Whether a file's name has the extension of a mobile build artifact.
pub fn is_artifact_name(name: &str) -> (r: bool)
    ensures
        r == artifact_name(name@),
{
    let v = chars_of(name);
    if v.len() <= 4 {
        return false;
    }
    let tail = slice_chars(&v, v.len() - 4, v.len());
    assert(tail@ =~= name@.skip(name@.len() - 4));
    same_chars(&tail, ".apk") || same_chars(&tail, ".ipa")
}

/// Whether a directory's name marks installed packages.
pub open spec fn dependency_dir_name(name: Seq<char>) -> bool {
    name == "node_modules"@
}

/// Whether a directory's name marks installed packages.
pub fn is_dependency_dir(name: &str) -> (r: bool)
    ensures
        r == dependency_dir_name(name@),
{
    same_chars(&chars_of(name), "node_modules")
}

} // verus!
