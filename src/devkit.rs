use vstd::prelude::*;

use crate::manifest::BuildError;
use crate::text::text_eq;

verus! {

/// The platform string of the engine's prebuilt artifacts for an operating
/// system and a processor architecture, when artifacts exist for them.
pub open spec fn devkit_platform_of(os: Seq<char>, arch: Seq<char>) -> Option<Seq<char>> {
    let arm = arch == "aarch64"@ || arch == "arm64"@;
    let x86 = arch == "x86_64"@;
    if os == "macos"@ && arm {
        Some("macos-arm64"@)
    } else if os == "macos"@ && x86 {
        Some("macos-x86_64"@)
    } else if os == "linux"@ && arm {
        Some("linux-arm64"@)
    } else if os == "linux"@ && x86 {
        Some("linux-x86_64"@)
    } else if os == "windows"@ && arm {
        Some("windows-arm64"@)
    } else if os == "windows"@ && x86 {
        Some("windows-x86_64"@)
    } else {
        None
    }
}

pub open spec fn unsupported_platform_message(os: Seq<char>, arch: Seq<char>) -> Seq<char> {
    "unsupported platform for devkit download: "@ + os + "-"@ + arch
}

/// The platform string of the engine's prebuilt artifacts for `os` and `arch`.
pub fn detect_devkit_platform(os: &str, arch: &str) -> (r: Result<String, BuildError>)
    ensures
        match devkit_platform_of(os@, arch@) {
            Some(p) => r matches Ok(s) && s@ == p,
            None => r matches Err(e) && e@ == unsupported_platform_message(os@, arch@),
        },
{
    let arm = text_eq(arch, "aarch64") || text_eq(arch, "arm64");
    let x86 = text_eq(arch, "x86_64");
    let platform = if text_eq(os, "macos") && arm {
        "macos-arm64"
    } else if text_eq(os, "macos") && x86 {
        "macos-x86_64"
    } else if text_eq(os, "linux") && arm {
        "linux-arm64"
    } else if text_eq(os, "linux") && x86 {
        "linux-x86_64"
    } else if text_eq(os, "windows") && arm {
        "windows-arm64"
    } else if text_eq(os, "windows") && x86 {
        "windows-x86_64"
    } else {
        let mut message = String::from_str("unsupported platform for devkit download: ");
        message.append(os);
        message.append("-");
        message.append(arch);
        return Err(BuildError::from_message(message));
    };
    Ok(String::from_str(platform))
}

/// The platform string: the one given explicitly, else the detected one.
pub fn resolve_devkit_platform(explicit: Option<String>, os: &str, arch: &str) -> (r: Result<
    String,
    BuildError,
>)
    ensures
        match explicit {
            Some(p) => r matches Ok(s) && s@ == p@,
            None => match devkit_platform_of(os@, arch@) {
                Some(p) => r matches Ok(s) && s@ == p,
                None => r matches Err(e) && e@ == unsupported_platform_message(os@, arch@),
            },
        },
{
    match explicit {
        Some(p) => Ok(p),
        None => detect_devkit_platform(os, arch),
    }
}

/// `acc` followed by each of `items` that is not already present, in order.
pub open spec fn append_new(acc: Seq<Seq<char>>, items: Seq<Seq<char>>) -> Seq<Seq<char>>
    decreases items.len(),
{
    if items.len() == 0 {
        acc
    } else {
        let before = append_new(acc, items.drop_last());
        if before.contains(items.last()) {
            before
        } else {
            before.push(items.last())
        }
    }
}

/// The versions to try, in order: the default, when it is not empty, then
/// each supported version not yet listed.
pub open spec fn devkit_versions_of(default: Seq<char>, supported: Seq<Seq<char>>) -> Seq<Seq<char>> {
    append_new(if default.len() > 0 { seq![default] } else { Seq::empty() }, supported)
}

pub open spec fn texts(v: Seq<String>) -> Seq<Seq<char>> {
    v.map_values(|s: String| s@)
}

fn listed(versions: &Vec<String>, v: &str) -> (r: bool)
    ensures
        r == texts(versions@).contains(v@),
{
    let mut i: usize = 0;
    while i < versions.len()
        invariant
            i <= versions@.len(),
            forall|j: int| 0 <= j < i ==> versions@[j]@ != v@,
        decreases versions@.len() - i,
    {
        if text_eq(versions[i].as_str(), v) {
            assert(texts(versions@)[i as int] == v@);
            return true;
        }
        i = i + 1;
    }
    assert forall|j: int| 0 <= j < texts(versions@).len() implies texts(versions@)[j] != v@ by {
        assert(texts(versions@)[j] == versions@[j]@);
    }
    false
}

/// The engine versions to try in turn, and whether falling back from one to
/// the next is allowed. A version given explicitly is the only one tried.
pub fn resolve_devkit_versions(
    default: &str,
    supported: &Vec<String>,
    explicit: Option<String>,
) -> (r: (Vec<String>, bool))
    ensures
        match explicit {
            Some(v) => texts(r.0@) == seq![v@] && !r.1,
            None => texts(r.0@) == devkit_versions_of(default@, texts(supported@)) && r.1,
        },
{
    if let Some(v) = explicit {
        let ghost w = v@;
        let mut only: Vec<String> = Vec::new();
        only.push(v);
        assert(texts(only@) =~= seq![w]);
        return (only, false);
    }
    let ghost items = texts(supported@);
    let mut versions: Vec<String> = Vec::new();
    if default.unicode_len() > 0 {
        versions.push(String::from_str(default));
    }
    let ghost start = if default@.len() > 0 { seq![default@] } else { Seq::<Seq<char>>::empty() };
    assert(texts(versions@) =~= start);
    let mut i: usize = 0;
    while i < supported.len()
        invariant
            i <= supported@.len(),
            items == texts(supported@),
            texts(versions@) == append_new(start, items.subrange(0, i as int)),
        decreases supported@.len() - i,
    {
        let ghost prefix = items.subrange(0, i + 1);
        assert(prefix.drop_last() =~= items.subrange(0, i as int));
        assert(prefix.last() == supported@[i as int]@);
        if !listed(&versions, supported[i].as_str()) {
            let ghost before = versions@;
            versions.push(supported[i].clone());
            assert(texts(versions@) =~= texts(before).push(supported@[i as int]@));
        }
        i = i + 1;
    }
    assert(items.subrange(0, supported@.len() as int) =~= items);
    (versions, true)
}

/// Where a prebuilt engine artifact can be had: its file name and the URL to
/// fetch it from.
pub open spec fn archive_of(version: Seq<char>, platform: Seq<char>, ext: Seq<char>) -> (
    Seq<char>,
    Seq<char>,
) {
    let filename = "frida-core-devkit-"@ + version + "-"@ + platform + "."@ + ext;
    (filename, "https://github.com/frida/frida/releases/download/"@ + version + "/"@ + filename)
}

/// The archives to try in turn for a version and platform: Windows artifacts
/// have shipped both as `tar.xz` and as `zip`, the others as `tar.xz`.
pub open spec fn devkit_archives_of(version: Seq<char>, platform: Seq<char>) -> Seq<(Seq<char>, Seq<char>)> {
    if platform.len() >= 8 && platform.subrange(0, 8) == "windows-"@ {
        seq![archive_of(version, platform, "tar.xz"@), archive_of(version, platform, "zip"@)]
    } else {
        seq![archive_of(version, platform, "tar.xz"@)]
    }
}

fn archive(version: &str, platform: &str, ext: &str) -> (r: (String, String))
    ensures
        (r.0@, r.1@) == archive_of(version@, platform@, ext@),
{
    let mut filename = String::from_str("frida-core-devkit-");
    filename.append(version);
    filename.append("-");
    filename.append(platform);
    filename.append(".");
    filename.append(ext);
    let mut url = String::from_str("https://github.com/frida/frida/releases/download/");
    url.append(version);
    url.append("/");
    url.append(filename.as_str());
    (filename, url)
}

fn starts_with_windows(platform: &str) -> (r: bool)
    ensures
        r == (platform@.len() >= 8 && platform@.subrange(0, 8) == "windows-"@),
{
    proof {
        reveal_strlit("windows-");
    }
    if platform.unicode_len() < 8 {
        return false;
    }
    let head = platform.substring_char(0, 8);
    text_eq(head, "windows-")
}

/// The archives to try in turn, as (file name, URL) pairs.
pub fn devkit_archives(version: &str, platform: &str) -> (r: Vec<(String, String)>)
    ensures
        r@.map_values(|a: (String, String)| (a.0@, a.1@)) == devkit_archives_of(version@, platform@),
{
    let mut out: Vec<(String, String)> = Vec::new();
    let windows = starts_with_windows(platform);
    out.push(archive(version, platform, "tar.xz"));
    if windows {
        out.push(archive(version, platform, "zip"));
    }
    assert(out@.map_values(|a: (String, String)| (a.0@, a.1@)) =~= devkit_archives_of(version@, platform@));
    out
}

} // verus!
