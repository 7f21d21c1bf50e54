use vstd::prelude::*;

use crate::error::{Error, ErrorKind, ErrorView};
use crate::library::{artifact_of, opt_view, Library, LibraryView};
use crate::devkit::texts;
use crate::text::push_char;

verus! {

/// Relies on `toml::Value`: a tree of TOML values.
#[verifier::external_type_specification]
#[verifier::external_body]
pub struct ExTomlValue(toml::Value);

/// What a TOML value holds, as far as the resolver reads it: a string, an
/// array, a table, or anything else.
pub enum TomlView {
    Str(Seq<char>),
    Array(Seq<TomlView>),
    Table(Map<Seq<char>, TomlView>),
    Other,
}

/// What a `toml::Value` holds.
pub uninterp spec fn toml_view(v: toml::Value) -> TomlView;

/// What `toml::from_str` parses a text into, or `None` when it is not a
/// valid TOML document.
pub uninterp spec fn toml_doc_of(src: Seq<char>) -> Option<TomlView>;

/// Relies on `toml::from_str`: the parsed document, or the parser's
/// description of why the text is not one. The result depends on the text
/// alone.
#[verifier::external_body]
fn parse_toml(src: &str) -> (r: Result<toml::Value, String>)
    ensures
        r is Ok <==> toml_doc_of(src@) is Some,
        r matches Ok(v) ==> toml_doc_of(src@) == Some(toml_view(v)),
{
    toml::from_str::<toml::Value>(src).map_err(|e| e.to_string())
}

/// Relies on `toml::Value::get` with a string key: the entry under `key`
/// when the value is a table that has one, `None` otherwise.
#[verifier::external_body]
fn toml_get<'a>(v: &'a toml::Value, key: &str) -> (r: Option<&'a toml::Value>)
    ensures
        match toml_view(*v) {
            TomlView::Table(m) => (r is Some <==> m.contains_key(key@)) && (r matches Some(x)
                ==> toml_view(*x) == m[key@]),
            _ => r is None,
        },
{
    v.get(key)
}

/// Relies on `toml::Value::as_str`: the text of a string value, `None` for
/// any other value.
#[verifier::external_body]
fn toml_str(v: &toml::Value) -> (r: Option<String>)
    ensures
        match toml_view(*v) {
            TomlView::Str(s) => r matches Some(t) && t@ == s,
            _ => r is None,
        },
{
    v.as_str().map(|s| s.to_string())
}

/// Relies on `toml::Value::as_array`: the elements of an array value, `None`
/// for any other value.
#[verifier::external_body]
fn toml_array(v: &toml::Value) -> (r: Option<&Vec<toml::Value>>)
    ensures
        match toml_view(*v) {
            TomlView::Array(items) => r matches Some(a) && a@.map_values(
                |x: toml::Value| toml_view(x),
            ) == items,
            _ => r is None,
        },
{
    v.as_array()
}

/// Error of the library-artifact resolver.
#[derive(Debug)]
pub struct BuildError {
    message: String,
}

impl View for BuildError {
    type V = Seq<char>;

    closed spec fn view(&self) -> Seq<char> {
        self.message@
    }
}

impl BuildError {
    /// An error with the given message.
    pub fn new(message: &str) -> (e: BuildError)
        ensures
            e@ == message@,
    {
        BuildError { message: String::from_str(message) }
    }

    /// An error with the given message.
    pub fn from_message(message: String) -> (e: BuildError)
        ensures
            e@ == message@,
    {
        BuildError { message }
    }

    /// An error whose message is `context` followed by `detail`.
    pub fn with_detail(context: &str, detail: &str) -> (e: BuildError)
        ensures
            e@ == context@ + detail@,
    {
        let mut message = String::from_str(context);
        message.append(detail);
        BuildError { message }
    }

    /// The message.
    pub fn message(&self) -> (m: &str)
        ensures
            m@ == self@,
    {
        self.message.as_str()
    }

    /// The message, as an owned string.
    pub fn to_string(&self) -> (m: String)
        ensures
            m@ == self@,
    {
        self.message.clone()
    }
}

/// The platform a library file is named for.
#[derive(Debug, Clone, Copy, PartialEq, Eq, Structural)]
pub enum Platform {
    Windows,
    MacOs,
    /// Linux and the other Unix-like systems.
    Other,
}

/// A package name with each `-` turned into `_`, as the compiler names the
/// library it builds.
pub open spec fn underscored(name: Seq<char>) -> Seq<char> {
    name.map_values(|c: char| if c == '-' { '_' } else { c })
}

/// The file name of the shared library built from a package.
pub open spec fn library_filename_of(name: Seq<char>, platform: Platform) -> Seq<char> {
    match platform {
        Platform::Windows => underscored(name) + ".dll"@,
        Platform::MacOs => "lib"@ + underscored(name) + ".dylib"@,
        Platform::Other => "lib"@ + underscored(name) + ".so"@,
    }
}

fn append_underscored(s: &mut String, name: &str)
    ensures
        final(s)@ == old(s)@ + underscored(name@),
{
    let n = name.unicode_len();
    let mut i: usize = 0;
    while i < n
        invariant
            n == name@.len(),
            i <= n,
            s@ == old(s)@ + underscored(name@.subrange(0, i as int)),
        decreases n - i,
    {
        let c = name.get_char(i);
        let d = if c == '-' { '_' } else { c };
        push_char(s, d);
        assert(underscored(name@.subrange(0, i + 1)) =~= underscored(name@.subrange(0, i as int)).push(d));
        i = i + 1;
    }
    assert(name@.subrange(0, n as int) =~= name@);
}

/// Build the platform-specific file name of the shared library of a package.
pub fn library_filename(crate_name: &str, platform: Platform) -> (r: String)
    ensures
        r@ == library_filename_of(crate_name@, platform),
{
    match platform {
        Platform::Windows => {
            let mut r = String::new();
            append_underscored(&mut r, crate_name);
            r.append(".dll");
            assert(r@ =~= library_filename_of(crate_name@, platform));
            r
        },
        Platform::MacOs => {
            let mut r = String::from_str("lib");
            append_underscored(&mut r, crate_name);
            r.append(".dylib");
            r
        },
        Platform::Other => {
            let mut r = String::from_str("lib");
            append_underscored(&mut r, crate_name);
            r.append(".so");
            r
        },
    }
}

/// What the resolver reads from a package manifest.
#[derive(Debug)]
pub struct ManifestFields {
    /// Whether the manifest has a `[package]` table.
    pub has_package: bool,
    /// `package.name`, when it is a string.
    pub name: Option<String>,
    /// `lib.crate-type`, when it is an array: each element's text, when it is
    /// a string.
    pub crate_types: Option<Vec<Option<String>>>,
    /// `package.metadata.hook-inject.entrypoint`, when it is a string.
    pub entrypoint: Option<String>,
    /// `package.metadata.hook-inject.data`, when it is a string.
    pub data: Option<String>,
}

pub open spec fn opt_texts(v: Option<Vec<Option<String>>>) -> Option<Seq<Option<Seq<char>>>> {
    match v {
        Some(items) => Some(items@.map_values(|t: Option<String>| opt_view(t))),
        None => None,
    }
}

/// What the resolver reads from a package manifest, as plain values.
pub struct FieldsView {
    pub has_package: bool,
    pub name: Option<Seq<char>>,
    pub crate_types: Option<Seq<Option<Seq<char>>>>,
    pub entrypoint: Option<Seq<char>>,
    pub data: Option<Seq<char>>,
}

impl View for ManifestFields {
    type V = FieldsView;

    open spec fn view(&self) -> FieldsView {
        FieldsView {
            has_package: self.has_package,
            name: opt_view(self.name),
            crate_types: opt_texts(self.crate_types),
            entrypoint: opt_view(self.entrypoint),
            data: opt_view(self.data),
        }
    }
}

/// The entry under `key` of a value that is a table holding one.
pub open spec fn entry_of(v: Option<TomlView>, key: Seq<char>) -> Option<TomlView> {
    match v {
        Some(TomlView::Table(m)) => if m.contains_key(key) {
            Some(m[key])
        } else {
            None
        },
        _ => None,
    }
}

/// The text of a string value.
pub open spec fn text_of(v: Option<TomlView>) -> Option<Seq<char>> {
    match v {
        Some(TomlView::Str(s)) => Some(s),
        _ => None,
    }
}

pub open spec fn item_text(v: TomlView) -> Option<Seq<char>> {
    match v {
        TomlView::Str(s) => Some(s),
        _ => None,
    }
}

/// What the resolver reads from a parsed manifest: `package.name`,
/// `lib.crate-type`, and `entrypoint` and `data` under
/// `package.metadata.hook-inject`.
pub open spec fn fields_of(doc: TomlView) -> FieldsView {
    let package = entry_of(Some(doc), "package"@);
    let meta = entry_of(entry_of(package, "metadata"@), "hook-inject"@);
    FieldsView {
        has_package: package is Some,
        name: text_of(entry_of(package, "name"@)),
        crate_types: match entry_of(entry_of(Some(doc), "lib"@), "crate-type"@) {
            Some(TomlView::Array(items)) => Some(items.map_values(|x: TomlView| item_text(x))),
            _ => None,
        },
        entrypoint: text_of(entry_of(meta, "entrypoint"@)),
        data: text_of(entry_of(meta, "data"@)),
    }
}

/// What a valid manifest gives, as plain values.
pub struct InfoView {
    pub package_name: Seq<char>,
    pub entrypoint: Option<Seq<char>>,
    pub data: Option<Seq<char>>,
    pub cdylib_filename: Seq<char>,
}

/// Whether the crate types name a shared library loadable at run time.
pub open spec fn declares_cdylib(types: Option<Seq<Option<Seq<char>>>>) -> bool {
    match types {
        Some(v) => exists|i: int| 0 <= i < v.len() && v[i] == Some("cdylib"@),
        None => false,
    }
}

/// What validating the fields of a manifest gives: it must have a package
/// with a name and declare a `cdylib` crate type.
pub open spec fn check_manifest_of(f: FieldsView, platform: Platform) -> Result<InfoView, Seq<char>> {
    if !f.has_package {
        Err(missing_package_message())
    } else if f.name is None {
        Err(missing_name_message())
    } else if !declares_cdylib(f.crate_types) {
        Err(not_cdylib_message())
    } else {
        Ok(
            InfoView {
                package_name: f.name->Some_0,
                entrypoint: f.entrypoint,
                data: f.data,
                cdylib_filename: library_filename_of(f.name->Some_0, platform),
            },
        )
    }
}

/// What a valid manifest of an injectable library package gives.
#[derive(Debug)]
pub struct ManifestInfo {
    pub package_name: String,
    pub entrypoint: Option<String>,
    pub data: Option<String>,
    /// The file name of the shared library the package builds.
    pub cdylib_filename: String,
}

impl View for ManifestInfo {
    type V = InfoView;

    open spec fn view(&self) -> InfoView {
        InfoView {
            package_name: self.package_name@,
            entrypoint: opt_view(self.entrypoint),
            data: opt_view(self.data),
            cdylib_filename: self.cdylib_filename@,
        }
    }
}

/// What the resolver knows of a package: its manifest, where it lies, where
/// it builds to, and the built library if one was found.
#[derive(Debug)]
pub struct CrateMetadata {
    pub package_name: String,
    pub entrypoint: Option<String>,
    pub data: Option<String>,
    pub manifest_path: String,
    pub crate_dir: String,
    pub target_dir: String,
    pub cdylib_filename: String,
    pub cdylib_path: Option<String>,
}

/// A built library with the entrypoint and data its manifest names.
#[derive(Debug)]
pub struct CdylibInfo {
    pub path: String,
    pub entrypoint: Option<String>,
    pub data: Option<String>,
}

pub open spec fn missing_package_message() -> Seq<char> {
    "missing [package] section"@
}

pub open spec fn missing_name_message() -> Seq<char> {
    "missing [package].name"@
}

pub open spec fn not_cdylib_message() -> Seq<char> {
    "crate is not configured as cdylib; add [lib] crate-type = [\"cdylib\"]"@
}

fn any_cdylib(types: &Vec<Option<String>>) -> (r: bool)
    ensures
        r == declares_cdylib(opt_texts(Some(*types))),
{
    let ghost views = types@.map_values(|t: Option<String>| opt_view(t));
    let cdylib = String::from_str("cdylib");
    let mut i: usize = 0;
    while i < types.len()
        invariant
            i <= types@.len(),
            cdylib@ == "cdylib"@,
            views == types@.map_values(|t: Option<String>| opt_view(t)),
            forall|j: int| 0 <= j < i ==> views[j] != Some("cdylib"@),
        decreases types@.len() - i,
    {
        match &types[i] {
            Some(t) => {
                if *t == cdylib {
                    assert(views[i as int] == Some("cdylib"@));
                    return true;
                }
            },
            None => {},
        }
        assert(views[i as int] == opt_view(types@[i as int]));
        i = i + 1;
    }
    false
}

/// Validate what a manifest holds: it must have a package with a name and
/// declare a `cdylib` crate type.
pub fn check_manifest(fields: ManifestFields, platform: Platform) -> (r: Result<
    ManifestInfo,
    BuildError,
>)
    ensures
        match r {
            Ok(info) => check_manifest_of(fields@, platform) == Ok::<InfoView, Seq<char>>(info@),
            Err(e) => check_manifest_of(fields@, platform) == Err::<InfoView, Seq<char>>(e@),
        },
{
    if !fields.has_package {
        return Err(BuildError::new("missing [package] section"));
    }
    let name = match fields.name {
        Some(n) => n,
        None => {
            return Err(BuildError::new("missing [package].name"));
        },
    };
    let is_cdylib = match &fields.crate_types {
        Some(types) => any_cdylib(types),
        None => false,
    };
    if !is_cdylib {
        return Err(
            BuildError::new("crate is not configured as cdylib; add [lib] crate-type = [\"cdylib\"]"),
        );
    }
    let cdylib_filename = library_filename(name.as_str(), platform);
    Ok(ManifestInfo { package_name: name, entrypoint: fields.entrypoint, data: fields.data, cdylib_filename })
}

pub open spec fn value_view(v: Option<&toml::Value>) -> Option<TomlView> {
    match v {
        Some(x) => Some(toml_view(*x)),
        None => None,
    }
}

fn get_value<'a>(v: Option<&'a toml::Value>, key: &str) -> (r: Option<&'a toml::Value>)
    ensures
        value_view(r) == entry_of(value_view(v), key@),
{
    match v {
        Some(v) => toml_get(v, key),
        None => None,
    }
}

fn get_str(v: Option<&toml::Value>, key: &str) -> (r: Option<String>)
    ensures
        opt_view(r) == text_of(entry_of(value_view(v), key@)),
{
    match get_value(v, key) {
        Some(x) => toml_str(x),
        None => None,
    }
}

/// Pick out of a parsed manifest what the resolver reads.
pub fn manifest_fields(doc: &toml::Value) -> (f: ManifestFields)
    ensures
        f@ == fields_of(toml_view(*doc)),
{
    let package = get_value(Some(doc), "package");
    let name = get_str(package, "name");
    let ghost d = Some(toml_view(*doc));
    let crate_types = match get_value(get_value(Some(doc), "lib"), "crate-type") {
        Some(t) => match toml_array(t) {
            Some(items) => {
                let ghost views = items@.map_values(|x: toml::Value| toml_view(x));
                let mut out: Vec<Option<String>> = Vec::new();
                let mut i: usize = 0;
                while i < items.len()
                    invariant
                        i <= items@.len(),
                        views == items@.map_values(|x: toml::Value| toml_view(x)),
                        out@.map_values(|t: Option<String>| opt_view(t)) == views.subrange(
                            0,
                            i as int,
                        ).map_values(|x: TomlView| item_text(x)),
                    decreases items@.len() - i,
                {
                    let ghost prev = out@;
                    let text = toml_str(&items[i]);
                    assert(opt_view(text) == item_text(views[i as int]));
                    out.push(text);
                    assert(out@.map_values(|t: Option<String>| opt_view(t)) =~= prev.map_values(
                        |t: Option<String>| opt_view(t),
                    ).push(opt_view(text)));
                    assert(views.subrange(0, i + 1).map_values(|x: TomlView| item_text(x))
                        =~= views.subrange(0, i as int).map_values(|x: TomlView| item_text(x)).push(
                        item_text(views[i as int]),
                    ));
                    i = i + 1;
                }
                assert(views.subrange(0, items@.len() as int) =~= views);
                Some(out)
            },
            None => None,
        },
        None => None,
    };
    let meta = get_value(get_value(package, "metadata"), "hook-inject");
    let entrypoint = get_str(meta, "entrypoint");
    let data = get_str(meta, "data");
    let f = ManifestFields { has_package: package.is_some(), name, crate_types, entrypoint, data };
    assert(f@.crate_types == fields_of(toml_view(*doc)).crate_types);
    f
}

pub open spec fn parse_failure_prefix() -> Seq<char> {
    "failed to parse Cargo.toml: "@
}

/// Read a package manifest's text: parse it as TOML and validate what it
/// holds as `check_manifest` does.
pub fn read_manifest(src: &str, platform: Platform) -> (r: Result<ManifestInfo, BuildError>)
    ensures
        match toml_doc_of(src@) {
            None => r matches Err(e) && exists|d: Seq<char>| e@ == parse_failure_prefix() + d,
            Some(doc) => match r {
                Ok(info) => check_manifest_of(fields_of(doc), platform) == Ok::<
                    InfoView,
                    Seq<char>,
                >(info@),
                Err(e) => check_manifest_of(fields_of(doc), platform) == Err::<
                    InfoView,
                    Seq<char>,
                >(e@),
            },
        },
{
    let doc = match parse_toml(src) {
        Ok(doc) => doc,
        Err(e) => {
            let err = BuildError::with_detail("failed to parse Cargo.toml: ", e.as_str());
            assert(err@ == parse_failure_prefix() + e@);
            return Err(err);
        },
    };
    let fields = manifest_fields(&doc);
    check_manifest(fields, platform)
}

impl CrateMetadata {
    /// The metadata of a package whose manifest was read.
    pub fn new(
        info: ManifestInfo,
        manifest_path: String,
        crate_dir: String,
        target_dir: String,
        cdylib_path: Option<String>,
    ) -> (m: CrateMetadata)
        ensures
            m.package_name == info.package_name,
            m.entrypoint == info.entrypoint,
            m.data == info.data,
            m.cdylib_filename == info.cdylib_filename,
            m.manifest_path == manifest_path,
            m.crate_dir == crate_dir,
            m.target_dir == target_dir,
            m.cdylib_path == cdylib_path,
    {
        CrateMetadata {
            package_name: info.package_name,
            entrypoint: info.entrypoint,
            data: info.data,
            manifest_path,
            crate_dir,
            target_dir,
            cdylib_filename: info.cdylib_filename,
            cdylib_path,
        }
    }
}

/// The built library of a package, when its manifest was found and read:
/// `None` when there is no manifest or nothing is built yet, the manifest's
/// error when it is invalid.
pub fn read_cdylib_file(meta: Option<Result<CrateMetadata, BuildError>>) -> (r: Option<
    Result<CdylibInfo, BuildError>,
>)
    ensures
        match meta {
            None => r is None,
            Some(Err(e)) => r matches Some(Err(x)) && x@ == e@,
            Some(Ok(m)) => match m.cdylib_path {
                None => r is None,
                Some(p) => r matches Some(Ok(info)) && info.path == p && info.entrypoint
                    == m.entrypoint && info.data == m.data,
            },
        },
{
    match meta {
        None => None,
        Some(Err(e)) => Some(Err(e)),
        Some(Ok(m)) => match m.cdylib_path {
            None => None,
            Some(path) => Some(Ok(CdylibInfo { path, entrypoint: m.entrypoint, data: m.data })),
        },
    }
}

/// The error for a library that could not be resolved: `built` tells whether
/// a build was attempted.
pub open spec fn resolve_failure_of(built: bool, detail: Seq<char>) -> ErrorView {
    ErrorView {
        kind: ErrorKind::InvalidInput,
        message: (if built { "Failed to build library: "@ } else { "Failed to read library: "@ }) + detail,
    }
}

impl Library {
    /// Reference to a library resolved from a package: the built file, with
    /// the entrypoint and data its manifest names overriding the defaults.
    /// `built` tells whether the resolver had to build the package.
    pub fn from_cdylib(resolved: Result<CdylibInfo, BuildError>, built: bool) -> (r: Result<Library, Error>)
        ensures
            match resolved {
                Err(e) => r matches Err(x) && x@ == resolve_failure_of(built, e@),
                Ok(info) => match r {
                    Ok(l) => artifact_of(info.path@, opt_view(info.entrypoint), opt_view(info.data))
                        == Ok::<LibraryView, ErrorView>(l@),
                    Err(x) => artifact_of(info.path@, opt_view(info.entrypoint), opt_view(info.data))
                        == Err::<LibraryView, ErrorView>(x@),
                },
            },
    {
        match resolved {
            Err(e) => {
                let mut message = if built {
                    String::from_str("Failed to build library: ")
                } else {
                    String::from_str("Failed to read library: ")
                };
                message.append(e.message());
                Err(Error::new(ErrorKind::InvalidInput, message))
            },
            Ok(info) => Library::from_artifact(info.path, info.entrypoint, info.data),
        }
    }
}

/// The directories searched for a built library, each as path components:
/// the target directory, then `target` under the package directory and under
/// up to three of its ancestors. `crate_dirs` lists the package directory
/// followed by its ancestors, nearest first.
pub open spec fn search_roots_of(target_dir: Seq<char>, crate_dirs: Seq<Seq<char>>) -> Seq<
    Seq<Seq<char>>,
> {
    let dirs = if crate_dirs.len() > 4 {
        crate_dirs.subrange(0, 4)
    } else {
        crate_dirs
    };
    seq![seq![target_dir]] + dirs.map_values(|d: Seq<char>| seq![d, "target"@])
}

/// The places a built library is looked for, in order, each as path
/// components: under each search root, `release` before `debug`.
pub open spec fn candidates_of(
    target_dir: Seq<char>,
    crate_dirs: Seq<Seq<char>>,
    filename: Seq<char>,
) -> Seq<Seq<Seq<char>>> {
    let roots = search_roots_of(target_dir, crate_dirs);
    Seq::new(
        (2 * roots.len()) as nat,
        |k: int|
            roots[k / 2] + seq![if k % 2 == 0 { "release"@ } else { "debug"@ }, filename],
    )
}

pub open spec fn component_lists(v: Seq<Vec<String>>) -> Seq<Seq<Seq<char>>> {
    v.map_values(|c: Vec<String>| texts(c@))
}

fn with_two(root: &Vec<String>, a: &str, b: &str) -> (r: Vec<String>)
    ensures
        texts(r@) == texts(root@) + seq![a@, b@],
{
    let mut r: Vec<String> = Vec::new();
    let mut i: usize = 0;
    while i < root.len()
        invariant
            i <= root@.len(),
            texts(r@) == texts(root@.subrange(0, i as int)),
        decreases root@.len() - i,
    {
        let ghost prev = r@;
        r.push(root[i].clone());
        assert(texts(r@) =~= texts(prev).push(root@[i as int]@));
        assert(texts(root@.subrange(0, i + 1)) =~= texts(root@.subrange(0, i as int)).push(
            root@[i as int]@,
        ));
        i = i + 1;
    }
    assert(root@.subrange(0, root@.len() as int) =~= root@);
    let ghost prev = r@;
    r.push(String::from_str(a));
    r.push(String::from_str(b));
    assert(texts(r@) =~= texts(prev) + seq![a@, b@]);
    r
}

/// The places a built library is looked for, in the order they are tried.
pub fn cdylib_candidates(target_dir: &str, crate_dirs: &Vec<String>, filename: &str) -> (r: Vec<
    Vec<String>,
>)
    ensures
        component_lists(r@) == candidates_of(target_dir@, texts(crate_dirs@), filename@),
{
    let ghost dirs = texts(crate_dirs@);
    let ghost roots_view = search_roots_of(target_dir@, dirs);
    let mut roots: Vec<Vec<String>> = Vec::new();
    let mut first: Vec<String> = Vec::new();
    first.push(String::from_str(target_dir));
    assert(texts(first@) =~= seq![target_dir@]);
    roots.push(first);
    let n: usize = if crate_dirs.len() > 4 { 4 } else { crate_dirs.len() };
    let mut i: usize = 0;
    assert(component_lists(roots@) =~= seq![seq![target_dir@]]);
    assert(seq![seq![target_dir@]] + dirs.subrange(0, 0).map_values(|d: Seq<char>| seq![d, "target"@])
        =~= seq![seq![target_dir@]]);
    while i < n
        invariant
            n <= crate_dirs@.len(),
            n == (if crate_dirs@.len() > 4 { 4 } else { crate_dirs@.len() }),
            i <= n,
            dirs == texts(crate_dirs@),
            component_lists(roots@) == seq![seq![target_dir@]] + dirs.subrange(0, i as int).map_values(
                |d: Seq<char>| seq![d, "target"@],
            ),
        decreases n - i,
    {
        let mut root: Vec<String> = Vec::new();
        root.push(crate_dirs[i].clone());
        root.push(String::from_str("target"));
        let ghost prev = roots@;
        assert(texts(root@) =~= seq![dirs[i as int], "target"@]);
        roots.push(root);
        assert(component_lists(roots@) =~= component_lists(prev).push(texts(root@)));
        assert(dirs.subrange(0, i + 1).map_values(|d: Seq<char>| seq![d, "target"@])
            =~= dirs.subrange(0, i as int).map_values(|d: Seq<char>| seq![d, "target"@]).push(
            seq![dirs[i as int], "target"@],
        ));
        i = i + 1;
    }
    assert(dirs.subrange(0, n as int) =~= (if dirs.len() > 4 {
        dirs.subrange(0, 4)
    } else {
        dirs
    }));
    assert(component_lists(roots@) == roots_view);
    let ghost want = candidates_of(target_dir@, dirs, filename@);
    let mut out: Vec<Vec<String>> = Vec::new();
    let mut j: usize = 0;
    while j < roots.len()
        invariant
            j <= roots@.len(),
            component_lists(roots@) == roots_view,
            want == candidates_of(target_dir@, dirs, filename@),
            roots_view == search_roots_of(target_dir@, dirs),
            out@.len() == 2 * j,
            forall|k: int| 0 <= k < 2 * j ==> #[trigger] texts(out@[k]@) == want[k],
        decreases roots@.len() - j,
    {
        let ghost prev = out@;
        let release = with_two(&roots[j], "release", filename);
        let debug = with_two(&roots[j], "debug", filename);
        out.push(release);
        out.push(debug);
        proof {
            assert(texts(roots@[j as int]@) == roots_view[j as int]);
            assert((2 * j) / 2 == j && (2 * j) % 2 == 0);
            assert((2 * j + 1) / 2 == j && (2 * j + 1) % 2 == 1);
            assert forall|k: int| 0 <= k < 2 * (j + 1) implies #[trigger] texts(out@[k]@) == want[k] by {
                if k < 2 * j {
                    assert(out@[k] == prev[k]);
                }
            }
        }
        j = j + 1;
    }
    assert(component_lists(out@) =~= want);
    out
}

} // verus!
