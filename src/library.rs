use vstd::prelude::*;

use crate::error::{invalid, Error, ErrorKind, ErrorView};
use crate::text::{contains_nul, no_nul};

verus! {

/// The entrypoint symbol invoked when none is given.
pub const DEFAULT_ENTRYPOINT: &'static str = "frida_agent_main";

/// Where the payload of a library comes from.
#[derive(Debug)]
pub enum LibrarySource {
    /// A library file on disk.
    Path(String),
    /// An in-memory library image.
    Blob(Vec<u8>),
}

pub enum SourceView {
    Path(Seq<char>),
    Blob(Seq<u8>),
}

/// What a library reference is: its payload, the entrypoint symbol and the
/// opaque data string handed to that entrypoint.
pub struct LibraryView {
    pub source: SourceView,
    pub entrypoint: Seq<char>,
    pub data: Seq<char>,
}

/// A valid entrypoint name: non-empty, without NUL.
pub open spec fn entrypoint_ok(e: Seq<char>) -> bool {
    e.len() > 0 && no_nul(e)
}

/// The invariant of every library reference.
pub open spec fn library_wf(l: LibraryView) -> bool {
    &&& entrypoint_ok(l.entrypoint)
    &&& no_nul(l.data)
    &&& match l.source {
        SourceView::Path(p) => no_nul(p),
        SourceView::Blob(b) => b.len() > 0,
    }
}

/// A library reference with the default entrypoint and empty data.
pub open spec fn with_defaults(source: SourceView) -> LibraryView {
    LibraryView { source, entrypoint: DEFAULT_ENTRYPOINT@, data: Seq::empty() }
}

/// What overriding the entrypoint yields.
pub open spec fn with_entrypoint_of(l: LibraryView, e: Seq<char>) -> Result<LibraryView, ErrorView> {
    if e.len() == 0 {
        Err(invalid("entrypoint is empty"@))
    } else if !no_nul(e) {
        Err(invalid("entrypoint contains NUL"@))
    } else {
        Ok(LibraryView { entrypoint: e, ..l })
    }
}

/// What overriding the data yields.
pub open spec fn with_data_of(l: LibraryView, d: Seq<char>) -> Result<LibraryView, ErrorView> {
    if !no_nul(d) {
        Err(invalid("data contains NUL"@))
    } else {
        Ok(LibraryView { data: d, ..l })
    }
}

/// What a reference to a built library artifact is, given the entrypoint and
/// data that its package metadata names, if any.
pub open spec fn artifact_of(
    path: Seq<char>,
    entrypoint: Option<Seq<char>>,
    data: Option<Seq<char>>,
) -> Result<LibraryView, ErrorView> {
    let e = match entrypoint {
        Some(e) => e,
        None => DEFAULT_ENTRYPOINT@,
    };
    let d = match data {
        Some(d) => d,
        None => Seq::empty(),
    };
    if !no_nul(path) {
        Err(invalid("library path contains NUL"@))
    } else if !entrypoint_ok(e) {
        Err(invalid("entrypoint contains NUL or is empty"@))
    } else if !no_nul(d) {
        Err(invalid("data contains NUL"@))
    } else {
        Ok(LibraryView { source: SourceView::Path(path), entrypoint: e, data: d })
    }
}

pub open spec fn opt_view(o: Option<String>) -> Option<Seq<char>> {
    match o {
        Some(s) => Some(s@),
        None => None,
    }
}

/// Reference to an injectable library or in-memory payload.
#[derive(Debug)]
pub struct Library {
    source: LibrarySource,
    entrypoint: String,
    data: String,
}

impl View for Library {
    type V = LibraryView;

    closed spec fn view(&self) -> LibraryView {
        LibraryView {
            source: match self.source {
                LibrarySource::Path(p) => SourceView::Path(p@),
                LibrarySource::Blob(b) => SourceView::Blob(b@),
            },
            entrypoint: self.entrypoint@,
            data: self.data@,
        }
    }
}

fn default_entrypoint() -> (s: String)
    ensures
        s@ == DEFAULT_ENTRYPOINT@,
        entrypoint_ok(s@),
{
    proof {
        reveal_strlit("frida_agent_main");
    }
    String::from_str(DEFAULT_ENTRYPOINT)
}

impl Library {
    #[verifier::type_invariant]
    closed spec fn inv(self) -> bool {
        library_wf(self@)
    }

    /// Reference to a library file at `path`; `is_file` tells whether the path
    /// names a regular file.
    pub fn from_path(path: String, is_file: bool) -> (r: Result<Library, Error>)
        ensures
            match r {
                Ok(l) => is_file && no_nul(path@) && l@ == with_defaults(SourceView::Path(path@)),
                Err(e) => if !is_file {
                    e@ == invalid("library path must be a file"@)
                } else {
                    !no_nul(path@) && e@ == invalid("library path contains NUL"@)
                },
            },
    {
        if !is_file {
            return Err(Error::with_text(ErrorKind::InvalidInput, "library path must be a file"));
        }
        if contains_nul(path.as_str()) {
            return Err(Error::with_text(ErrorKind::InvalidInput, "library path contains NUL"));
        }
        let l = Library {
            source: LibrarySource::Path(path),
            entrypoint: default_entrypoint(),
            data: String::new(),
        };
        Ok(l)
    }

    /// Reference to an in-memory library image.
    pub fn from_bytes(bytes: Vec<u8>) -> (r: Result<Library, Error>)
        ensures
            match r {
                Ok(l) => bytes@.len() > 0 && l@ == with_defaults(SourceView::Blob(bytes@)),
                Err(e) => bytes@.len() == 0 && e@ == invalid("library blob is empty"@),
            },
    {
        if bytes.len() == 0 {
            return Err(Error::with_text(ErrorKind::InvalidInput, "library blob is empty"));
        }
        let entrypoint = default_entrypoint();
        Ok(Library { source: LibrarySource::Blob(bytes), entrypoint, data: String::new() })
    }

    /// Reference to a built library artifact; an entrypoint or data named by
    /// the artifact's package metadata overrides the defaults.
    pub fn from_artifact(
        path: String,
        entrypoint: Option<String>,
        data: Option<String>,
    ) -> (r: Result<Library, Error>)
        ensures
            match r {
                Ok(l) => artifact_of(path@, opt_view(entrypoint), opt_view(data))
                    == Ok::<LibraryView, ErrorView>(l@),
                Err(e) => artifact_of(path@, opt_view(entrypoint), opt_view(data))
                    == Err::<LibraryView, ErrorView>(e@),
            },
    {
        if contains_nul(path.as_str()) {
            return Err(Error::with_text(ErrorKind::InvalidInput, "library path contains NUL"));
        }
        let e = match entrypoint {
            Some(e) => e,
            None => default_entrypoint(),
        };
        if e.unicode_len() == 0 || contains_nul(e.as_str()) {
            return Err(Error::with_text(ErrorKind::InvalidInput, "entrypoint contains NUL or is empty"));
        }
        let d = match data {
            Some(d) => d,
            None => String::new(),
        };
        if contains_nul(d.as_str()) {
            return Err(Error::with_text(ErrorKind::InvalidInput, "data contains NUL"));
        }
        Ok(Library { source: LibrarySource::Path(path), entrypoint: e, data: d })
    }

    /// The entrypoint symbol name.
    pub fn entrypoint(&self) -> (r: &str)
        ensures
            r@ == self@.entrypoint,
            entrypoint_ok(r@),
    {
        proof {
            use_type_invariant(self);
        }
        self.entrypoint.as_str()
    }

    /// The opaque data string passed to the entrypoint.
    pub fn data(&self) -> (r: &str)
        ensures
            r@ == self@.data,
            no_nul(r@),
    {
        proof {
            use_type_invariant(self);
        }
        self.data.as_str()
    }

    /// The payload.
    pub fn source(&self) -> (r: &LibrarySource)
        ensures
            match (r, self@.source) {
                (LibrarySource::Path(p), SourceView::Path(q)) => p@ == q && no_nul(q),
                (LibrarySource::Blob(b), SourceView::Blob(c)) => b@ == c && c.len() > 0,
                _ => false,
            },
    {
        proof {
            use_type_invariant(self);
        }
        &self.source
    }

    /// Whether the payload is an in-memory image.
    pub fn is_blob(&self) -> (r: bool)
        ensures
            r == self@.source is Blob,
    {
        match &self.source {
            LibrarySource::Blob(_) => true,
            LibrarySource::Path(_) => false,
        }
    }

    /// The same library with another entrypoint name.
    pub fn with_entrypoint(self, entrypoint: &str) -> (r: Result<Library, Error>)
        ensures
            match r {
                Ok(l) => with_entrypoint_of(self@, entrypoint@) == Ok::<LibraryView, ErrorView>(l@),
                Err(e) => with_entrypoint_of(self@, entrypoint@) == Err::<LibraryView, ErrorView>(e@),
            },
    {
        proof {
            use_type_invariant(&self);
        }
        if entrypoint.unicode_len() == 0 {
            return Err(Error::with_text(ErrorKind::InvalidInput, "entrypoint is empty"));
        }
        if contains_nul(entrypoint) {
            return Err(Error::with_text(ErrorKind::InvalidInput, "entrypoint contains NUL"));
        }
        Ok(Library { source: self.source, entrypoint: String::from_str(entrypoint), data: self.data })
    }

    /// The same library with other data for the entrypoint.
    pub fn with_data(self, data: &str) -> (r: Result<Library, Error>)
        ensures
            match r {
                Ok(l) => with_data_of(self@, data@) == Ok::<LibraryView, ErrorView>(l@),
                Err(e) => with_data_of(self@, data@) == Err::<LibraryView, ErrorView>(e@),
            },
    {
        proof {
            use_type_invariant(&self);
        }
        if contains_nul(data) {
            return Err(Error::with_text(ErrorKind::InvalidInput, "data contains NUL"));
        }
        Ok(Library { source: self.source, entrypoint: self.entrypoint, data: String::from_str(data) })
    }
}

/// Overriding the entrypoint is observable through the accessor, and doing it
/// again with the same name changes nothing.
pub proof fn lemma_with_entrypoint_idempotent(l: LibraryView, e: Seq<char>)
    requires
        library_wf(l),
        with_entrypoint_of(l, e) is Ok,
    ensures
        with_entrypoint_of(l, e)->Ok_0.entrypoint == e,
        with_entrypoint_of(with_entrypoint_of(l, e)->Ok_0, e) == with_entrypoint_of(l, e),
{
}

/// Overriding the data is observable through the accessor, and doing it
/// again with the same data changes nothing.
pub proof fn lemma_with_data_idempotent(l: LibraryView, d: Seq<char>)
    requires
        library_wf(l),
        with_data_of(l, d) is Ok,
    ensures
        with_data_of(l, d)->Ok_0.data == d,
        with_data_of(with_data_of(l, d)->Ok_0, d) == with_data_of(l, d),
{
}

} // verus!
