//! Process injection: the lifecycle coordinator, the data model it works on,
//! and the translation of native engine results into a structured error.

mod coordinator;
mod devkit;
mod error;
mod launch;
mod library;
mod manifest;
mod native;
mod process;
mod program;
mod text;

pub use coordinator::{
    failed, inject_call_of, inject_process, inject_process_start, inject_program,
    inject_program_start, launch_inject, launch_inject_start, lemma_blob_launch_cleans_up,
    lemma_blob_launch_rejected, lemma_inject_failure_skips_resume, lemma_resume_failure_cleans_up,
    lemma_uninject_zero, phase_next, resume_start, run, spawn, spawn_start, succeeded,
    suspended_inject_start, uninject, uninject_start, Child, InjectedProcess, InjectedProgram,
    Outcome, OutcomeView, Phase, PhaseView, Step, StepView, SuspendedProgram,
};
pub use devkit::{
    append_new, archive_of, detect_devkit_platform, devkit_archives, devkit_archives_of,
    devkit_platform_of, devkit_versions_of, resolve_devkit_platform, resolve_devkit_versions, texts,
    unsupported_platform_message,
};
pub use error::{invalid, process_not_found_view, Error, ErrorKind, ErrorView};
pub use launch::{
    all_no_nul, env_entries, launch_of, stdio_code, stdio_code_of, LaunchParams, LaunchView,
};
pub use library::{
    artifact_of, entrypoint_ok, lemma_with_data_idempotent, lemma_with_entrypoint_idempotent,
    library_wf, opt_view, with_data_of, with_defaults, with_entrypoint_of, Library, LibrarySource,
    LibraryView, SourceView, DEFAULT_ENTRYPOINT,
};
pub use manifest::{
    candidates_of, cdylib_candidates, check_manifest, check_manifest_of, component_lists,
    declares_cdylib, entry_of, fields_of, item_text,
    library_filename, library_filename_of, manifest_fields, missing_name_message,
    missing_package_message, not_cdylib_message, opt_texts, parse_failure_prefix,
    read_cdylib_file, read_manifest, resolve_failure_of, search_roots_of, text_of, toml_doc_of, toml_view,
    underscored, value_view, BuildError, CdylibInfo, CrateMetadata, FieldsView, InfoView,
    ManifestFields, ManifestInfo, Platform, TomlView,
};
pub use native::{
    map_native_error, native_error_of, native_reply, native_reply_of, runtime_unavailable, CallView,
    EngineCall, Reply, ReplyView, NATIVE_ERROR_INVALID_ARGUMENT, NATIVE_ERROR_NONE,
    NATIVE_ERROR_NOT_SUPPORTED, NATIVE_ERROR_PERMISSION_DENIED, NATIVE_ERROR_PROCESS_NOT_FOUND,
    NATIVE_ERROR_RUNTIME,
};
pub use process::{pid_rejected_view, probe_denied_view, probe_result, PidProbe, ProbeOutcome, Process};
pub use program::{env_set, env_view, EnvView, Program, ProgramView, Stdio};
pub use text::{decimal, digits, no_nul};
