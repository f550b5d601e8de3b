//! The Whisper model catalogue, install state and checksum verification.
use vstd::prelude::*;
use sha1::Digest;
use crate::error::AppError;
use crate::text::{
    append_chars, chars_eq, chars_of, lower, push_str, string_from_chars, string_of, to_ascii_lower,
};

verus! {

/// The digest a model file is checked against.
#[derive(Debug, Clone, Copy, PartialEq, Eq, Structural)]
pub enum ChecksumAlgorithm {
    Sha1,
    Sha256,
}

/// A model as the settings page shows it.
#[derive(Debug, Clone)]
pub struct ModelInfo {
    pub id: String,
    pub display_name: String,
    pub file_name: String,
    pub size_bytes: u64,
    pub disk_size: String,
    pub language_mode: String,
    pub checksum_algorithm: ChecksumAlgorithm,
    pub checksum: String,
    pub installed: bool,
    pub path: Option<std::path::PathBuf>,
}

/// Progress of a model download.
#[derive(Debug, Clone)]
pub struct ModelDownloadProgress {
    pub model_id: String,
    pub downloaded_bytes: u64,
    pub total_bytes: Option<u64>,
    pub done: bool,
}

/// A model that can be downloaded.
#[derive(Debug, Clone)]
pub struct ModelDefinition {
    pub id: String,
    pub display_name: String,
    pub file_name: String,
    pub size_bytes: u64,
    pub disk_size: String,
    pub language_mode: String,
    pub checksum_algorithm: ChecksumAlgorithm,
    pub checksum: String,
}

/// A definition as plain values.
pub type DefinitionView = (Seq<char>, Seq<char>, Seq<char>, u64, Seq<char>, Seq<char>, ChecksumAlgorithm, Seq<char>);

pub open spec fn definition_view(d: ModelDefinition) -> DefinitionView {
    (d.id@, d.display_name@, d.file_name@, d.size_bytes, d.disk_size@, d.language_mode@, d.checksum_algorithm, d.checksum@)
}

/// The catalogue: whisper.cpp's ggml models with their upstream SHA-1 checksums.
pub open spec fn catalog() -> Seq<DefinitionView> {
    seq![
        ("tiny"@, "Tiny multilingual"@, "ggml-tiny.bin"@, 78_643_200u64, "75 MiB"@, "multilingual"@, ChecksumAlgorithm::Sha1, "bd577a113a864445d4c299885e0cb97d4ba92b5f"@),
        ("tiny.en"@, "Tiny English"@, "ggml-tiny.en.bin"@, 78_643_200u64, "75 MiB"@, "english"@, ChecksumAlgorithm::Sha1, "c78c86eb1a8faa21b369bcd33207cc90d64ae9df"@),
        ("base"@, "Base multilingual"@, "ggml-base.bin"@, 148_897_792u64, "142 MiB"@, "multilingual"@, ChecksumAlgorithm::Sha1, "465707469ff3a37a2b9b8d8f89f2f99de7299dac"@),
        ("base.en"@, "Base English"@, "ggml-base.en.bin"@, 148_897_792u64, "142 MiB"@, "english"@, ChecksumAlgorithm::Sha1, "137c40403d78fd54d454da0f9bd998f78703390c"@),
        ("small"@, "Small multilingual"@, "ggml-small.bin"@, 488_636_416u64, "466 MiB"@, "multilingual"@, ChecksumAlgorithm::Sha1, "55356645c2b361a969dfd0ef2c5a50d530afd8d5"@),
        ("small.en"@, "Small English"@, "ggml-small.en.bin"@, 488_636_416u64, "466 MiB"@, "english"@, ChecksumAlgorithm::Sha1, "db8a495a91d927739e50b3fc1cc4c6b8f6c2d022"@),
    ]
}

fn definition(
    id: &str,
    display_name: &str,
    file_name: &str,
    size_bytes: u64,
    disk_size: &str,
    language_mode: &str,
    checksum: &str,
) -> (r: ModelDefinition)
    ensures
        definition_view(r) == (id@, display_name@, file_name@, size_bytes, disk_size@, language_mode@, ChecksumAlgorithm::Sha1, checksum@),
{
    ModelDefinition {
        id: string_of(id),
        display_name: string_of(display_name),
        file_name: string_of(file_name),
        size_bytes,
        disk_size: string_of(disk_size),
        language_mode: string_of(language_mode),
        checksum_algorithm: ChecksumAlgorithm::Sha1,
        checksum: string_of(checksum),
    }
}

fn copy_definition(d: &ModelDefinition) -> (r: ModelDefinition)
    ensures
        definition_view(r) == definition_view(*d),
{
    ModelDefinition {
        id: d.id.clone(),
        display_name: d.display_name.clone(),
        file_name: d.file_name.clone(),
        size_bytes: d.size_bytes,
        disk_size: d.disk_size.clone(),
        language_mode: d.language_mode.clone(),
        checksum_algorithm: d.checksum_algorithm,
        checksum: d.checksum.clone(),
    }
}

/// The downloadable models, in the order they are listed.
pub fn model_catalog() -> (r: Vec<ModelDefinition>)
    ensures
        r@.map_values(|d: ModelDefinition| definition_view(d)) == catalog(),
{
    let mut r: Vec<ModelDefinition> = Vec::new();
    r.push(definition("tiny", "Tiny multilingual", "ggml-tiny.bin", 75 * 1024 * 1024, "75 MiB", "multilingual", "bd577a113a864445d4c299885e0cb97d4ba92b5f"));
    r.push(definition("tiny.en", "Tiny English", "ggml-tiny.en.bin", 75 * 1024 * 1024, "75 MiB", "english", "c78c86eb1a8faa21b369bcd33207cc90d64ae9df"));
    r.push(definition("base", "Base multilingual", "ggml-base.bin", 142 * 1024 * 1024, "142 MiB", "multilingual", "465707469ff3a37a2b9b8d8f89f2f99de7299dac"));
    r.push(definition("base.en", "Base English", "ggml-base.en.bin", 142 * 1024 * 1024, "142 MiB", "english", "137c40403d78fd54d454da0f9bd998f78703390c"));
    r.push(definition("small", "Small multilingual", "ggml-small.bin", 466 * 1024 * 1024, "466 MiB", "multilingual", "55356645c2b361a969dfd0ef2c5a50d530afd8d5"));
    r.push(definition("small.en", "Small English", "ggml-small.en.bin", 466 * 1024 * 1024, "466 MiB", "english", "db8a495a91d927739e50b3fc1cc4c6b8f6c2d022"));
    assert(r@.map_values(|d: ModelDefinition| definition_view(d)) == catalog());
    r
}

/// The catalogue entry with the given id, or the error naming the unknown id.
pub fn find_model(model_id: &str) -> (r: Result<ModelDefinition, AppError>)
    ensures
        match r {
            Ok(d) => d.id@ == model_id@ && exists|i: int| 0 <= i < catalog().len() && #[trigger] catalog()[i] == definition_view(d)
                && forall|j: int| 0 <= j < i ==> (#[trigger] catalog()[j]).0 != model_id@,
            Err(e) => (forall|i: int| 0 <= i < catalog().len() ==> (#[trigger] catalog()[i]).0 != model_id@)
                && (e matches AppError::Model(m) && m@ == "unknown model: "@ + model_id@),
        },
{
    let models = model_catalog();
    let ghost mv = models@.map_values(|d: ModelDefinition| definition_view(d));
    let id = string_of(model_id);
    let mut i: usize = 0;
    while i < models.len()
        invariant
            i <= models@.len(),
            mv == models@.map_values(|d: ModelDefinition| definition_view(d)),
            mv == catalog(),
            id@ == model_id@,
            forall|j: int| 0 <= j < i ==> (#[trigger] catalog()[j]).0 != model_id@,
        decreases models@.len() - i,
    {
        if models[i].id == id {
            let d = copy_definition(&models[i]);
            assert(mv[i as int] == definition_view(models@[i as int]));
            assert(definition_view(d) == definition_view(models@[i as int]));
            return Ok(d);
        }
        assert(mv[i as int] == definition_view(models@[i as int]));
        i += 1;
    }
    let mut m = chars_of("unknown model: ");
    push_str(&mut m, model_id);
    Err(AppError::Model(string_from_chars(&m)))
}

/// The model info shown for a definition, installed exactly when a verified path is known.
pub fn model_info(definition: &ModelDefinition, path: Option<std::path::PathBuf>) -> (r: ModelInfo)
    ensures
        r.id@ == definition.id@,
        r.display_name@ == definition.display_name@,
        r.file_name@ == definition.file_name@,
        r.size_bytes == definition.size_bytes,
        r.disk_size@ == definition.disk_size@,
        r.language_mode@ == definition.language_mode@,
        r.checksum_algorithm == definition.checksum_algorithm,
        r.checksum@ == definition.checksum@,
        r.installed == path is Some,
        r.path == path,
{
    let installed = path.is_some();
    ModelInfo {
        id: definition.id.clone(),
        display_name: definition.display_name.clone(),
        file_name: definition.file_name.clone(),
        size_bytes: definition.size_bytes,
        disk_size: definition.disk_size.clone(),
        language_mode: definition.language_mode.clone(),
        checksum_algorithm: definition.checksum_algorithm,
        checksum: definition.checksum.clone(),
        installed,
        path,
    }
}

/// Where the models live: the current directory and, from older installs, a legacy one.
#[derive(Debug)]
pub struct ModelManager {
    models_dir: std::path::PathBuf,
    legacy_models_dir: Option<std::path::PathBuf>,
}

impl ModelManager {
    pub closed spec fn spec_models_dir(&self) -> std::path::PathBuf {
        self.models_dir
    }

    pub closed spec fn spec_legacy_models_dir(&self) -> Option<std::path::PathBuf> {
        self.legacy_models_dir
    }

    /// Models in `models_dir`, no legacy directory.
    pub fn from_dir(models_dir: std::path::PathBuf) -> (r: Self)
        ensures
            r.spec_models_dir() == models_dir,
            r.spec_legacy_models_dir() is None,
    {
        ModelManager { models_dir, legacy_models_dir: None }
    }

    /// Models in `models_dir`, with models of an older install in `legacy_models_dir`.
    pub fn from_dirs(models_dir: std::path::PathBuf, legacy_models_dir: std::path::PathBuf) -> (r: Self)
        ensures
            r.spec_models_dir() == models_dir,
            r.spec_legacy_models_dir() == Some(legacy_models_dir),
    {
        ModelManager { models_dir, legacy_models_dir: Some(legacy_models_dir) }
    }

    /// The directory new models go to.
    pub fn models_dir(&self) -> (r: &std::path::PathBuf)
        ensures
            *r == self.spec_models_dir(),
    {
        &self.models_dir
    }

    /// The model list, given for each catalogue entry (in catalogue order) the
    /// path of its verified installed file, if any.
    pub fn list(&self, installed_paths: Vec<Option<std::path::PathBuf>>) -> (r: Vec<ModelInfo>)
        requires
            installed_paths@.len() == catalog().len(),
        ensures
            r@.len() == catalog().len(),
            forall|i: int|
                0 <= i < r@.len() ==> {
                    let d = catalog()[i];
                    let info = #[trigger] r@[i];
                    &&& (info.id@, info.display_name@, info.file_name@, info.size_bytes, info.disk_size@,
                        info.language_mode@, info.checksum_algorithm, info.checksum@) == d
                    &&& info.path == installed_paths@[i]
                    &&& info.installed == installed_paths@[i] is Some
                },
    {
        let defs = model_catalog();
        let ghost dv = defs@.map_values(|d: ModelDefinition| definition_view(d));
        let ghost paths = installed_paths@;
        let mut rest = installed_paths;
        let mut out: Vec<ModelInfo> = Vec::new();
        let mut i = defs.len();
        while i > 0
            invariant
                i <= defs@.len(),
                dv == defs@.map_values(|d: ModelDefinition| definition_view(d)),
                dv == catalog(),
                paths.len() == catalog().len(),
                rest@ == paths.take(i as int),
                out@.len() == defs@.len() - i,
                forall|k: int|
                    0 <= k < out@.len() ==> {
                        let d = dv[k + i];
                        let info = #[trigger] out@[k];
                        &&& (info.id@, info.display_name@, info.file_name@, info.size_bytes, info.disk_size@,
                            info.language_mode@, info.checksum_algorithm, info.checksum@) == d
                        &&& info.path == paths[k + i]
                        &&& info.installed == paths[k + i] is Some
                    },
            decreases i,
        {
            let p = rest.pop().unwrap();
            assert(p == paths[i - 1]);
            assert(rest@ == paths.take(i - 1));
            assert(dv[i - 1] == definition_view(defs@[i - 1]));
            let info = model_info(&defs[i - 1], p);
            out.insert(0, info);
            i -= 1;
        }
        out
    }

    /// The legacy directory, if one exists.
    pub fn legacy_models_dir(&self) -> (r: Option<&std::path::PathBuf>)
        ensures
            match r {
                Some(p) => self.spec_legacy_models_dir() == Some(*p),
                None => self.spec_legacy_models_dir() is None,
            },
    {
        match &self.legacy_models_dir {
            Some(p) => Some(p),
            None => None,
        }
    }
}

/// The installed copy of a model: the current location when its file verifies,
/// else the legacy location when that verifies, else none.
pub fn choose_installed_path(
    new_path: std::path::PathBuf,
    new_verified: bool,
    legacy: Option<(std::path::PathBuf, bool)>,
) -> (r: Option<std::path::PathBuf>)
    ensures
        new_verified ==> r == Some(new_path),
        !new_verified ==> r == match legacy {
            Some((p, true)) => Some(p),
            _ => None,
        },
{
    if new_verified {
        return Some(new_path);
    }
    match legacy {
        Some((p, verified)) => if verified {
            Some(p)
        } else {
            None
        },
        None => None,
    }
}

/// The path of an installed model, or the error that it is not installed.
pub fn installed_path_or_error(model_id: &str, path: Option<std::path::PathBuf>) -> (r: Result<std::path::PathBuf, AppError>)
    ensures
        match path {
            Some(p) => r == Ok::<std::path::PathBuf, AppError>(p),
            None => r matches Err(AppError::Model(m)) && m@ == "model '"@ + model_id@ + "' is not installed"@,
        },
{
    match path {
        Some(p) => Ok(p),
        None => {
            let mut m = chars_of("model '");
            push_str(&mut m, model_id);
            push_str(&mut m, "' is not installed");
            Err(AppError::Model(string_from_chars(&m)))
        },
    }
}

// ---------------------------------------------------------------------------
// Checksums
// ---------------------------------------------------------------------------

/// The SHA-1 digest of `data`, as the `sha1` crate computes it.
pub uninterp spec fn sha1_digest_of(data: Seq<u8>) -> Seq<u8>;

/// The SHA-256 digest of `data`, as the `sha2` crate computes it.
pub uninterp spec fn sha256_digest_of(data: Seq<u8>) -> Seq<u8>;

/// Calls `sha1::Sha1::digest`; the result is named, and it is 20 bytes long
/// (the hasher's `OutputSize` is `U20`).
#[verifier::external_body]
fn sha1_digest(data: &[u8]) -> (r: Vec<u8>)
    ensures
        r@ == sha1_digest_of(data@),
        r@.len() == 20,
{
    sha1::Sha1::digest(data).to_vec()
}

/// Calls `sha2::Sha256::digest`; the result is named, and it is 32 bytes long
/// (the hasher's `OutputSize` is `U32`).
#[verifier::external_body]
fn sha256_digest(data: &[u8]) -> (r: Vec<u8>)
    ensures
        r@ == sha256_digest_of(data@),
        r@.len() == 32,
{
    sha2::Sha256::digest(data).to_vec()
}

pub open spec fn digest_of(algorithm: ChecksumAlgorithm, data: Seq<u8>) -> Seq<u8> {
    match algorithm {
        ChecksumAlgorithm::Sha1 => sha1_digest_of(data),
        ChecksumAlgorithm::Sha256 => sha256_digest_of(data),
    }
}

pub open spec fn hex_digit(d: int) -> char {
    if d < 10 {
        (('0' as int) + d) as char
    } else {
        (('a' as int) + d - 10) as char
    }
}

/// Lower-case hexadecimal, two digits per byte (what `{:x}` prints for a digest).
pub open spec fn hex_spec(bytes: Seq<u8>) -> Seq<char>
    decreases bytes.len(),
{
    if bytes.len() == 0 {
        Seq::empty()
    } else {
        hex_spec(bytes.drop_last()).push(hex_digit(bytes.last() as int / 16)).push(
            hex_digit(bytes.last() as int % 16),
        )
    }
}

fn hex_char(d: u8) -> (c: char)
    requires
        d < 16,
    ensures
        c == hex_digit(d as int),
{
    if d < 10 {
        ((48 + d) as u8) as char
    } else {
        ((87 + d) as u8) as char
    }
}

/// The lower-case hexadecimal form of `bytes`.
pub fn hex_lower(bytes: &[u8]) -> (r: Vec<char>)
    ensures
        r@ == hex_spec(bytes@),
{
    let mut r: Vec<char> = Vec::new();
    for i in 0..bytes.len()
        invariant
            r@ == hex_spec(bytes@.take(i as int)),
    {
        let b = bytes[i];
        assert(bytes@.take(i + 1).drop_last() == bytes@.take(i as int));
        r.push(hex_char(b / 16));
        r.push(hex_char(b % 16));
    }
    assert(bytes@.take(bytes@.len() as int) == bytes@);
    r
}

/// The verdict on a digest: accepted when its hexadecimal form equals the
/// expected checksum ignoring ASCII case; otherwise the mismatch error.
pub open spec fn check_digest_spec(
    path_display: Seq<char>,
    digest: Seq<u8>,
    expected: Seq<char>,
) -> Result<(), Seq<char>> {
    let actual = hex_spec(digest);
    if lower(actual) == lower(expected) {
        Ok(())
    } else {
        Err("checksum mismatch for "@ + path_display + ": expected "@ + expected + ", got "@ + actual)
    }
}

/// Whether `r` is the outcome `spec` describes, errors being model errors.
pub open spec fn model_outcome(r: Result<(), AppError>, spec: Result<(), Seq<char>>) -> bool {
    match spec {
        Ok(()) => r is Ok,
        Err(m) => r matches Err(AppError::Model(msg)) && msg@ == m,
    }
}

/// Compares a computed digest with the expected checksum.
pub fn check_digest(path_display: &str, digest: &[u8], expected: &str) -> (r: Result<(), AppError>)
    ensures
        model_outcome(r, check_digest_spec(path_display@, digest@, expected@)),
{
    let actual = hex_lower(digest);
    let exp = chars_of(expected);
    let la = to_ascii_lower(&actual);
    let le = to_ascii_lower(&exp);
    if chars_eq(&la, &le) {
        Ok(())
    } else {
        let mut m = chars_of("checksum mismatch for ");
        push_str(&mut m, path_display);
        push_str(&mut m, ": expected ");
        push_str(&mut m, expected);
        push_str(&mut m, ", got ");
        append_chars(&mut m, &actual);
        Err(AppError::Model(string_from_chars(&m)))
    }
}

/// Hashes file contents with the model's algorithm and checks the checksum.
pub fn verify_bytes(
    path_display: &str,
    bytes: &[u8],
    algorithm: ChecksumAlgorithm,
    expected: &str,
) -> (r: Result<(), AppError>)
    ensures
        model_outcome(r, check_digest_spec(path_display@, digest_of(algorithm, bytes@), expected@)),
{
    let digest = match algorithm {
        ChecksumAlgorithm::Sha1 => sha1_digest(bytes),
        ChecksumAlgorithm::Sha256 => sha256_digest(bytes),
    };
    check_digest(path_display, digest.as_slice(), expected)
}

// ---------------------------------------------------------------------------
// Downloads
// ---------------------------------------------------------------------------

/// Where the model files are published.
pub const MODEL_BASE_URL: &'static str = "https://huggingface.co/ggerganov/whisper.cpp/resolve/main";

pub open spec fn model_base_url() -> Seq<char> {
    "https://huggingface.co/ggerganov/whisper.cpp/resolve/main"@
}

/// The address a model's file is downloaded from.
pub fn download_url(definition: &ModelDefinition) -> (r: String)
    ensures
        r@ == model_base_url() + "/"@ + definition.file_name@,
{
    let mut v = chars_of(MODEL_BASE_URL);
    proof {
        reveal_strlit("https://huggingface.co/ggerganov/whisper.cpp/resolve/main");
    }
    push_str(&mut v, "/");
    push_str(&mut v, definition.file_name.as_str());
    string_from_chars(&v)
}

/// Counts the bytes of a download and reports its progress.
#[derive(Debug)]
pub struct DownloadTracker {
    model_id: String,
    downloaded: u64,
    total: Option<u64>,
}

impl View for DownloadTracker {
    /// The model, the bytes received so far and the announced size.
    type V = (Seq<char>, u64, Option<u64>);

    closed spec fn view(&self) -> (Seq<char>, u64, Option<u64>) {
        (self.model_id@, self.downloaded, self.total)
    }
}

impl DownloadTracker {
    /// A download of `model_id` that has received nothing, of the announced size, if any.
    pub fn new(model_id: &str, total: Option<u64>) -> (r: Self)
        ensures
            r@ == (model_id@, 0u64, total),
    {
        DownloadTracker { model_id: string_of(model_id), downloaded: 0, total }
    }

    /// A chunk of `len` bytes arrived: the count grows by `len`, and the progress
    /// to report says so.
    pub fn record_chunk(&mut self, len: usize) -> (r: ModelDownloadProgress)
        requires
            old(self)@.1 + len <= u64::MAX,
        ensures
            final(self)@ == (old(self)@.0, (old(self)@.1 + len) as u64, old(self)@.2),
            r.model_id@ == old(self)@.0,
            r.downloaded_bytes == final(self)@.1,
            r.total_bytes == old(self)@.2,
            !r.done,
    {
        self.downloaded = self.downloaded + len as u64;
        ModelDownloadProgress {
            model_id: self.model_id.clone(),
            downloaded_bytes: self.downloaded,
            total_bytes: self.total,
            done: false,
        }
    }

    /// The progress to report once the file is verified and in place.
    pub fn finished(&self) -> (r: ModelDownloadProgress)
        ensures
            r.model_id@ == self@.0,
            r.downloaded_bytes == self@.1,
            r.total_bytes == self@.2,
            r.done,
    {
        ModelDownloadProgress {
            model_id: self.model_id.clone(),
            downloaded_bytes: self.downloaded,
            total_bytes: self.total,
            done: true,
        }
    }
}

} // verus!
