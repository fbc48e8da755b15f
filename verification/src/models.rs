//! The model catalog: the built-in sherpa-onnx and whisper.cpp models, the
//! models a user adds from Hugging Face, lookup by id, the files a model
//! needs on disk, and the plan for downloading it.
use vstd::prelude::*;
use crate::text::{ends_with, has_prefix, has_suffix, str_eq};

verus! {

broadcast use vstd::string::group_string_axioms;

/// Architecture of a speech-recognition model; it decides the engine that
/// runs the model and the files the model consists of.
#[derive(Debug, Clone, Copy, PartialEq, Eq, Structural)]
pub enum ModelKind {
    Ctc,
    Transducer,
    /// Whisper through sherpa-onnx (ONNX Runtime).
    Whisper,
    /// Whisper through whisper.cpp (GGML/GGUF, GPU-accelerated).
    WhisperCpp,
}

/// An entry of the built-in catalog.
#[derive(Debug, Clone, Copy)]
pub struct ModelInfo {
    pub id: &'static str,
    pub name: &'static str,
    pub description: &'static str,
    pub kind: ModelKind,
    pub archive_stem: &'static str,
    pub size_mb: u32,
    pub languages: &'static [&'static str],
    pub punctuation: bool,
    /// Measured real-time factor (decode time / audio length), in units of
    /// 1/10000: 850 stands for 0.085.
    pub measured_rtf_e4: u32,
    pub measured_load_ms: u32,
    /// Whisper (ONNX) only: the size prefix of the file names in the archive.
    pub whisper_file_prefix: Option<&'static str>,
    /// Whisper models only: the recognition language to ask for.
    pub whisper_language: Option<&'static str>,
    /// Number of mel filters the model expects (CTC/Transducer); 0 where unused.
    pub feature_dim: i32,
    /// whisper.cpp only: direct link to the single GGML model file.
    pub ggml_url: Option<&'static str>,
}

/// A model added by the user from an arbitrary Hugging Face repository. Its
/// files are stored locally under the standard names that the loader expects.
#[derive(Debug)]
pub struct CustomModel {
    pub id: String,
    pub name: String,
    pub repo_id: String,
    pub kind: ModelKind,
    pub files: CustomFiles,
}

/// File names, inside the Hugging Face repository, of a custom model's parts.
#[derive(Debug)]
pub enum CustomFiles {
    Ctc { model: String, tokens: String },
    Transducer { encoder: String, decoder: String, joiner: String, tokens: String },
}

/// A model of the full catalog: built in, or added by the user.
#[derive(Debug)]
pub enum ModelEntry {
    Builtin(ModelInfo),
    Custom(CustomModel),
}

/// Why a catalog operation could not be carried out.
#[derive(Debug, Clone, Copy, PartialEq, Eq, Structural)]
pub enum ModelError {
    /// A whisper.cpp catalog entry without a GGML download link.
    MissingGgmlUrl,
    /// A Hugging Face repository without any `.onnx` or `.txt` file.
    NoModelFiles,
}

impl ModelError {
    /// The message shown to the user.
    pub fn message(&self) -> (r: &'static str)
        ensures
            r@ == match self {
                ModelError::MissingGgmlUrl => "у модели не задан ggml_url"@,
                ModelError::NoModelFiles => "в репозитории не нашлось .onnx/.txt файлов — это точно sherpa-onnx модель?"@,
            },
    {
        match self {
            ModelError::MissingGgmlUrl => "у модели не задан ggml_url",
            ModelError::NoModelFiles => "в репозитории не нашлось .onnx/.txt файлов — это точно sherpa-onnx модель?",
        }
    }
}

impl Clone for CustomFiles {
    fn clone(&self) -> (r: Self)
        ensures
            r == *self,
    {
        match self {
            CustomFiles::Ctc { model, tokens } => CustomFiles::Ctc {
                model: model.clone(),
                tokens: tokens.clone(),
            },
            CustomFiles::Transducer { encoder, decoder, joiner, tokens } => CustomFiles::Transducer {
                encoder: encoder.clone(),
                decoder: decoder.clone(),
                joiner: joiner.clone(),
                tokens: tokens.clone(),
            },
        }
    }
}

impl Clone for CustomModel {
    fn clone(&self) -> (r: Self)
        ensures
            r == *self,
    {
        CustomModel {
            id: self.id.clone(),
            name: self.name.clone(),
            repo_id: self.repo_id.clone(),
            kind: self.kind,
            files: self.files.clone(),
        }
    }
}

impl Clone for ModelEntry {
    fn clone(&self) -> (r: Self)
        ensures
            r == *self,
    {
        match self {
            ModelEntry::Builtin(info) => ModelEntry::Builtin(*info),
            ModelEntry::Custom(c) => ModelEntry::Custom(c.clone()),
        }
    }
}

/// The characters of an optional string.
pub open spec fn opt_chars(o: Option<&'static str>) -> Option<Seq<char>> {
    match o {
        Some(s) => Some(s@),
        None => None,
    }
}

/// The characters of each string slice of `v`.
pub open spec fn strs_view(v: Seq<&'static str>) -> Seq<Seq<char>> {
    v.map_values(|s: &'static str| s@)
}

/// The characters of each string of `v`.
pub open spec fn strings_view(v: Seq<String>) -> Seq<Seq<char>> {
    v.map_values(|s: String| s@)
}

/// `info` carries the given data.
pub open spec fn row_is(
    info: ModelInfo,
    id: Seq<char>,
    name: Seq<char>,
    description: Seq<char>,
    kind: ModelKind,
    archive_stem: Seq<char>,
    size_mb: u32,
    languages: Seq<Seq<char>>,
    punctuation: bool,
    measured_rtf_e4: u32,
    measured_load_ms: u32,
    whisper_file_prefix: Option<Seq<char>>,
    whisper_language: Option<Seq<char>>,
    feature_dim: i32,
    ggml_url: Option<Seq<char>>,
) -> bool {
    &&& info.id@ == id
    &&& info.name@ == name
    &&& info.description@ == description
    &&& info.kind == kind
    &&& info.archive_stem@ == archive_stem
    &&& info.size_mb == size_mb
    &&& strs_view(info.languages@) == languages
    &&& info.punctuation == punctuation
    &&& info.measured_rtf_e4 == measured_rtf_e4
    &&& info.measured_load_ms == measured_load_ms
    &&& opt_chars(info.whisper_file_prefix) == whisper_file_prefix
    &&& opt_chars(info.whisper_language) == whisper_language
    &&& info.feature_dim == feature_dim
    &&& opt_chars(info.ggml_url) == ggml_url
}

/// `info` is the built-in catalog's entry number `i`.
pub open spec fn builtin_row(info: ModelInfo, i: int) -> bool {
    if i == 0 {
        row_is(
            info,
            "giga-ctc-v3"@,
            "GigaAM-CTC v3"@,
            "Без знаков препинания. Быстрее всего переключается (лёгкая загрузка)."@,
            ModelKind::Ctc,
            "sherpa-onnx-nemo-ctc-giga-am-v3-russian-2025-12-16"@,
            260,
            seq!["ru"@],
            false,
            850,
            920,
            None,
            None,
            64,
            None,
        )
    } else if i == 1 {
        row_is(
            info,
            "giga-ctc-punct-v3"@,
            "GigaAM-CTC v3 + пунктуация"@,
            "Сама расставляет точки и запятые. Хороший выбор по умолчанию."@,
            ModelKind::Ctc,
            "sherpa-onnx-nemo-ctc-punct-giga-am-v3-russian-2025-12-16"@,
            260,
            seq!["ru"@],
            true,
            840,
            935,
            None,
            None,
            64,
            None,
        )
    } else if i == 2 {
        row_is(
            info,
            "giga-transducer-v3"@,
            "GigaAM-Transducer v3"@,
            "Без пунктуации. Дольше загружается при переключении (3 onnx-сессии)."@,
            ModelKind::Transducer,
            "sherpa-onnx-nemo-transducer-giga-am-v3-russian-2025-12-16"@,
            280,
            seq!["ru"@],
            false,
            860,
            2300,
            None,
            None,
            64,
            None,
        )
    } else if i == 3 {
        row_is(
            info,
            "giga-transducer-punct-v3"@,
            "GigaAM-Transducer v3 + пунктуация"@,
            "С пунктуацией. Дольше загружается при переключении (3 onnx-сессии)."@,
            ModelKind::Transducer,
            "sherpa-onnx-nemo-transducer-punct-giga-am-v3-russian-2025-12-16"@,
            280,
            seq!["ru"@],
            true,
            820,
            1990,
            None,
            None,
            64,
            None,
        )
    } else if i == 4 {
        row_is(
            info,
            "whisper-cpp-base"@,
            "Whisper base (whisper.cpp)"@,
            "Многоязычная модель OpenAI через whisper.cpp — GPU-ускорение (Metal на macOS), как в Handy. На русском чаще ошибается в деталях, чем GigaAM, но одна модель понимает ~99 языков."@,
            ModelKind::WhisperCpp,
            "whisper-cpp-base"@,
            148,
            seq!["ru"@, "en"@, "+97 других"@],
            true,
            157,
            5941,
            None,
            Some("ru"@),
            0,
            Some("https://huggingface.co/ggerganov/whisper.cpp/resolve/main/ggml-base.bin"@),
        )
    } else if i == 5 {
        row_is(
            info,
            "whisper-cpp-small"@,
            "Whisper small (whisper.cpp)"@,
            "Та же модель через whisper.cpp, крупнее и точнее base на русском — с GPU-ускорением ощутимо быстрее, чем ONNX-вариант такого же размера."@,
            ModelKind::WhisperCpp,
            "whisper-cpp-small"@,
            488,
            seq!["ru"@, "en"@, "+97 других"@],
            true,
            428,
            166,
            None,
            Some("ru"@),
            0,
            Some("https://huggingface.co/ggerganov/whisper.cpp/resolve/main/ggml-small.bin"@),
        )
    } else if i == 6 {
        row_is(
            info,
            "whisper-cpp-tiny"@,
            "Whisper tiny (whisper.cpp)"@,
            "Самая маленькая и быстрая модель Whisper — для слабых машин или когда важнее скорость, чем точность. Заметно чаще ошибается на русском, чем base/small."@,
            ModelKind::WhisperCpp,
            "whisper-cpp-tiny"@,
            74,
            seq!["ru"@, "en"@, "+97 других"@],
            true,
            99,
            88,
            None,
            Some("ru"@),
            0,
            Some("https://huggingface.co/ggerganov/whisper.cpp/resolve/main/ggml-tiny.bin"@),
        )
    } else if i == 7 {
        row_is(
            info,
            "whisper-cpp-medium"@,
            "Whisper medium (whisper.cpp)"@,
            "Крупнее small, заметно точнее на сложной речи и акцентах — но и тяжелее по памяти/загрузке. Разумный выбор, когда точность важнее скорости переключения."@,
            ModelKind::WhisperCpp,
            "whisper-cpp-medium"@,
            1533,
            seq!["ru"@, "en"@, "+97 других"@],
            true,
            889,
            667,
            None,
            Some("ru"@),
            0,
            Some("https://huggingface.co/ggerganov/whisper.cpp/resolve/main/ggml-medium.bin"@),
        )
    } else if i == 8 {
        row_is(
            info,
            "nemo-ctc-en-conformer-medium"@,
            "NeMo Conformer-CTC medium (English)"@,
            "Официальная модель NVIDIA NeMo (stt_en_conformer_ctc_medium) для английского — без пунктуации, но точная и стабильная на чистой речи."@,
            ModelKind::Ctc,
            "sherpa-onnx-nemo-ctc-en-conformer-medium"@,
            158,
            seq!["en"@],
            false,
            268,
            628,
            None,
            None,
            80,
            None,
        )
    } else if i == 9 {
        row_is(
            info,
            "fast-conformer-multilingual"@,
            "Fast Conformer (10 языков Европы)"@,
            "Одна модель на белорусский, немецкий, английский, испанский, французский, хорватский, итальянский, польский, русский и украинский — быстрее GigaAM."@,
            ModelKind::Ctc,
            "sherpa-onnx-nemo-fast-conformer-ctc-be-de-en-es-fr-hr-it-pl-ru-uk-20k-int8"@,
            130,
            seq!["be"@, "de"@, "en"@, "es"@, "fr"@, "hr"@, "it"@, "pl"@, "ru"@, "uk"@],
            false,
            270,
            700,
            None,
            None,
            80,
            None,
        )
    } else if i == 10 {
        row_is(
            info,
            "zipformer-ru"@,
            "Zipformer RU (Vosk)"@,
            "Ещё одна модель только на русском (архитектура Zipformer, экспорт проекта Vosk/alphacep) — не от Sber, самая быстрая в каталоге."@,
            ModelKind::Transducer,
            "sherpa-onnx-zipformer-ru-int8-2025-04-20"@,
            84,
            seq!["ru"@],
            false,
            130,
            1725,
            None,
            None,
            80,
            None,
        )
    } else {
        false
    }
}

/// Number of entries of the built-in catalog.
pub open spec fn builtin_count() -> nat {
    11
}

/// Ids of the built-in catalog's entries, in catalog order.
pub open spec fn builtin_ids() -> Seq<Seq<char>> {
    seq!["giga-ctc-v3"@, "giga-ctc-punct-v3"@, "giga-transducer-v3"@, "giga-transducer-punct-v3"@, "whisper-cpp-base"@, "whisper-cpp-small"@, "whisper-cpp-tiny"@, "whisper-cpp-medium"@, "nemo-ctc-en-conformer-medium"@, "fast-conformer-multilingual"@, "zipformer-ru"@]
}

/// What every built-in entry keeps: a GGML link exactly for whisper.cpp
/// models, a recognition language exactly for Whisper models, a file prefix
/// only for Whisper (ONNX), a mel filter count of 64 or 80 for CTC and
/// Transducer models and of 0 for whisper.cpp, and at least one language.
/// A whisper.cpp entry is named `whisper-cpp-<size>` and its link fetches the
/// GGML weights of that very size, stored under its id, with punctuation;
/// every Whisper entry asks for Russian. GigaAM entries (`giga-...`) are
/// Russian-only, use 64 mel filters, are CTC or Transducer as their id says,
/// and punctuate exactly when their id says `punct`; the other CTC and
/// Transducer models use 80 mel filters and do not punctuate.
pub open spec fn consistent_info(info: ModelInfo) -> bool {
    &&& (info.ggml_url is Some) <==> info.kind == ModelKind::WhisperCpp
    &&& (info.whisper_language is Some) <==> (info.kind == ModelKind::Whisper || info.kind
        == ModelKind::WhisperCpp)
    &&& info.whisper_file_prefix is Some ==> info.kind == ModelKind::Whisper
    &&& (info.kind == ModelKind::Ctc || info.kind == ModelKind::Transducer) ==> (info.feature_dim
        == 64 || info.feature_dim == 80)
    &&& info.kind == ModelKind::WhisperCpp ==> info.feature_dim == 0
    &&& info.languages@.len() > 0
    &&& info.kind == ModelKind::WhisperCpp ==> {
        &&& has_prefix(info.id@, "whisper-cpp-"@)
        &&& opt_chars(info.ggml_url) == Some(ggml_url_for(info.id@.skip(12)))
    }
    &&& (info.kind == ModelKind::Whisper || info.kind == ModelKind::WhisperCpp) ==> opt_chars(
        info.whisper_language,
    ) == Some("ru"@)
    &&& info.kind == ModelKind::WhisperCpp ==> info.archive_stem@ == info.id@ && info.punctuation
    &&& has_prefix(info.id@, "giga-ctc-"@) ==> info.kind == ModelKind::Ctc
    &&& has_prefix(info.id@, "giga-transducer-"@) ==> info.kind == ModelKind::Transducer
    &&& has_prefix(info.id@, "giga-"@) ==> {
        &&& info.feature_dim == 64
        &&& strs_view(info.languages@) == seq!["ru"@]
        &&& info.punctuation == (has_prefix(info.id@, "giga-ctc-punct-"@) || has_prefix(
            info.id@,
            "giga-transducer-punct-"@,
        ))
    }
    &&& (info.kind == ModelKind::Ctc || info.kind == ModelKind::Transducer) && !has_prefix(
        info.id@,
        "giga-"@,
    ) ==> info.feature_dim == 80 && !info.punctuation
}

/// Address of the GGML weights of the whisper.cpp model of the given size
/// (`tiny`, `base`, `small`, ...).
pub open spec fn ggml_url_for(size: Seq<char>) -> Seq<char> {
    "https://huggingface.co/ggerganov/whisper.cpp/resolve/main/ggml-"@ + size + ".bin"@
}

/// Id of a catalog entry.
pub open spec fn entry_id(e: ModelEntry) -> Seq<char> {
    match e {
        ModelEntry::Builtin(i) => i.id@,
        ModelEntry::Custom(c) => c.id@,
    }
}

/// Display name of a catalog entry.
pub open spec fn entry_name(e: ModelEntry) -> Seq<char> {
    match e {
        ModelEntry::Builtin(i) => i.name@,
        ModelEntry::Custom(c) => c.name@,
    }
}

/// Kind of a catalog entry.
pub open spec fn entry_kind(e: ModelEntry) -> ModelKind {
    match e {
        ModelEntry::Builtin(i) => i.kind,
        ModelEntry::Custom(c) => c.kind,
    }
}

/// Ids of the full catalog: the built-in ids, then the custom models' ids.
pub open spec fn catalog_ids(custom: Seq<CustomModel>) -> Seq<Seq<char>> {
    builtin_ids() + custom.map_values(|c: CustomModel| c.id@)
}

/// `e` is what the full catalog over `custom` holds at position `k`.
pub open spec fn catalog_slot(e: ModelEntry, custom: Seq<CustomModel>, k: int) -> bool {
    if k < builtin_count() {
        &&& 0 <= k
        &&& e matches ModelEntry::Builtin(info) && builtin_row(info, k)
    } else {
        &&& k < builtin_count() + custom.len()
        &&& e == ModelEntry::Custom(custom[k - builtin_count()])
    }
}

/// Position `k` is the first one of `ids` that holds `id`.
pub open spec fn first_match(ids: Seq<Seq<char>>, id: Seq<char>, k: int) -> bool {
    &&& 0 <= k < ids.len()
    &&& ids[k] == id
    &&& forall|j: int| 0 <= j < k ==> ids[j] != id
}

/// Name of the directory, under the models directory, that holds a model.
pub open spec fn entry_dir_name(e: ModelEntry) -> Seq<char> {
    match e {
        ModelEntry::Builtin(i) => i.archive_stem@,
        ModelEntry::Custom(c) => c.id@,
    }
}

/// File-name prefix of a Whisper (ONNX) model's files.
pub open spec fn entry_whisper_prefix(e: ModelEntry) -> Seq<char> {
    match e {
        ModelEntry::Builtin(i) => match i.whisper_file_prefix {
            Some(p) => p@,
            None => "model"@,
        },
        ModelEntry::Custom(_) => "model"@,
    }
}

/// The files, inside its directory, that a model of `e`'s kind consists of;
/// the model counts as downloaded when all of them exist.
pub open spec fn required_files_of(e: ModelEntry) -> Seq<Seq<char>> {
    match entry_kind(e) {
        ModelKind::Ctc => seq!["model.int8.onnx"@, "tokens.txt"@],
        ModelKind::Transducer => seq![
            "encoder.int8.onnx"@,
            "decoder.onnx"@,
            "joiner.onnx"@,
            "tokens.txt"@,
        ],
        ModelKind::Whisper => {
            let p = entry_whisper_prefix(e);
            seq![p + "-encoder.int8.onnx"@, p + "-decoder.int8.onnx"@, p + "-tokens.txt"@]
        },
        ModelKind::WhisperCpp => seq!["model.bin"@],
    }
}

pub proof fn lemma_slot_id(e: ModelEntry, custom: Seq<CustomModel>, k: int)
    requires
        catalog_slot(e, custom, k),
    ensures
        0 <= k < catalog_ids(custom).len(),
        entry_id(e) == catalog_ids(custom)[k],
{
    if k < builtin_count() {
        reveal_with_fuel(builtin_row, 1);
    }
}

impl ModelEntry {
    /// Id of the entry.
    pub fn id(&self) -> (r: &str)
        ensures
            r@ == entry_id(*self),
    {
        match self {
            ModelEntry::Builtin(i) => i.id,
            ModelEntry::Custom(c) => c.id.as_str(),
        }
    }

    /// Display name of the entry.
    pub fn name(&self) -> (r: &str)
        ensures
            r@ == entry_name(*self),
    {
        match self {
            ModelEntry::Builtin(i) => i.name,
            ModelEntry::Custom(c) => c.name.as_str(),
        }
    }

    /// Kind of the entry.
    pub fn kind(&self) -> (r: ModelKind)
        ensures
            r == entry_kind(*self),
    {
        match self {
            ModelEntry::Builtin(i) => i.kind,
            ModelEntry::Custom(c) => c.kind,
        }
    }
}

/// Base address of the sherpa-onnx model archives.
pub const RELEASE_BASE: &'static str = "https://github.com/k2-fsa/sherpa-onnx/releases/download/asr-models";

/// The built-in catalog, in the order the settings list shows it.
pub fn builtin_catalog() -> (r: Vec<ModelInfo>)
    ensures
        r.len() == builtin_count(),
        forall|i: int| 0 <= i < r.len() ==> builtin_row(#[trigger] r[i], i),
        forall|i: int| 0 <= i < r.len() ==> consistent_info(#[trigger] r[i]),
        forall|i: int, j: int| 0 <= i < j < r.len() ==> r[i].id@ != r[j].id@,
{
    proof {
        reveal_strlit("giga-ctc-v3");
        reveal_strlit("giga-ctc-punct-v3");
        reveal_strlit("giga-transducer-v3");
        reveal_strlit("giga-transducer-punct-v3");
        reveal_strlit("whisper-cpp-base");
        reveal_strlit("whisper-cpp-small");
        reveal_strlit("whisper-cpp-tiny");
        reveal_strlit("whisper-cpp-medium");
        reveal_strlit("nemo-ctc-en-conformer-medium");
        reveal_strlit("fast-conformer-multilingual");
        reveal_strlit("zipformer-ru");
        assert("giga-ctc-v3"@.len() == 11);
        assert("giga-ctc-punct-v3"@.len() == 17);
        assert("giga-transducer-v3"@.len() == 18);
        assert("giga-transducer-punct-v3"@.len() == 24);
        assert("whisper-cpp-base"@.len() == 16);
        assert("whisper-cpp-small"@.len() == 17);
        assert("whisper-cpp-tiny"@.len() == 16);
        assert("whisper-cpp-medium"@.len() == 18);
        assert("nemo-ctc-en-conformer-medium"@.len() == 28);
        assert("fast-conformer-multilingual"@.len() == 27);
        assert("zipformer-ru"@.len() == 12);
        assert("giga-ctc-punct-v3"@[0] == 'g');
        assert("whisper-cpp-small"@[0] == 'w');
        assert("giga-transducer-v3"@[0] == 'g');
        assert("whisper-cpp-medium"@[0] == 'w');
        assert("whisper-cpp-base"@[12] == 'b');
        assert("whisper-cpp-tiny"@[12] == 't');
    }
    let r = vec![
        ModelInfo {
            id: "giga-ctc-v3",
            name: "GigaAM-CTC v3",
            description: "Без знаков препинания. Быстрее всего переключается (лёгкая загрузка).",
            kind: ModelKind::Ctc,
            archive_stem: "sherpa-onnx-nemo-ctc-giga-am-v3-russian-2025-12-16",
            size_mb: 260,
            languages: &["ru"],
            punctuation: false,
            measured_rtf_e4: 850,
            measured_load_ms: 920,
            whisper_file_prefix: None,
            whisper_language: None,
            feature_dim: 64,
            ggml_url: None,
        },
        ModelInfo {
            id: "giga-ctc-punct-v3",
            name: "GigaAM-CTC v3 + пунктуация",
            description: "Сама расставляет точки и запятые. Хороший выбор по умолчанию.",
            kind: ModelKind::Ctc,
            archive_stem: "sherpa-onnx-nemo-ctc-punct-giga-am-v3-russian-2025-12-16",
            size_mb: 260,
            languages: &["ru"],
            punctuation: true,
            measured_rtf_e4: 840,
            measured_load_ms: 935,
            whisper_file_prefix: None,
            whisper_language: None,
            feature_dim: 64,
            ggml_url: None,
        },
        ModelInfo {
            id: "giga-transducer-v3",
            name: "GigaAM-Transducer v3",
            description: "Без пунктуации. Дольше загружается при переключении (3 onnx-сессии).",
            kind: ModelKind::Transducer,
            archive_stem: "sherpa-onnx-nemo-transducer-giga-am-v3-russian-2025-12-16",
            size_mb: 280,
            languages: &["ru"],
            punctuation: false,
            measured_rtf_e4: 860,
            measured_load_ms: 2300,
            whisper_file_prefix: None,
            whisper_language: None,
            feature_dim: 64,
            ggml_url: None,
        },
        ModelInfo {
            id: "giga-transducer-punct-v3",
            name: "GigaAM-Transducer v3 + пунктуация",
            description: "С пунктуацией. Дольше загружается при переключении (3 onnx-сессии).",
            kind: ModelKind::Transducer,
            archive_stem: "sherpa-onnx-nemo-transducer-punct-giga-am-v3-russian-2025-12-16",
            size_mb: 280,
            languages: &["ru"],
            punctuation: true,
            measured_rtf_e4: 820,
            measured_load_ms: 1990,
            whisper_file_prefix: None,
            whisper_language: None,
            feature_dim: 64,
            ggml_url: None,
        },
        ModelInfo {
            id: "whisper-cpp-base",
            name: "Whisper base (whisper.cpp)",
            description: "Многоязычная модель OpenAI через whisper.cpp — GPU-ускорение (Metal на macOS), как в Handy. На русском чаще ошибается в деталях, чем GigaAM, но одна модель понимает ~99 языков.",
            kind: ModelKind::WhisperCpp,
            archive_stem: "whisper-cpp-base",
            size_mb: 148,
            languages: &["ru", "en", "+97 других"],
            punctuation: true,
            measured_rtf_e4: 157,
            measured_load_ms: 5941,
            whisper_file_prefix: None,
            whisper_language: Some("ru"),
            feature_dim: 0,
            ggml_url: Some("https://huggingface.co/ggerganov/whisper.cpp/resolve/main/ggml-base.bin"),
        },
        ModelInfo {
            id: "whisper-cpp-small",
            name: "Whisper small (whisper.cpp)",
            description: "Та же модель через whisper.cpp, крупнее и точнее base на русском — с GPU-ускорением ощутимо быстрее, чем ONNX-вариант такого же размера.",
            kind: ModelKind::WhisperCpp,
            archive_stem: "whisper-cpp-small",
            size_mb: 488,
            languages: &["ru", "en", "+97 других"],
            punctuation: true,
            measured_rtf_e4: 428,
            measured_load_ms: 166,
            whisper_file_prefix: None,
            whisper_language: Some("ru"),
            feature_dim: 0,
            ggml_url: Some("https://huggingface.co/ggerganov/whisper.cpp/resolve/main/ggml-small.bin"),
        },
        ModelInfo {
            id: "whisper-cpp-tiny",
            name: "Whisper tiny (whisper.cpp)",
            description: "Самая маленькая и быстрая модель Whisper — для слабых машин или когда важнее скорость, чем точность. Заметно чаще ошибается на русском, чем base/small.",
            kind: ModelKind::WhisperCpp,
            archive_stem: "whisper-cpp-tiny",
            size_mb: 74,
            languages: &["ru", "en", "+97 других"],
            punctuation: true,
            measured_rtf_e4: 99,
            measured_load_ms: 88,
            whisper_file_prefix: None,
            whisper_language: Some("ru"),
            feature_dim: 0,
            ggml_url: Some("https://huggingface.co/ggerganov/whisper.cpp/resolve/main/ggml-tiny.bin"),
        },
        ModelInfo {
            id: "whisper-cpp-medium",
            name: "Whisper medium (whisper.cpp)",
            description: "Крупнее small, заметно точнее на сложной речи и акцентах — но и тяжелее по памяти/загрузке. Разумный выбор, когда точность важнее скорости переключения.",
            kind: ModelKind::WhisperCpp,
            archive_stem: "whisper-cpp-medium",
            size_mb: 1533,
            languages: &["ru", "en", "+97 других"],
            punctuation: true,
            measured_rtf_e4: 889,
            measured_load_ms: 667,
            whisper_file_prefix: None,
            whisper_language: Some("ru"),
            feature_dim: 0,
            ggml_url: Some("https://huggingface.co/ggerganov/whisper.cpp/resolve/main/ggml-medium.bin"),
        },
        ModelInfo {
            id: "nemo-ctc-en-conformer-medium",
            name: "NeMo Conformer-CTC medium (English)",
            description: "Официальная модель NVIDIA NeMo (stt_en_conformer_ctc_medium) для английского — без пунктуации, но точная и стабильная на чистой речи.",
            kind: ModelKind::Ctc,
            archive_stem: "sherpa-onnx-nemo-ctc-en-conformer-medium",
            size_mb: 158,
            languages: &["en"],
            punctuation: false,
            measured_rtf_e4: 268,
            measured_load_ms: 628,
            whisper_file_prefix: None,
            whisper_language: None,
            feature_dim: 80,
            ggml_url: None,
        },
        ModelInfo {
            id: "fast-conformer-multilingual",
            name: "Fast Conformer (10 языков Европы)",
            description: "Одна модель на белорусский, немецкий, английский, испанский, французский, хорватский, итальянский, польский, русский и украинский — быстрее GigaAM.",
            kind: ModelKind::Ctc,
            archive_stem: "sherpa-onnx-nemo-fast-conformer-ctc-be-de-en-es-fr-hr-it-pl-ru-uk-20k-int8",
            size_mb: 130,
            languages: &["be", "de", "en", "es", "fr", "hr", "it", "pl", "ru", "uk"],
            punctuation: false,
            measured_rtf_e4: 270,
            measured_load_ms: 700,
            whisper_file_prefix: None,
            whisper_language: None,
            feature_dim: 80,
            ggml_url: None,
        },
        ModelInfo {
            id: "zipformer-ru",
            name: "Zipformer RU (Vosk)",
            description: "Ещё одна модель только на русском (архитектура Zipformer, экспорт проекта Vosk/alphacep) — не от Sber, самая быстрая в каталоге.",
            kind: ModelKind::Transducer,
            archive_stem: "sherpa-onnx-zipformer-ru-int8-2025-04-20",
            size_mb: 84,
            languages: &["ru"],
            punctuation: false,
            measured_rtf_e4: 130,
            measured_load_ms: 1725,
            whisper_file_prefix: None,
            whisper_language: None,
            feature_dim: 80,
            ggml_url: None,
        },
    ];
    proof {
        assert(strs_view(r[0].languages@) =~= seq!["ru"@]);
        assert(strs_view(r[1].languages@) =~= seq!["ru"@]);
        assert(strs_view(r[2].languages@) =~= seq!["ru"@]);
        assert(strs_view(r[3].languages@) =~= seq!["ru"@]);
        assert(strs_view(r[4].languages@) =~= seq!["ru"@, "en"@, "+97 других"@]);
        assert(strs_view(r[5].languages@) =~= seq!["ru"@, "en"@, "+97 других"@]);
        assert(strs_view(r[6].languages@) =~= seq!["ru"@, "en"@, "+97 других"@]);
        assert(strs_view(r[7].languages@) =~= seq!["ru"@, "en"@, "+97 других"@]);
        assert(strs_view(r[8].languages@) =~= seq!["en"@]);
        assert(strs_view(r[9].languages@) =~= seq!["be"@, "de"@, "en"@, "es"@, "fr"@, "hr"@, "it"@, "pl"@, "ru"@, "uk"@]);
        assert(strs_view(r[10].languages@) =~= seq!["ru"@]);
    }
    proof {
        reveal_strlit("whisper-cpp-");
        reveal_strlit("ru");
        reveal_strlit("https://huggingface.co/ggerganov/whisper.cpp/resolve/main/ggml-");
        reveal_strlit(".bin");
        reveal_strlit("whisper-cpp-base");
        reveal_strlit("https://huggingface.co/ggerganov/whisper.cpp/resolve/main/ggml-base.bin");
        assert("whisper-cpp-base"@.take(12) =~= "whisper-cpp-"@);
        assert("https://huggingface.co/ggerganov/whisper.cpp/resolve/main/ggml-base.bin"@ =~= ggml_url_for("whisper-cpp-base"@.skip(12)));
        assert(r[4].whisper_language.unwrap()@ =~= "ru"@);
        reveal_strlit("whisper-cpp-small");
        reveal_strlit("https://huggingface.co/ggerganov/whisper.cpp/resolve/main/ggml-small.bin");
        assert("whisper-cpp-small"@.take(12) =~= "whisper-cpp-"@);
        assert("https://huggingface.co/ggerganov/whisper.cpp/resolve/main/ggml-small.bin"@ =~= ggml_url_for("whisper-cpp-small"@.skip(12)));
        assert(r[5].whisper_language.unwrap()@ =~= "ru"@);
        reveal_strlit("whisper-cpp-tiny");
        reveal_strlit("https://huggingface.co/ggerganov/whisper.cpp/resolve/main/ggml-tiny.bin");
        assert("whisper-cpp-tiny"@.take(12) =~= "whisper-cpp-"@);
        assert("https://huggingface.co/ggerganov/whisper.cpp/resolve/main/ggml-tiny.bin"@ =~= ggml_url_for("whisper-cpp-tiny"@.skip(12)));
        assert(r[6].whisper_language.unwrap()@ =~= "ru"@);
        reveal_strlit("whisper-cpp-medium");
        reveal_strlit("https://huggingface.co/ggerganov/whisper.cpp/resolve/main/ggml-medium.bin");
        assert("whisper-cpp-medium"@.take(12) =~= "whisper-cpp-"@);
        assert("https://huggingface.co/ggerganov/whisper.cpp/resolve/main/ggml-medium.bin"@ =~= ggml_url_for("whisper-cpp-medium"@.skip(12)));
        assert(r[7].whisper_language.unwrap()@ =~= "ru"@);
        reveal_strlit("giga-");
        reveal_strlit("giga-ctc-");
        reveal_strlit("giga-transducer-");
        reveal_strlit("giga-ctc-punct-");
        reveal_strlit("giga-transducer-punct-");
        assert("giga-ctc-v3"@.take(5) =~= "giga-"@);
        assert("giga-ctc-v3"@.take(9) =~= "giga-ctc-"@);
        assert("giga-ctc-punct-v3"@.take(5) =~= "giga-"@);
        assert("giga-ctc-punct-v3"@.take(9) =~= "giga-ctc-"@);
        assert("giga-ctc-punct-v3"@[5] != "giga-transducer-"@[5]);
        assert("giga-ctc-punct-v3"@.take(15) =~= "giga-ctc-punct-"@);
        assert("giga-transducer-v3"@.take(5) =~= "giga-"@);
        assert("giga-transducer-v3"@[5] != "giga-ctc-"@[5]);
        assert("giga-transducer-v3"@.take(16) =~= "giga-transducer-"@);
        assert("giga-transducer-v3"@[5] != "giga-ctc-punct-"@[5]);
        assert("giga-transducer-punct-v3"@.take(5) =~= "giga-"@);
        assert("giga-transducer-punct-v3"@[5] != "giga-ctc-"@[5]);
        assert("giga-transducer-punct-v3"@.take(16) =~= "giga-transducer-"@);
        assert("giga-transducer-punct-v3"@[5] != "giga-ctc-punct-"@[5]);
        assert("giga-transducer-punct-v3"@.take(22) =~= "giga-transducer-punct-"@);
        assert("whisper-cpp-base"@[0] != "giga-"@[0]);
        assert("whisper-cpp-base"@[0] != "giga-ctc-"@[0]);
        assert("whisper-cpp-base"@[0] != "giga-transducer-"@[0]);
        assert("whisper-cpp-base"@[0] != "giga-ctc-punct-"@[0]);
        assert("whisper-cpp-small"@[0] != "giga-"@[0]);
        assert("whisper-cpp-small"@[0] != "giga-ctc-"@[0]);
        assert("whisper-cpp-small"@[0] != "giga-transducer-"@[0]);
        assert("whisper-cpp-small"@[0] != "giga-ctc-punct-"@[0]);
        assert("whisper-cpp-tiny"@[0] != "giga-"@[0]);
        assert("whisper-cpp-tiny"@[0] != "giga-ctc-"@[0]);
        assert("whisper-cpp-tiny"@[0] != "giga-transducer-"@[0]);
        assert("whisper-cpp-tiny"@[0] != "giga-ctc-punct-"@[0]);
        assert("whisper-cpp-medium"@[0] != "giga-"@[0]);
        assert("whisper-cpp-medium"@[0] != "giga-ctc-"@[0]);
        assert("whisper-cpp-medium"@[0] != "giga-transducer-"@[0]);
        assert("whisper-cpp-medium"@[0] != "giga-ctc-punct-"@[0]);
        assert("nemo-ctc-en-conformer-medium"@[0] != "giga-"@[0]);
        assert("nemo-ctc-en-conformer-medium"@[0] != "giga-ctc-"@[0]);
        assert("nemo-ctc-en-conformer-medium"@[0] != "giga-transducer-"@[0]);
        assert("nemo-ctc-en-conformer-medium"@[0] != "giga-ctc-punct-"@[0]);
        assert("nemo-ctc-en-conformer-medium"@[0] != "giga-transducer-punct-"@[0]);
        assert("fast-conformer-multilingual"@[0] != "giga-"@[0]);
        assert("fast-conformer-multilingual"@[0] != "giga-ctc-"@[0]);
        assert("fast-conformer-multilingual"@[0] != "giga-transducer-"@[0]);
        assert("fast-conformer-multilingual"@[0] != "giga-ctc-punct-"@[0]);
        assert("fast-conformer-multilingual"@[0] != "giga-transducer-punct-"@[0]);
        assert("zipformer-ru"@[0] != "giga-"@[0]);
        assert("zipformer-ru"@[0] != "giga-ctc-"@[0]);
    }
    r
}

/// The full catalog: the built-in models, then the user's custom models.
pub fn full_catalog(custom: &[CustomModel]) -> (r: Vec<ModelEntry>)
    ensures
        r.len() == builtin_count() + custom@.len(),
        forall|k: int| 0 <= k < r.len() ==> catalog_slot(#[trigger] r[k], custom@, k),
{
    let b = builtin_catalog();
    let mut v: Vec<ModelEntry> = Vec::new();
    let nb = b.len();
    for i in 0..nb
        invariant
            nb == b.len(),
            nb == builtin_count(),
            forall|k: int| 0 <= k < nb ==> builtin_row(#[trigger] b[k], k),
            v.len() == i,
            forall|k: int| 0 <= k < v.len() ==> catalog_slot(#[trigger] v[k], custom@, k),
    {
        v.push(ModelEntry::Builtin(b[i]));
    }
    let nc = custom.len();
    for j in 0..nc
        invariant
            nc == custom@.len(),
            v.len() == builtin_count() + j,
            forall|k: int| 0 <= k < v.len() ==> catalog_slot(#[trigger] v[k], custom@, k),
    {
        v.push(ModelEntry::Custom(custom[j].clone()));
    }
    v
}

/// The first entry of the full catalog whose id is `id`, if there is one.
/// Built-in models come first, so a custom model never shadows one of them.
pub fn find(id: &str, custom: &[CustomModel]) -> (r: Option<ModelEntry>)
    ensures
        r is Some <==> catalog_ids(custom@).contains(id@),
        r matches Some(e) ==> exists|k: int|
            first_match(catalog_ids(custom@), id@, k) && #[trigger] catalog_slot(e, custom@, k),
{
    let cat = full_catalog(custom);
    let ghost ids = catalog_ids(custom@);
    let mut i: usize = 0;
    while i < cat.len()
        invariant
            cat.len() == builtin_count() + custom@.len(),
            ids == catalog_ids(custom@),
            ids.len() == cat.len(),
            forall|k: int| 0 <= k < cat.len() ==> catalog_slot(#[trigger] cat[k], custom@, k),
            i <= cat.len(),
            forall|j: int| 0 <= j < i ==> ids[j] != id@,
        decreases cat.len() - i,
    {
        proof {
            lemma_slot_id(cat[i as int], custom@, i as int);
        }
        if str_eq(cat[i].id(), id) {
            let e = cat[i].clone();
            assert(first_match(ids, id@, i as int));
            assert(ids[i as int] == id@);
            return Some(e);
        }
        i = i + 1;
    }
    proof {
        if ids.contains(id@) {
            let k = choose|k: int| 0 <= k < ids.len() && ids[k] == id@;
            assert(ids[k] != id@);
        }
    }
    None
}

/// Name of the directory, under the models directory, that holds the model.
pub fn model_dir_name(entry: &ModelEntry) -> (r: &str)
    ensures
        r@ == entry_dir_name(*entry),
{
    match entry {
        ModelEntry::Builtin(info) => info.archive_stem,
        ModelEntry::Custom(c) => c.id.as_str(),
    }
}

/// File-name prefix of a Whisper (ONNX) model's files.
pub fn whisper_prefix(entry: &ModelEntry) -> (r: &str)
    ensures
        r@ == entry_whisper_prefix(*entry),
{
    match entry {
        ModelEntry::Builtin(info) => match info.whisper_file_prefix {
            Some(p) => p,
            None => "model",
        },
        ModelEntry::Custom(_) => "model",
    }
}

/// `a` followed by `b`.
pub fn joined(a: &str, b: &str) -> (r: String)
    ensures
        r@ == a@ + b@,
{
    let s = String::from_str(a);
    s.concat(b)
}

/// The files, inside its directory, that the model consists of: the model is
/// downloaded when each of them exists there.
pub fn required_files(entry: &ModelEntry) -> (r: Vec<String>)
    ensures
        strings_view(r@) == required_files_of(*entry),
{
    let r = match entry.kind() {
        ModelKind::Ctc => vec![String::from_str("model.int8.onnx"), String::from_str("tokens.txt")],
        ModelKind::Transducer => vec![
            String::from_str("encoder.int8.onnx"),
            String::from_str("decoder.onnx"),
            String::from_str("joiner.onnx"),
            String::from_str("tokens.txt"),
        ],
        ModelKind::Whisper => {
            let p = whisper_prefix(entry);
            vec![
                joined(p, "-encoder.int8.onnx"),
                joined(p, "-decoder.int8.onnx"),
                joined(p, "-tokens.txt"),
            ]
        },
        ModelKind::WhisperCpp => vec![String::from_str("model.bin")],
    };
    assert(strings_view(r@) =~= required_files_of(*entry));
    r
}

/// Address of a built-in model's `.tar.bz2` archive.
pub open spec fn archive_url_of(info: ModelInfo) -> Seq<char> {
    RELEASE_BASE@ + "/"@ + info.archive_stem@ + ".tar.bz2"@
}

/// Address of a built-in model's `.tar.bz2` archive.
pub fn download_url(info: &ModelInfo) -> (r: String)
    ensures
        r@ == archive_url_of(*info),
{
    let s = String::from_str(RELEASE_BASE);
    let s = s.concat("/");
    let s = s.concat(info.archive_stem);
    s.concat(".tar.bz2")
}

/// One file to fetch: its address and the name to store it under.
#[derive(Debug)]
pub struct FileDownload {
    pub url: String,
    pub file_name: String,
}

/// How to bring a model onto the disk, below the models directory.
#[derive(Debug)]
pub enum DownloadPlan {
    /// A whisper.cpp model: one file, stored as `file.file_name` in directory `dir_name`.
    SingleFile { dir_name: String, file: FileDownload },
    /// A built-in sherpa-onnx model: an archive fetched to `part_file` in the
    /// models directory and unpacked there into directory `dir_name`; then
    /// the files `remove_after_unpack` of that directory are deleted, and,
    /// where `fix_joiner_name` holds, a quantised joiner is renamed to the
    /// name the loader expects.
    Archive {
        url: String,
        part_file: String,
        dir_name: String,
        remove_after_unpack: Vec<String>,
        fix_joiner_name: bool,
    },
    /// A custom model: each file fetched into directory `dir_name`.
    Files { dir_name: String, files: Vec<FileDownload> },
}

/// Address of a file in a Hugging Face repository.
pub open spec fn hf_file_url(repo_id: Seq<char>, file: Seq<char>) -> Seq<char> {
    "https://huggingface.co/"@ + repo_id + "/resolve/main/"@ + file
}

/// Address of a file in a Hugging Face repository.
pub fn hf_resolve_url(repo_id: &str, file: &str) -> (r: String)
    ensures
        r@ == hf_file_url(repo_id@, file@),
{
    let s = String::from_str("https://huggingface.co/");
    let s = s.concat(repo_id);
    let s = s.concat("/resolve/main/");
    s.concat(file)
}

/// `d` fetches `url` into a file named `name`.
pub open spec fn fetches(d: FileDownload, url: Seq<char>, name: Seq<char>) -> bool {
    d.url@ == url && d.file_name@ == name
}

/// The (address, stored name) pairs that a custom model's download fetches.
pub open spec fn custom_fetches(c: CustomModel) -> Seq<(Seq<char>, Seq<char>)> {
    match c.files {
        CustomFiles::Ctc { model, tokens } => seq![
            (hf_file_url(c.repo_id@, model@), "model.int8.onnx"@),
            (hf_file_url(c.repo_id@, tokens@), "tokens.txt"@),
        ],
        CustomFiles::Transducer { encoder, decoder, joiner, tokens } => seq![
            (hf_file_url(c.repo_id@, encoder@), "encoder.int8.onnx"@),
            (hf_file_url(c.repo_id@, decoder@), "decoder.onnx"@),
            (hf_file_url(c.repo_id@, joiner@), "joiner.onnx"@),
            (hf_file_url(c.repo_id@, tokens@), "tokens.txt"@),
        ],
    }
}

/// The files that an archive of a model of `info` leaves behind unused: the
/// fp32 encoder and decoder of a Whisper (ONNX) model with a file prefix.
pub open spec fn unused_archive_files(info: ModelInfo) -> Seq<Seq<char>> {
    if info.kind == ModelKind::Whisper && info.whisper_file_prefix is Some {
        let p = info.whisper_file_prefix->0@;
        seq![p + "-encoder.onnx"@, p + "-decoder.onnx"@]
    } else {
        seq![]
    }
}

/// `p` is the download plan of `e`.
pub open spec fn is_download_plan(p: DownloadPlan, e: ModelEntry) -> bool {
    match e {
        ModelEntry::Builtin(info) => if info.kind == ModelKind::WhisperCpp {
            p matches DownloadPlan::SingleFile { dir_name, file } && {
                &&& dir_name@ == info.archive_stem@
                &&& info.ggml_url matches Some(u) && fetches(file, u@, "model.bin"@)
            }
        } else {
            p matches DownloadPlan::Archive { url, part_file, dir_name, remove_after_unpack, fix_joiner_name } && {
                &&& url@ == archive_url_of(info)
                &&& part_file@ == info.id@ + ".tar.bz2.part"@
                &&& dir_name@ == info.archive_stem@
                &&& strings_view(remove_after_unpack@) == unused_archive_files(info)
                &&& fix_joiner_name == (info.kind == ModelKind::Transducer)
            }
        },
        ModelEntry::Custom(c) => p matches DownloadPlan::Files { dir_name, files } && {
            &&& dir_name@ == c.id@
            &&& files@.len() == custom_fetches(c).len()
            &&& forall|i: int| 0 <= i < files@.len() ==> fetches(#[trigger] files@[i], custom_fetches(c)[i].0, custom_fetches(c)[i].1)
        },
    }
}

/// The plan for downloading `entry`: a GGML file for whisper.cpp models, an
/// archive for the other built-in models, the separate files of a custom
/// model. Fails exactly for a whisper.cpp entry without a GGML link.
pub fn download_plan(entry: &ModelEntry) -> (r: Result<DownloadPlan, ModelError>)
    ensures
        r matches Err(err) ==> err == ModelError::MissingGgmlUrl,
        r is Err <==> (entry matches ModelEntry::Builtin(info) && info.kind == ModelKind::WhisperCpp
            && info.ggml_url is None),
        r matches Ok(p) ==> is_download_plan(p, *entry),
{
    match entry {
        ModelEntry::Builtin(info) => {
            if info.kind == ModelKind::WhisperCpp {
                match info.ggml_url {
                    Some(u) => Ok(DownloadPlan::SingleFile {
                        dir_name: String::from_str(info.archive_stem),
                        file: FileDownload { url: String::from_str(u), file_name: String::from_str("model.bin") },
                    }),
                    None => Err(ModelError::MissingGgmlUrl),
                }
            } else {
                let mut remove: Vec<String> = Vec::new();
                if info.kind == ModelKind::Whisper {
                    if let Some(p) = info.whisper_file_prefix {
                        remove.push(joined(p, "-encoder.onnx"));
                        remove.push(joined(p, "-decoder.onnx"));
                    }
                }
                assert(strings_view(remove@) =~= unused_archive_files(*info));
                Ok(DownloadPlan::Archive {
                    url: download_url(info),
                    part_file: joined(info.id, ".tar.bz2.part"),
                    dir_name: String::from_str(info.archive_stem),
                    remove_after_unpack: remove,
                    fix_joiner_name: info.kind == ModelKind::Transducer,
                })
            }
        },
        ModelEntry::Custom(c) => {
            let repo = c.repo_id.as_str();
            let files = match &c.files {
                CustomFiles::Ctc { model, tokens } => vec![
                    FileDownload { url: hf_resolve_url(repo, model.as_str()), file_name: String::from_str("model.int8.onnx") },
                    FileDownload { url: hf_resolve_url(repo, tokens.as_str()), file_name: String::from_str("tokens.txt") },
                ],
                CustomFiles::Transducer { encoder, decoder, joiner, tokens } => vec![
                    FileDownload { url: hf_resolve_url(repo, encoder.as_str()), file_name: String::from_str("encoder.int8.onnx") },
                    FileDownload { url: hf_resolve_url(repo, decoder.as_str()), file_name: String::from_str("decoder.onnx") },
                    FileDownload { url: hf_resolve_url(repo, joiner.as_str()), file_name: String::from_str("joiner.onnx") },
                    FileDownload { url: hf_resolve_url(repo, tokens.as_str()), file_name: String::from_str("tokens.txt") },
                ],
            };
            Ok(DownloadPlan::Files { dir_name: String::from_str(c.id.as_str()), files })
        },
    }
}

/// Whether, after unpacking an archive whose plan asks to fix the joiner's
/// name, the quantised `joiner.int8.onnx` is to be renamed to `joiner.onnx`:
/// when the latter is missing and the former exists.
pub fn joiner_rename_needed(fix_joiner_name: bool, joiner_exists: bool, joiner_int8_exists: bool) -> (r: bool)
    ensures
        r == (fix_joiner_name && !joiner_exists && joiner_int8_exists),
{
    fix_joiner_name && !joiner_exists && joiner_int8_exists
}

/// Whether a repository file is one of a sherpa-onnx model's parts.
pub open spec fn is_model_file(name: Seq<char>) -> bool {
    has_suffix(name, ".onnx"@) || has_suffix(name, ".txt"@)
}

/// The file names, in order, among `names` that are model parts; an entry
/// without a file name is passed over.
pub open spec fn model_files_of(names: Seq<Option<String>>) -> Seq<Seq<char>>
    decreases names.len(),
{
    if names.len() == 0 {
        seq![]
    } else {
        let rest = model_files_of(names.drop_last());
        match names.last() {
            Some(f) => if is_model_file(f@) {
                rest.push(f@)
            } else {
                rest
            },
            None => rest,
        }
    }
}

/// The `.onnx` and `.txt` files of a Hugging Face repository, from the
/// `rfilename` of each entry of its file list (`None` where an entry has
/// none); `siblings` is `None` where the listing has no file list. Fails
/// when no such file is found.
pub fn select_model_files(siblings: Option<Vec<Option<String>>>) -> (r: Result<Vec<String>, ModelError>)
    ensures
        ({
            let found = match siblings {
                Some(v) => model_files_of(v@),
                None => seq![],
            };
            &&& r matches Ok(files) ==> strings_view(files@) == found && found.len() > 0
            &&& r is Err <==> found.len() == 0
            &&& r matches Err(e) ==> e == ModelError::NoModelFiles
        }),
        forall|i: int|
            0 <= i < listed(siblings).len() && (#[trigger] listed(siblings)[i]) is Some && (has_suffix(
                listed(siblings)[i]->0@,
                ".onnx"@,
            ) || has_suffix(listed(siblings)[i]->0@, ".txt"@)) ==> (r matches Ok(files)
                && strings_view(files@).contains(listed(siblings)[i]->0@)),
        r matches Ok(files) ==> forall|j: int|
            0 <= j < files@.len() ==> has_suffix((#[trigger] files@[j])@, ".onnx"@) || has_suffix(
                files@[j]@,
                ".txt"@,
            ),
{
    let names = match siblings {
        Some(v) => v,
        None => Vec::new(),
    };
    let ghost all = names@;
    let mut out: Vec<String> = Vec::new();
    let n = names.len();
    for i in 0..n
        invariant
            n == names@.len(),
            all == names@,
            strings_view(out@) == model_files_of(all.take(i as int)),
    {
        proof {
            assert(all.take(i + 1).drop_last() =~= all.take(i as int));
        }
        match &names[i] {
            Some(f) => {
                if ends_with(f.as_str(), ".onnx") || ends_with(f.as_str(), ".txt") {
                    out.push(f.clone());
                    assert(strings_view(out@) =~= strings_view(out@.drop_last()).push(f@));
                }
            },
            None => {},
        }
    }
    proof {
        assert(all.take(n as int) =~= all);
        if siblings is None {
            assert(all =~= Seq::<Option<String>>::empty());
        }
    }
    proof {
        let found = strings_view(out@);
        assert(listed(siblings) == all);
        assert forall|i: int|
            0 <= i < all.len() && (#[trigger] all[i]) is Some && (has_suffix(all[i]->0@, ".onnx"@)
                || has_suffix(all[i]->0@, ".txt"@)) implies found.contains(all[i]->0@) by {
            lemma_model_files_listed(all, i);
        }
        lemma_model_files_are_model_files(all);
        assert forall|j: int| 0 <= j < out@.len() implies has_suffix((#[trigger] out@[j])@, ".onnx"@)
            || has_suffix(out@[j]@, ".txt"@) by {
            assert(found[j] == out@[j]@);
        }
    }
    if out.len() == 0 {
        Err(ModelError::NoModelFiles)
    } else {
        Ok(out)
    }
}

/// The entries of a repository's file listing.
pub open spec fn listed(siblings: Option<Vec<Option<String>>>) -> Seq<Option<String>> {
    match siblings {
        Some(v) => v@,
        None => seq![],
    }
}

/// Every listed `.onnx` or `.txt` file is among the model files of a listing.
pub proof fn lemma_model_files_listed(names: Seq<Option<String>>, i: int)
    requires
        0 <= i < names.len(),
        names[i] is Some,
        has_suffix(names[i]->0@, ".onnx"@) || has_suffix(names[i]->0@, ".txt"@),
    ensures
        model_files_of(names).contains(names[i]->0@),
    decreases names.len(),
{
    let rest = names.drop_last();
    if i < names.len() - 1 {
        assert(rest[i] == names[i]);
        lemma_model_files_listed(rest, i);
        let k = choose|k: int| 0 <= k < model_files_of(rest).len() && model_files_of(rest)[k]
            == names[i]->0@;
        assert(model_files_of(names)[k] == names[i]->0@);
    } else {
        assert(model_files_of(names).last() == names[i]->0@);
    }
}

/// Each model file of a listing ends with `.onnx` or `.txt`.
pub proof fn lemma_model_files_are_model_files(names: Seq<Option<String>>)
    ensures
        forall|j: int|
            0 <= j < model_files_of(names).len() ==> has_suffix(#[trigger] model_files_of(names)[j], ".onnx"@)
                || has_suffix(model_files_of(names)[j], ".txt"@),
    decreases names.len(),
{
    if names.len() > 0 {
        let rest = model_files_of(names.drop_last());
        lemma_model_files_are_model_files(names.drop_last());
        let all = model_files_of(names);
        assert forall|j: int| 0 <= j < all.len() implies has_suffix(#[trigger] all[j], ".onnx"@)
            || has_suffix(all[j], ".txt"@) by {
            if j < rest.len() {
                assert(all[j] == rest[j]);
            }
        }
    }
}

/// A built-in whisper.cpp model is downloaded from the GGML weights of its
/// own size, named after its id `whisper-cpp-<size>`, into `model.bin`.
pub proof fn lemma_ggml_download_of_own_size(info: ModelInfo, p: DownloadPlan)
    requires
        consistent_info(info),
        info.kind == ModelKind::WhisperCpp,
        is_download_plan(p, ModelEntry::Builtin(info)),
    ensures
        p matches DownloadPlan::SingleFile { dir_name, file } && file.url@ == ggml_url_for(
            info.id@.skip(12),
        ) && file.file_name@ == "model.bin"@ && dir_name@ == info.archive_stem@,
{
}

/// Directory, below the models directory, that a download fills.
pub open spec fn download_dir(p: DownloadPlan) -> Seq<char> {
    match p {
        DownloadPlan::SingleFile { dir_name, .. } => dir_name@,
        DownloadPlan::Archive { dir_name, .. } => dir_name@,
        DownloadPlan::Files { dir_name, .. } => dir_name@,
    }
}

/// Names under which a download stores the files it fetches one by one;
/// `None` for an archive, whose contents the archive decides.
pub open spec fn fetched_names(p: DownloadPlan) -> Option<Seq<Seq<char>>> {
    match p {
        DownloadPlan::SingleFile { file, .. } => Some(seq![file.file_name@]),
        DownloadPlan::Files { files, .. } => Some(files@.map_values(|f: FileDownload| f.file_name@)),
        DownloadPlan::Archive { .. } => None,
    }
}

/// The custom model's file list is of the same architecture as its kind.
pub open spec fn files_match_kind(c: CustomModel) -> bool {
    ||| c.files is Ctc && c.kind == ModelKind::Ctc
    ||| c.files is Transducer && c.kind == ModelKind::Transducer
}

/// A download fills the directory in which the model is looked up, and a
/// download of single files stores exactly the files whose presence marks
/// the model as downloaded (for a custom model, when its file list is of its
/// kind).
pub proof fn lemma_download_stores_required_files(e: ModelEntry, p: DownloadPlan)
    requires
        is_download_plan(p, e),
        e matches ModelEntry::Custom(c) ==> files_match_kind(c),
    ensures
        download_dir(p) == entry_dir_name(e),
        fetched_names(p) matches Some(names) ==> names == required_files_of(e),
{
    match p {
        DownloadPlan::Files { files, .. } => {
            let names = files@.map_values(|f: FileDownload| f.file_name@);
            if let ModelEntry::Custom(c) = e {
                let want = custom_fetches(c);
                assert forall|i: int| 0 <= i < names.len() implies names[i] == want[i].1 by {
                    assert(fetches(files@[i], want[i].0, want[i].1));
                }
                assert(names =~= required_files_of(e));
            }
        },
        DownloadPlan::SingleFile { file, .. } => {
            assert(seq![file.file_name@] =~= required_files_of(e));
        },
        _ => {},
    }
}

} // verus!
