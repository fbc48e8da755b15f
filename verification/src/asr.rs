//! What the speech recogniser loads: for each catalog entry, the engine and
//! the model files (relative to the model's directory) with their settings;
//! and how whisper.cpp's text segments make up one transcript.
use vstd::prelude::*;
use crate::models::{
    consistent_info,
    entry_whisper_prefix, joined, required_files_of, strings_view, whisper_prefix, ModelEntry,
    ModelInfo, ModelKind,
};
use crate::text::{trim, trimmed};

verus! {

broadcast use vstd::string::group_string_axioms;

/// Paths of a CTC model's files.
pub struct CtcPaths<'a> {
    pub model: &'a str,
    pub tokens: &'a str,
}

/// Paths of a Transducer model's files.
pub struct TransducerPaths<'a> {
    pub encoder: &'a str,
    pub decoder: &'a str,
    pub joiner: &'a str,
    pub tokens: &'a str,
}

/// Paths of a Whisper (ONNX) model's files.
pub struct WhisperPaths<'a> {
    pub encoder: &'a str,
    pub decoder: &'a str,
    pub tokens: &'a str,
}

/// Which engine to build and from which files of the model's directory.
#[derive(Debug)]
pub enum LoadPlan {
    /// sherpa-onnx NeMo CTC model.
    Ctc { model: String, tokens: String, feature_dim: i32 },
    /// sherpa-onnx Transducer model.
    Transducer { encoder: String, decoder: String, joiner: String, tokens: String, feature_dim: i32 },
    /// Whisper through sherpa-onnx; it always runs with 80 mel filters.
    Whisper { encoder: String, decoder: String, tokens: String, language: String },
    /// Whisper through whisper.cpp.
    WhisperCpp { model: String, language: String },
}

/// Why no recogniser can be built.
#[derive(Debug, Clone, Copy, PartialEq, Eq, Structural)]
pub enum AsrError {
    /// Whisper models are loaded from a catalog entry, not from a bare directory.
    WhisperNeedsEntry,
}

impl AsrError {
    /// The message shown to the user.
    pub fn message(&self) -> (r: &'static str)
        ensures
            r@ == "для Whisper используйте Recognizer::from_entry"@,
    {
        match self {
            AsrError::WhisperNeedsEntry => "для Whisper используйте Recognizer::from_entry",
        }
    }
}

/// The files, relative to the model's directory, that `p` loads.
pub open spec fn plan_files(p: LoadPlan) -> Seq<Seq<char>> {
    match p {
        LoadPlan::Ctc { model, tokens, .. } => seq![model@, tokens@],
        LoadPlan::Transducer { encoder, decoder, joiner, tokens, .. } => seq![
            encoder@,
            decoder@,
            joiner@,
            tokens@,
        ],
        LoadPlan::Whisper { encoder, decoder, tokens, .. } => seq![encoder@, decoder@, tokens@],
        LoadPlan::WhisperCpp { model, .. } => seq![model@],
    }
}

/// `p` loads a model of `kind` from a directory with the standard file
/// names, with `feature_dim` mel filters.
pub open spec fn is_dir_plan(p: LoadPlan, kind: ModelKind, feature_dim: i32) -> bool {
    match kind {
        ModelKind::Ctc => p matches LoadPlan::Ctc { model, tokens, feature_dim: d } && model@
            == "model.int8.onnx"@ && tokens@ == "tokens.txt"@ && d == feature_dim,
        ModelKind::Transducer => p matches LoadPlan::Transducer {
            encoder,
            decoder,
            joiner,
            tokens,
            feature_dim: d,
        } && encoder@ == "encoder.int8.onnx"@ && decoder@ == "decoder.onnx"@ && joiner@
            == "joiner.onnx"@ && tokens@ == "tokens.txt"@ && d == feature_dim,
        _ => false,
    }
}

/// `p` loads a Whisper (ONNX) model whose files carry `prefix`, for `language`.
pub open spec fn is_whisper_plan(p: LoadPlan, prefix: Seq<char>, language: Seq<char>) -> bool {
    p matches LoadPlan::Whisper { encoder, decoder, tokens, language: l } && encoder@ == prefix
        + "-encoder.int8.onnx"@ && decoder@ == prefix + "-decoder.int8.onnx"@ && tokens@ == prefix
        + "-tokens.txt"@ && l@ == language
}

/// A Whisper model's language: the catalog's, else Russian.
pub open spec fn whisper_language_of(info: ModelInfo) -> Seq<char> {
    match info.whisper_language {
        Some(l) => l@,
        None => "ru"@,
    }
}

/// Whether a recogniser can be built for `e`: every entry but a custom one
/// of a Whisper kind.
pub open spec fn loadable(e: ModelEntry) -> bool {
    !(e matches ModelEntry::Custom(c) && (c.kind == ModelKind::Whisper || c.kind
        == ModelKind::WhisperCpp))
}

/// `p` is how the recogniser for `e` is built.
pub open spec fn is_entry_plan(p: LoadPlan, e: ModelEntry) -> bool {
    match e {
        ModelEntry::Builtin(info) => if info.kind == ModelKind::WhisperCpp {
            p matches LoadPlan::WhisperCpp { model, language } && model@ == "model.bin"@
                && language@ == whisper_language_of(info)
        } else if info.kind == ModelKind::Whisper {
            is_whisper_plan(p, entry_whisper_prefix(e), whisper_language_of(info))
        } else {
            is_dir_plan(p, info.kind, info.feature_dim)
        },
        ModelEntry::Custom(c) => is_dir_plan(p, c.kind, 64),
    }
}

/// How to load a CTC or Transducer model from a directory with the standard
/// file names, with `feature_dim` mel filters. Whisper models have no
/// standard names and are refused.
pub fn model_dir_plan(kind: ModelKind, feature_dim: i32) -> (r: Result<LoadPlan, AsrError>)
    ensures
        r is Ok <==> (kind == ModelKind::Ctc || kind == ModelKind::Transducer),
        r matches Ok(p) ==> is_dir_plan(p, kind, feature_dim),
        r matches Err(e) ==> e == AsrError::WhisperNeedsEntry,
{
    match kind {
        ModelKind::Ctc => Ok(LoadPlan::Ctc {
            model: String::from_str("model.int8.onnx"),
            tokens: String::from_str("tokens.txt"),
            feature_dim,
        }),
        ModelKind::Transducer => Ok(LoadPlan::Transducer {
            encoder: String::from_str("encoder.int8.onnx"),
            decoder: String::from_str("decoder.onnx"),
            joiner: String::from_str("joiner.onnx"),
            tokens: String::from_str("tokens.txt"),
            feature_dim,
        }),
        ModelKind::Whisper | ModelKind::WhisperCpp => Err(AsrError::WhisperNeedsEntry),
    }
}

/// How to load a Whisper (ONNX) model whose files are named with `prefix`.
pub fn whisper_dir_plan(prefix: &str, language: &str) -> (r: LoadPlan)
    ensures
        is_whisper_plan(r, prefix@, language@),
{
    LoadPlan::Whisper {
        encoder: joined(prefix, "-encoder.int8.onnx"),
        decoder: joined(prefix, "-decoder.int8.onnx"),
        tokens: joined(prefix, "-tokens.txt"),
        language: String::from_str(language),
    }
}

/// How to build the recogniser for a catalog entry: whisper.cpp for its
/// models, sherpa-onnx Whisper with the entry's file prefix, or a CTC or
/// Transducer model with the entry's mel filter count (64 for custom models).
pub fn entry_plan(entry: &ModelEntry) -> (r: Result<LoadPlan, AsrError>)
    ensures
        r is Ok <==> loadable(*entry),
        r matches Ok(p) ==> is_entry_plan(p, *entry),
        r matches Err(e) ==> e == AsrError::WhisperNeedsEntry,
{
    match entry {
        ModelEntry::Builtin(info) => {
            let language = match info.whisper_language {
                Some(l) => l,
                None => "ru",
            };
            if info.kind == ModelKind::WhisperCpp {
                Ok(LoadPlan::WhisperCpp {
                    model: String::from_str("model.bin"),
                    language: String::from_str(language),
                })
            } else if info.kind == ModelKind::Whisper {
                Ok(whisper_dir_plan(whisper_prefix(entry), language))
            } else {
                model_dir_plan(info.kind, info.feature_dim)
            }
        },
        ModelEntry::Custom(c) => model_dir_plan(c.kind, 64),
    }
}

/// The files a recogniser loads for an entry are exactly the files whose
/// presence marks the entry as downloaded, in the same order.
pub proof fn lemma_loaded_files_are_required(e: ModelEntry, p: LoadPlan)
    requires
        is_entry_plan(p, e),
    ensures
        plan_files(p) == required_files_of(e),
{
    assert(plan_files(p) =~= required_files_of(e));
}

/// Every built-in Whisper model, through sherpa-onnx or whisper.cpp, is
/// loaded to recognise Russian.
pub proof fn lemma_builtin_whisper_recognises_russian(info: ModelInfo, p: LoadPlan)
    requires
        consistent_info(info),
        info.kind == ModelKind::Whisper || info.kind == ModelKind::WhisperCpp,
        is_entry_plan(p, ModelEntry::Builtin(info)),
    ensures
        match p {
            LoadPlan::Whisper { language, .. } => language@ == "ru"@,
            LoadPlan::WhisperCpp { language, .. } => language@ == "ru"@,
            _ => false,
        },
{
}

/// Segments joined into one text: a space goes before each segment once
/// the text so far is not empty.
pub open spec fn joined_segments(segs: Seq<Seq<char>>) -> Seq<char>
    decreases segs.len(),
{
    if segs.len() == 0 {
        seq![]
    } else {
        let acc = joined_segments(segs.drop_last());
        (if acc.len() > 0 {
            acc + seq![' ']
        } else {
            acc
        }) + segs.last()
    }
}

/// The transcript made of whisper.cpp's text segments: joined with spaces,
/// then trimmed.
pub fn transcript_from_segments(segments: &Vec<String>) -> (r: String)
    ensures
        r@ == trimmed(joined_segments(strings_view(segments@))),
{
    let mut text = String::new();
    let mut nonempty = false;
    let n = segments.len();
    let ghost segs = strings_view(segments@);
    for i in 0..n
        invariant
            n == segments@.len(),
            segs == strings_view(segments@),
            text@ == joined_segments(segs.take(i as int)),
            nonempty == (text@.len() > 0),
    {
        proof {
            assert(segs.take(i + 1).drop_last() =~= segs.take(i as int));
        }
        let seg = segments[i].as_str();
        let ghost before = text@;
        proof {
            reveal_strlit(" ");
            assert(segs.take(i + 1).last() == seg@);
        }
        if nonempty {
            text.append(" ");
        }
        text.append(seg);
        assert(text@ =~= (if before.len() > 0 {
            before + seq![' ']
        } else {
            before
        }) + seg@);
        nonempty = nonempty || !seg.is_empty();
    }
    proof {
        assert(segs.take(n as int) =~= segs);
    }
    let t = trim(text.as_str());
    String::from_str(t)
}

} // verus!
