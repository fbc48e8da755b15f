use dikta::asr::{entry_plan, model_dir_plan, transcript_from_segments, whisper_dir_plan, AsrError, LoadPlan};
use dikta::models::{
    builtin_catalog, download_plan, download_url, find, full_catalog, joiner_rename_needed,
    model_dir_name, required_files, select_model_files, CustomFiles, CustomModel, DownloadPlan,
    ModelEntry, ModelError, ModelKind,
};

fn custom_ctc(id: &str) -> CustomModel {
    CustomModel {
        id: id.to_string(),
        name: "Моя модель".to_string(),
        repo_id: "user/repo".to_string(),
        kind: ModelKind::Ctc,
        files: CustomFiles::Ctc { model: "m.onnx".to_string(), tokens: "t.txt".to_string() },
    }
}

fn custom_transducer(id: &str) -> CustomModel {
    CustomModel {
        id: id.to_string(),
        name: "Transducer".to_string(),
        repo_id: "org/asr".to_string(),
        kind: ModelKind::Transducer,
        files: CustomFiles::Transducer {
            encoder: "enc.onnx".to_string(),
            decoder: "dec.onnx".to_string(),
            joiner: "join.onnx".to_string(),
            tokens: "tokens.txt".to_string(),
        },
    }
}

#[test]
fn catalog_has_unique_ids_in_order() {
    let cat = builtin_catalog();
    assert_eq!(cat.len(), 11);
    assert_eq!(cat[0].id, "giga-ctc-v3");
    assert_eq!(cat[10].id, "zipformer-ru");
    for i in 0..cat.len() {
        for j in (i + 1)..cat.len() {
            assert_ne!(cat[i].id, cat[j].id);
        }
    }
}

#[test]
fn catalog_entries_are_consistent() {
    for info in builtin_catalog() {
        assert_eq!(info.ggml_url.is_some(), info.kind == ModelKind::WhisperCpp);
        assert_eq!(
            info.whisper_language.is_some(),
            info.kind == ModelKind::Whisper || info.kind == ModelKind::WhisperCpp
        );
        match info.kind {
            ModelKind::Ctc | ModelKind::Transducer => {
                assert!(info.feature_dim == 64 || info.feature_dim == 80)
            }
            ModelKind::WhisperCpp => assert_eq!(info.feature_dim, 0),
            ModelKind::Whisper => {}
        }
        assert!(!info.languages.is_empty());
    }
}

#[test]
fn catalog_rtf_in_ten_thousandths() {
    let cat = builtin_catalog();
    assert_eq!(cat[0].measured_rtf_e4, 850);
    assert_eq!(cat[4].measured_rtf_e4, 157);
    assert_eq!(cat[9].measured_rtf_e4, 270);
}

#[test]
fn full_catalog_puts_custom_after_builtin() {
    let custom = vec![custom_ctc("my-model")];
    let cat = full_catalog(&custom);
    assert_eq!(cat.len(), 12);
    assert_eq!(cat[11].id(), "my-model");
    assert_eq!(cat[11].name(), "Моя модель");
    assert_eq!(cat[0].kind(), ModelKind::Ctc);
}

#[test]
fn find_by_id() {
    let custom = vec![custom_ctc("my-model")];
    match find("whisper-cpp-small", &custom) {
        Some(ModelEntry::Builtin(info)) => assert_eq!(info.size_mb, 488),
        other => panic!("unexpected {:?}", other),
    }
    match find("my-model", &custom) {
        Some(ModelEntry::Custom(c)) => assert_eq!(c.repo_id, "user/repo"),
        other => panic!("unexpected {:?}", other),
    }
    assert!(find("nope", &custom).is_none());
}

#[test]
fn builtin_shadows_custom_with_same_id() {
    let custom = vec![custom_ctc("zipformer-ru")];
    match find("zipformer-ru", &custom) {
        Some(ModelEntry::Builtin(info)) => assert_eq!(info.kind, ModelKind::Transducer),
        other => panic!("unexpected {:?}", other),
    }
}

#[test]
fn required_files_per_kind() {
    let cat = builtin_catalog();
    let ctc = ModelEntry::Builtin(cat[0]);
    assert_eq!(required_files(&ctc), vec!["model.int8.onnx", "tokens.txt"]);
    let tr = ModelEntry::Builtin(cat[2]);
    assert_eq!(
        required_files(&tr),
        vec!["encoder.int8.onnx", "decoder.onnx", "joiner.onnx", "tokens.txt"]
    );
    let wc = ModelEntry::Builtin(cat[5]);
    assert_eq!(required_files(&wc), vec!["model.bin"]);
    let mut whisper = cat[0];
    whisper.kind = ModelKind::Whisper;
    whisper.whisper_file_prefix = Some("small");
    assert_eq!(
        required_files(&ModelEntry::Builtin(whisper)),
        vec!["small-encoder.int8.onnx", "small-decoder.int8.onnx", "small-tokens.txt"]
    );
    let mut custom_whisper = custom_ctc("w");
    custom_whisper.kind = ModelKind::Whisper;
    assert_eq!(
        required_files(&ModelEntry::Custom(custom_whisper)),
        vec!["model-encoder.int8.onnx", "model-decoder.int8.onnx", "model-tokens.txt"]
    );
}

#[test]
fn model_dir_names() {
    let cat = builtin_catalog();
    assert_eq!(
        model_dir_name(&ModelEntry::Builtin(cat[0])),
        "sherpa-onnx-nemo-ctc-giga-am-v3-russian-2025-12-16"
    );
    assert_eq!(model_dir_name(&ModelEntry::Custom(custom_ctc("abc"))), "abc");
}

#[test]
fn archive_url() {
    let cat = builtin_catalog();
    assert_eq!(
        download_url(&cat[10]),
        "https://github.com/k2-fsa/sherpa-onnx/releases/download/asr-models/sherpa-onnx-zipformer-ru-int8-2025-04-20.tar.bz2"
    );
}

#[test]
fn download_plan_for_ggml_model() {
    let cat = builtin_catalog();
    match download_plan(&ModelEntry::Builtin(cat[6])).unwrap() {
        DownloadPlan::SingleFile { dir_name, file } => {
            assert_eq!(dir_name, "whisper-cpp-tiny");
            assert_eq!(file.url, "https://huggingface.co/ggerganov/whisper.cpp/resolve/main/ggml-tiny.bin");
            assert_eq!(file.file_name, "model.bin");
        }
        other => panic!("unexpected {:?}", other),
    }
    let mut broken = cat[6];
    broken.ggml_url = None;
    assert_eq!(download_plan(&ModelEntry::Builtin(broken)).unwrap_err(), ModelError::MissingGgmlUrl);
    assert_eq!(ModelError::MissingGgmlUrl.message(), "у модели не задан ggml_url");
}

#[test]
fn download_plan_for_archive() {
    let cat = builtin_catalog();
    match download_plan(&ModelEntry::Builtin(cat[10])).unwrap() {
        DownloadPlan::Archive { url, part_file, dir_name, remove_after_unpack, fix_joiner_name } => {
            assert!(url.ends_with("sherpa-onnx-zipformer-ru-int8-2025-04-20.tar.bz2"));
            assert_eq!(part_file, "zipformer-ru.tar.bz2.part");
            assert_eq!(dir_name, "sherpa-onnx-zipformer-ru-int8-2025-04-20");
            assert!(remove_after_unpack.is_empty());
            assert!(fix_joiner_name);
        }
        other => panic!("unexpected {:?}", other),
    }
    let mut whisper = cat[0];
    whisper.kind = ModelKind::Whisper;
    whisper.whisper_file_prefix = Some("small");
    match download_plan(&ModelEntry::Builtin(whisper)).unwrap() {
        DownloadPlan::Archive { remove_after_unpack, fix_joiner_name, .. } => {
            assert_eq!(remove_after_unpack, vec!["small-encoder.onnx", "small-decoder.onnx"]);
            assert!(!fix_joiner_name);
        }
        other => panic!("unexpected {:?}", other),
    }
}

#[test]
fn download_plan_for_custom_model() {
    match download_plan(&ModelEntry::Custom(custom_transducer("t1"))).unwrap() {
        DownloadPlan::Files { dir_name, files } => {
            assert_eq!(dir_name, "t1");
            let pairs: Vec<(String, String)> =
                files.into_iter().map(|f| (f.url, f.file_name)).collect();
            assert_eq!(
                pairs,
                vec![
                    ("https://huggingface.co/org/asr/resolve/main/enc.onnx".to_string(), "encoder.int8.onnx".to_string()),
                    ("https://huggingface.co/org/asr/resolve/main/dec.onnx".to_string(), "decoder.onnx".to_string()),
                    ("https://huggingface.co/org/asr/resolve/main/join.onnx".to_string(), "joiner.onnx".to_string()),
                    ("https://huggingface.co/org/asr/resolve/main/tokens.txt".to_string(), "tokens.txt".to_string()),
                ]
            );
        }
        other => panic!("unexpected {:?}", other),
    }
}

#[test]
fn joiner_rename_only_when_missing() {
    assert!(joiner_rename_needed(true, false, true));
    assert!(!joiner_rename_needed(true, true, true));
    assert!(!joiner_rename_needed(true, false, false));
    assert!(!joiner_rename_needed(false, false, true));
}

#[test]
fn hf_listing_keeps_model_files() {
    let listing = Some(vec![
        Some("README.md".to_string()),
        Some("model.int8.onnx".to_string()),
        None,
        Some("tokens.txt".to_string()),
        Some("config.json".to_string()),
    ]);
    assert_eq!(select_model_files(listing).unwrap(), vec!["model.int8.onnx", "tokens.txt"]);
    assert_eq!(
        select_model_files(Some(vec![Some("README.md".to_string())])).unwrap_err(),
        ModelError::NoModelFiles
    );
    assert_eq!(select_model_files(None).unwrap_err(), ModelError::NoModelFiles);
}

#[test]
fn recogniser_plans_match_required_files() {
    let custom = vec![custom_ctc("c1")];
    for entry in full_catalog(&custom) {
        let plan = entry_plan(&entry).unwrap();
        let files: Vec<String> = match &plan {
            LoadPlan::Ctc { model, tokens, .. } => vec![model.clone(), tokens.clone()],
            LoadPlan::Transducer { encoder, decoder, joiner, tokens, .. } => {
                vec![encoder.clone(), decoder.clone(), joiner.clone(), tokens.clone()]
            }
            LoadPlan::Whisper { encoder, decoder, tokens, .. } => {
                vec![encoder.clone(), decoder.clone(), tokens.clone()]
            }
            LoadPlan::WhisperCpp { model, .. } => vec![model.clone()],
        };
        assert_eq!(files, required_files(&entry));
    }
}

#[test]
fn recogniser_plan_details() {
    let cat = builtin_catalog();
    match entry_plan(&ModelEntry::Builtin(cat[8])).unwrap() {
        LoadPlan::Ctc { feature_dim, .. } => assert_eq!(feature_dim, 80),
        other => panic!("unexpected {:?}", other),
    }
    match entry_plan(&ModelEntry::Builtin(cat[7])).unwrap() {
        LoadPlan::WhisperCpp { model, language } => {
            assert_eq!(model, "model.bin");
            assert_eq!(language, "ru");
        }
        other => panic!("unexpected {:?}", other),
    }
    match entry_plan(&ModelEntry::Custom(custom_transducer("t"))).unwrap() {
        LoadPlan::Transducer { feature_dim, .. } => assert_eq!(feature_dim, 64),
        other => panic!("unexpected {:?}", other),
    }
    let mut w = custom_ctc("w");
    w.kind = ModelKind::WhisperCpp;
    assert_eq!(entry_plan(&ModelEntry::Custom(w)).unwrap_err(), AsrError::WhisperNeedsEntry);
    assert_eq!(model_dir_plan(ModelKind::Whisper, 80).unwrap_err(), AsrError::WhisperNeedsEntry);
    match whisper_dir_plan("base", "en") {
        LoadPlan::Whisper { encoder, decoder, tokens, language } => {
            assert_eq!(encoder, "base-encoder.int8.onnx");
            assert_eq!(decoder, "base-decoder.int8.onnx");
            assert_eq!(tokens, "base-tokens.txt");
            assert_eq!(language, "en");
        }
        other => panic!("unexpected {:?}", other),
    }
}

#[test]
fn whisper_segments_make_one_transcript() {
    let segs = vec![" привет".to_string(), "".to_string(), "мир ".to_string()];
    assert_eq!(transcript_from_segments(&segs), "привет  мир");
    let lead = vec!["".to_string(), "a".to_string()];
    assert_eq!(transcript_from_segments(&lead), "a");
    assert_eq!(transcript_from_segments(&Vec::new()), "");
}

#[test]
fn custom_download_stores_required_files() {
    for c in [custom_ctc("a"), custom_transducer("b")] {
        let entry = ModelEntry::Custom(c);
        match download_plan(&entry).unwrap() {
            DownloadPlan::Files { dir_name, files } => {
                assert_eq!(dir_name, model_dir_name(&entry));
                let names: Vec<String> = files.into_iter().map(|f| f.file_name).collect();
                assert_eq!(names, required_files(&entry));
            }
            other => panic!("unexpected {:?}", other),
        }
    }
}
