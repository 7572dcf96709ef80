use shiori::download::{Checksum, DownloadStatus};
use shiori::language::{get_languages, Language, LanguageInfo};
use shiori::media::{check_mime_type, validate_file_type, FileTypeError};
use shiori::models::{
    is_rejected_key_status, repository_tree_url, speech_to_text_models, Gemini, GeminiModel,
    GetSpeechToTextModelResult, RepositoryTree, SpeechToTextModel, TextGenerationProvider,
};

fn file(path: &str, size: u64) -> RepositoryTree {
    RepositoryTree {
        entry_type: "file".to_string(),
        oid: "x".to_string(),
        size,
        path: path.to_string(),
        lfs: None,
    }
}

#[test]
fn models_are_picked_from_the_listing() {
    let files = vec![
        file("README.md", 10),
        file("ggml-large-v3.bin", 3000),
        file("ggml-tiny-q8_0.bin", 40),
        file("ggml-tiny.bin", 75),
        file("ggml-large-v3-turbo-q8_0.bin", 800),
    ];
    assert_eq!(
        speech_to_text_models(&files),
        vec![
            GetSpeechToTextModelResult { model: SpeechToTextModel::Large, size: 3000 },
            GetSpeechToTextModelResult { model: SpeechToTextModel::Tiny, size: 40 },
            GetSpeechToTextModelResult { model: SpeechToTextModel::LargeTurbo, size: 800 },
        ]
    );
}

#[test]
fn model_file_names_round_trip() {
    for m in [
        SpeechToTextModel::Tiny,
        SpeechToTextModel::Base,
        SpeechToTextModel::Small,
        SpeechToTextModel::Medium,
        SpeechToTextModel::LargeTurbo,
        SpeechToTextModel::Large,
    ] {
        assert_eq!(SpeechToTextModel::from_file_name(m.file_name()), Some(m));
        assert!(m.url().ends_with(m.file_name()));
    }
    assert_eq!(SpeechToTextModel::from_file_name("ggml-small.bin"), None);
}

#[test]
fn download_request_for_a_model() {
    let d = SpeechToTextModel::Base.download_request("/data/models".to_string());
    assert_eq!(d.url, "https://huggingface.co/ggerganov/whisper.cpp/resolve/main/ggml-base-q8_0.bin");
    assert_eq!(d.checksum, Some(Checksum::Sha1("7bb89bb49ed6955013b166f1b6a6c04584a20fbe".to_string())));
    assert_eq!(d.save_path, "/data/models");
    assert_eq!(d.status, DownloadStatus::Pending);
}

#[test]
fn tree_url() {
    assert_eq!(
        repository_tree_url("ggerganov", "whisper.cpp"),
        "https://huggingface.co/api/models/ggerganov/whisper.cpp/tree/main"
    );
}

#[test]
fn chat_models_are_filtered() {
    let listing = vec![
        GeminiModel {
            name: "models/a".to_string(),
            display_name: "A".to_string(),
            supported_generation_methods: vec!["embedContent".to_string(), "generateContent".to_string()],
        },
        GeminiModel {
            name: "models/b".to_string(),
            display_name: "B".to_string(),
            supported_generation_methods: vec!["embedContent".to_string()],
        },
        GeminiModel {
            name: "models/c".to_string(),
            display_name: "C".to_string(),
            supported_generation_methods: vec![],
        },
    ];
    let chosen = Gemini::select_models(listing);
    assert_eq!(chosen.len(), 1);
    assert_eq!(chosen[0].id, "models/a");
    assert_eq!(chosen[0].name, "A");
    assert_eq!(chosen[0].provider, TextGenerationProvider::Gemini);
}

#[test]
fn rejected_key_statuses() {
    assert!(is_rejected_key_status(401));
    assert!(is_rejected_key_status(403));
    assert!(!is_rejected_key_status(404));
    assert!(!is_rejected_key_status(200));
    assert_eq!(TextGenerationProvider::Gemini.api_key_name(), "GEMINI_API_KEY");
    assert_eq!(Gemini::new_with_api_key("k".to_string()).key(), "k");
}

#[test]
fn languages_and_names() {
    let infos = get_languages();
    let names: Vec<&str> = infos.iter().map(|i| i.display_name).collect();
    assert_eq!(names, vec!["English (US)", "Bahasa Indonesia", "日本語"]);
    assert_eq!(Language::all().len(), 3);
    let info = LanguageInfo::from(Language::IdId);
    assert_eq!(info.code, Language::IdId);
    assert_eq!(Language::JaJp.to_display_name(), "日本語");
}

#[test]
fn mime_types() {
    assert_eq!(check_mime_type(Some("audio/mpeg".to_string())), Ok(()));
    assert_eq!(check_mime_type(Some("video/quicktime".to_string())), Ok(()));
    assert_eq!(
        check_mime_type(Some("image/png".to_string())),
        Err(FileTypeError::Unsupported("image/png".to_string()))
    );
    assert_eq!(check_mime_type(None), Err(FileTypeError::Unrecognized));
}

#[test]
fn file_types_from_first_bytes() {
    assert_eq!(validate_file_type(b"ID3\x04\x00\x00\x00\x00\x00\x00"), Ok(()));
    assert_eq!(
        validate_file_type(&[0x89, 0x50, 0x4E, 0x47, 0x0D, 0x0A, 0x1A, 0x0A]),
        Err(FileTypeError::Unsupported("image/png".to_string()))
    );
    assert_eq!(validate_file_type(&[]), Err(FileTypeError::Unrecognized));
}
