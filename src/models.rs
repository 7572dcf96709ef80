//! The models the application works with: the speech-to-text weights published
//! in the whisper.cpp repository, and the text-generation models of a provider.
use vstd::prelude::*;

use crate::download::{Checksum, FileDownload};
use crate::text::same_text;

verus! {

/// A file of a model repository, as its tree listing describes it.
#[derive(Debug, Clone)]
pub struct RepositoryTree {
    /// What the entry is: `file` or `directory`.
    pub entry_type: String,
    pub oid: String,
    pub size: u64,
    pub path: String,
    pub lfs: Option<LfsFile>,
}

/// The large-file storage pointer of a repository file.
#[derive(Debug, Clone)]
pub struct LfsFile {
    pub oid: String,
    pub size: u64,
    pub pointer_size: i16,
}

#[derive(Debug, Clone, Copy, PartialEq, Eq, Structural)]
pub enum SpeechToTextModel {
    Tiny,
    Base,
    Small,
    Medium,
    LargeTurbo,
    Large,
}

/// A speech-to-text model on offer, with the size of its weights.
#[derive(Debug, Clone, Copy, PartialEq, Eq, Structural)]
pub struct GetSpeechToTextModelResult {
    pub model: SpeechToTextModel,
    pub size: u64,
}

/// The name of the weights file of a model in the repository.
pub open spec fn weights_file(m: SpeechToTextModel) -> &'static str {
    match m {
        SpeechToTextModel::Tiny => "ggml-tiny-q8_0.bin",
        SpeechToTextModel::Base => "ggml-base-q8_0.bin",
        SpeechToTextModel::Small => "ggml-small-q8_0.bin",
        SpeechToTextModel::Medium => "ggml-medium-q8_0.bin",
        SpeechToTextModel::LargeTurbo => "ggml-large-v3-turbo-q8_0.bin",
        SpeechToTextModel::Large => "ggml-large-v3.bin",
    }
}

/// Where the weights of a model are downloaded from.
pub open spec fn weights_url(m: SpeechToTextModel) -> &'static str {
    match m {
        SpeechToTextModel::Tiny => "https://huggingface.co/ggerganov/whisper.cpp/resolve/main/ggml-tiny-q8_0.bin",
        SpeechToTextModel::Base => "https://huggingface.co/ggerganov/whisper.cpp/resolve/main/ggml-base-q8_0.bin",
        SpeechToTextModel::Small => "https://huggingface.co/ggerganov/whisper.cpp/resolve/main/ggml-small-q8_0.bin",
        SpeechToTextModel::Medium => "https://huggingface.co/ggerganov/whisper.cpp/resolve/main/ggml-medium-q8_0.bin",
        SpeechToTextModel::LargeTurbo => "https://huggingface.co/ggerganov/whisper.cpp/resolve/main/ggml-large-v3-turbo-q8_0.bin",
        SpeechToTextModel::Large => "https://huggingface.co/ggerganov/whisper.cpp/resolve/main/ggml-large-v3.bin",
    }
}

/// The SHA-1 digest of the weights of a model.
pub open spec fn weights_sha1(m: SpeechToTextModel) -> &'static str {
    match m {
        SpeechToTextModel::Tiny => "19e8118f6652a650569f5a949d962154e01571d9",
        SpeechToTextModel::Base => "7bb89bb49ed6955013b166f1b6a6c04584a20fbe",
        SpeechToTextModel::Small => "bcad8a2083f4e53d648d586b7dbc0cd673d8afad",
        SpeechToTextModel::Medium => "e66645948aff4bebbec71b3485c576f3d63af5d6",
        SpeechToTextModel::LargeTurbo => "01bf15bedffe9f39d65c1b6ff9b687ea91f59e0e",
        SpeechToTextModel::Large => "ad82bf6a9043ceed055076d0fd39f5f186ff8062",
    }
}

/// Every model, smallest first.
pub open spec fn all_models() -> Seq<SpeechToTextModel> {
    seq![
        SpeechToTextModel::Tiny,
        SpeechToTextModel::Base,
        SpeechToTextModel::Small,
        SpeechToTextModel::Medium,
        SpeechToTextModel::LargeTurbo,
        SpeechToTextModel::Large,
    ]
}

/// The first model, in the order of [`all_models`], whose weights file is `name`.
pub open spec fn model_named(name: Seq<char>) -> Option<SpeechToTextModel> {
    if name == weights_file(SpeechToTextModel::Tiny)@ {
        Some(SpeechToTextModel::Tiny)
    } else if name == weights_file(SpeechToTextModel::Base)@ {
        Some(SpeechToTextModel::Base)
    } else if name == weights_file(SpeechToTextModel::Small)@ {
        Some(SpeechToTextModel::Small)
    } else if name == weights_file(SpeechToTextModel::Medium)@ {
        Some(SpeechToTextModel::Medium)
    } else if name == weights_file(SpeechToTextModel::LargeTurbo)@ {
        Some(SpeechToTextModel::LargeTurbo)
    } else if name == weights_file(SpeechToTextModel::Large)@ {
        Some(SpeechToTextModel::Large)
    } else {
        None
    }
}

/// The models found among the files of the repository, in the order of the files,
/// each with the size of its file.
pub open spec fn models_in(files: Seq<RepositoryTree>) -> Seq<GetSpeechToTextModelResult>
    decreases files.len(),
{
    if files.len() == 0 {
        seq![]
    } else {
        let rest = models_in(files.drop_last());
        match model_named(files.last().path@) {
            Some(m) => rest.push(GetSpeechToTextModelResult { model: m, size: files.last().size }),
            None => rest,
        }
    }
}

impl SpeechToTextModel {
    /// The name of the model's weights file in the repository.
    pub fn file_name(&self) -> (r: &'static str)
        ensures
            r == weights_file(*self),
    {
        match self {
            SpeechToTextModel::Tiny => "ggml-tiny-q8_0.bin",
            SpeechToTextModel::Base => "ggml-base-q8_0.bin",
            SpeechToTextModel::Small => "ggml-small-q8_0.bin",
            SpeechToTextModel::Medium => "ggml-medium-q8_0.bin",
            SpeechToTextModel::LargeTurbo => "ggml-large-v3-turbo-q8_0.bin",
            SpeechToTextModel::Large => "ggml-large-v3.bin",
        }
    }

    /// Where the model's weights are downloaded from.
    pub fn url(&self) -> (r: &'static str)
        ensures
            r == weights_url(*self),
    {
        match self {
            SpeechToTextModel::Tiny => "https://huggingface.co/ggerganov/whisper.cpp/resolve/main/ggml-tiny-q8_0.bin",
            SpeechToTextModel::Base => "https://huggingface.co/ggerganov/whisper.cpp/resolve/main/ggml-base-q8_0.bin",
            SpeechToTextModel::Small => "https://huggingface.co/ggerganov/whisper.cpp/resolve/main/ggml-small-q8_0.bin",
            SpeechToTextModel::Medium => "https://huggingface.co/ggerganov/whisper.cpp/resolve/main/ggml-medium-q8_0.bin",
            SpeechToTextModel::LargeTurbo => "https://huggingface.co/ggerganov/whisper.cpp/resolve/main/ggml-large-v3-turbo-q8_0.bin",
            SpeechToTextModel::Large => "https://huggingface.co/ggerganov/whisper.cpp/resolve/main/ggml-large-v3.bin",
        }
    }

    /// The SHA-1 digest of the model's weights.
    pub fn sha1(&self) -> (r: &'static str)
        ensures
            r == weights_sha1(*self),
    {
        match self {
            SpeechToTextModel::Tiny => "19e8118f6652a650569f5a949d962154e01571d9",
            SpeechToTextModel::Base => "7bb89bb49ed6955013b166f1b6a6c04584a20fbe",
            SpeechToTextModel::Small => "bcad8a2083f4e53d648d586b7dbc0cd673d8afad",
            SpeechToTextModel::Medium => "e66645948aff4bebbec71b3485c576f3d63af5d6",
            SpeechToTextModel::LargeTurbo => "01bf15bedffe9f39d65c1b6ff9b687ea91f59e0e",
            SpeechToTextModel::Large => "ad82bf6a9043ceed055076d0fd39f5f186ff8062",
        }
    }

    /// The model whose weights file is `name`, if any.
    pub fn from_file_name(name: &str) -> (r: Option<SpeechToTextModel>)
        ensures
            r == model_named(name@),
    {
        if same_text(name, "ggml-tiny-q8_0.bin") {
            Some(SpeechToTextModel::Tiny)
        } else if same_text(name, "ggml-base-q8_0.bin") {
            Some(SpeechToTextModel::Base)
        } else if same_text(name, "ggml-small-q8_0.bin") {
            Some(SpeechToTextModel::Small)
        } else if same_text(name, "ggml-medium-q8_0.bin") {
            Some(SpeechToTextModel::Medium)
        } else if same_text(name, "ggml-large-v3-turbo-q8_0.bin") {
            Some(SpeechToTextModel::LargeTurbo)
        } else if same_text(name, "ggml-large-v3.bin") {
            Some(SpeechToTextModel::Large)
        } else {
            None
        }
    }

    /// A pending download of the model's weights into `save_path`, checked against
    /// the model's digest.
    pub fn download_request(&self, save_path: String) -> (r: FileDownload)
        ensures
            r.url@ == weights_url(*self)@,
            r.save_path == save_path,
            r.checksum matches Some(Checksum::Sha1(d)) && d@ == weights_sha1(*self)@,
            r.status is Pending,
            r.size == 0,
            r.progress_bytes == 0,
            r.name is None,
    {
        let digest = self.sha1().to_owned();
        FileDownload::new(self.url(), save_path, Some(Checksum::Sha1(digest)))
    }
}

/// The speech-to-text models found in a repository listing, in the order of the
/// listing, each with the size of its weights.
pub fn speech_to_text_models(files: &Vec<RepositoryTree>) -> (r: Vec<GetSpeechToTextModelResult>)
    ensures
        r@ == models_in(files@),
{
    let mut r: Vec<GetSpeechToTextModelResult> = Vec::new();
    let mut i: usize = 0;
    while i < files.len()
        invariant
            i <= files@.len(),
            r@ == models_in(files@.subrange(0, i as int)),
        decreases files@.len() - i,
    {
        assert(files@.subrange(0, i + 1).drop_last() =~= files@.subrange(0, i as int));
        if let Some(model) = SpeechToTextModel::from_file_name(files[i].path.as_str()) {
            r.push(GetSpeechToTextModelResult { model, size: files[i].size });
        }
        i = i + 1;
    }
    assert(files@.subrange(0, i as int) =~= files@);
    r
}

/// The address of the file listing of a repository's main branch.
pub fn repository_tree_url(namespace: &str, repository: &str) -> (r: String)
    ensures
        r@ == "https://huggingface.co/api/models/"@ + namespace@ + "/"@ + repository@
            + "/tree/main"@,
{
    let mut url = "https://huggingface.co/api/models/".to_owned();
    url.append(namespace);
    url.append("/");
    url.append(repository);
    url.append("/tree/main");
    url
}

/// A provider of text generation.
#[derive(Debug, Clone, Copy, PartialEq, Eq, Structural)]
pub enum TextGenerationProvider {
    Gemini,
}

impl TextGenerationProvider {
    /// The name of the secret that holds the provider's API key.
    pub fn api_key_name(&self) -> (r: &'static str)
        ensures
            r == "GEMINI_API_KEY",
    {
        match self {
            TextGenerationProvider::Gemini => "GEMINI_API_KEY",
        }
    }
}

/// A text-generation model that can be chosen.
#[derive(Debug, Clone)]
pub struct TextGenerationModel {
    pub id: String,
    pub name: String,
    pub provider: TextGenerationProvider,
}

/// A model as Gemini's model listing describes it.
#[derive(Debug, Clone)]
pub struct GeminiModel {
    pub name: String,
    pub display_name: String,
    pub supported_generation_methods: Vec<String>,
}

/// The Gemini client, with the API key it sends.
#[derive(Debug, Clone)]
pub struct Gemini {
    api_key: String,
}

/// The generation method that a chat model must support.
pub open spec fn generate_content() -> Seq<char> {
    seq!['g', 'e', 'n', 'e', 'r', 'a', 't', 'e', 'C', 'o', 'n', 't', 'e', 'n', 't']
}

/// Whether a listed model can generate content.
pub open spec fn generates_content(m: GeminiModel) -> bool {
    exists|i: int|
        0 <= i < m.supported_generation_methods@.len()
            && #[trigger] m.supported_generation_methods@[i]@ == generate_content()
}

/// The models of a listing that can generate content, in their order.
pub open spec fn chat_models(models: Seq<GeminiModel>) -> Seq<TextGenerationModel>
    decreases models.len(),
{
    if models.len() == 0 {
        seq![]
    } else {
        let rest = chat_models(models.drop_last());
        let m = models.last();
        if generates_content(m) {
            rest.push(
                TextGenerationModel {
                    id: m.name,
                    name: m.display_name,
                    provider: TextGenerationProvider::Gemini,
                },
            )
        } else {
            rest
        }
    }
}

/// Whether a listed model supports generating content.
pub fn supports_generate_content(model: &GeminiModel) -> (r: bool)
    ensures
        r == generates_content(*model),
{
    let wanted: &str = "generateContent";
    proof {
        reveal_strlit("generateContent");
        assert(wanted@ =~= generate_content());
    }
    let mut i: usize = 0;
    while i < model.supported_generation_methods.len()
        invariant
            i <= model.supported_generation_methods@.len(),
            wanted@ == generate_content(),
            forall|j: int|
                0 <= j < i ==> (#[trigger] model.supported_generation_methods@[j])@ != wanted@,
        decreases model.supported_generation_methods@.len() - i,
    {
        if same_text(model.supported_generation_methods[i].as_str(), wanted) {
            return true;
        }
        i = i + 1;
    }
    false
}

impl Gemini {
    pub fn new_with_api_key(api_key: String) -> (r: Gemini)
        ensures
            r.api_key() == api_key,
    {
        Gemini { api_key }
    }

    pub closed spec fn api_key(&self) -> String {
        self.api_key
    }

    /// The API key sent with each request.
    pub fn key(&self) -> (r: &str)
        ensures
            r@ == self.api_key()@,
    {
        self.api_key.as_str()
    }

    pub fn get_provider() -> (r: TextGenerationProvider)
        ensures
            r == TextGenerationProvider::Gemini,
    {
        TextGenerationProvider::Gemini
    }

    /// The models of Gemini's listing that can hold a chat, in their order.
    pub fn select_models(models: Vec<GeminiModel>) -> (r: Vec<TextGenerationModel>)
        ensures
            r@ == chat_models(models@),
    {
        let mut r: Vec<TextGenerationModel> = Vec::new();
        let mut i: usize = 0;
        while i < models.len()
            invariant
                i <= models@.len(),
                r@ == chat_models(models@.subrange(0, i as int)),
            decreases models@.len() - i,
        {
            assert(models@.subrange(0, i + 1).drop_last() =~= models@.subrange(0, i as int));
            let m = &models[i];
            if supports_generate_content(m) {
                r.push(
                    TextGenerationModel {
                        id: m.name.clone(),
                        name: m.display_name.clone(),
                        provider: TextGenerationProvider::Gemini,
                    },
                );
            }
            i = i + 1;
        }
        assert(models@.subrange(0, i as int) =~= models@);
        r
    }
}

/// Whether an HTTP status says that the API key was refused.
pub fn is_rejected_key_status(status: u16) -> (r: bool)
    ensures
        r == (status == 401 || status == 403),
{
    status == 401 || status == 403
}

} // verus!
