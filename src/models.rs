//! Bookkeeping of the model files that on-device inference needs: where they
//! live, where they come from, and whether they are present. Paths are text
//! with `/` between components; whether a file exists is asked of the disk by
//! the caller and handed in.
use vstd::prelude::*;
use crate::text::same_text;

verus! {

/// File name of the on-device speech recognition model.
pub const WHISPER_MODEL_FILE: &'static str = "whisper-tiny.bin";

/// File name of the on-device chat model.
pub const LLM_MODEL_FILE: &'static str = "qwen2-0.5b-q4.gguf";

/// Where the speech recognition model is downloaded from.
pub const WHISPER_MODEL_URL: &'static str = "https://huggingface.co/ggerganov/whisper.cpp/resolve/main/ggml-tiny.bin";

/// Where the chat model is downloaded from.
pub const LLM_MODEL_URL: &'static str = "https://huggingface.co/Qwen/Qwen2-0.5B-Instruct-GGUF/resolve/main/qwen2-0_5b-instruct-q4_k_m.gguf";

/// The characters of an optional text.
pub open spec fn text_view(t: Option<String>) -> Option<Seq<char>> {
    match t {
        Some(s) => Some(s@),
        None => None,
    }
}

/// `name` inside directory `dir`; an absolute `name` (one that starts with
/// `/`) stands for itself.
pub open spec fn joined(dir: Seq<char>, name: Seq<char>) -> Seq<char> {
    if name.len() > 0 && name[0] == '/' {
        name
    } else if dir.len() == 0 {
        name
    } else if dir.last() == '/' {
        dir + name
    } else {
        dir + "/"@ + name
    }
}

/// The model directory under a local data directory, or under the current
/// directory when there is none.
pub open spec fn model_dir_under(base: Option<Seq<char>>) -> Seq<char> {
    let root = match base {
        Some(b) => b,
        None => "."@,
    };
    joined(joined(root, "assidenter"@), "models"@)
}

/// The path of `name` inside `dir`, or `name` itself when it is absolute.
pub fn join_path(dir: &str, name: &str) -> (r: String)
    ensures
        r@ == joined(dir@, name@),
{
    if name.unicode_len() > 0 && name.get_char(0) == '/' {
        return name.to_string();
    }
    let mut out = dir.to_string();
    let n = dir.unicode_len();
    if n == 0 {
        return name.to_string();
    }
    if dir.get_char(n - 1) != '/' {
        out.append("/");
    }
    out.append(name);
    out
}

/// Relies on `dirs::data_local_dir`: the per-user local data directory of the
/// platform, if it has one. It depends on the environment, so nothing is
/// stated of it.
#[verifier::external_body]
fn local_data_dir() -> (r: Option<String>) {
    dirs::data_local_dir().map(|p| p.to_string_lossy().into_owned())
}

/// The model directory under `base`, or under `.` when there is no `base`.
pub fn model_dir_for(base: Option<String>) -> (r: String)
    ensures
        r@ == model_dir_under(text_view(base)),
{
    let root = match base {
        Some(b) => b,
        None => String::from_str("."),
    };
    let app = join_path(root.as_str(), "assidenter");
    join_path(app.as_str(), "models")
}

/// The default model directory of this user.
pub fn default_model_dir() -> (r: String)
    ensures
        exists|base: Option<Seq<char>>| r@ == model_dir_under(base),
{
    let base = local_data_dir();
    let ghost b = text_view(base);
    let r = model_dir_for(base);
    assert(r@ == model_dir_under(b));
    r
}

/// A model file the application needs.
#[derive(Clone, Debug)]
pub struct ModelInfo {
    pub name: String,
    pub file_name: String,
    pub download_url: String,
    pub size_bytes: u64,
    pub is_downloaded: bool,
}

impl Default for ModelManager {
    fn default() -> (r: Self)
        ensures
            exists|base: Option<Seq<char>>| r.spec_model_dir() == model_dir_under(base),
    {
        ModelManager::new()
    }
}

/// Knows where the model files live.
#[derive(Clone, Debug)]
pub struct ModelManager {
    model_dir: String,
}

impl ModelManager {
    pub closed spec fn spec_model_dir(&self) -> Seq<char> {
        self.model_dir@
    }

    /// A manager for the default model directory of this user.
    pub fn new() -> (r: Self)
        ensures
            exists|base: Option<Seq<char>>| r.spec_model_dir() == model_dir_under(base),
    {
        ModelManager { model_dir: default_model_dir() }
    }

    /// A manager for the models in `model_dir`.
    pub fn with_model_dir(model_dir: String) -> (r: Self)
        ensures
            r.spec_model_dir() == model_dir@,
    {
        ModelManager { model_dir }
    }

    /// The directory that holds the models.
    pub fn model_dir(&self) -> (r: &str)
        ensures
            r@ == self.spec_model_dir(),
    {
        self.model_dir.as_str()
    }

    /// The path of model file `file_name`.
    pub fn get_model_path(&self, file_name: &str) -> (r: String)
        ensures
            r@ == joined(self.spec_model_dir(), file_name@),
    {
        join_path(self.model_dir.as_str(), file_name)
    }

    /// The two models the application needs, speech recognition first, with
    /// whether each file is present as the caller found it.
    pub fn get_model_info(&self, asr_model_present: bool, llm_model_present: bool) -> (r: Vec<
        ModelInfo,
    >)
        ensures
            r@.len() == 2,
            r@[0].name@ == "Whisper Tiny (ASR)"@,
            r@[0].file_name@ == WHISPER_MODEL_FILE@,
            r@[0].download_url@ == WHISPER_MODEL_URL@,
            r@[0].size_bytes == 75_000_000,
            r@[0].is_downloaded == asr_model_present,
            r@[1].name@ == "Qwen 0.5B Q4 (LLM)"@,
            r@[1].file_name@ == LLM_MODEL_FILE@,
            r@[1].download_url@ == LLM_MODEL_URL@,
            r@[1].size_bytes == 400_000_000,
            r@[1].is_downloaded == llm_model_present,
    {
        let mut infos: Vec<ModelInfo> = Vec::new();
        infos.push(
            ModelInfo {
                name: String::from_str("Whisper Tiny (ASR)"),
                file_name: WHISPER_MODEL_FILE.to_string(),
                download_url: WHISPER_MODEL_URL.to_string(),
                size_bytes: 75_000_000,
                is_downloaded: asr_model_present,
            },
        );
        infos.push(
            ModelInfo {
                name: String::from_str("Qwen 0.5B Q4 (LLM)"),
                file_name: LLM_MODEL_FILE.to_string(),
                download_url: LLM_MODEL_URL.to_string(),
                size_bytes: 400_000_000,
                is_downloaded: llm_model_present,
            },
        );
        infos
    }

    /// Whether every listed model is present.
    pub fn are_models_ready(infos: &[ModelInfo]) -> (r: bool)
        ensures
            r == forall|i: int| 0 <= i < infos@.len() ==> (#[trigger] infos@[i]).is_downloaded,
    {
        let mut i: usize = 0;
        while i < infos.len()
            invariant
                i <= infos@.len(),
                forall|j: int| 0 <= j < i ==> (#[trigger] infos@[j]).is_downloaded,
            decreases infos@.len() - i,
        {
            if !infos[i].is_downloaded {
                return false;
            }
            i = i + 1;
        }
        true
    }

    /// Where model file `file_name` is downloaded from, if it is one of the
    /// two the application needs.
    pub fn get_download_url(&self, file_name: &str) -> (r: Option<&'static str>)
        ensures
            file_name@ == WHISPER_MODEL_FILE@ ==> r == Some(WHISPER_MODEL_URL),
            file_name@ == LLM_MODEL_FILE@ ==> r == Some(LLM_MODEL_URL),
            file_name@ != WHISPER_MODEL_FILE@ && file_name@ != LLM_MODEL_FILE@ ==> r is None,
    {
        proof {
            reveal_strlit("whisper-tiny.bin");
            reveal_strlit("qwen2-0.5b-q4.gguf");
            assert(WHISPER_MODEL_FILE@[0] != LLM_MODEL_FILE@[0]);
        }
        if same_text(file_name, WHISPER_MODEL_FILE) {
            Some(WHISPER_MODEL_URL)
        } else if same_text(file_name, LLM_MODEL_FILE) {
            Some(LLM_MODEL_URL)
        } else {
            None
        }
    }
}

} // verus!
