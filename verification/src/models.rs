use vstd::prelude::*;
use vstd::string::*;

use crate::settings::{LocalModel, model_name};

verus! {

/// Where the ggml model files are downloaded from.
pub open spec fn models_base_url() -> Seq<char> {
    "https://huggingface.co/ggerganov/whisper.cpp/resolve/main"@
}

/// The file that holds a local model.
pub open spec fn model_file_name(m: LocalModel) -> Seq<char> {
    match m {
        LocalModel::Base => "ggml-base.en.bin"@,
        LocalModel::Small => "ggml-small.en.bin"@,
        LocalModel::Medium => "ggml-medium.en.bin"@,
    }
}

/// The file name of a model inside the models directory.
pub fn model_filename(model: &LocalModel) -> (name: &'static str)
    ensures
        name@ == model_file_name(*model),
{
    match model {
        LocalModel::Base => "ggml-base.en.bin",
        LocalModel::Small => "ggml-small.en.bin",
        LocalModel::Medium => "ggml-medium.en.bin",
    }
}

/// The address a model file is downloaded from: the base address, a slash and
/// the model's file name.
pub fn model_url(model: &LocalModel) -> (url: String)
    ensures
        url@ == models_base_url() + "/"@ + model_file_name(*model),
{
    let mut url = String::from_str("https://huggingface.co/ggerganov/whisper.cpp/resolve/main");
    url.append("/");
    url.append(model_filename(model));
    url
}

/// The models on offer, in the order in which they are listed.
pub open spec fn catalog() -> Seq<LocalModel> {
    seq![LocalModel::Base, LocalModel::Small, LocalModel::Medium]
}

/// Every model on offer, smallest first.
pub fn model_catalog() -> (models: Vec<LocalModel>)
    ensures
        models@ == catalog(),
{
    let mut models: Vec<LocalModel> = Vec::new();
    models.push(LocalModel::Base);
    models.push(LocalModel::Small);
    models.push(LocalModel::Medium);
    assert(models@ =~= catalog());
    models
}

/// What the settings window shows about one model.
#[derive(Debug, Clone)]
pub struct ModelInfo {
    pub model: String,
    pub filename: String,
    pub downloaded: bool,
    pub size_bytes: Option<u64>,
}

/// The listing entry for a model: its name, its file name, whether its file
/// is on disk, and the file's size where it is on disk and the size could be
/// read (`file_size`).
pub fn model_info(model: &LocalModel, downloaded: bool, file_size: Option<u64>) -> (info: ModelInfo)
    ensures
        info.model@ == model_name(*model),
        info.filename@ == model_file_name(*model),
        info.downloaded == downloaded,
        info.size_bytes == (if downloaded { file_size } else { None }),
{
    let size_bytes = if downloaded { file_size } else { None };
    ModelInfo {
        model: String::from_str(model.as_str()),
        filename: String::from_str(model_filename(model)),
        downloaded,
        size_bytes,
    }
}

/// The byte count of a download after one more chunk of `chunk_len` bytes.
pub fn add_downloaded(downloaded: u64, chunk_len: usize) -> (total: u64)
    requires
        downloaded + chunk_len <= u64::MAX,
    ensures
        total == downloaded + chunk_len,
{
    downloaded + chunk_len as u64
}

/// The error reported when the model server answers a download request
/// with a status that is not a success: "HTTP " followed by the status.
pub fn download_status_error(status: &str) -> (msg: String)
    ensures
        msg@ == "HTTP "@ + status@,
{
    let mut msg = String::from_str("HTTP ");
    msg.append(status);
    msg
}

/// Each model lives in its own file, so downloading or deleting one model
/// never touches another, and the catalogue lists each model once.
pub proof fn lemma_model_files_distinct(a: LocalModel, b: LocalModel)
    ensures
        a != b ==> model_file_name(a) != model_file_name(b),
        a != b ==> model_name(a) != model_name(b),
        catalog().contains(a),
        forall|i: int, j: int| 0 <= i < j < catalog().len() ==> catalog()[i] != catalog()[j],
{
    reveal_strlit("ggml-base.en.bin");
    reveal_strlit("ggml-small.en.bin");
    reveal_strlit("ggml-medium.en.bin");
    reveal_strlit("Base");
    reveal_strlit("Small");
    reveal_strlit("Medium");
    if a != b {
        assert(model_file_name(a)[5] != model_file_name(b)[5]);
        assert(model_name(a)[0] != model_name(b)[0]);
    }
    assert(catalog()[0] == LocalModel::Base);
    assert(catalog()[1] == LocalModel::Small);
    assert(catalog()[2] == LocalModel::Medium);
}

} // verus!
