use vstd::prelude::*;
use windows::Globalization::Language;
use windows::Graphics::Imaging::SoftwareBitmap;
use windows::Media::Ocr::{OcrEngine, OcrResult};
use windows::AI::MachineLearning::{
    ILearningModelFeatureDescriptor, LearningModel, LearningModelBinding, LearningModelDevice,
    LearningModelDeviceKind, LearningModelEvaluationResult, LearningModelSession,
    TensorFeatureDescriptor,
};

verus! {

#[verifier::external_type_specification]
#[verifier::external_body]
pub struct ExError(windows::core::Error);

#[verifier::external_type_specification]
#[verifier::external_body]
pub struct ExLearningModel(LearningModel);

#[verifier::external_type_specification]
#[verifier::external_body]
pub struct ExLearningModelDevice(LearningModelDevice);

#[verifier::external_type_specification]
#[verifier::external_body]
pub struct ExLearningModelSession(LearningModelSession);

#[verifier::external_type_specification]
#[verifier::external_body]
pub struct ExLearningModelBinding(LearningModelBinding);

#[verifier::external_type_specification]
#[verifier::external_body]
pub struct ExLearningModelEvaluationResult(LearningModelEvaluationResult);

#[verifier::external_type_specification]
#[verifier::external_body]
pub struct ExILearningModelFeatureDescriptor(ILearningModelFeatureDescriptor);

/// Relies on LearningModelDevice::Create: opens a device of the kind whose
/// runtime value is `code`.
#[verifier::external_body]
pub(crate) fn create_device(code: i32) -> (r: Result<LearningModelDevice, windows::core::Error>) {
    LearningModelDevice::Create(LearningModelDeviceKind(code))
}

/// Relies on LearningModelSession::CreateFromModelOnDevice: pairs a model with a device.
#[verifier::external_body]
pub(crate) fn create_session(
    model: &LearningModel,
    device: &LearningModelDevice,
) -> (r: Result<LearningModelSession, windows::core::Error>) {
    LearningModelSession::CreateFromModelOnDevice(model, device)
}

/// Relies on LearningModelBinding::CreateFromSession: an empty binding for one evaluation.
#[verifier::external_body]
pub(crate) fn create_binding(session: &LearningModelSession) -> (r: Result<
    LearningModelBinding,
    windows::core::Error,
>) {
    LearningModelBinding::CreateFromSession(session)
}

/// Relies on LearningModelSession::Evaluate: runs the model on the bound features,
/// tagging the run with `correlation`.
#[verifier::external_body]
pub(crate) fn evaluate(
    session: &LearningModelSession,
    binding: &LearningModelBinding,
    correlation: &str,
) -> (r: Result<LearningModelEvaluationResult, windows::core::Error>) {
    session.Evaluate(binding, &windows::core::HSTRING::from(correlation))
}

/// Relies on LearningModel::Name.
#[verifier::external_body]
pub(crate) fn model_name(model: &LearningModel) -> (r: Result<String, windows::core::Error>) {
    model.Name().map(|h| h.to_string_lossy())
}

/// Relies on LearningModel::Version.
#[verifier::external_body]
pub(crate) fn model_version(model: &LearningModel) -> (r: Result<i64, windows::core::Error>) {
    model.Version()
}

/// Relies on LearningModel::Author.
#[verifier::external_body]
pub(crate) fn model_author(model: &LearningModel) -> (r: Result<String, windows::core::Error>) {
    model.Author().map(|h| h.to_string_lossy())
}

/// Relies on LearningModel::Domain.
#[verifier::external_body]
pub(crate) fn model_domain(model: &LearningModel) -> (r: Result<String, windows::core::Error>) {
    model.Domain().map(|h| h.to_string_lossy())
}

/// Relies on LearningModel::Description.
#[verifier::external_body]
pub(crate) fn model_description(model: &LearningModel) -> (r: Result<String, windows::core::Error>) {
    model.Description().map(|h| h.to_string_lossy())
}

/// Relies on LearningModel::Metadata and IMapView::First: its entries as
/// (key, value) pairs, in the order the map view yields them.
#[verifier::external_body]
pub(crate) fn model_metadata(model: &LearningModel) -> (r: Result<
    Vec<(String, String)>,
    windows::core::Error,
>) {
    let mut entries = Vec::new();
    for entry in model.Metadata()?.First()? {
        entries.push((entry.Key()?.to_string_lossy(), entry.Value()?.to_string_lossy()));
    }
    Ok(entries)
}

/// Relies on LearningModel::InputFeatures: the input descriptors, in declared order.
#[verifier::external_body]
pub(crate) fn input_features(model: &LearningModel) -> (r: Result<
    Vec<ILearningModelFeatureDescriptor>,
    windows::core::Error,
>) {
    model.InputFeatures().map(|v| v.into_iter().collect())
}

/// Relies on LearningModel::OutputFeatures: the output descriptors, in declared order.
#[verifier::external_body]
pub(crate) fn output_features(model: &LearningModel) -> (r: Result<
    Vec<ILearningModelFeatureDescriptor>,
    windows::core::Error,
>) {
    model.OutputFeatures().map(|v| v.into_iter().collect())
}

/// Relies on ILearningModelFeatureDescriptor::Kind: the runtime's
/// `LearningModelFeatureKind` value of the feature.
#[verifier::external_body]
pub(crate) fn feature_kind(d: &ILearningModelFeatureDescriptor) -> (r: Result<
    i32,
    windows::core::Error,
>) {
    d.Kind().map(|k| k.0)
}

/// Relies on ILearningModelFeatureDescriptor::Name.
#[verifier::external_body]
pub(crate) fn feature_name(d: &ILearningModelFeatureDescriptor) -> (r: Result<
    String,
    windows::core::Error,
>) {
    d.Name().map(|h| h.to_string_lossy())
}

/// Relies on ILearningModelFeatureDescriptor::Description.
#[verifier::external_body]
pub(crate) fn feature_description(d: &ILearningModelFeatureDescriptor) -> (r: Result<
    String,
    windows::core::Error,
>) {
    d.Description().map(|h| h.to_string_lossy())
}

/// Relies on ILearningModelFeatureDescriptor::IsRequired.
#[verifier::external_body]
pub(crate) fn feature_is_required(d: &ILearningModelFeatureDescriptor) -> (r: Result<
    bool,
    windows::core::Error,
>) {
    d.IsRequired()
}

/// Relies on TensorFeatureDescriptor::TensorKind, on the descriptor cast to a
/// tensor descriptor: the runtime's `TensorKind` value of the elements.
#[verifier::external_body]
pub(crate) fn tensor_kind(d: &ILearningModelFeatureDescriptor) -> (r: Result<
    i32,
    windows::core::Error,
>) {
    windows::core::ComInterface::cast::<TensorFeatureDescriptor>(d)?.TensorKind().map(|k| k.0)
}

/// Relies on TensorFeatureDescriptor::Shape, on the descriptor cast to a tensor
/// descriptor: the dimensions, outermost first.
#[verifier::external_body]
pub(crate) fn tensor_shape(d: &ILearningModelFeatureDescriptor) -> (r: Result<
    Vec<i64>,
    windows::core::Error,
>) {
    windows::core::ComInterface::cast::<TensorFeatureDescriptor>(d)?.Shape().map(|v| v.into_iter().collect())
}

#[verifier::external_type_specification]
#[verifier::external_body]
pub struct ExLanguage(Language);

#[verifier::external_type_specification]
#[verifier::external_body]
pub struct ExOcrEngine(OcrEngine);

#[verifier::external_type_specification]
#[verifier::external_body]
pub struct ExOcrResult(OcrResult);

#[verifier::external_type_specification]
#[verifier::external_body]
pub struct ExSoftwareBitmap(SoftwareBitmap);

/// Relies on Language::CreateLanguage: the language of the BCP-47 tag `tag`.
#[verifier::external_body]
pub(crate) fn create_language(tag: &str) -> (r: Result<Language, windows::core::Error>) {
    Language::CreateLanguage(&windows::core::HSTRING::from(tag))
}

/// Relies on OcrEngine::TryCreateFromLanguage: a text recognizer for `language`.
#[verifier::external_body]
pub(crate) fn create_ocr_engine(language: &Language) -> (r: Result<OcrEngine, windows::core::Error>) {
    OcrEngine::TryCreateFromLanguage(language)
}

/// Relies on OcrEngine::RecognizeAsync, waited on until it completes.
#[verifier::external_body]
pub(crate) fn recognize_bitmap(engine: &OcrEngine, bitmap: &SoftwareBitmap) -> (r: Result<
    OcrResult,
    windows::core::Error,
>) {
    engine.RecognizeAsync(bitmap)?.get()
}

/// Relies on OcrResult::Lines and OcrLine::Text: the text of each recognized
/// line, top to bottom.
#[verifier::external_body]
pub(crate) fn result_lines(result: &OcrResult) -> (r: Result<Vec<String>, windows::core::Error>) {
    let mut lines = Vec::new();
    for line in result.Lines()? {
        lines.push(line.Text()?.to_string_lossy());
    }
    Ok(lines)
}

} // verus!
