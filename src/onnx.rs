use vstd::prelude::*;
use vstd::string::StringExecFns;
use windows::AI::MachineLearning::{
    ILearningModelFeatureDescriptor, LearningModel, LearningModelBinding, LearningModelDevice,
    LearningModelEvaluationResult, LearningModelSession,
};
use crate::device::Device;
use crate::error::{fail, RuntimeError, Step};
use crate::platform::{
    create_binding, create_device, create_session, evaluate, feature_description, feature_is_required,
    feature_kind, feature_name, input_features, model_author, model_description, model_domain,
    model_metadata, model_name, model_version, output_features, tensor_kind, tensor_shape,
};
use crate::report::{render_report, report_text, ModelSummary, TensorFeature};

verus! {

/// The runtime's `LearningModelFeatureKind` value of tensor features.
pub const TENSOR_FEATURE_KIND: i32 = 0;

/// A loaded model together with the device it runs on and the session that
/// evaluates it.
pub struct OnnxModelSession {
    pub model_path: String,
    pub device: LearningModelDevice,
    pub model: LearningModel,
    pub session: LearningModelSession,
}

/// What was read of one feature descriptor: its runtime feature kind and, for
/// a feature of tensor kind, what a report shows of it.
pub struct FeatureRead {
    pub kind: i32,
    pub tensor: Option<TensorFeature>,
}

/// The report entry of one read feature: one for a tensor, none otherwise.
pub open spec fn feature_entry(f: FeatureRead) -> Seq<TensorFeature> {
    match f.tensor {
        Some(t) => if f.kind == TENSOR_FEATURE_KIND {
            seq![t]
        } else {
            Seq::empty()
        },
        None => Seq::empty(),
    }
}

/// The report entries of the features of tensor kind among `reads`, in order.
pub open spec fn tensor_list(reads: Seq<FeatureRead>) -> Seq<TensorFeature>
    decreases reads.len(),
{
    if reads.len() == 0 {
        Seq::empty()
    } else {
        feature_entry(reads[0]) + tensor_list(reads.skip(1))
    }
}

/// The report entries of the tensor features among `reads`, in order; features
/// of other kinds are left out.
pub fn select_tensor_features(reads: Vec<FeatureRead>) -> (r: Vec<TensorFeature>)
    ensures
        r@ == tensor_list(reads@),
{
    let ghost all = reads@;
    let mut rest = reads;
    let mut out: Vec<TensorFeature> = Vec::new();
    while rest.len() > 0
        invariant
            tensor_list(all) == out@ + tensor_list(rest@),
        decreases rest@.len(),
    {
        let ghost before = rest@;
        let f = rest.remove(0);
        assert(rest@ =~= before.skip(1));
        if f.kind == TENSOR_FEATURE_KIND {
            match f.tensor {
                Some(t) => {
                    out.push(t);
                },
                None => {},
            }
        }
        assert(tensor_list(all) =~= out@ + tensor_list(rest@));
    }
    assert(tensor_list(rest@) =~= Seq::empty());
    assert(out@ =~= tensor_list(all));
    out
}

/// Reads the kind of one descriptor and, for a tensor feature, its element kind,
/// shape, whether it is required, its name and description, in that order.
fn read_feature(d: &ILearningModelFeatureDescriptor) -> (r: Result<FeatureRead, RuntimeError>)
    ensures
        r matches Ok(f) ==> (f.tensor is Some <==> f.kind == TENSOR_FEATURE_KIND),
        r matches Err(e) ==> e.step == Step::ReadModel,
{
    let kind = match feature_kind(d) {
        Ok(k) => k,
        Err(e) => return fail(Step::ReadModel, e),
    };
    if kind != TENSOR_FEATURE_KIND {
        return Ok(FeatureRead { kind, tensor: None });
    }
    let elements = match tensor_kind(d) {
        Ok(k) => k,
        Err(e) => return fail(Step::ReadModel, e),
    };
    let shape = match tensor_shape(d) {
        Ok(s) => s,
        Err(e) => return fail(Step::ReadModel, e),
    };
    let required = match feature_is_required(d) {
        Ok(b) => b,
        Err(e) => return fail(Step::ReadModel, e),
    };
    let name = match feature_name(d) {
        Ok(s) => s,
        Err(e) => return fail(Step::ReadModel, e),
    };
    let description = match feature_description(d) {
        Ok(s) => s,
        Err(e) => return fail(Step::ReadModel, e),
    };
    Ok(
        FeatureRead {
            kind,
            tensor: Some(TensorFeature { name, description, required, kind: elements, shape }),
        },
    )
}

/// Every read of a feature holds a tensor exactly when its kind is the tensor kind.
pub open spec fn reads_consistent(reads: Seq<FeatureRead>) -> bool {
    forall|i: int| 0 <= i < reads.len() ==> (#[trigger] reads[i].tensor is Some <==> reads[i].kind
        == TENSOR_FEATURE_KIND)
}

/// The inputs and outputs of `m` are the tensor features among some reads of
/// the model's input and output descriptors.
pub open spec fn features_from_reads(m: ModelSummary) -> bool {
    exists|ins: Seq<FeatureRead>, outs: Seq<FeatureRead>|
        reads_consistent(ins) && reads_consistent(outs) && m.inputs@ == #[trigger] tensor_list(ins)
            && m.outputs@ == #[trigger] tensor_list(outs)
}

/// Reads every descriptor of `list`, in order, and keeps the tensor features.
fn tensor_features(list: Vec<ILearningModelFeatureDescriptor>) -> (r: Result<
    Vec<TensorFeature>,
    RuntimeError,
>)
    ensures
        r matches Ok(v) ==> exists|reads: Seq<FeatureRead>|
            reads.len() == list@.len() && reads_consistent(reads) && v@ == #[trigger] tensor_list(
                reads,
            ),
        r matches Err(e) ==> e.step == Step::ReadModel,
{
    let mut reads: Vec<FeatureRead> = Vec::new();
    let n = list.len();
    for i in 0..n
        invariant
            n == list@.len(),
            reads@.len() == i,
            reads_consistent(reads@),
    {
        match read_feature(&list[i]) {
            Ok(f) => reads.push(f),
            Err(e) => return Err(e),
        }
    }
    let ghost all = reads@;
    let v = select_tensor_features(reads);
    assert(v@ == tensor_list(all));
    Ok(v)
}

impl OnnxModelSession {
    /// Opens a device of the requested kind, then loads the model through `load`,
    /// then opens a session of the model on the device. `model_path` names
    /// where the model is loaded from.
    pub fn build<F: FnOnce() -> Result<LearningModel, windows::core::Error>>(
        model_path: &str,
        device: Device,
        load: F,
    ) -> (r: Result<Self, RuntimeError>)
        requires
            load.requires(()),
        ensures
            r matches Ok(s) ==> s.model_path@ == model_path@ && load.ensures((), Ok(s.model)),
            r matches Err(e) ==> e.step == Step::CreateDevice || e.step == Step::LoadModel
                || e.step == Step::CreateSession,
            r matches Err(e) ==> (e.step == Step::LoadModel ==> load.ensures((), Err(e.cause))),
    {
        let device = match create_device(device.kind_code()) {
            Ok(d) => d,
            Err(e) => return fail(Step::CreateDevice, e),
        };
        let model = match load() {
            Ok(m) => m,
            Err(e) => return fail(Step::LoadModel, e),
        };
        let session = match create_session(&model, &device) {
            Ok(s) => s,
            Err(e) => return fail(Step::CreateSession, e),
        };
        Ok(OnnxModelSession { model_path: String::from_str(model_path), device, model, session })
    }

    /// Reads the model's name, version, author, domain, description, metadata
    /// and tensor features.
    pub fn summary(&self) -> (r: Result<ModelSummary, RuntimeError>)
        ensures
            r matches Ok(m) ==> m.path@ == self.model_path@ && features_from_reads(m),
            r matches Err(e) ==> e.step == Step::ReadModel,
    {
        let model = &self.model;
        let name = match model_name(model) {
            Ok(s) => s,
            Err(e) => return fail(Step::ReadModel, e),
        };
        let version = match model_version(model) {
            Ok(v) => v,
            Err(e) => return fail(Step::ReadModel, e),
        };
        let author = match model_author(model) {
            Ok(s) => s,
            Err(e) => return fail(Step::ReadModel, e),
        };
        let domain = match model_domain(model) {
            Ok(s) => s,
            Err(e) => return fail(Step::ReadModel, e),
        };
        let description = match model_description(model) {
            Ok(s) => s,
            Err(e) => return fail(Step::ReadModel, e),
        };
        let metadata = match model_metadata(model) {
            Ok(m) => m,
            Err(e) => return fail(Step::ReadModel, e),
        };
        let input_list = match input_features(model) {
            Ok(l) => l,
            Err(e) => return fail(Step::ReadModel, e),
        };
        let output_list = match output_features(model) {
            Ok(l) => l,
            Err(e) => return fail(Step::ReadModel, e),
        };
        let inputs = match tensor_features(input_list) {
            Ok(v) => v,
            Err(e) => return Err(e),
        };
        let outputs = match tensor_features(output_list) {
            Ok(v) => v,
            Err(e) => return Err(e),
        };
        Ok(
            ModelSummary {
                name,
                path: self.model_path.clone(),
                version,
                author,
                domain,
                description,
                metadata,
                inputs,
                outputs,
            },
        )
    }

    /// The report on the model: its header, metadata, and tensor inputs and outputs.
    pub fn inspect(&self) -> (r: Result<String, RuntimeError>)
        ensures
            r matches Ok(t) ==> exists|m: ModelSummary|
                m.path@ == self.model_path@ && features_from_reads(m) && t@ == #[trigger] report_text(
                    m,
                ),
            r matches Err(e) ==> e.step == Step::ReadModel,
    {
        match self.summary() {
            Ok(m) => {
                let t = render_report(&m);
                assert(t@ == report_text(m));
                Ok(t)
            },
            Err(e) => Err(e),
        }
    }

    /// Creates a binding, lets `handle` bind the features, and then evaluates the
    /// model on that binding, tagged `run_id`.
    pub fn predict_h<T: FnOnce(&LearningModelBinding)>(&self, handle: T) -> (r: Result<
        LearningModelEvaluationResult,
        RuntimeError,
    >)
        requires
            forall|b: &LearningModelBinding| #[trigger] handle.requires((b,)),
        ensures
            r matches Err(e) ==> e.step == Step::CreateBinding || e.step == Step::Evaluate,
            !(r matches Err(e) && e.step == Step::CreateBinding) ==> exists|b: &LearningModelBinding|
                #[trigger] handle.ensures((b,), ()),
    {
        let binding = match create_binding(&self.session) {
            Ok(b) => b,
            Err(e) => return fail(Step::CreateBinding, e),
        };
        handle(&binding);
        match evaluate(&self.session, &binding, "run_id") {
            Ok(res) => Ok(res),
            Err(e) => fail(Step::Evaluate, e),
        }
    }
}

} // verus!
