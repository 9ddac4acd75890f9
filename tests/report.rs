use winml::device::Device;
use winml::onnx::{select_tensor_features, FeatureRead};
use winml::report::{
    append_feature_line, append_shape, decimal_text, recognition_report, render_report,
    tensor_kind_label, Direction, ModelSummary, TensorFeature,
};

fn feature(name: &str, required: bool, kind: i32, shape: Vec<i64>, description: &str) -> TensorFeature {
    TensorFeature {
        name: name.to_string(),
        description: description.to_string(),
        required,
        kind,
        shape,
    }
}

#[test]
fn decimal_of_small_and_signed_values() {
    assert_eq!(decimal_text(0), "0");
    assert_eq!(decimal_text(7), "7");
    assert_eq!(decimal_text(10), "10");
    assert_eq!(decimal_text(1000), "1000");
    assert_eq!(decimal_text(-1), "-1");
    assert_eq!(decimal_text(-305), "-305");
}

#[test]
fn decimal_of_extreme_values() {
    assert_eq!(decimal_text(i64::MAX), "9223372036854775807");
    assert_eq!(decimal_text(i64::MIN), "-9223372036854775808");
}

#[test]
fn shape_as_bracketed_list() {
    let mut out = String::new();
    append_shape(&mut out, &vec![1, 1000, 1, 1]);
    assert_eq!(out, "[1, 1000, 1, 1]");
    let mut out = String::from("x");
    append_shape(&mut out, &vec![]);
    assert_eq!(out, "x[]");
    let mut out = String::new();
    append_shape(&mut out, &vec![-1, 3, 224, 224]);
    assert_eq!(out, "[-1, 3, 224, 224]");
}

#[test]
fn every_tensor_kind_has_its_label() {
    let expected = [
        "Undefined", "F32", "U8", "I8", "U16", "I16", "I32", "I64", "String", "Bool", "F16", "F64",
        "U32", "U64", "C64", "C128",
    ];
    for (code, label) in expected.iter().enumerate() {
        assert_eq!(tensor_kind_label(code as i32), *label);
    }
    assert_eq!(tensor_kind_label(16), "Unknown");
    assert_eq!(tensor_kind_label(-1), "Unknown");
}

#[test]
fn feature_line_marks_optional_features() {
    let mut out = String::new();
    append_feature_line(&mut out, Direction::Input, &feature("data_0", true, 1, vec![1, 3], "image"));
    assert_eq!(
        out,
        "\x1B[033mInput:\x1B[0m \x1B[031mdata_0\x1B[0m:\x1B[036mTensor\x1B[0m \x1B[032m[1, 3]\x1B[0m \x1B[034mF32\x1B[0m image \n"
    );
    let mut out = String::new();
    append_feature_line(&mut out, Direction::Output, &feature("y", false, 7, vec![2], ""));
    assert_eq!(
        out,
        "\x1B[033mOutput:\x1B[0m \x1B[031my\x1B[0m*:\x1B[036mTensor\x1B[0m \x1B[032m[2]\x1B[0m \x1B[034mI64\x1B[0m  \n"
    );
}

#[test]
fn report_lists_header_metadata_inputs_outputs() {
    let m = ModelSummary {
        name: "squeezenet".to_string(),
        path: "SqueezeNet.onnx".to_string(),
        version: 9,
        author: "onnx".to_string(),
        domain: "ai".to_string(),
        description: "demo".to_string(),
        metadata: vec![("k".to_string(), "v".to_string())],
        inputs: vec![feature("data_0", true, 1, vec![1, 3, 224, 224], "in")],
        outputs: vec![feature("softmaxout_1", true, 1, vec![1, 1000, 1, 1], "out")],
    };
    let expected = "Model \x1B[031msqueezenet\x1B[0m in \x1B[035mSqueezeNet.onnx\x1B[0m\n\
        \x1B[033mVersion\x1B[0m: \x1B[032m9\x1B[0m\n\
        \x1B[033mAuthor\x1B[0m: \x1B[032monnx\x1B[0m\n\
        \x1B[033mDomain: \x1B[033mai\x1B[0m\n\
        \x1B[033mDescription\x1B[0m: demo\n\n\
        \"k\":\"v\"\n\
        \x1B[033mInput:\x1B[0m \x1B[031mdata_0\x1B[0m:\x1B[036mTensor\x1B[0m \x1B[032m[1, 3, 224, 224]\x1B[0m \x1B[034mF32\x1B[0m in \n\
        \x1B[033mOutput:\x1B[0m \x1B[031msoftmaxout_1\x1B[0m:\x1B[036mTensor\x1B[0m \x1B[032m[1, 1000, 1, 1]\x1B[0m \x1B[034mF32\x1B[0m out \n";
    assert_eq!(render_report(&m), expected);
}

#[test]
fn report_of_bare_model() {
    let m = ModelSummary {
        name: String::new(),
        path: "m".to_string(),
        version: -2,
        author: String::new(),
        domain: String::new(),
        description: String::new(),
        metadata: vec![],
        inputs: vec![],
        outputs: vec![],
    };
    assert_eq!(
        render_report(&m),
        "Model \x1B[031m\x1B[0m in \x1B[035mm\x1B[0m\n\x1B[033mVersion\x1B[0m: \x1B[032m-2\x1B[0m\n\x1B[033mAuthor\x1B[0m: \x1B[032m\x1B[0m\n\x1B[033mDomain: \x1B[033m\x1B[0m\n\x1B[033mDescription\x1B[0m: \n\n"
    );
}

#[test]
fn recognition_report_counts_then_lists_lines() {
    let lines = vec!["hello".to_string(), "世界".to_string()];
    assert_eq!(recognition_report(&lines), "Ok(2)\nhello\n世界\n");
    assert_eq!(recognition_report(&vec![]), "Ok(0)\n");
}

#[test]
fn device_kinds_follow_the_runtime_values() {
    assert_eq!(Device::Default.kind_code(), 0);
    assert_eq!(Device::Cpu.kind_code(), 1);
    assert_eq!(Device::DirectX.kind_code(), 2);
    assert_eq!(Device::DirectXHighPerformance.kind_code(), 3);
    assert_eq!(Device::DirectXMinPower.kind_code(), 4);
}

#[test]
fn only_tensor_features_are_selected_in_order() {
    let reads = vec![
        FeatureRead { kind: 0, tensor: Some(feature("a", true, 1, vec![1], "")) },
        FeatureRead { kind: 3, tensor: None },
        FeatureRead { kind: 2, tensor: Some(feature("ignored", true, 1, vec![], "")) },
        FeatureRead { kind: 0, tensor: Some(feature("b", false, 7, vec![2, 2], "")) },
    ];
    let selected = select_tensor_features(reads);
    let names: Vec<&str> = selected.iter().map(|f| f.name.as_str()).collect();
    assert_eq!(names, vec!["a", "b"]);
    assert_eq!(selected[1].shape, vec![2, 2]);
    assert!(select_tensor_features(vec![]).is_empty());
}
