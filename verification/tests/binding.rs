use tflite_binding::sys::tflite::{
    core_symbol_names, version_symbol_name, SemVer, TfLiteStatus, TfLiteType, TfLiteVt,
    CORE_SYMBOL_COUNT,
};
use tflite_binding::sys::xnnpack::{
    probe_outcome, xnnpack_symbol_names, ProbeOutcome, TfLiteXNNPackDelegateOptions, XnnPackVt,
};
use tflite_binding::{Delegate, DelegateKind, Error, TensorInfo, TfLite};

fn all_resolved() -> Vec<bool> {
    vec![true; CORE_SYMBOL_COUNT]
}

fn load_with_version(version: &str) -> Result<TfLiteVt, Error> {
    TfLiteVt::load(Some(version.to_string()), &all_resolved())
}

#[test]
fn bind_succeeds_at_minimum_version() {
    let vt = load_with_version("2.8.0").unwrap();
    assert_eq!(vt.version, SemVer { major: 2, minor: 8, patch: 0, pre: false });
    assert_eq!(vt.version_string, "2.8.0");
}

#[test]
fn bind_succeeds_at_newer_minor() {
    let vt = load_with_version("2.9.3").unwrap();
    assert_eq!(vt.version, SemVer { major: 2, minor: 9, patch: 3, pre: false });
}

#[test]
fn bind_fails_below_minimum() {
    assert!(matches!(load_with_version("2.7.9"), Err(Error::FailedToLoad)));
}

#[test]
fn bind_fails_on_newer_major_line() {
    assert!(matches!(load_with_version("3.0.0"), Err(Error::FailedToLoad)));
}

#[test]
fn bind_rejects_prerelease() {
    assert!(matches!(load_with_version("2.8.0-rc1"), Err(Error::FailedToLoad)));
}

#[test]
fn bind_fails_on_unparseable_version() {
    assert!(matches!(load_with_version("not-a-version"), Err(Error::FailedToLoad)));
}

#[test]
fn bind_fails_without_version_symbol() {
    assert!(matches!(
        TfLiteVt::load(None, &all_resolved()),
        Err(Error::FailedToLoad)
    ));
}

#[test]
fn bind_fails_when_any_symbol_is_missing() {
    for missing in 0..CORE_SYMBOL_COUNT {
        let mut resolved = all_resolved();
        resolved[missing] = false;
        assert!(matches!(
            TfLiteVt::load(Some("2.9.3".to_string()), &resolved),
            Err(Error::FailedToLoad)
        ));
    }
}

#[test]
fn version_gate_agrees_with_semver_requirement() {
    let req = semver::VersionReq::parse("2.8.0").unwrap();
    let candidates = [
        "2.7.9", "2.8.0", "2.8.1", "2.9.3", "2.19.0", "3.0.0", "1.8.0", "2.8.0-rc1",
        "2.9.0-alpha.1",
    ];
    for text in candidates {
        let version = semver::Version::parse(text).unwrap();
        let expected = req.matches(&version);
        let bound = load_with_version(text).is_ok();
        assert_eq!(bound, expected, "gate disagrees on {text}");
    }
}

#[test]
fn symbol_name_lists_are_fixed() {
    assert_eq!(version_symbol_name(), "TfLiteVersion");
    let names = core_symbol_names();
    assert_eq!(names.len(), CORE_SYMBOL_COUNT);
    assert_eq!(names[0], "TfLiteModelCreate");
    assert_eq!(names[19], "TfLiteTensorName");
    let ext = xnnpack_symbol_names();
    assert_eq!(
        ext,
        vec![
            "TfLiteXNNPackDelegateOptionsDefault",
            "TfLiteXNNPackDelegateCreate",
            "TfLiteXNNPackDelegateDelete",
        ]
    );
}

#[test]
fn probe_is_all_or_nothing() {
    assert_eq!(probe_outcome(false, false, false), ProbeOutcome::Absent);
    assert_eq!(probe_outcome(false, true, true), ProbeOutcome::Absent);
    assert_eq!(probe_outcome(true, true, true), ProbeOutcome::Present);
    assert_eq!(probe_outcome(true, false, true), ProbeOutcome::Inconsistent);
    assert_eq!(probe_outcome(true, true, false), ProbeOutcome::Inconsistent);
    assert_eq!(probe_outcome(true, false, false), ProbeOutcome::Inconsistent);
}

#[test]
fn extension_absence_is_not_an_error() {
    assert!(XnnPackVt::load(false, false, false).is_none());
    assert!(XnnPackVt::load(true, true, true).is_some());
}

fn load_engine(version: &str, with_xnnpack: bool) -> Result<TfLite, Error> {
    TfLite::load(
        true,
        Some(version.to_string()),
        &all_resolved(),
        with_xnnpack,
        with_xnnpack,
        with_xnnpack,
    )
}

#[test]
fn engine_load_reports_version_and_extension() {
    let engine = load_engine("2.11.1", true).unwrap();
    assert_eq!(engine.version(), "2.11.1");
    assert!(engine.xnnpack_available());

    let plain = load_engine("2.8.0", false).unwrap();
    assert!(!plain.xnnpack_available());
}

#[test]
fn engine_load_fails_when_library_does_not_open() {
    let r = TfLite::load(false, None, &all_resolved(), false, false, false);
    assert!(matches!(r, Err(Error::FailedToLoad)));
}

#[test]
fn model_create_keeps_bytes_and_handle() {
    let engine = load_engine("2.8.0", false).unwrap();
    let model = engine.model_create(vec![1, 2, 3], Some(7)).unwrap();
    assert_eq!(model.model, 7);
    assert_eq!(model.data, vec![1, 2, 3]);
}

#[test]
fn model_create_rejects_empty_buffer() {
    let engine = load_engine("2.8.0", false).unwrap();
    assert!(matches!(engine.model_create(Vec::new(), Some(7)), Err(Error::Generic)));
}

#[test]
fn model_create_rejects_null_handle() {
    let engine = load_engine("2.8.0", false).unwrap();
    assert!(matches!(engine.model_create(vec![1], None), Err(Error::Generic)));
}

#[test]
fn options_record_threads_and_delegate_order() {
    let engine = load_engine("2.8.0", true).unwrap();
    let mut options = engine.interpreter_options_create(11);
    assert_eq!(options.options, 11);
    assert!(options.num_threads.is_none());
    assert!(options.delegates.is_empty());

    options.set_num_threads(4);
    assert_eq!(options.num_threads, Some(4));

    let defaults = engine.xnnpack_delegate_options_default(TfLiteXNNPackDelegateOptions {
        num_threads: 2,
    });
    assert_eq!(defaults.num_threads, 2);
    let first = engine.xnnpack_delegate_create(&defaults, 21);
    let second = engine.xnnpack_delegate_create(&defaults, 22);
    assert_eq!(first.destructor, DelegateKind::XnnPack);
    options.add_delegate(first);
    options.add_delegate(second);
    assert_eq!(options.delegates.len(), 2);
    assert_eq!(options.delegates[0].delegate, 21);
    assert_eq!(options.delegates[1].delegate, 22);
}

fn make_interpreter(delegates: Vec<Delegate>) -> tflite_binding::Interpreter {
    let engine = load_engine("2.8.0", false).unwrap();
    let model = engine.model_create(vec![5, 6], Some(31)).unwrap();
    let mut options = engine.interpreter_options_create(32);
    for d in delegates {
        options.add_delegate(d);
    }
    engine.interpreter_create(model, options, Some((33, 2, 1))).unwrap()
}

#[test]
fn interpreter_takes_model_and_delegates() {
    let delegate = Delegate { delegate: 41, destructor: DelegateKind::XnnPack };
    let interp = make_interpreter(vec![delegate]);
    assert_eq!(interp.interpreter, 33);
    assert_eq!(interp.model.model, 31);
    assert_eq!(interp.model.data, vec![5, 6]);
    assert_eq!(interp.delegates, vec![delegate]);
    assert!(!interp.allocated);
    assert_eq!(interp.input_tensor_count(), 2);
    assert_eq!(interp.output_tensor_count(), 1);
}

#[test]
fn interpreter_create_rejects_null_handle() {
    let engine = load_engine("2.8.0", false).unwrap();
    let model = engine.model_create(vec![5], Some(31)).unwrap();
    let options = engine.interpreter_options_create(32);
    assert!(matches!(
        engine.interpreter_create(model, options, None),
        Err(Error::Generic)
    ));
}

fn sample_info(data_present: bool) -> TensorInfo {
    TensorInfo {
        tensor: 51,
        type_code: 3,
        dims: vec![1, 4],
        byte_size: 4,
        data_present,
        name: "input".to_string(),
    }
}

#[test]
fn tensor_index_out_of_range_is_absent() {
    let interp = make_interpreter(Vec::new());
    assert!(interp.input_tensor(2, Some(sample_info(true))).is_none());
    assert!(interp.input_tensor(-1, Some(sample_info(true))).is_none());
    assert!(interp.output_tensor(1, Some(sample_info(true))).is_none());
    assert!(interp.output_tensor(-3, None).is_none());
}

#[test]
fn tensor_null_result_is_absent_in_range() {
    let interp = make_interpreter(Vec::new());
    assert!(interp.input_tensor(0, None).is_none());
}

#[test]
fn no_tensor_data_before_successful_allocation() {
    let mut interp = make_interpreter(Vec::new());
    let before = interp.input_tensor(0, Some(sample_info(true))).unwrap();
    assert!(before.data().is_none());

    assert!(matches!(
        interp.allocate_tensors(TfLiteStatus::Error),
        Err(Error::ErrorStatus(TfLiteStatus::Error))
    ));
    let still = interp.input_tensor(0, Some(sample_info(true))).unwrap();
    assert!(still.data().is_none());

    interp.allocate_tensors(TfLiteStatus::Okay).unwrap();
    let mut after = interp.output_tensor(0, Some(sample_info(true))).unwrap();
    assert_eq!(after.data(), Some(4));
    assert_eq!(after.data_mut(), Some(4));
}

#[test]
fn allocation_failure_passes_status_through() {
    let mut interp = make_interpreter(Vec::new());
    let r = interp.allocate_tensors(TfLiteStatus::DelegateError);
    assert!(matches!(r, Err(Error::ErrorStatus(TfLiteStatus::DelegateError))));
    assert!(!interp.allocated());
}

#[test]
fn invoke_passes_status_through() {
    let mut interp = make_interpreter(Vec::new());
    interp.allocate_tensors(TfLiteStatus::Okay).unwrap();
    assert!(interp.invoke(TfLiteStatus::Okay).is_ok());
    assert!(matches!(
        interp.invoke(TfLiteStatus::UnresolvedOps),
        Err(Error::ErrorStatus(TfLiteStatus::UnresolvedOps))
    ));
    assert!(interp.allocated());
}

#[test]
fn tensor_accessors_reflect_fetched_metadata() {
    let mut interp = make_interpreter(Vec::new());
    interp.allocate_tensors(TfLiteStatus::Okay).unwrap();
    let tensor = interp.input_tensor(1, Some(sample_info(true))).unwrap();
    assert_eq!(tensor.tensor, 51);
    assert_eq!(tensor.type_(), TfLiteType::UInt8);
    assert_eq!(tensor.num_dims(), 2);
    assert_eq!(tensor.dim(0), 1);
    assert_eq!(tensor.dim(1), 4);
    assert_eq!(tensor.name(), "input");
}

#[test]
fn unknown_type_code_decodes_to_no_type() {
    let mut info = sample_info(false);
    info.type_code = 99;
    let interp = make_interpreter(Vec::new());
    let tensor = interp.input_tensor(0, Some(info)).unwrap();
    assert_eq!(tensor.type_(), TfLiteType::NoType);
}

#[test]
fn status_codes_round_trip() {
    let all = [
        TfLiteStatus::Okay,
        TfLiteStatus::Error,
        TfLiteStatus::DelegateError,
        TfLiteStatus::ApplicationError,
        TfLiteStatus::DelegateDataNotFound,
        TfLiteStatus::DelegateDataWriteError,
        TfLiteStatus::DelegateDataReadError,
        TfLiteStatus::UnresolvedOps,
    ];
    for (i, status) in all.iter().enumerate() {
        assert_eq!(status.code(), i as i32);
        assert_eq!(TfLiteStatus::from_code(i as i32), Some(*status));
    }
    assert_eq!(TfLiteStatus::from_code(8), None);
    assert_eq!(TfLiteStatus::from_code(-1), None);
}

#[test]
fn type_codes_round_trip() {
    for code in 0..17 {
        let t = TfLiteType::from_code(code).unwrap();
        assert_eq!(t.code(), code);
    }
    assert_eq!(TfLiteType::from_code(17), None);
    assert_eq!(TfLiteType::from_code(5), Some(TfLiteType::String));
}
