use optee_sdk::error::ErrorKind;
use optee_sdk::error::Error;
use optee_sdk::plugin::{result_code, PluginParameters, TEEC_SUCCESS};
use optee_sdk::plugin_bindgen::{Config, DEFAULT_INIT_FN_NAME, DEFAULT_INVOKE_FN_NAME};
use optee_sdk::plugin_signature::{
    check_path_might_match, valid_init_signature, valid_invoke_signature, FnSignature, ParamShape,
};

fn path(segments: &[&str]) -> Vec<String> {
    segments.iter().map(|s| s.to_string()).collect()
}

fn sig(return_path: Option<Vec<String>>, inputs: Vec<ParamShape>) -> FnSignature {
    FnSignature {
        is_const: false,
        is_private: true,
        has_abi: false,
        has_where_clause: false,
        is_variadic: false,
        return_path,
        inputs,
    }
}

#[test]
fn null_buffer_needs_no_io() {
    assert!(PluginParameters::from_raw(1, 2, None, 0, None).is_ok());
    assert_eq!(
        PluginParameters::from_raw(1, 2, None, 4, None).err().unwrap().kind(),
        ErrorKind::BadParameters
    );
    assert_eq!(
        PluginParameters::from_raw(1, 2, None, 0, Some(0)).err().unwrap().kind(),
        ErrorKind::BadParameters
    );
}

#[test]
fn set_buf_from_slice_sets_the_output_length() {
    let mut p = PluginParameters::from_raw(7, 8, Some(vec![0; 4]), 4, Some(0)).unwrap();
    assert_eq!((p.cmd, p.sub_cmd), (7, 8));
    p.set_buf_from_slice(&[1, 2]).unwrap();
    assert_eq!(p.get_buffer(), &[1, 2, 0, 0]);
    assert_eq!(p.out_len(), Some(2));
    assert_eq!(p.set_buf_from_slice(&[0; 5]).unwrap_err().kind(), ErrorKind::ShortBuffer);
    assert_eq!(p.get_buffer(), &[1, 2, 0, 0]);
    assert_eq!(p.out_len(), Some(2));
}

#[test]
fn output_needs_an_output_length() {
    let mut p = PluginParameters::from_raw(0, 0, Some(vec![5; 3]), 3, None).unwrap();
    assert_eq!(p.set_buf_from_slice(&[1]).unwrap_err().kind(), ErrorKind::BadState);
    assert_eq!(p.write_output_at(0, &[1]).unwrap_err().kind(), ErrorKind::BadState);
    assert_eq!(p.set_out_len(1).unwrap_err().kind(), ErrorKind::BadState);
    assert_eq!(p.get_buffer(), &[5, 5, 5]);
}

#[test]
fn write_output_at_then_read_back() {
    let mut p = PluginParameters::from_raw(0, 0, Some(vec![0; 6]), 6, Some(0)).unwrap();
    p.write_output_at(2, &[9, 8]).unwrap();
    assert_eq!(p.get_buffer(), &[0, 0, 9, 8, 0, 0]);
    assert_eq!(p.out_len(), Some(4));
    assert_eq!(p.write_output_at(5, &[1, 1]).unwrap_err().kind(), ErrorKind::ShortBuffer);
    assert_eq!(p.out_len(), Some(4));
}

#[test]
fn write_output_at_overflow_is_a_short_buffer() {
    let mut p = PluginParameters::from_raw(0, 0, Some(vec![7; 4]), 4, Some(0)).unwrap();
    assert_eq!(p.write_output_at(usize::MAX, &[1, 2]).unwrap_err().kind(), ErrorKind::ShortBuffer);
    assert_eq!(p.get_buffer(), &[7, 7, 7, 7]);
    assert_eq!(p.out_len(), Some(0));
}

#[test]
fn buffer_in_place_then_set_out_len() {
    let mut p = PluginParameters::from_raw(0, 0, Some(vec![0; 3]), 3, Some(0)).unwrap();
    p.get_buffer_mut()[0] = 42;
    p.set_out_len(1).unwrap();
    assert_eq!(p.get_buffer(), &[42, 0, 0]);
    assert_eq!(p.out_len(), Some(1));
    assert_eq!(p.set_out_len(4).unwrap_err().kind(), ErrorKind::BadParameters);
    assert_eq!(p.out_len(), Some(1));
}

#[test]
fn path_suffixes_match() {
    assert!(check_path_might_match(&path(&["Result"]), &["optee_teec", "Result"]));
    assert!(check_path_might_match(&path(&["optee_teec", "Result"]), &["optee_teec", "Result"]));
    assert!(check_path_might_match(&path(&[]), &["optee_teec", "Result"]));
    assert!(!check_path_might_match(&path(&["std", "Result"]), &["optee_teec", "Result"]));
    assert!(!check_path_might_match(&path(&["a", "optee_teec", "Result"]), &["optee_teec", "Result"]));
}

#[test]
fn init_signature_checks() {
    assert!(valid_init_signature(&sig(Some(path(&["Result"])), vec![])));
    assert!(!valid_init_signature(&sig(Some(path(&["io", "Result"])), vec![])));
    assert!(!valid_init_signature(&sig(None, vec![])));
    assert!(!valid_init_signature(&sig(Some(path(&["Result"])), vec![ParamShape::Other])));
    let mut s = sig(Some(path(&["Result"])), vec![]);
    s.is_private = false;
    assert!(!valid_init_signature(&s));
    let mut s = sig(Some(path(&["Result"])), vec![]);
    s.has_abi = true;
    assert!(!valid_init_signature(&s));
}

#[test]
fn invoke_signature_checks() {
    let param = || ParamShape::MutRefToPath(path(&["optee_teec", "PluginParameters"]));
    assert!(valid_invoke_signature(&sig(Some(path(&["optee_teec", "Result"])), vec![param()])));
    assert!(valid_invoke_signature(&sig(
        Some(path(&["Result"])),
        vec![ParamShape::MutRefToPath(path(&["PluginParameters"]))]
    )));
    assert!(!valid_invoke_signature(&sig(Some(path(&["Result"])), vec![])));
    assert!(!valid_invoke_signature(&sig(Some(path(&["Result"])), vec![ParamShape::Other])));
    assert!(!valid_invoke_signature(&sig(Some(path(&["Result"])), vec![param(), param()])));
    let mut s = sig(Some(path(&["Result"])), vec![param()]);
    s.is_const = true;
    assert!(!valid_invoke_signature(&s));
}

#[test]
fn binding_parts_follow_the_config() {
    let uuid = [
        0xef, 0x62, 0x07, 0x57, 0xfa, 0x2b, 0x4f, 0x19, 0xa1, 0xc4, 0x6e, 0x51, 0xcf, 0xe4, 0xc0, 0xf9,
    ];
    let parts = Config::new(uuid).binding_parts();
    assert_eq!(parts.name_with_nul, "optee-teec-plugin-bindgen\0");
    assert_eq!(parts.time_low, 0xef620757);
    assert_eq!(parts.time_mid, 0xfa2b);
    assert_eq!(parts.time_hi_and_version, 0x4f19);
    assert_eq!(parts.clock_seq_and_node, [0xa1, 0xc4, 0x6e, 0x51, 0xcf, 0xe4, 0xc0, 0xf9]);
    assert_eq!(parts.init_fn_name, DEFAULT_INIT_FN_NAME);
    assert_eq!(parts.invoke_fn_name, DEFAULT_INVOKE_FN_NAME);

    let config = Config::new(uuid).with_name("syslog").with_init_fn_name("i").with_invoke_fn_name("v");
    let parts = config.binding_parts();
    assert_eq!(parts.name_with_nul, "syslog\0");
    assert_eq!((parts.init_fn_name.as_str(), parts.invoke_fn_name.as_str()), ("i", "v"));
    assert_eq!(config.out_path("/out"), "/out/plugin_static.rs");
}

#[test]
fn entry_point_result_codes() {
    assert_eq!(result_code(&Ok(())), TEEC_SUCCESS);
    assert_eq!(result_code(&Err(Error::new(ErrorKind::BadParameters))), 0xFFFF0006);
    let decoded = PluginParameters::from_raw(0, 0, None, 1, None).map(|_| ());
    assert_eq!(result_code(&decoded), 0xFFFF0006);
}
