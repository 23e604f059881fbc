use optee_sdk::error::ErrorKind;
use optee_sdk::parameter::memref::{
    ParameterMemref, ParameterMemrefInout, ParameterMemrefInput, ParameterMemrefOutput,
    ParameterMemrefRead, ParameterMemrefWrite,
};
use optee_sdk::parameter::{FromRawParameter, ParamType};
use optee_sdk::raw::{
    self, TeeParam, TEE_PARAM_TYPE_MEMREF_INOUT, TEE_PARAM_TYPE_MEMREF_INPUT,
    TEE_PARAM_TYPE_MEMREF_OUTPUT,
};

fn memref(buffer: Option<Vec<u8>>, size: usize) -> TeeParam {
    TeeParam::new_memref(buffer, size)
}

#[test]
fn typed_wrappers_reject_null_buffers() {
    let cases = [
        (raw::TEE_PARAM_TYPE_MEMREF_INPUT, ParamType::MemrefInput),
        (raw::TEE_PARAM_TYPE_MEMREF_INOUT, ParamType::MemrefInout),
        (raw::TEE_PARAM_TYPE_MEMREF_OUTPUT, ParamType::MemrefOutput),
    ];

    for (raw_type, param_type) in cases {
        let raw_param = memref(None, 0);
        let error = match param_type {
            ParamType::MemrefInput => ParameterMemrefInput::from_raw(raw_type, raw_param).map(|_| ()),
            ParamType::MemrefInout => ParameterMemrefInout::from_raw(raw_type, raw_param).map(|_| ()),
            ParamType::MemrefOutput => {
                ParameterMemrefOutput::from_raw(raw_type, raw_param).map(|_| ())
            }
            _ => unreachable!(),
        }
        .unwrap_err();
        assert_eq!(error.kind(), ErrorKind::BadParameters);
    }
}

#[test]
fn zero_length_non_null_buffer_is_valid() {
    let raw_param = memref(Some(Vec::new()), 0);
    let input = ParameterMemrefInput::from_raw(TEE_PARAM_TYPE_MEMREF_INPUT, raw_param).unwrap();
    assert!(input.read_to_vec().is_empty());
}

#[test]
fn read_at_boundary_contract() {
    let backing = vec![1u8, 2, 3, 4, 5];
    let raw_param = memref(Some(backing.clone()), backing.len());
    let input = ParameterMemrefInput::from_raw(TEE_PARAM_TYPE_MEMREF_INPUT, raw_param).unwrap();
    // exactly at the end: zero bytes, no copy
    let mut empty: [u8; 0] = [];
    assert_eq!(input.read_at(5, &mut empty).unwrap(), 0);
    let mut too_big = [0u8; 10];
    assert_eq!(input.read_at(5, &mut too_big).unwrap(), 0);
    // beyond the end: rejected without copying
    assert_eq!(
        input.read_at(6, &mut too_big).unwrap_err().kind(),
        ErrorKind::BadParameters
    );
    assert_eq!(
        input.read_at(usize::MAX, &mut too_big).unwrap_err().kind(),
        ErrorKind::BadParameters
    );
}

#[test]
fn wrappers_check_the_type_tag() {
    let err = ParameterMemrefInput::from_raw(TEE_PARAM_TYPE_MEMREF_OUTPUT, memref(Some(vec![1]), 1))
        .map(|_| ())
        .unwrap_err();
    assert_eq!(err.kind(), ErrorKind::BadParameters);
    assert!(ParameterMemrefOutput::from_raw(TEE_PARAM_TYPE_MEMREF_OUTPUT, memref(Some(vec![1]), 1)).is_ok());
}

#[test]
fn read_at_copies_available_bytes() {
    let raw_param = memref(Some(vec![10, 20, 30, 40, 50]), 5);
    let input = ParameterMemrefInput::from_raw(TEE_PARAM_TYPE_MEMREF_INPUT, raw_param).unwrap();
    let mut dest = [0u8; 3];
    assert_eq!(input.read_at(1, &mut dest).unwrap(), 3);
    assert_eq!(dest, [20, 30, 40]);
    let mut dest = [9u8; 4];
    assert_eq!(input.read_at(3, &mut dest).unwrap(), 2);
    assert_eq!(dest, [40, 50, 9, 9]);
    assert_eq!(input.buffer_len(), 5);
    assert_eq!(input.read_to_vec(), vec![10, 20, 30, 40, 50]);
}

#[test]
fn write_at_then_read_back() {
    let raw_param = memref(Some(vec![0u8; 6]), 6);
    let mut inout = ParameterMemrefInout::from_raw(TEE_PARAM_TYPE_MEMREF_INOUT, raw_param).unwrap();
    inout.write_at(2, &[7, 8]).unwrap();
    assert_eq!(inout.read_to_vec(), vec![0, 0, 7, 8, 0, 0]);
    assert_eq!(inout.buffer_len(), 6);
    let raw = inout.into_raw();
    assert_eq!(raw.memref.size, 4);
    assert_eq!(raw.memref.buffer, Some(vec![0, 0, 7, 8, 0, 0]));
}

#[test]
fn write_errors_leave_the_output_unchanged() {
    let raw_param = memref(Some(vec![1, 2, 3]), 3);
    let mut out = ParameterMemrefOutput::from_raw(TEE_PARAM_TYPE_MEMREF_OUTPUT, raw_param).unwrap();
    assert_eq!(out.write_at(2, &[1, 2]).unwrap_err().kind(), ErrorKind::ShortBuffer);
    assert_eq!(out.write_at(usize::MAX, &[1]).unwrap_err().kind(), ErrorKind::ShortBuffer);
    assert_eq!(out.set_updated_size(4).unwrap_err().kind(), ErrorKind::ShortBuffer);
    let raw = out.into_raw();
    assert_eq!(raw.memref.size, 3);
    assert_eq!(raw.memref.buffer, Some(vec![1, 2, 3]));
}

#[test]
fn set_output_reports_its_length() {
    let raw_param = memref(Some(vec![0u8; 4]), 4);
    let mut out = ParameterMemrefOutput::from_raw(TEE_PARAM_TYPE_MEMREF_OUTPUT, raw_param).unwrap();
    out.set_output(&[5, 6]).unwrap();
    out.set_updated_size(3).unwrap();
    let raw = out.into_raw();
    assert_eq!(raw.memref.size, 3);
    assert_eq!(raw.memref.buffer, Some(vec![5, 6, 0, 0]));
}
