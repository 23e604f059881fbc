use optee_sdk::error::{Error, ErrorKind};
use optee_sdk::parameter::deprecated::{ParamTypes, Parameters};
use optee_sdk::parameter::memref::{ParameterMemrefRead, ParameterMemrefWrite};
use optee_sdk::parameter::none::ParameterNone;
use optee_sdk::parameter::value::{
    ParameterValueInout, ParameterValueInput, ParameterValueOutput, ParameterValueRead,
    ParameterValueWrite,
};
use optee_sdk::parameter::{
    check_type_is, FromRawParameter, FromRawParameters, ParamType, ParameterAny, ParametersAny,
};
use optee_sdk::raw::{
    tee_param_type_get, TeeParam, TEE_PARAM_TYPE_MEMREF_INOUT, TEE_PARAM_TYPE_MEMREF_INPUT,
    TEE_PARAM_TYPE_MEMREF_OUTPUT, TEE_PARAM_TYPE_NONE, TEE_PARAM_TYPE_VALUE_INOUT,
    TEE_PARAM_TYPE_VALUE_INPUT, TEE_PARAM_TYPE_VALUE_OUTPUT,
};

fn types(t0: u32, t1: u32, t2: u32, t3: u32) -> u32 {
    t0 | (t1 << 4) | (t2 << 8) | (t3 << 12)
}

#[test]
fn tag_roundtrip_on_every_nibble() {
    for tag in 0u32..16 {
        assert_eq!(ParamType::from_tag(tag).tag(), tag);
    }
    assert_eq!(ParamType::from_tag(0), ParamType::Unused);
    assert_eq!(ParamType::from_tag(1), ParamType::ValueInput);
    assert_eq!(ParamType::from_tag(2), ParamType::ValueOutput);
    assert_eq!(ParamType::from_tag(3), ParamType::ValueInout);
    assert_eq!(ParamType::from_tag(4), ParamType::Unknown(4));
    assert_eq!(ParamType::from_tag(5), ParamType::MemrefInput);
    assert_eq!(ParamType::from_tag(6), ParamType::MemrefOutput);
    assert_eq!(ParamType::from_tag(7), ParamType::MemrefInout);
    for t in [ParamType::Unused, ParamType::ValueInout, ParamType::MemrefOutput, ParamType::Unknown(9)] {
        assert_eq!(ParamType::from_tag(t.tag()), t);
    }
}

#[test]
fn type_word_nibbles() {
    let w = types(1, 5, 7, 0);
    assert_eq!(tee_param_type_get(w, 0), 1);
    assert_eq!(tee_param_type_get(w, 1), 5);
    assert_eq!(tee_param_type_get(w, 2), 7);
    assert_eq!(tee_param_type_get(w, 3), 0);
    let (a, b, c, d) = ParamTypes::from(w).into_flags();
    assert_eq!((a, b, c, d), (ParamType::ValueInput, ParamType::MemrefInput, ParamType::MemrefInout, ParamType::Unused));
}

#[test]
fn check_type_is_compares_tags() {
    assert!(check_type_is(TEE_PARAM_TYPE_VALUE_INPUT, ParamType::ValueInput).is_ok());
    assert_eq!(
        check_type_is(TEE_PARAM_TYPE_VALUE_OUTPUT, ParamType::ValueInput).unwrap_err().kind(),
        ErrorKind::BadParameters
    );
}

#[test]
fn value_wrappers_read_and_write_registers() {
    let input = ParameterValueInput::from_raw(TEE_PARAM_TYPE_VALUE_INPUT, TeeParam::new_value(3, 4)).unwrap();
    assert_eq!((input.get_a(), input.get_b()), (3, 4));
    let mut inout = ParameterValueInout::from_raw(TEE_PARAM_TYPE_VALUE_INOUT, TeeParam::new_value(1, 2)).unwrap();
    inout.set_a(10);
    assert_eq!((inout.get_a(), inout.get_b()), (10, 2));
    let mut output = ParameterValueOutput::from_raw(TEE_PARAM_TYPE_VALUE_OUTPUT, TeeParam::new_value(0, 0)).unwrap();
    output.set_b(7);
    let raw = output.into_raw();
    assert_eq!((raw.value.a, raw.value.b), (0, 7));
    assert!(ParameterValueInput::from_raw(TEE_PARAM_TYPE_VALUE_INOUT, TeeParam::new_value(0, 0)).is_err());
    assert!(ParameterNone::from_raw(TEE_PARAM_TYPE_NONE, TeeParam::new_value(0, 0)).is_ok());
    assert!(ParameterNone::from_raw(TEE_PARAM_TYPE_VALUE_INPUT, TeeParam::new_value(0, 0)).is_err());
}

#[test]
fn any_dispatches_on_the_tag() {
    let mut any = ParameterAny::from_raw(TEE_PARAM_TYPE_VALUE_INOUT, TeeParam::new_value(5, 6)).unwrap();
    assert!(any.as_value_input().is_err());
    assert!(any.as_none().is_err());
    any.as_value_inout().unwrap().set_b(9);
    assert_eq!(any.as_value_inout().unwrap().get_b(), 9);

    let mut any = ParameterAny::from_raw(TEE_PARAM_TYPE_VALUE_OUTPUT, TeeParam::new_value(0, 0)).unwrap();
    any.as_value_output().unwrap().set_a(3);
    assert!(any.as_value_inout().is_err());
    match any {
        ParameterAny::ValueOutput(p) => assert_eq!(p.into_raw().value.a, 3),
        _ => panic!("expected a value output"),
    }

    let any = ParameterAny::from_raw(TEE_PARAM_TYPE_NONE, TeeParam::new_value(0, 0)).unwrap();
    assert!(any.as_none().is_ok());

    let any = ParameterAny::from_raw(TEE_PARAM_TYPE_MEMREF_INPUT, TeeParam::new_memref(Some(vec![1, 2]), 2)).unwrap();
    assert_eq!(any.as_memref_input().unwrap().read_to_vec(), vec![1, 2]);

    let mut any = ParameterAny::from_raw(TEE_PARAM_TYPE_MEMREF_OUTPUT, TeeParam::new_memref(Some(vec![0; 4]), 4)).unwrap();
    any.as_memref_output().unwrap().set_output(&[7, 8]).unwrap();
    assert!(any.as_memref_inout().is_err());

    let err = ParameterAny::from_raw(TEE_PARAM_TYPE_MEMREF_INOUT, TeeParam::new_memref(None, 0)).err().unwrap();
    assert_eq!(err.kind(), ErrorKind::BadParameters);

    match ParameterAny::from_raw(9, TeeParam::new_value(1, 1)).unwrap() {
        ParameterAny::Unknown(tag, raw) => {
            assert_eq!(tag, 9);
            assert_eq!(raw.value.a, 1);
        }
        _ => panic!("expected an unknown parameter"),
    }
}

#[test]
fn four_slots_decode_in_order() {
    let params = (
        TeeParam::new_value(1, 2),
        TeeParam::new_memref(Some(vec![9; 3]), 3),
        TeeParam::new_value(0, 0),
        TeeParam::new_value(0, 0),
    );
    let w = types(TEE_PARAM_TYPE_VALUE_INPUT, TEE_PARAM_TYPE_MEMREF_INPUT, TEE_PARAM_TYPE_NONE, TEE_PARAM_TYPE_NONE);
    let (a, b, c, d): ParametersAny = FromRawParameters::from_raw(w, params).unwrap();
    assert_eq!(a.as_value_input().unwrap().get_a(), 1);
    assert_eq!(b.as_memref_input().unwrap().read_to_vec(), vec![9, 9, 9]);
    assert!(c.as_none().is_ok());
    assert!(d.as_none().is_ok());

    let params = (
        TeeParam::new_value(0, 0),
        TeeParam::new_value(0, 0),
        TeeParam::new_value(0, 0),
        TeeParam::new_value(0, 0),
    );
    let r: Result<(ParameterNone, ParameterNone, ParameterNone, ParameterNone), Error> =
        FromRawParameters::from_raw(types(0, 0, 1, 0), params);
    assert_eq!(r.err().unwrap().kind(), ErrorKind::BadParameters);
}

#[test]
fn deprecated_parameters_keep_raw_and_types() {
    let params = (
        TeeParam::new_value(1, 2),
        TeeParam::new_memref(Some(vec![0; 8]), 8),
        TeeParam::new_value(0, 0),
        TeeParam::new_value(0, 0),
    );
    let mut ps = Parameters::from_raw(params, types(TEE_PARAM_TYPE_VALUE_INOUT, TEE_PARAM_TYPE_MEMREF_OUTPUT, 0, 0));
    assert_eq!(ps.0.param_type, ParamType::ValueInout);
    assert_eq!(ps.1.param_type, ParamType::MemrefOutput);
    {
        let mut v = ps.0.as_value().unwrap();
        assert_eq!((v.a(), v.b()), (1, 2));
        v.set_a(11);
        assert_eq!(v.param_type(), ParamType::ValueInout);
    }
    assert_eq!(ps.0.raw().value.a, 11);
    assert!(ps.0.as_memref().is_err());
    {
        let mut m = ps.1.as_memref().unwrap();
        m.set_updated_size(3);
        assert_eq!(m.raw().size, 3);
        let b = m.buffer();
        assert_eq!(b.len(), 3);
        b.copy_from_slice(&[4, 5, 6]);
    }
    assert_eq!(ps.1.raw.memref.size, 3);
    assert_eq!(ps.1.raw.memref.buffer.as_deref(), Some(&[4u8, 5, 6, 0, 0, 0, 0, 0][..]));
    assert!(ps.1.as_value().is_err());
    assert!(ps.2.as_value().is_err());
}

#[test]
fn error_codes() {
    assert_eq!(Error::new(ErrorKind::BadParameters).raw_code(), 0xFFFF0006);
    assert_eq!(Error::new(ErrorKind::ShortBuffer).raw_code(), 0xFFFF0010);
    assert_eq!(Error::new(ErrorKind::BadState).kind(), ErrorKind::BadState);
}

#[test]
fn memref_wrappers_keep_the_host_size() {
    let mut out = optee_sdk::parameter::memref::ParameterMemrefOutput::from_raw(
        TEE_PARAM_TYPE_MEMREF_OUTPUT,
        TeeParam::new_memref(Some(vec![0; 6]), 6),
    )
    .unwrap();
    use_buffer_len(&out, 6);
    out.write_at(2, &[1, 2]).unwrap();
    assert!(out.write_at(5, &[1, 2]).is_err());
    out.set_updated_size(1).unwrap();
    assert!(out.set_updated_size(7).is_err());
    use_buffer_len(&out, 6);
    assert_eq!(out.into_raw().memref.size, 1);
}

fn use_buffer_len<T: optee_sdk::parameter::memref::ParameterMemref>(p: &T, n: usize) {
    assert_eq!(p.buffer_len(), n);
}

#[test]
fn memref_output_reports_size() {
    let mut out = optee_sdk::parameter::memref::ParameterMemrefOutput::from_raw(
        TEE_PARAM_TYPE_MEMREF_OUTPUT,
        TeeParam::new_memref(Some(vec![0; 4]), 4),
    )
    .unwrap();
    out.set_output(&[1, 2, 3]).unwrap();
    let raw = out.into_raw();
    assert_eq!(raw.memref.size, 3);
    assert_eq!(raw.memref.buffer.unwrap(), vec![1, 2, 3, 0]);
}
