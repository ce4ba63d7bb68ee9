use sight_lidar_core::err_code::{cuda_err_name, trt_err_name, ErrCode};

#[test]
fn test_errcode() {
    assert_eq!(
        r##"cudaErrorTextureNotBound:
 `        This indicated that a texture was not bound for access. This was previously used for device emulation of texture operations. !!DEPRECATED!! This error return is deprecated as of "CUDA" 3.1. Device emulation mode was removed with the "CUDA" 3.1 release."##,
        cuda_err_name().get(24).unwrap()
    );
    assert_eq!(None, cuda_err_name().get(114514));
}

#[test]
fn engine_codes_resolve() {
    let table = trt_err_name();
    assert_eq!(table.get(10000), Some("TRT_CREATE_ENGINE_FAIL"));
    assert_eq!(table.get(10007), Some("TRT_ENGINE_NOT_INITIALIZED"));
    assert_eq!(table.get(10008), None);
}

#[test]
fn lookup_returns_first_match() {
    let table = ErrCode::new(vec![(7, "first"), (8, "other"), (7, "second")]);
    assert_eq!(table.get(7), Some("first"));
    assert_eq!(table.get(8), Some("other"));
    assert_eq!(table.get(9), None);
}
