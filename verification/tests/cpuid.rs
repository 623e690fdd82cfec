use std::collections::HashSet;

use libcpu::features::FEATURE_COUNT;
use libcpu::CPUFeature;
use libcpu::CPUIDRequest;
use libcpu::CPUIDResponse;
use libcpu::OutputRegister;

const ZERO: CPUIDResponse = CPUIDResponse { eax: 0, ebx: 0, ecx: 0, edx: 0 };

fn enabled(request: CPUIDRequest, response: CPUIDResponse) -> Vec<CPUFeature> {
    let mut features = Vec::new();
    CPUFeature::enabled_features_by(request, response, &mut features);
    features
}

#[test]
fn request_selectors() {
    assert_eq!(CPUIDRequest::Features.leaf(), 1);
    assert_eq!(CPUIDRequest::ExtendedFeatures1.leaf(), 7);
    assert_eq!(CPUIDRequest::ExtendedFeatures2.leaf(), 7);
    assert_eq!(CPUIDRequest::ExtendedFeatures3.leaf(), 7);
    assert_eq!(CPUIDRequest::ExtendedFeatures4.leaf(), 0x80000001);
    assert_eq!(CPUIDRequest::Features.sub_leaf(), None);
    assert_eq!(CPUIDRequest::ExtendedFeatures1.sub_leaf(), Some(0));
    assert_eq!(CPUIDRequest::ExtendedFeatures2.sub_leaf(), Some(1));
    assert_eq!(CPUIDRequest::ExtendedFeatures3.sub_leaf(), Some(2));
    assert_eq!(CPUIDRequest::ExtendedFeatures4.sub_leaf(), None);
}

#[test]
fn response_register_selection() {
    let response = CPUIDResponse { eax: 1, ebx: 2, ecx: 3, edx: 4 };
    assert_eq!(response.register(OutputRegister::EAX), 1);
    assert_eq!(response.register(OutputRegister::EBX), 2);
    assert_eq!(response.register(OutputRegister::ECX), 3);
    assert_eq!(response.register(OutputRegister::EDX), 4);
}

#[test]
fn catalog_completeness() {
    let all = CPUFeature::all_features();
    assert_eq!(all.len(), FEATURE_COUNT);
    let distinct: HashSet<CPUFeature> = all.iter().copied().collect();
    assert_eq!(distinct.len(), FEATURE_COUNT);
    // Independent of hardware state: the catalog needs no query at all, and
    // an all-zero response reports nothing.
    for request in [
        CPUIDRequest::Features,
        CPUIDRequest::ExtendedFeatures1,
        CPUIDRequest::ExtendedFeatures2,
        CPUIDRequest::ExtendedFeatures3,
        CPUIDRequest::ExtendedFeatures4,
    ] {
        assert!(enabled(request, ZERO).is_empty());
    }
}

#[test]
fn catalog_declaration_order() {
    let all = CPUFeature::all_features();
    assert_eq!(all[0], CPUFeature::SSE3);
    assert_eq!(all[1], CPUFeature::PCLMUL);
    assert_eq!(all[FEATURE_COUNT - 1], CPUFeature::AddrMaskExt);
}

#[test]
fn feature_matching_is_exact_mask() {
    // SSE3 is reported in ECX bit 0 of the basic feature leaf.
    let response = CPUIDResponse { eax: 0, ebx: 0, ecx: 1, edx: 0 };
    let features = enabled(CPUIDRequest::Features, response);
    assert_eq!(features, vec![CPUFeature::SSE3]);
    // Neighbouring bits do not report it: bit 1 reports PCLMUL only.
    let response = CPUIDResponse { eax: 0, ebx: 0, ecx: 2, edx: 0 };
    let features = enabled(CPUIDRequest::Features, response);
    assert_eq!(features, vec![CPUFeature::PCLMUL]);
    // A bit outside every ECX mask of this request reports nothing from ECX.
    let response = CPUIDResponse { eax: 0xFFFF_FFFF, ebx: 0xFFFF_FFFF, ecx: 1 << 16, edx: 0 };
    assert!(enabled(CPUIDRequest::Features, response).is_empty());
}

#[test]
fn feature_matching_requires_matching_request() {
    // ECX bit 0 means SSE3 under the basic leaf but PreFetchWT1 under the
    // first extended leaf; the issued request decides.
    let response = CPUIDResponse { eax: 0, ebx: 0, ecx: 1, edx: 0 };
    assert_eq!(enabled(CPUIDRequest::Features, response), vec![CPUFeature::SSE3]);
    assert_eq!(
        enabled(CPUIDRequest::ExtendedFeatures1, response),
        vec![CPUFeature::PreFetchWT1],
    );
    assert!(enabled(CPUIDRequest::ExtendedFeatures3, response).is_empty());
}

#[test]
fn feature_matching_order_follows_catalog() {
    // FPU is EDX bit 0, VME is EDX bit 1; both are declared after every
    // ECX feature of the basic leaf.
    let response = CPUIDResponse { eax: 0, ebx: 0, ecx: 1 | 2, edx: 1 | 2 };
    let features = enabled(CPUIDRequest::Features, response);
    assert_eq!(
        features,
        vec![CPUFeature::SSE3, CPUFeature::PCLMUL, CPUFeature::FPU, CPUFeature::VME],
    );
}

#[test]
fn enabled_features_appends() {
    let mut features = vec![CPUFeature::AddrMaskExt];
    let response = CPUIDResponse { eax: 0, ebx: 0, ecx: 1, edx: 0 };
    CPUFeature::enabled_features_by(CPUIDRequest::Features, response, &mut features);
    assert_eq!(features, vec![CPUFeature::AddrMaskExt, CPUFeature::SSE3]);
}

#[test]
fn enabled_features_from_combines_requests() {
    let basic = CPUIDResponse { eax: 0, ebx: 0, ecx: 1, edx: 0 };
    // SGX is EBX bit 2 of the first extended leaf.
    let extended1 = CPUIDResponse { eax: 0, ebx: 4, ecx: 0, edx: 0 };
    // Syscall is EDX bit 11 of the extended processor info leaf.
    let extended4 = CPUIDResponse { eax: 0, ebx: 0, ecx: 0, edx: 1 << 11 };
    let features = CPUFeature::enabled_features_from(basic, extended1, ZERO, ZERO, extended4);
    assert_eq!(
        features,
        vec![CPUFeature::SSE3, CPUFeature::SGX, CPUFeature::Syscall],
    );
}

#[test]
fn catalog_rows() {
    let info = CPUFeature::info_at(0);
    assert_eq!(info.register, OutputRegister::ECX);
    assert_eq!(info.request, CPUIDRequest::Features);
    assert_eq!(info.mask, 1);
    let info = CPUFeature::info_at(FEATURE_COUNT - 1);
    assert_eq!(info.register, OutputRegister::ECX);
    assert_eq!(info.request, CPUIDRequest::ExtendedFeatures4);
    assert_eq!(info.mask, 1 << 30);
}

#[test]
fn feature_names() {
    assert_eq!(CPUFeature::SSE3.name(), "SSE3");
    assert_eq!(CPUFeature::PCLMUL.name(), "Carry-Less Multiplication");
    assert_eq!(CPUFeature::LongMode.name(), "Long Mode");
}
