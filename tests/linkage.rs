use llvm_module::linkage::{Linkage, LINKAGE_KINDS};

#[test]
fn linkage_codes_follow_backend_numbering() {
    assert_eq!(Linkage::ExternalLinkage.as_llvm_linkage(), 0);
    assert_eq!(Linkage::AppendingLinkage.as_llvm_linkage(), 7);
    assert_eq!(Linkage::GhostLinkage.as_llvm_linkage(), 13);
    assert_eq!(Linkage::LinkerPrivateWeakLinkage.as_llvm_linkage(), 16);
}

#[test]
fn linkage_from_code() {
    assert_eq!(Linkage::new(0), Some(Linkage::ExternalLinkage));
    assert_eq!(Linkage::new(8), Some(Linkage::InternalLinkage));
    assert_eq!(Linkage::new(14), Some(Linkage::CommonLinkage));
    assert_eq!(Linkage::new(17), None);
    assert_eq!(Linkage::new(u32::MAX), None);
}

#[test]
fn linkage_round_trips_through_every_code() {
    for code in 0..LINKAGE_KINDS {
        let l = Linkage::new(code).unwrap();
        assert_eq!(l.as_llvm_linkage(), code);
    }
}
