use vstd::prelude::*;

verus! {

/// The visibility and merge policy of a named symbol, one variant for each
/// linkage kind of the backend.
#[derive(Debug, Clone, Copy, PartialEq, Eq, Structural)]
pub enum Linkage {
    AppendingLinkage,
    AvailableExternallyLinkage,
    CommonLinkage,
    DLLExportLinkage,
    DLLImportLinkage,
    ExternalLinkage,
    ExternalWeakLinkage,
    GhostLinkage,
    InternalLinkage,
    LinkerPrivateLinkage,
    LinkerPrivateWeakLinkage,
    LinkOnceAnyLinkage,
    LinkOnceODRAutoHideLinkage,
    LinkOnceODRLinkage,
    PrivateLinkage,
    WeakAnyLinkage,
    WeakODRLinkage,
}

/// Number of linkage kinds that the backend defines.
pub const LINKAGE_KINDS: u32 = 17;

/// The backend's native code of a linkage kind (its position in the
/// backend's C enumeration).
pub open spec fn linkage_code(l: Linkage) -> u32 {
    match l {
        Linkage::AppendingLinkage => 7,
        Linkage::AvailableExternallyLinkage => 1,
        Linkage::CommonLinkage => 14,
        Linkage::DLLExportLinkage => 11,
        Linkage::DLLImportLinkage => 10,
        Linkage::ExternalLinkage => 0,
        Linkage::ExternalWeakLinkage => 12,
        Linkage::GhostLinkage => 13,
        Linkage::InternalLinkage => 8,
        Linkage::LinkerPrivateLinkage => 15,
        Linkage::LinkerPrivateWeakLinkage => 16,
        Linkage::LinkOnceAnyLinkage => 2,
        Linkage::LinkOnceODRAutoHideLinkage => 4,
        Linkage::LinkOnceODRLinkage => 3,
        Linkage::PrivateLinkage => 9,
        Linkage::WeakAnyLinkage => 5,
        Linkage::WeakODRLinkage => 6,
    }
}

/// The linkage kind that a native code stands for, if the backend defines one.
pub open spec fn linkage_of_code(code: u32) -> Option<Linkage> {
    if code == 0 {
        Some(Linkage::ExternalLinkage)
    } else if code == 1 {
        Some(Linkage::AvailableExternallyLinkage)
    } else if code == 2 {
        Some(Linkage::LinkOnceAnyLinkage)
    } else if code == 3 {
        Some(Linkage::LinkOnceODRLinkage)
    } else if code == 4 {
        Some(Linkage::LinkOnceODRAutoHideLinkage)
    } else if code == 5 {
        Some(Linkage::WeakAnyLinkage)
    } else if code == 6 {
        Some(Linkage::WeakODRLinkage)
    } else if code == 7 {
        Some(Linkage::AppendingLinkage)
    } else if code == 8 {
        Some(Linkage::InternalLinkage)
    } else if code == 9 {
        Some(Linkage::PrivateLinkage)
    } else if code == 10 {
        Some(Linkage::DLLImportLinkage)
    } else if code == 11 {
        Some(Linkage::DLLExportLinkage)
    } else if code == 12 {
        Some(Linkage::ExternalWeakLinkage)
    } else if code == 13 {
        Some(Linkage::GhostLinkage)
    } else if code == 14 {
        Some(Linkage::CommonLinkage)
    } else if code == 15 {
        Some(Linkage::LinkerPrivateLinkage)
    } else if code == 16 {
        Some(Linkage::LinkerPrivateWeakLinkage)
    } else {
        None
    }
}

impl Linkage {
    /// Translates the backend's native linkage code; `None` for a code that
    /// names no linkage kind.
    pub fn new(code: u32) -> (r: Option<Linkage>)
        ensures
            r == linkage_of_code(code),
            r is Some <==> code < LINKAGE_KINDS,
    {
        match code {
            0 => Some(Linkage::ExternalLinkage),
            1 => Some(Linkage::AvailableExternallyLinkage),
            2 => Some(Linkage::LinkOnceAnyLinkage),
            3 => Some(Linkage::LinkOnceODRLinkage),
            4 => Some(Linkage::LinkOnceODRAutoHideLinkage),
            5 => Some(Linkage::WeakAnyLinkage),
            6 => Some(Linkage::WeakODRLinkage),
            7 => Some(Linkage::AppendingLinkage),
            8 => Some(Linkage::InternalLinkage),
            9 => Some(Linkage::PrivateLinkage),
            10 => Some(Linkage::DLLImportLinkage),
            11 => Some(Linkage::DLLExportLinkage),
            12 => Some(Linkage::ExternalWeakLinkage),
            13 => Some(Linkage::GhostLinkage),
            14 => Some(Linkage::CommonLinkage),
            15 => Some(Linkage::LinkerPrivateLinkage),
            16 => Some(Linkage::LinkerPrivateWeakLinkage),
            _ => None,
        }
    }

    /// The backend's native code of this linkage kind.
    pub fn as_llvm_linkage(&self) -> (r: u32)
        ensures
            r == linkage_code(*self),
            r < LINKAGE_KINDS,
    {
        match *self {
            Linkage::AppendingLinkage => 7,
            Linkage::AvailableExternallyLinkage => 1,
            Linkage::CommonLinkage => 14,
            Linkage::DLLExportLinkage => 11,
            Linkage::DLLImportLinkage => 10,
            Linkage::ExternalLinkage => 0,
            Linkage::ExternalWeakLinkage => 12,
            Linkage::GhostLinkage => 13,
            Linkage::InternalLinkage => 8,
            Linkage::LinkerPrivateLinkage => 15,
            Linkage::LinkerPrivateWeakLinkage => 16,
            Linkage::LinkOnceAnyLinkage => 2,
            Linkage::LinkOnceODRAutoHideLinkage => 4,
            Linkage::LinkOnceODRLinkage => 3,
            Linkage::PrivateLinkage => 9,
            Linkage::WeakAnyLinkage => 5,
            Linkage::WeakODRLinkage => 6,
        }
    }
}

/// Translating a linkage kind to its native code and back gives the same kind.
pub proof fn lemma_linkage_round_trip(l: Linkage)
    ensures
        linkage_of_code(linkage_code(l)) == Some(l),
{
}

/// Every native code that names a linkage kind is that kind's code, so no two
/// kinds share a code.
pub proof fn lemma_code_round_trip(code: u32)
    ensures
        linkage_of_code(code) matches Some(l) ==> linkage_code(l) == code,
        linkage_of_code(code) is Some <==> code < LINKAGE_KINDS,
{
}

} // verus!
