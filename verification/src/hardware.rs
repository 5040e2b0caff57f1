//! Encoder classes and the choice between them.
use vstd::prelude::*;

use crate::text::{contains_seq, upper_contains, upper_seq};

verus! {

/// Hardware encoder class, ordered by product preference.
#[derive(Debug, Clone, Copy, PartialEq, Eq, Structural, PartialOrd, Ord, Hash)]
pub enum EncoderKind {
    NvidiaNvenc,
    IntelQuickSync,
    AmdAmf,
    HardwareOther,
    Software,
}

/// Preference rank: lower is preferred.
pub open spec fn encoder_rank(k: EncoderKind) -> int {
    match k {
        EncoderKind::NvidiaNvenc => 0,
        EncoderKind::IntelQuickSync => 1,
        EncoderKind::AmdAmf => 2,
        EncoderKind::HardwareOther => 3,
        EncoderKind::Software => 4,
    }
}

/// Display label of an encoder class.
pub open spec fn encoder_label(k: EncoderKind) -> Seq<char> {
    match k {
        EncoderKind::NvidiaNvenc => "NVIDIA NVENC"@,
        EncoderKind::IntelQuickSync => "Intel Quick Sync"@,
        EncoderKind::AmdAmf => "AMD AMF"@,
        EncoderKind::HardwareOther => "hardware H.264"@,
        EncoderKind::Software => "software H.264"@,
    }
}

fn rank(k: EncoderKind) -> (r: u8)
    ensures
        r == encoder_rank(k),
{
    match k {
        EncoderKind::NvidiaNvenc => 0,
        EncoderKind::IntelQuickSync => 1,
        EncoderKind::AmdAmf => 2,
        EncoderKind::HardwareOther => 3,
        EncoderKind::Software => 4,
    }
}

impl EncoderKind {
    /// Display label of the encoder class.
    pub fn as_str(self) -> (r: &'static str)
        ensures
            r@ == encoder_label(self),
    {
        match self {
            EncoderKind::NvidiaNvenc => "NVIDIA NVENC",
            EncoderKind::IntelQuickSync => "Intel Quick Sync",
            EncoderKind::AmdAmf => "AMD AMF",
            EncoderKind::HardwareOther => "hardware H.264",
            EncoderKind::Software => "software H.264",
        }
    }
}

/// Snapshot of capture devices and the encoder Media Foundation would prefer.
#[derive(Debug, Clone, PartialEq, Eq)]
pub struct HardwareInfo {
    pub displays: Vec<String>,
    pub encoder_names: Vec<String>,
    pub selected: EncoderKind,
}

impl HardwareInfo {
    /// No displays, no GPU names, software encoding.
    pub fn software_fallback() -> (r: Self)
        ensures
            r.displays@.len() == 0,
            r.encoder_names@.len() == 0,
            r.selected == EncoderKind::Software,
    {
        HardwareInfo { displays: Vec::new(), encoder_names: Vec::new(), selected: EncoderKind::Software }
    }
}

/// The class of an encoder with this friendly name: vendor words are matched without regard
/// to ASCII case, NVIDIA first, then Intel, then AMD.
pub open spec fn classify_spec(name: Seq<char>) -> EncoderKind {
    let u = upper_seq(name);
    if contains_seq(u, "NVIDIA"@) || contains_seq(u, "NVENC"@) {
        EncoderKind::NvidiaNvenc
    } else if contains_seq(u, "INTEL"@) || contains_seq(u, "QSV"@) || contains_seq(
        u,
        "QUICK SYNC"@,
    ) {
        EncoderKind::IntelQuickSync
    } else if contains_seq(u, "AMD"@) || contains_seq(u, "AMF"@) || contains_seq(u, "VCE"@) {
        EncoderKind::AmdAmf
    } else {
        EncoderKind::HardwareOther
    }
}

/// Classify a Media Foundation encoder friendly name.
pub fn classify_encoder(name: &str) -> (r: EncoderKind)
    ensures
        r == classify_spec(name@),
{
    if upper_contains(name, "NVIDIA") || upper_contains(name, "NVENC") {
        EncoderKind::NvidiaNvenc
    } else if upper_contains(name, "INTEL") || upper_contains(name, "QSV") || upper_contains(
        name,
        "QUICK SYNC",
    ) {
        EncoderKind::IntelQuickSync
    } else if upper_contains(name, "AMD") || upper_contains(name, "AMF") || upper_contains(
        name,
        "VCE",
    ) {
        EncoderKind::AmdAmf
    } else {
        EncoderKind::HardwareOther
    }
}

/// The preferred class among `names`, or software when there are none.
pub open spec fn pick_spec(names: Seq<String>) -> EncoderKind
    decreases names.len(),
{
    if names.len() == 0 {
        EncoderKind::Software
    } else {
        let rest = pick_spec(names.drop_last());
        let last = classify_spec(names.last()@);
        if names.len() == 1 || encoder_rank(last) < encoder_rank(rest) {
            last
        } else {
            rest
        }
    }
}

/// The best class among `names`: NVIDIA, then Intel, then AMD, then other hardware; software
/// when the list is empty.
pub fn pick_encoder(names: &[String]) -> (r: EncoderKind)
    ensures
        r == pick_spec(names@),
        names@.len() == 0 <==> r == EncoderKind::Software,
        forall|i: int|
            0 <= i < names@.len() ==> encoder_rank(r) <= encoder_rank(
                #[trigger] classify_spec(names@[i]@),
            ),
        names@.len() > 0 ==> exists|i: int|
            0 <= i < names@.len() && r == #[trigger] classify_spec(names@[i]@),
{
    let mut best = EncoderKind::Software;
    let mut i: usize = 0;
    while i < names.len()
        invariant
            0 <= i <= names@.len(),
            best == pick_spec(names@.subrange(0, i as int)),
            i == 0 ==> best == EncoderKind::Software,
            i > 0 ==> best != EncoderKind::Software,
            forall|j: int|
                0 <= j < i ==> encoder_rank(best) <= encoder_rank(
                    #[trigger] classify_spec(names@[j]@),
                ),
            i > 0 ==> exists|j: int| 0 <= j < i && best == #[trigger] classify_spec(names@[j]@),
        decreases names@.len() - i,
    {
        let k = classify_encoder(names[i].as_str());
        proof {
            let pre = names@.subrange(0, i + 1);
            assert(pre.drop_last() =~= names@.subrange(0, i as int));
            assert(pre.last() == names@[i as int]);
        }
        if i == 0 || rank(k) < rank(best) {
            best = k;
        }
        i = i + 1;
    }
    assert(names@.subrange(0, names@.len() as int) =~= names@);
    best
}

} // verus!
