//! The data model of an alias record: the target, its parent directory,
//! the volume that holds it, and the tagged extra sub-records, together
//! with the ghost views the contracts speak of.

use vstd::prelude::*;

verus! {

/// Whether the alias points at a file or at a directory.
#[derive(Clone, Copy, Debug, PartialEq, Eq, Structural)]
pub enum TargetKind {
    File,
    Directory,
}

/// The kind of volume the target lives on.
#[derive(Clone, Copy, Debug, PartialEq, Eq, Structural)]
pub enum VolumeKind {
    Local,
    Network,
    Floppy400,
    Floppy800,
    Floppy1400,
    Other,
}

/// The two-character filesystem signature of the volume.
#[derive(Clone, Copy, Debug, PartialEq, Eq, Structural)]
pub enum VolumeSignature {
    Bd,
    HPlus,
    Hx,
}

/// The wire code of a target kind: files are 0, directories 1.
pub open spec fn target_kind_code(k: TargetKind) -> u16 {
    match k {
        TargetKind::File => 0,
        TargetKind::Directory => 1,
    }
}

/// The wire code of a volume kind, 0 through 5 in declaration order.
pub open spec fn volume_kind_code(k: VolumeKind) -> u16 {
    match k {
        VolumeKind::Local => 0,
        VolumeKind::Network => 1,
        VolumeKind::Floppy400 => 2,
        VolumeKind::Floppy800 => 3,
        VolumeKind::Floppy1400 => 4,
        VolumeKind::Other => 5,
    }
}

/// The two ASCII bytes of a volume signature: "BD", "H+" or "HX".
pub open spec fn signature_bytes(s: VolumeSignature) -> Seq<u8> {
    match s {
        VolumeSignature::Bd => seq![66u8, 68u8],
        VolumeSignature::HPlus => seq![72u8, 43u8],
        VolumeSignature::Hx => seq![72u8, 88u8],
    }
}

impl TargetKind {
    /// The wire code of this kind.
    pub fn code(&self) -> (r: u16)
        ensures
            r == target_kind_code(*self),
    {
        match self {
            TargetKind::File => 0,
            TargetKind::Directory => 1,
        }
    }
}

impl VolumeKind {
    /// The wire code of this kind.
    pub fn code(&self) -> (r: u16)
        ensures
            r == volume_kind_code(*self),
    {
        match self {
            VolumeKind::Local => 0,
            VolumeKind::Network => 1,
            VolumeKind::Floppy400 => 2,
            VolumeKind::Floppy800 => 3,
            VolumeKind::Floppy1400 => 4,
            VolumeKind::Other => 5,
        }
    }
}

impl VolumeSignature {
    /// The two ASCII bytes written verbatim into the record.
    pub fn code(&self) -> (r: (u8, u8))
        ensures
            seq![r.0, r.1] == signature_bytes(*self),
    {
        match self {
            VolumeSignature::Bd => (66, 68),
            VolumeSignature::HPlus => (72, 43),
            VolumeSignature::Hx => (72, 88),
        }
    }
}

/// The error an encode can report: a caller-supplied text field exceeds
/// its fixed-width byte budget (volume name over 27 bytes, target
/// filename over 63 bytes).
#[derive(Clone, Copy, Debug, PartialEq, Eq, Structural)]
pub enum AliasError {
    InvalidField,
}

/// A tagged variable-length sub-record appended after the fixed header.
/// The encoder treats `tag` and `data` opaquely; `length` must equal the
/// byte length of `data`.
pub struct ExtraRecord {
    pub tag: i16,
    pub length: u16,
    pub data: Vec<u8>,
}

/// Ghost view of an extra sub-record.
#[verifier::ext_equal]
pub ghost struct ExtraView {
    pub tag: i16,
    pub length: u16,
    pub data: Seq<u8>,
}

impl ExtraView {
    /// The declared length matches the data it covers.
    pub open spec fn wf(self) -> bool {
        self.data.len() == self.length
    }
}

impl View for ExtraRecord {
    type V = ExtraView;

    open spec fn view(&self) -> ExtraView {
        ExtraView { tag: self.tag, length: self.length, data: self.data@ }
    }
}

impl DeepView for ExtraRecord {
    type V = ExtraView;

    open spec fn deep_view(&self) -> ExtraView {
        self.view()
    }
}

/// The file or folder the alias points at. `created` is a Unix-epoch
/// millisecond timestamp.
pub struct Target {
    pub kind: TargetKind,
    pub filename: String,
    pub id: u32,
    pub created: u64,
}

/// Ghost view of a target description.
#[verifier::ext_equal]
pub ghost struct TargetView {
    pub kind: TargetKind,
    pub filename: Seq<char>,
    pub id: u32,
    pub created: u64,
}

impl View for Target {
    type V = TargetView;

    open spec fn view(&self) -> TargetView {
        TargetView {
            kind: self.kind,
            filename: self.filename@,
            id: self.id,
            created: self.created,
        }
    }
}

/// The immediate containing directory of the target.
pub struct Parent {
    pub id: u32,
    pub name: String,
}

/// Ghost view of a parent description.
#[verifier::ext_equal]
pub ghost struct ParentView {
    pub id: u32,
    pub name: Seq<char>,
}

impl View for Parent {
    type V = ParentView;

    open spec fn view(&self) -> ParentView {
        ParentView { id: self.id, name: self.name@ }
    }
}

/// The volume that holds the target. `created` is a Unix-epoch
/// millisecond timestamp.
pub struct Volume {
    pub name: String,
    pub created: u64,
    pub signature: VolumeSignature,
    pub kind: VolumeKind,
}

/// Ghost view of a volume description.
#[verifier::ext_equal]
pub ghost struct VolumeView {
    pub name: Seq<char>,
    pub created: u64,
    pub signature: VolumeSignature,
    pub kind: VolumeKind,
}

impl View for Volume {
    type V = VolumeView;

    open spec fn view(&self) -> VolumeView {
        VolumeView {
            name: self.name@,
            created: self.created,
            signature: self.signature,
            kind: self.kind,
        }
    }
}

/// The full in-memory description an encode call consumes.
pub struct AliasRecord {
    pub version: u16,
    pub target: Target,
    pub parent: Parent,
    pub volume: Volume,
    pub extras: Vec<ExtraRecord>,
}

/// Ghost view of an alias record.
#[verifier::ext_equal]
pub ghost struct AliasView {
    pub version: u16,
    pub target: TargetView,
    pub parent: ParentView,
    pub volume: VolumeView,
    pub extras: Seq<ExtraView>,
}

impl View for AliasRecord {
    type V = AliasView;

    open spec fn view(&self) -> AliasView {
        AliasView {
            version: self.version,
            target: self.target@,
            parent: self.parent@,
            volume: self.volume@,
            extras: self.extras.deep_view(),
        }
    }
}

} // verus!
