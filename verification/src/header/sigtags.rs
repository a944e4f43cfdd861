use crate::header::tags::TagNamespace;
use vstd::prelude::*;

verus! {

/// The tags of the signature header, under their short name.
#[derive(Debug, Copy, Clone, PartialEq, Eq, Hash, Structural)]
pub enum SigTag {
    HeaderImage,
    HeaderSignatures,
    HeaderImmutable,
    HeaderRegions,
    Headeri18Ntable,
    SigSize,
    SigLEMD5_1,
    SigPGP,
    SigLEMD5_2,
    SigMD5,
    SigGPG,
    SigGPG5,
    BadSHA1_1,
    BadSHA1_2,
    PubKeys,
    DSAHeader,
    RSAHeader,
    SHA1Header,
    LongSigSize,
    LongArchiveSize,
    SHA256Header,
    Size,
    LEMD5_1,
    PGP,
    LEMD5_2,
    MD5,
    GPG,
    PGP5,
    PayloadSize,
    ReservedSpace,
    Other,
}

impl SigTag {
    /// The number that stands for this tag on the wire; the sentinel has none.
    pub open spec fn wire_id(self) -> Option<u32> {
        match self {
            SigTag::HeaderImage => Some(61),
            SigTag::HeaderSignatures => Some(62),
            SigTag::HeaderImmutable => Some(63),
            SigTag::HeaderRegions => Some(64),
            SigTag::Headeri18Ntable => Some(100),
            SigTag::SigSize => Some(257),
            SigTag::SigLEMD5_1 => Some(258),
            SigTag::SigPGP => Some(259),
            SigTag::SigLEMD5_2 => Some(260),
            SigTag::SigMD5 => Some(261),
            SigTag::SigGPG => Some(262),
            SigTag::SigGPG5 => Some(263),
            SigTag::BadSHA1_1 => Some(264),
            SigTag::BadSHA1_2 => Some(265),
            SigTag::PubKeys => Some(266),
            SigTag::DSAHeader => Some(267),
            SigTag::RSAHeader => Some(268),
            SigTag::SHA1Header => Some(269),
            SigTag::LongSigSize => Some(270),
            SigTag::LongArchiveSize => Some(271),
            SigTag::SHA256Header => Some(273),
            SigTag::Size => Some(1000),
            SigTag::LEMD5_1 => Some(1001),
            SigTag::PGP => Some(1002),
            SigTag::LEMD5_2 => Some(1003),
            SigTag::MD5 => Some(1004),
            SigTag::GPG => Some(1005),
            SigTag::PGP5 => Some(1006),
            SigTag::PayloadSize => Some(1007),
            SigTag::ReservedSpace => Some(1008),
            SigTag::Other => None,
        }
    }

    /// The tags whose numbers lie between 61 and 1002.
    pub open spec fn of_wire_id_61_1002(id: u32) -> Option<SigTag> {
        match id {
            61u32 => Some(SigTag::HeaderImage),
            62u32 => Some(SigTag::HeaderSignatures),
            63u32 => Some(SigTag::HeaderImmutable),
            64u32 => Some(SigTag::HeaderRegions),
            100u32 => Some(SigTag::Headeri18Ntable),
            257u32 => Some(SigTag::SigSize),
            258u32 => Some(SigTag::SigLEMD5_1),
            259u32 => Some(SigTag::SigPGP),
            260u32 => Some(SigTag::SigLEMD5_2),
            261u32 => Some(SigTag::SigMD5),
            262u32 => Some(SigTag::SigGPG),
            263u32 => Some(SigTag::SigGPG5),
            264u32 => Some(SigTag::BadSHA1_1),
            265u32 => Some(SigTag::BadSHA1_2),
            266u32 => Some(SigTag::PubKeys),
            267u32 => Some(SigTag::DSAHeader),
            268u32 => Some(SigTag::RSAHeader),
            269u32 => Some(SigTag::SHA1Header),
            270u32 => Some(SigTag::LongSigSize),
            271u32 => Some(SigTag::LongArchiveSize),
            273u32 => Some(SigTag::SHA256Header),
            1000u32 => Some(SigTag::Size),
            1001u32 => Some(SigTag::LEMD5_1),
            1002u32 => Some(SigTag::PGP),
            _ => None,
        }
    }

    fn from_u32_61_1002(id: u32) -> (tag: Option<SigTag>)
        ensures
            tag == Self::of_wire_id_61_1002(id),
    {
        match id {
            61 => Some(SigTag::HeaderImage),
            62 => Some(SigTag::HeaderSignatures),
            63 => Some(SigTag::HeaderImmutable),
            64 => Some(SigTag::HeaderRegions),
            100 => Some(SigTag::Headeri18Ntable),
            257 => Some(SigTag::SigSize),
            258 => Some(SigTag::SigLEMD5_1),
            259 => Some(SigTag::SigPGP),
            260 => Some(SigTag::SigLEMD5_2),
            261 => Some(SigTag::SigMD5),
            262 => Some(SigTag::SigGPG),
            263 => Some(SigTag::SigGPG5),
            264 => Some(SigTag::BadSHA1_1),
            265 => Some(SigTag::BadSHA1_2),
            266 => Some(SigTag::PubKeys),
            267 => Some(SigTag::DSAHeader),
            268 => Some(SigTag::RSAHeader),
            269 => Some(SigTag::SHA1Header),
            270 => Some(SigTag::LongSigSize),
            271 => Some(SigTag::LongArchiveSize),
            273 => Some(SigTag::SHA256Header),
            1000 => Some(SigTag::Size),
            1001 => Some(SigTag::LEMD5_1),
            1002 => Some(SigTag::PGP),
            _ => None,
        }
    }

    /// The tags whose numbers lie between 1003 and 1008.
    pub open spec fn of_wire_id_1003_1008(id: u32) -> Option<SigTag> {
        match id {
            1003u32 => Some(SigTag::LEMD5_2),
            1004u32 => Some(SigTag::MD5),
            1005u32 => Some(SigTag::GPG),
            1006u32 => Some(SigTag::PGP5),
            1007u32 => Some(SigTag::PayloadSize),
            1008u32 => Some(SigTag::ReservedSpace),
            _ => None,
        }
    }

    fn from_u32_1003_1008(id: u32) -> (tag: Option<SigTag>)
        ensures
            tag == Self::of_wire_id_1003_1008(id),
    {
        match id {
            1003 => Some(SigTag::LEMD5_2),
            1004 => Some(SigTag::MD5),
            1005 => Some(SigTag::GPG),
            1006 => Some(SigTag::PGP5),
            1007 => Some(SigTag::PayloadSize),
            1008 => Some(SigTag::ReservedSpace),
            _ => None,
        }
    }

    /// The tag that a number on the wire stands for, if it is a known one.
    pub open spec fn of_wire_id(id: u32) -> Option<SigTag> {
        if id <= 1002 {
            Self::of_wire_id_61_1002(id)
        } else {
            Self::of_wire_id_1003_1008(id)
        }
    }
}

impl TagNamespace for SigTag {
    open spec fn spec_to_u32(self) -> Option<u32> {
        self.wire_id()
    }

    open spec fn spec_from_u32(id: u32) -> Option<Self> {
        Self::of_wire_id(id)
    }

    open spec fn unknown() -> Self {
        SigTag::Other
    }

    proof fn lemma_ids_round_trip(tag: Self) {
        match tag {
            SigTag::HeaderImage => {
                assert(SigTag::of_wire_id_61_1002(61) == Some(SigTag::HeaderImage));
            },
            SigTag::HeaderSignatures => {
                assert(SigTag::of_wire_id_61_1002(62) == Some(SigTag::HeaderSignatures));
            },
            SigTag::HeaderImmutable => {
                assert(SigTag::of_wire_id_61_1002(63) == Some(SigTag::HeaderImmutable));
            },
            SigTag::HeaderRegions => {
                assert(SigTag::of_wire_id_61_1002(64) == Some(SigTag::HeaderRegions));
            },
            SigTag::Headeri18Ntable => {
                assert(SigTag::of_wire_id_61_1002(100) == Some(SigTag::Headeri18Ntable));
            },
            SigTag::SigSize => {
                assert(SigTag::of_wire_id_61_1002(257) == Some(SigTag::SigSize));
            },
            SigTag::SigLEMD5_1 => {
                assert(SigTag::of_wire_id_61_1002(258) == Some(SigTag::SigLEMD5_1));
            },
            SigTag::SigPGP => {
                assert(SigTag::of_wire_id_61_1002(259) == Some(SigTag::SigPGP));
            },
            SigTag::SigLEMD5_2 => {
                assert(SigTag::of_wire_id_61_1002(260) == Some(SigTag::SigLEMD5_2));
            },
            SigTag::SigMD5 => {
                assert(SigTag::of_wire_id_61_1002(261) == Some(SigTag::SigMD5));
            },
            SigTag::SigGPG => {
                assert(SigTag::of_wire_id_61_1002(262) == Some(SigTag::SigGPG));
            },
            SigTag::SigGPG5 => {
                assert(SigTag::of_wire_id_61_1002(263) == Some(SigTag::SigGPG5));
            },
            SigTag::BadSHA1_1 => {
                assert(SigTag::of_wire_id_61_1002(264) == Some(SigTag::BadSHA1_1));
            },
            SigTag::BadSHA1_2 => {
                assert(SigTag::of_wire_id_61_1002(265) == Some(SigTag::BadSHA1_2));
            },
            SigTag::PubKeys => {
                assert(SigTag::of_wire_id_61_1002(266) == Some(SigTag::PubKeys));
            },
            SigTag::DSAHeader => {
                assert(SigTag::of_wire_id_61_1002(267) == Some(SigTag::DSAHeader));
            },
            SigTag::RSAHeader => {
                assert(SigTag::of_wire_id_61_1002(268) == Some(SigTag::RSAHeader));
            },
            SigTag::SHA1Header => {
                assert(SigTag::of_wire_id_61_1002(269) == Some(SigTag::SHA1Header));
            },
            SigTag::LongSigSize => {
                assert(SigTag::of_wire_id_61_1002(270) == Some(SigTag::LongSigSize));
            },
            SigTag::LongArchiveSize => {
                assert(SigTag::of_wire_id_61_1002(271) == Some(SigTag::LongArchiveSize));
            },
            SigTag::SHA256Header => {
                assert(SigTag::of_wire_id_61_1002(273) == Some(SigTag::SHA256Header));
            },
            SigTag::Size => {
                assert(SigTag::of_wire_id_61_1002(1000) == Some(SigTag::Size));
            },
            SigTag::LEMD5_1 => {
                assert(SigTag::of_wire_id_61_1002(1001) == Some(SigTag::LEMD5_1));
            },
            SigTag::PGP => {
                assert(SigTag::of_wire_id_61_1002(1002) == Some(SigTag::PGP));
            },
            SigTag::LEMD5_2 => {
                assert(SigTag::of_wire_id_1003_1008(1003) == Some(SigTag::LEMD5_2));
            },
            SigTag::MD5 => {
                assert(SigTag::of_wire_id_1003_1008(1004) == Some(SigTag::MD5));
            },
            SigTag::GPG => {
                assert(SigTag::of_wire_id_1003_1008(1005) == Some(SigTag::GPG));
            },
            SigTag::PGP5 => {
                assert(SigTag::of_wire_id_1003_1008(1006) == Some(SigTag::PGP5));
            },
            SigTag::PayloadSize => {
                assert(SigTag::of_wire_id_1003_1008(1007) == Some(SigTag::PayloadSize));
            },
            SigTag::ReservedSpace => {
                assert(SigTag::of_wire_id_1003_1008(1008) == Some(SigTag::ReservedSpace));
            },
            SigTag::Other => {},
        }
    }

    fn to_u32(&self) -> (id: Option<u32>) {
        match self {
            SigTag::HeaderImage => Some(61),
            SigTag::HeaderSignatures => Some(62),
            SigTag::HeaderImmutable => Some(63),
            SigTag::HeaderRegions => Some(64),
            SigTag::Headeri18Ntable => Some(100),
            SigTag::SigSize => Some(257),
            SigTag::SigLEMD5_1 => Some(258),
            SigTag::SigPGP => Some(259),
            SigTag::SigLEMD5_2 => Some(260),
            SigTag::SigMD5 => Some(261),
            SigTag::SigGPG => Some(262),
            SigTag::SigGPG5 => Some(263),
            SigTag::BadSHA1_1 => Some(264),
            SigTag::BadSHA1_2 => Some(265),
            SigTag::PubKeys => Some(266),
            SigTag::DSAHeader => Some(267),
            SigTag::RSAHeader => Some(268),
            SigTag::SHA1Header => Some(269),
            SigTag::LongSigSize => Some(270),
            SigTag::LongArchiveSize => Some(271),
            SigTag::SHA256Header => Some(273),
            SigTag::Size => Some(1000),
            SigTag::LEMD5_1 => Some(1001),
            SigTag::PGP => Some(1002),
            SigTag::LEMD5_2 => Some(1003),
            SigTag::MD5 => Some(1004),
            SigTag::GPG => Some(1005),
            SigTag::PGP5 => Some(1006),
            SigTag::PayloadSize => Some(1007),
            SigTag::ReservedSpace => Some(1008),
            SigTag::Other => None,
        }
    }

    fn from_u32(id: u32) -> (tag: Option<Self>) {
        if id <= 1002 {
            Self::from_u32_61_1002(id)
        } else {
            Self::from_u32_1003_1008(id)
        }
    }

    fn other() -> (tag: Self) {
        SigTag::Other
    }

    fn same(&self, other: &Self) -> (b: bool) {
        *self == *other
    }
}

impl Default for SigTag {
    fn default() -> (tag: SigTag)
        ensures
            tag == SigTag::Other,
    {
        SigTag::Other
    }
}

} // verus!
