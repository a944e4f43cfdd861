use crate::error::{Error, ErrorKind};
use crate::reader::ByteReader;
use crate::utils::{
    be_bytes, be_value, lemma_be_bytes_len, lemma_be_value_of_bytes, lemma_pow256_values,
    write_be_u16,
};
use vstd::prelude::*;

verus! {

/// The four bytes that open a package file.
pub const MAGIC: [u8; 4] = [237, 171, 238, 219];

/// The magic as a byte string.
pub open spec fn magic() -> Seq<u8> {
    seq![237u8, 171u8, 238u8, 219u8]
}

/// Sixteen zero bytes: the reserved tail of a lead.
pub open spec fn reserved_zeros() -> Seq<u8> {
    Seq::new(16, |i: int| 0u8)
}

/// The kind of a package.
#[derive(Debug, PartialEq, Eq, Clone, Copy, Structural)]
pub enum Type {
    Binary,
    Source,
}

impl Type {
    pub open spec fn spec_to_u16(self) -> u16 {
        match self {
            Type::Binary => 0,
            Type::Source => 1,
        }
    }

    pub open spec fn spec_from_u16(id: u16) -> Option<Type> {
        if id == 0 {
            Some(Type::Binary)
        } else if id == 1 {
            Some(Type::Source)
        } else {
            None
        }
    }

    pub fn to_u16(&self) -> (id: u16)
        ensures
            id == self.spec_to_u16(),
            Type::spec_from_u16(id) == Some(*self),
    {
        match self {
            Type::Binary => 0,
            Type::Source => 1,
        }
    }

    pub fn from_u16(id: u16) -> (r: Option<Type>)
        ensures
            r == Type::spec_from_u16(id),
    {
        match id {
            0 => Some(Type::Binary),
            1 => Some(Type::Source),
            _ => None,
        }
    }
}

/// The 96 bytes that identify a file as a package.
#[derive(Debug, PartialEq, Eq, Clone)]
pub struct Lead {
    pub magic: [u8; 4],
    pub major: u8,
    pub minor: u8,
    pub rpm_type: Type,
    pub archnum: u16,
    pub name: [u8; 66],
    pub osnum: u16,
    pub signature_type: u16,
    pub reserved: [u8; 16],
}

/// What a lead holds.
pub struct LeadView {
    pub magic: Seq<u8>,
    pub major: u8,
    pub minor: u8,
    pub rpm_type: Type,
    pub archnum: u16,
    pub name: Seq<u8>,
    pub osnum: u16,
    pub signature_type: u16,
    pub reserved: Seq<u8>,
}

impl View for Lead {
    type V = LeadView;

    open spec fn view(&self) -> LeadView {
        LeadView {
            magic: self.magic@,
            major: self.major,
            minor: self.minor,
            rpm_type: self.rpm_type,
            archnum: self.archnum,
            name: self.name@,
            osnum: self.osnum,
            signature_type: self.signature_type,
            reserved: self.reserved@,
        }
    }
}

/// The format versions that this library reads: 3.0, 3.1 and 4.0.
pub open spec fn supported_version(major: u8, minor: u8) -> bool {
    (major == 3 && minor == 0) || (major == 3 && minor == 1) || (major == 4 && minor == 0)
}

/// What reading a lead from the front of `s` gives. The checks come in the
/// order of the fields: a wrong magic is `InvalidData`, another version
/// `Unsupported`, an unknown package kind `InvalidData`; where `s` ends
/// before the field at hand, the error is `Io`.
pub open spec fn parse_lead(s: Seq<u8>) -> Result<LeadView, ErrorKind> {
    if s.len() < 4 {
        Err(ErrorKind::Io)
    } else if s.take(4) != magic() {
        Err(ErrorKind::InvalidData)
    } else if s.len() < 6 {
        Err(ErrorKind::Io)
    } else if !supported_version(s[4], s[5]) {
        Err(ErrorKind::Unsupported)
    } else if s.len() < 8 {
        Err(ErrorKind::Io)
    } else if Type::spec_from_u16(be_value(s.subrange(6, 8)) as u16) is None {
        Err(ErrorKind::InvalidData)
    } else if s.len() < 96 {
        Err(ErrorKind::Io)
    } else {
        Ok(
            LeadView {
                magic: s.take(4),
                major: s[4],
                minor: s[5],
                rpm_type: Type::spec_from_u16(be_value(s.subrange(6, 8)) as u16)->0,
                archnum: be_value(s.subrange(8, 10)) as u16,
                name: s.subrange(10, 76),
                osnum: be_value(s.subrange(76, 78)) as u16,
                signature_type: be_value(s.subrange(78, 80)) as u16,
                reserved: s.subrange(80, 96),
            },
        )
    }
}

/// The 96 bytes of a lead. The magic is always the package magic and the
/// reserved tail is always zero, whatever the lead holds there.
pub open spec fn lead_bytes(lead: LeadView) -> Seq<u8> {
    magic() + seq![lead.major, lead.minor] + be_bytes(lead.rpm_type.spec_to_u16() as nat, 2)
        + be_bytes(lead.archnum as nat, 2) + lead.name + be_bytes(lead.osnum as nat, 2) + be_bytes(
        lead.signature_type as nat,
        2,
    ) + reserved_zeros()
}

/// The lead of a package of the given name: version 3.1, binary, signed
/// with a header, with the first 66 bytes of the name and zeros behind them.
pub open spec fn named_lead(name: Seq<char>) -> LeadView {
    LeadView {
        magic: magic(),
        major: 3,
        minor: 1,
        rpm_type: Type::Binary,
        archnum: 0,
        name: padded_name(vstd::utf8::encode_utf8(name)),
        osnum: 0,
        signature_type: 5,
        reserved: reserved_zeros(),
    }
}

/// A lead as `read`, `default` and `from_name` make it: package magic, a
/// name of 66 bytes, a reserved tail of zeros.
pub open spec fn canonical(lead: LeadView) -> bool {
    &&& lead.magic == magic()
    &&& lead.name.len() == 66
    &&& lead.reserved == reserved_zeros()
}

/// A canonical lead of a supported version that was written is read back
/// as it was, whatever follows it.
pub proof fn lemma_lead_round_trip(lead: LeadView, rest: Seq<u8>)
    requires
        canonical(lead),
        supported_version(lead.major, lead.minor),
    ensures
        lead_bytes(lead).len() == 96,
        parse_lead(lead_bytes(lead) + rest) == Ok::<LeadView, ErrorKind>(lead),
{
    let s = lead_bytes(lead) + rest;
    lemma_pow256_values();
    lemma_be_bytes_len(lead.rpm_type.spec_to_u16() as nat, 2);
    lemma_be_bytes_len(lead.archnum as nat, 2);
    lemma_be_bytes_len(lead.osnum as nat, 2);
    lemma_be_bytes_len(lead.signature_type as nat, 2);
    lemma_be_value_of_bytes(lead.rpm_type.spec_to_u16() as nat, 2);
    lemma_be_value_of_bytes(lead.archnum as nat, 2);
    lemma_be_value_of_bytes(lead.osnum as nat, 2);
    lemma_be_value_of_bytes(lead.signature_type as nat, 2);
    assert(s.take(4) =~= magic());
    assert(s[4] == lead.major && s[5] == lead.minor);
    assert(s.subrange(6, 8) =~= be_bytes(lead.rpm_type.spec_to_u16() as nat, 2));
    assert(s.subrange(8, 10) =~= be_bytes(lead.archnum as nat, 2));
    assert(s.subrange(10, 76) =~= lead.name);
    assert(s.subrange(76, 78) =~= be_bytes(lead.osnum as nat, 2));
    assert(s.subrange(78, 80) =~= be_bytes(lead.signature_type as nat, 2));
    assert(s.subrange(80, 96) =~= reserved_zeros());
}

pub(crate) fn array_4(bytes: &[u8]) -> (a: [u8; 4])
    requires
        bytes@.len() == 4,
    ensures
        a@ == bytes@,
{
    let a = [bytes[0], bytes[1], bytes[2], bytes[3]];
    assert(a@ =~= bytes@);
    a
}

pub(crate) fn array_16(bytes: &[u8]) -> (a: [u8; 16])
    requires
        bytes@.len() == 16,
    ensures
        a@ == bytes@,
{
    let mut a = [0_u8; 16];
    let mut i: usize = 0;
    while i < 16
        invariant
            i <= 16,
            bytes@.len() == 16,
            forall|j: int| 0 <= j < i ==> a@[j] == bytes@[j],
        decreases 16 - i,
    {
        a[i] = bytes[i];
        i = i + 1;
    }
    assert(a@ =~= bytes@);
    a
}

/// The first 66 bytes of `bytes`, followed by zeros where it is shorter.
pub open spec fn padded_name(bytes: Seq<u8>) -> Seq<u8> {
    Seq::new(
        66,
        |i: int|
            if i < bytes.len() {
                bytes[i]
            } else {
                0u8
            },
    )
}

pub(crate) fn array_66(bytes: &[u8]) -> (a: [u8; 66])
    ensures
        a@ == padded_name(bytes@),
{
    let mut a = [0_u8; 66];
    let n = if bytes.len() < 66 {
        bytes.len()
    } else {
        66
    };
    let mut i: usize = 0;
    while i < n
        invariant
            i <= n <= 66,
            n <= bytes@.len(),
            forall|j: int| 0 <= j < i ==> a@[j] == bytes@[j],
            forall|j: int| i <= j < 66 ==> a@[j] == 0,
        decreases n - i,
    {
        a[i] = bytes[i];
        i = i + 1;
    }
    assert(a@ =~= padded_name(bytes@));
    a
}

impl Lead {
    /// Reads the lead that stands at the start of the source, wherever the
    /// source was before.
    pub fn read(fh: &mut ByteReader) -> (r: Result<Lead, Error>)
        ensures
            final(fh).buffer() == old(fh).buffer(),
            match r {
                Ok(lead) => {
                    &&& parse_lead(old(fh).buffer()) == Ok::<LeadView, ErrorKind>(lead@)
                    &&& final(fh).spec_position() == 96
                    &&& final(fh).remaining() == old(fh).buffer().skip(96)
                },
                Err(e) => parse_lead(old(fh).buffer()) == Err::<LeadView, ErrorKind>(e.kind),
            },
    {
        fh.seek(0);
        let ghost s = fh.remaining();
        assert(s =~= old(fh).buffer());
        let magic_bytes = fh.read_exact(4)?;
        if magic_bytes[0] != MAGIC[0] || magic_bytes[1] != MAGIC[1] || magic_bytes[2] != MAGIC[2]
            || magic_bytes[3] != MAGIC[3] {
            proof {
                if s.take(4) == magic() {
                    assert(s.take(4)[0] == 237 && s.take(4)[1] == 171 && s.take(4)[2] == 238
                        && s.take(4)[3] == 219);
                }
            }
            return Err(Error::new(ErrorKind::InvalidData, "Error: File is not rpm"));
        }
        let magic_field = array_4(magic_bytes);
        assert(s.take(4) =~= magic());
        let head = fh.read_exact(2)?;
        let major = head[0];
        let minor = head[1];
        assert(major == s[4] && minor == s[5]);
        if !((major == 3 && minor == 0) || (major == 3 && minor == 1) || (major == 4 && minor
            == 0)) {
            return Err(
                Error::new(ErrorKind::Unsupported, "Error: rpm format version is not supported"),
            );
        }
        let ghost s6 = fh.remaining();
        let rpm_type_id: u16 = fh.read_be_u16()?;
        assert(s6.take(2) =~= s.subrange(6, 8));
        let rpm_type = match Type::from_u16(rpm_type_id) {
            Some(t) => t,
            None => {
                return Err(Error::new(ErrorKind::InvalidData, "Error: can not read the rpm type"));
            },
        };
        if fh.available() < 88 {
            return Err(Error::new(ErrorKind::Io, "failed to fill whole buffer"));
        }
        let ghost s8 = fh.remaining();
        let archnum: u16 = fh.read_be_u16()?;
        let name_bytes = fh.read_exact(66)?;
        let name = array_66(name_bytes);
        let ghost s76 = fh.remaining();
        let osnum: u16 = fh.read_be_u16()?;
        let ghost s78 = fh.remaining();
        let signature_type: u16 = fh.read_be_u16()?;
        let reserved_bytes = fh.read_exact(16)?;
        let reserved = array_16(reserved_bytes);
        proof {
            assert(s8.take(2) =~= s.subrange(8, 10));
            assert(name@ =~= s.subrange(10, 76));
            assert(s76.take(2) =~= s.subrange(76, 78));
            assert(s78.take(2) =~= s.subrange(78, 80));
            assert(reserved@ =~= s.subrange(80, 96));
            assert(fh.remaining() =~= s.skip(96));
        }
        Ok(
            Lead {
                magic: magic_field,
                major,
                minor,
                rpm_type,
                archnum,
                name,
                osnum,
                signature_type,
                reserved,
            },
        )
    }

    /// Appends the 96 bytes of the lead.
    pub fn write(&self, fh: &mut Vec<u8>) -> (r: Result<(), Error>)
        ensures
            r is Ok,
            final(fh)@ == old(fh)@ + lead_bytes(self@),
    {
        fh.extend_from_slice(MAGIC.as_slice());
        fh.push(self.major);
        fh.push(self.minor);
        write_be_u16(fh, self.rpm_type.to_u16());
        write_be_u16(fh, self.archnum);
        fh.extend_from_slice(self.name.as_slice());
        write_be_u16(fh, self.osnum);
        write_be_u16(fh, self.signature_type);
        let reserve = [0_u8; 16];
        fh.extend_from_slice(reserve.as_slice());
        proof {
            assert(MAGIC@ =~= magic());
            assert(reserve@ =~= reserved_zeros());
            assert(fh@ =~= old(fh)@ + lead_bytes(self@));
        }
        Ok(())
    }

    /// The lead of a package of the given name: version 3.1, binary, with
    /// the first 66 bytes of the name.
    pub fn from_name(info: &str) -> (lead: Lead)
        ensures
            lead@ == named_lead(info@),
            canonical(lead@),
    {
        let name = array_66(info.as_bytes());
        let lead = Lead {
            magic: MAGIC,
            major: 3,
            minor: 1,
            rpm_type: Type::Binary,
            archnum: 0,
            name,
            osnum: 0,
            signature_type: 5,
            reserved: [0; 16],
        };
        proof {
            assert(lead.magic@ =~= magic());
            assert(lead.reserved@ =~= reserved_zeros());
        }
        lead
    }
}

impl Default for Lead {
    fn default() -> (lead: Lead)
        ensures
            lead@ == (LeadView {
                magic: magic(),
                major: 3,
                minor: 1,
                rpm_type: Type::Binary,
                archnum: 0,
                name: Seq::new(66, |i: int| 0u8),
                osnum: 0,
                signature_type: 5,
                reserved: reserved_zeros(),
            }),
            canonical(lead@),
    {
        let lead = Lead {
            magic: MAGIC,
            major: 3,
            minor: 1,
            rpm_type: Type::Binary,
            archnum: 0,
            name: [0; 66],
            osnum: 0,
            signature_type: 5,
            reserved: [0; 16],
        };
        proof {
            assert(lead.magic@ =~= magic());
            assert(lead.reserved@ =~= reserved_zeros());
            assert(lead.name@ =~= Seq::new(66, |i: int| 0u8));
        }
        lead
    }
}

impl core::str::FromStr for Lead {
    type Err = Error;

    /// Every name gives a lead.
    fn from_str(info: &str) -> (r: Result<Lead, Error>)
        ensures
            r matches Ok(lead) && lead@ == named_lead(info@),
    {
        Ok(Lead::from_name(info))
    }
}

/// A sink that takes leads.
pub trait LeadWriter {
    fn write_lead(&mut self, lead: &Lead) -> Result<(), Error>;
}

impl LeadWriter for Vec<u8> {
    fn write_lead(&mut self, lead: &Lead) -> (r: Result<(), Error>)
        ensures
            r is Ok,
            final(self)@ == old(self)@ + lead_bytes(lead@),
    {
        lead.write(self)
    }
}

} // verus!
