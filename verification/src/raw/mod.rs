use crate::error::{Error, ErrorKind};
use crate::header::lead::{magic_header, parse_header_lead};
use crate::lead::{array_16, array_4, array_66, magic};
use crate::reader::ByteReader;
use crate::utils::be_value;
use vstd::prelude::*;

verus! {

/// The four bytes that open a package file.
pub const MAGIC: [u8; 4] = [237, 171, 238, 219];

/// The four bytes that open a header.
pub const MAGIC_HEADER: [u8; 4] = [142, 173, 232, 1];

/// The kind of a package.
#[derive(Debug, PartialEq, Eq, Clone, Copy, Structural)]
pub enum Type {
    Binary,
    Source,
}

impl Type {
    /// The kind that a number on the wire stands for.
    pub open spec fn spec_from_u16(id: u16) -> Option<Type> {
        if id == 0 {
            Some(Type::Binary)
        } else if id == 1 {
            Some(Type::Source)
        } else {
            None
        }
    }

    pub fn from_u16(id: u16) -> (r: Option<Type>)
        ensures
            r == Type::spec_from_u16(id),
    {
        match id {
            0 => Some(Type::Binary),
            1 => Some(Type::Source),
            _ => None,
        }
    }
}

/// The lead of a package as it stands in the file, of whatever version.
#[derive(Debug)]
pub struct RawLead {
    pub magic: [u8; 4],
    pub major: u8,
    pub minor: u8,
    pub rpm_type: Type,
    pub archnum: u16,
    pub name: [u8; 66],
    pub osnum: u16,
    pub signature_type: u16,
    pub reserved: [u8; 16],
}

/// What a raw lead holds.
pub struct RawLeadView {
    pub magic: Seq<u8>,
    pub major: u8,
    pub minor: u8,
    pub rpm_type: Type,
    pub archnum: u16,
    pub name: Seq<u8>,
    pub osnum: u16,
    pub signature_type: u16,
    pub reserved: Seq<u8>,
}

impl View for RawLead {
    type V = RawLeadView;

    open spec fn view(&self) -> RawLeadView {
        RawLeadView {
            magic: self.magic@,
            major: self.major,
            minor: self.minor,
            rpm_type: self.rpm_type,
            archnum: self.archnum,
            name: self.name@,
            osnum: self.osnum,
            signature_type: self.signature_type,
            reserved: self.reserved@,
        }
    }
}

/// What reading a raw lead from the front of `s` gives. The version is
/// taken as it is. The two bytes of the signature type are passed over,
/// and the type is given as zero.
pub open spec fn parse_raw_lead(s: Seq<u8>) -> Result<RawLeadView, ErrorKind> {
    if s.len() < 4 {
        Err(ErrorKind::Io)
    } else if s.take(4) != magic() {
        Err(ErrorKind::InvalidData)
    } else if s.len() < 8 {
        Err(ErrorKind::Io)
    } else if Type::spec_from_u16(be_value(s.subrange(6, 8)) as u16) is None {
        Err(ErrorKind::InvalidData)
    } else if s.len() < 96 {
        Err(ErrorKind::Io)
    } else {
        Ok(
            RawLeadView {
                magic: s.take(4),
                major: s[4],
                minor: s[5],
                rpm_type: Type::spec_from_u16(be_value(s.subrange(6, 8)) as u16)->0,
                archnum: be_value(s.subrange(8, 10)) as u16,
                name: s.subrange(10, 76),
                osnum: be_value(s.subrange(76, 78)) as u16,
                signature_type: 0,
                reserved: s.subrange(80, 96),
            },
        )
    }
}

impl RawLead {
    /// Reads the lead that stands at the start of the source.
    pub fn read(fh: &mut ByteReader) -> (r: Result<RawLead, Error>)
        ensures
            final(fh).buffer() == old(fh).buffer(),
            match r {
                Ok(lead) => {
                    &&& parse_raw_lead(old(fh).buffer()) == Ok::<RawLeadView, ErrorKind>(lead@)
                    &&& final(fh).spec_position() == 96
                },
                Err(e) => parse_raw_lead(old(fh).buffer()) == Err::<RawLeadView, ErrorKind>(
                    e.kind,
                ),
            },
    {
        fh.seek(0);
        let ghost s = fh.remaining();
        assert(s =~= old(fh).buffer());
        let magic_bytes = fh.read_exact(4)?;
        if magic_bytes[0] != MAGIC[0] || magic_bytes[1] != MAGIC[1] || magic_bytes[2] != MAGIC[2]
            || magic_bytes[3] != MAGIC[3] {
            proof {
                if s.take(4) == magic() {
                    assert(s.take(4)[0] == 237 && s.take(4)[1] == 171 && s.take(4)[2] == 238
                        && s.take(4)[3] == 219);
                }
            }
            return Err(Error::new(ErrorKind::InvalidData, "Error: File is not rpm"));
        }
        let magic_field = array_4(magic_bytes);
        assert(s.take(4) =~= magic());
        if fh.available() < 4 {
            return Err(Error::new(ErrorKind::Io, "failed to fill whole buffer"));
        }
        let head = fh.read_exact(2)?;
        let major = head[0];
        let minor = head[1];
        assert(major == s[4] && minor == s[5]);
        let ghost s6 = fh.remaining();
        let rpm_type_id: u16 = fh.read_be_u16()?;
        assert(s6.take(2) =~= s.subrange(6, 8));
        let rpm_type = match Type::from_u16(rpm_type_id) {
            Some(t) => t,
            None => {
                return Err(Error::new(ErrorKind::InvalidData, "Error: can not read the rpm type"));
            },
        };
        if fh.available() < 88 {
            return Err(Error::new(ErrorKind::Io, "failed to fill whole buffer"));
        }
        let ghost s8 = fh.remaining();
        let archnum: u16 = fh.read_be_u16()?;
        let name_bytes = fh.read_exact(66)?;
        let name = array_66(name_bytes);
        let ghost s76 = fh.remaining();
        let osnum: u16 = fh.read_be_u16()?;
        let _passed_over = fh.read_exact(2)?;
        let signature_type: u16 = 0;
        let reserved_bytes = fh.read_exact(16)?;
        let reserved = array_16(reserved_bytes);
        proof {
            assert(s8.take(2) =~= s.subrange(8, 10));
            assert(name@ =~= s.subrange(10, 76));
            assert(s76.take(2) =~= s.subrange(76, 78));
            assert(reserved@ =~= s.subrange(80, 96));
        }
        Ok(
            RawLead {
                magic: magic_field,
                major,
                minor,
                rpm_type,
                archnum,
                name,
                osnum,
                signature_type,
                reserved,
            },
        )
    }
}

impl Default for RawLead {
    fn default() -> (lead: RawLead)
        ensures
            lead@.magic == magic(),
            lead.major == 0,
            lead.minor == 0,
            lead.rpm_type == Type::Binary,
            lead.archnum == 0,
            lead.osnum == 0,
            lead.signature_type == 0,
    {
        let lead = RawLead {
            magic: MAGIC,
            major: 0,
            minor: 0,
            rpm_type: Type::Binary,
            archnum: 0,
            name: [0; 66],
            osnum: 0,
            signature_type: 0,
            reserved: [0; 16],
        };
        assert(lead.magic@ =~= magic());
        lead
    }
}

/// The sixteen bytes before an index table, as they stand in the file.
#[derive(Debug)]
pub struct RawHeader {
    pub magic: [u8; 4],
    pub reserved: [u8; 4],
    pub nindex: usize,
    pub hsize: u32,
}

impl RawHeader {
    /// Reads the sixteen bytes that open a header.
    pub fn read(fh: &mut ByteReader) -> (r: Result<RawHeader, Error>)
        ensures
            match r {
                Ok(header) => {
                    &&& parse_header_lead(old(fh).remaining()) == Ok::<
                        (Seq<u8>, u32, u32),
                        ErrorKind,
                    >((header.reserved@, header.nindex as u32, header.hsize))
                    &&& header.nindex <= u32::MAX
                    &&& header.magic@ == magic_header()
                    &&& final(fh).advanced(old(fh), 16)
                },
                Err(e) => {
                    &&& parse_header_lead(old(fh).remaining()) == Err::<
                        (Seq<u8>, u32, u32),
                        ErrorKind,
                    >(e.kind)
                    &&& final(fh).buffer() == old(fh).buffer()
                },
            },
    {
        let ghost s = fh.remaining();
        let magic_bytes = fh.read_exact(4)?;
        if magic_bytes[0] != MAGIC_HEADER[0] || magic_bytes[1] != MAGIC_HEADER[1] || magic_bytes[2]
            != MAGIC_HEADER[2] || magic_bytes[3] != MAGIC_HEADER[3] {
            proof {
                if s.take(4) == magic_header() {
                    assert(s.take(4)[0] == 142 && s.take(4)[1] == 173 && s.take(4)[2] == 232
                        && s.take(4)[3] == 1);
                }
            }
            return Err(Error::new(ErrorKind::InvalidData, "Error: File is not rpm"));
        }
        let magic_field = array_4(magic_bytes);
        assert(s.take(4) =~= magic_header());
        if fh.available() < 12 {
            return Err(Error::new(ErrorKind::Io, "failed to fill whole buffer"));
        }
        let reserved_bytes = fh.read_exact(4)?;
        let reserved = array_4(reserved_bytes);
        let ghost s8 = fh.remaining();
        let nindex: u32 = fh.read_be_u32()?;
        let ghost s12 = fh.remaining();
        let hsize: u32 = fh.read_be_u32()?;
        proof {
            assert(reserved@ =~= s.subrange(4, 8));
            assert(s8.take(4) =~= s.subrange(8, 12));
            assert(s12.take(4) =~= s.subrange(12, 16));
            assert(fh.remaining() =~= s.skip(16));
        }
        Ok(RawHeader { magic: magic_field, reserved, nindex: nindex as usize, hsize })
    }
}

impl Default for RawHeader {
    fn default() -> (header: RawHeader)
        ensures
            header.magic@ == magic_header(),
            header.nindex == 0,
            header.hsize == 0,
    {
        let header = RawHeader { magic: MAGIC_HEADER, reserved: [0; 4], nindex: 0, hsize: 0 };
        assert(header.magic@ =~= magic_header());
        header
    }
}

} // verus!
