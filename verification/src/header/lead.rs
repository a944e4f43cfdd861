use crate::error::{Error, ErrorKind};
use crate::reader::ByteReader;
use crate::utils::{
    be_bytes, be_value, lemma_be_bytes_len, lemma_be_value_of_bytes, lemma_pow256_values,
    write_be_u32,
};
use vstd::prelude::*;

verus! {

/// The four bytes that open a header.
pub const MAGIC_HEADER: [u8; 4] = [142, 173, 232, 1];

/// The magic as a byte string.
pub open spec fn magic_header() -> Seq<u8> {
    seq![142u8, 173u8, 232u8, 1u8]
}

/// The sixteen bytes before an index table: magic, four reserved bytes, the
/// number of index entries and the size of the data blob.
#[derive(Debug, PartialEq, Eq, Clone, Copy)]
pub struct HeaderLead {
    pub magic: [u8; 4],
    pub reserved: [u8; 4],
    pub nindex: usize,
    pub hsize: u32,
}

/// What reading a header lead from the front of `s` gives: the reserved
/// bytes, the entry count and the blob size; `Io` where `s` ends early,
/// `InvalidData` where the magic is another.
pub open spec fn parse_header_lead(s: Seq<u8>) -> Result<(Seq<u8>, u32, u32), ErrorKind> {
    if s.len() < 4 {
        Err(ErrorKind::Io)
    } else if s.take(4) != magic_header() {
        Err(ErrorKind::InvalidData)
    } else if s.len() < 16 {
        Err(ErrorKind::Io)
    } else {
        Ok(
            (
                s.subrange(4, 8),
                be_value(s.subrange(8, 12)) as u32,
                be_value(s.subrange(12, 16)) as u32,
            ),
        )
    }
}

/// The sixteen bytes of a header lead.
pub open spec fn header_lead_bytes(reserved: Seq<u8>, nindex: u32, hsize: u32) -> Seq<u8> {
    magic_header() + reserved + be_bytes(nindex as nat, 4) + be_bytes(hsize as nat, 4)
}

/// A header lead that was written is read back as it was, whatever follows it.
pub proof fn lemma_header_lead_round_trip(reserved: Seq<u8>, nindex: u32, hsize: u32, rest: Seq<u8>)
    requires
        reserved.len() == 4,
    ensures
        header_lead_bytes(reserved, nindex, hsize).len() == 16,
        parse_header_lead(header_lead_bytes(reserved, nindex, hsize) + rest) == Ok::<
            (Seq<u8>, u32, u32),
            ErrorKind,
        >((reserved, nindex, hsize)),
{
    let s = header_lead_bytes(reserved, nindex, hsize) + rest;
    lemma_be_bytes_len(nindex as nat, 4);
    lemma_be_bytes_len(hsize as nat, 4);
    lemma_pow256_values();
    lemma_be_value_of_bytes(nindex as nat, 4);
    lemma_be_value_of_bytes(hsize as nat, 4);
    assert(s.take(4) =~= magic_header());
    assert(s.subrange(4, 8) =~= reserved);
    assert(s.subrange(8, 12) =~= be_bytes(nindex as nat, 4));
    assert(s.subrange(12, 16) =~= be_bytes(hsize as nat, 4));
}

impl HeaderLead {
    /// The lead is one that `read` and `from` produce: its magic is the
    /// header magic.
    pub open spec fn well_formed(&self) -> bool {
        self.magic@ == magic_header()
    }

    pub fn read(fh: &mut ByteReader) -> (r: Result<HeaderLead, Error>)
        ensures
            match r {
                Ok(lead) => {
                    &&& parse_header_lead(old(fh).remaining()) == Ok::<
                        (Seq<u8>, u32, u32),
                        ErrorKind,
                    >((lead.reserved@, lead.nindex as u32, lead.hsize))
                    &&& lead.nindex <= u32::MAX
                    &&& lead.well_formed()
                    &&& final(fh).advanced(old(fh), 16)
                },
                Err(e) => {
                    &&& parse_header_lead(old(fh).remaining()) == Err::<
                        (Seq<u8>, u32, u32),
                        ErrorKind,
                    >(e.kind)
                    &&& final(fh).buffer() == old(fh).buffer()
                },
            },
    {
        let ghost s = fh.remaining();
        let magic_bytes = fh.read_exact(4)?;
        let magic: [u8; 4] = [magic_bytes[0], magic_bytes[1], magic_bytes[2], magic_bytes[3]];
        if magic[0] != MAGIC_HEADER[0] || magic[1] != MAGIC_HEADER[1] || magic[2] != MAGIC_HEADER[2]
            || magic[3] != MAGIC_HEADER[3] {
            proof {
                assert(s.take(4) != magic_header()) by {
                    if s.take(4) == magic_header() {
                        assert(s.take(4)[0] == 142 && s.take(4)[1] == 173 && s.take(4)[2] == 232
                            && s.take(4)[3] == 1);
                    }
                }
            }
            return Err(Error::new(ErrorKind::InvalidData, "Error: File is not rpm"));
        }
        assert(s.take(4) =~= magic_header());
        assert(magic@ =~= magic_header());
        let ghost s4 = fh.remaining();
        let reserved_bytes = fh.read_exact(4)?;
        let reserved: [u8; 4] = [
            reserved_bytes[0],
            reserved_bytes[1],
            reserved_bytes[2],
            reserved_bytes[3],
        ];
        let ghost s8 = fh.remaining();
        let nindex: u32 = fh.read_be_u32()?;
        let ghost s12 = fh.remaining();
        let hsize: u32 = fh.read_be_u32()?;
        proof {
            assert(reserved@ =~= s.subrange(4, 8));
            assert(s8.take(4) =~= s.subrange(8, 12));
            assert(s12.take(4) =~= s.subrange(12, 16));
            assert(fh.remaining() =~= s.skip(16));
        }
        Ok(HeaderLead { magic, reserved, nindex: nindex as usize, hsize })
    }

    /// The lead of a header with `nindex` entries and `hsize` bytes of data.
    pub fn from(nindex: usize, hsize: u32) -> (lead: HeaderLead)
        ensures
            lead.well_formed(),
            lead.reserved@ == seq![0u8, 0u8, 0u8, 0u8],
            lead.nindex == nindex,
            lead.hsize == hsize,
    {
        let lead = HeaderLead { magic: MAGIC_HEADER, reserved: [0_u8; 4], nindex, hsize };
        assert(lead.magic@ =~= magic_header());
        assert(lead.reserved@ =~= seq![0u8, 0u8, 0u8, 0u8]);
        lead
    }

    /// Appends the sixteen bytes of the lead. An entry count that does not fit
    /// 32 bits is `InvalidInput`, and then nothing is written.
    pub fn write(&self, fh: &mut Vec<u8>) -> (r: Result<(), Error>)
        ensures
            match r {
                Ok(_) => {
                    &&& self.nindex <= u32::MAX
                    &&& final(fh)@ == old(fh)@ + header_lead_bytes(
                        self.reserved@,
                        self.nindex as u32,
                        self.hsize,
                    )
                },
                Err(e) => {
                    &&& self.nindex > u32::MAX
                    &&& e.kind == ErrorKind::InvalidInput
                    &&& final(fh)@ == old(fh)@
                },
            },
    {
        if self.nindex > u32::MAX as usize {
            return Err(Error::new(ErrorKind::InvalidInput, "Error: too many index entries"));
        }
        fh.push(MAGIC_HEADER[0]);
        fh.push(MAGIC_HEADER[1]);
        fh.push(MAGIC_HEADER[2]);
        fh.push(MAGIC_HEADER[3]);
        fh.push(self.reserved[0]);
        fh.push(self.reserved[1]);
        fh.push(self.reserved[2]);
        fh.push(self.reserved[3]);
        write_be_u32(fh, self.nindex as u32);
        write_be_u32(fh, self.hsize);
        proof {
            assert(fh@ =~= old(fh)@ + header_lead_bytes(
                self.reserved@,
                self.nindex as u32,
                self.hsize,
            ));
        }
        Ok(())
    }
}

impl Default for HeaderLead {
    fn default() -> (lead: HeaderLead)
        ensures
            lead.well_formed(),
            lead.nindex == 0,
            lead.hsize == 0,
    {
        HeaderLead::from(0, 0)
    }
}

} // verus!
