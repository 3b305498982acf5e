//! Parser for the binary proving-parameter container.
//!
//! Layout, all integers little-endian: `magic:u32, version:u32,
//! sectionCount:u32`, then `sectionCount` headers `sectionType:u32,
//! sectionSize:u64` each followed by its payload.  The cursor walk never
//! reads past the end of the buffer: running out is a reported truncation
//! error, and a wrong magic tag is a format error with no partial results.
//!
//! The mandatory contract of this parser ends at section discovery (locating
//! the Groth16 parameter section) plus the reusable G1/G2 decode primitives;
//! extracting the full proving-key matrices from the payload is a documented
//! limitation, and nothing is ever fabricated in its place.

use vstd::prelude::*;
use crate::curve::{G1Point, G2Point};
use crate::errors::ZkError;
use crate::numeric::{base_modulus, be_val, le_u32_val, le_u64_val};
use crate::util::copy_range;

verus! {

/// The little-endian magic tag that identifies the container format.
pub open spec fn zkey_magic() -> int {
    0x7a6b6579
}

/// The section type that carries the Groth16 parameters.
pub open spec fn groth16_section_type() -> u32 {
    2
}

/// One recorded section header: its type, the absolute byte offset of its
/// payload, and the payload size.
#[derive(Clone, Copy, PartialEq, Eq, Structural, Debug)]
pub struct SectionHeader {
    pub section_type: u32,
    pub offset: u64,
    pub size: u64,
}

/// The outcome of section discovery: the container version, every recorded
/// header in file order, and the located Groth16 section.
pub struct ZkeySections {
    pub version: u32,
    pub sections: Vec<SectionHeader>,
    pub groth16: SectionHeader,
}

/// The section-table walk as a mathematical function: reading `n` headers
/// from `pos`, each cursor step checked against the buffer end.
pub open spec fn spec_walk(d: Seq<u8>, pos: int, n: int) -> Result<Seq<SectionHeader>, ZkError>
    decreases n,
{
    if n <= 0 {
        Ok(Seq::empty())
    } else if pos + 4 > d.len() {
        Err(ZkError::Truncation { offset: pos as usize, needed: 4 })
    } else if pos + 12 > d.len() {
        Err(ZkError::Truncation { offset: (pos + 4) as usize, needed: 8 })
    } else {
        let t = le_u32_val(d.subrange(pos, pos + 4));
        let sz = le_u64_val(d.subrange(pos + 4, pos + 12));
        if pos + 12 + sz > d.len() {
            Err(ZkError::Truncation { offset: (pos + 12) as usize, needed: sz as u64 })
        } else {
            match spec_walk(d, pos + 12 + sz, n - 1) {
                Ok(rest) => Ok(
                    seq![
                        SectionHeader {
                            section_type: t as u32,
                            offset: (pos + 12) as u64,
                            size: sz as u64,
                        },
                    ] + rest,
                ),
                Err(e) => Err(e),
            }
        }
    }
}

/// The first header of the given type, by linear scan in file order.
pub open spec fn spec_find_section(ss: Seq<SectionHeader>, t: u32) -> Option<SectionHeader>
    decreases ss.len(),
{
    if ss.len() == 0 {
        None
    } else if ss.first().section_type == t {
        Some(ss.first())
    } else {
        spec_find_section(ss.drop_first(), t)
    }
}

/// What parsing a whole container denotes.
pub struct ZkeySectionsSpec {
    pub version: u32,
    pub sections: Seq<SectionHeader>,
    pub groth16: SectionHeader,
}

pub open spec fn spec_parse_zkey(d: Seq<u8>) -> Result<ZkeySectionsSpec, ZkError> {
    if d.len() < 4 {
        Err(ZkError::Truncation { offset: 0, needed: 4 })
    } else if le_u32_val(d.subrange(0, 4)) != zkey_magic() {
        Err(ZkError::Format { offset: 0 })
    } else if d.len() < 8 {
        Err(ZkError::Truncation { offset: 4, needed: 4 })
    } else if d.len() < 12 {
        Err(ZkError::Truncation { offset: 8, needed: 4 })
    } else {
        let n = le_u32_val(d.subrange(8, 12));
        match spec_walk(d, 12, n) {
            Ok(ss) => match spec_find_section(ss, groth16_section_type()) {
                Some(h) => Ok(
                    ZkeySectionsSpec {
                        version: le_u32_val(d.subrange(4, 8)) as u32,
                        sections: ss,
                        groth16: h,
                    },
                ),
                None => Err(ZkError::MissingSection { section_type: groth16_section_type() }),
            },
            Err(e) => Err(e),
        }
    }
}

/// A cursor over the raw container bytes.  The caller supplies the bytes;
/// reading the file itself is outside the library.
pub struct ZkeyParser {
    pub data: Vec<u8>,
    pub pos: usize,
}

impl ZkeyParser {
    /// The cursor never stands past the end of the buffer.
    pub open spec fn wf(&self) -> bool {
        self.pos <= self.data@.len()
    }

    pub fn new(data: Vec<u8>) -> (r: ZkeyParser)
        ensures
            r.data@ == data@,
            r.pos == 0,
            r.wf(),
    {
        ZkeyParser { data, pos: 0 }
    }

    /// Reads a little-endian `u32` at the cursor, or reports how much was
    /// missing; on failure the parser is unchanged.
    pub fn read_u32(&mut self) -> (r: Result<u32, ZkError>)
        requires
            old(self).wf(),
        ensures
            final(self).wf(),
            final(self).data@ == old(self).data@,
            old(self).data@.len() - old(self).pos >= 4 ==> (r matches Ok(v) && v as int
                == le_u32_val(old(self).data@.subrange(old(self).pos as int, old(self).pos + 4))
                && final(self).pos == old(self).pos + 4),
            old(self).data@.len() - old(self).pos < 4 ==> r == Err::<u32, ZkError>(
                ZkError::Truncation { offset: old(self).pos, needed: 4 },
            ) && final(self).pos == old(self).pos,
    {
        if self.data.len() - self.pos < 4 {
            return Err(ZkError::Truncation { offset: self.pos, needed: 4 });
        }
        let p = self.pos;
        let b0 = self.data[p] as u32;
        let b1 = self.data[p + 1] as u32;
        let b2 = self.data[p + 2] as u32;
        let b3 = self.data[p + 3] as u32;
        self.pos = p + 4;
        Ok(b0 + 256 * b1 + 65536 * b2 + 16777216 * b3)
    }

    /// Reads a little-endian `u64` at the cursor, or reports how much was
    /// missing; on failure the parser is unchanged.
    pub fn read_u64(&mut self) -> (r: Result<u64, ZkError>)
        requires
            old(self).wf(),
        ensures
            final(self).wf(),
            final(self).data@ == old(self).data@,
            old(self).data@.len() - old(self).pos >= 8 ==> (r matches Ok(v) && v as int
                == le_u64_val(old(self).data@.subrange(old(self).pos as int, old(self).pos + 8))
                && final(self).pos == old(self).pos + 8),
            old(self).data@.len() - old(self).pos < 8 ==> r == Err::<u64, ZkError>(
                ZkError::Truncation { offset: old(self).pos, needed: 8 },
            ) && final(self).pos == old(self).pos,
    {
        if self.data.len() - self.pos < 8 {
            return Err(ZkError::Truncation { offset: self.pos, needed: 8 });
        }
        let p = self.pos;
        let b0 = self.data[p] as u64;
        let b1 = self.data[p + 1] as u64;
        let b2 = self.data[p + 2] as u64;
        let b3 = self.data[p + 3] as u64;
        let b4 = self.data[p + 4] as u64;
        let b5 = self.data[p + 5] as u64;
        let b6 = self.data[p + 6] as u64;
        let b7 = self.data[p + 7] as u64;
        self.pos = p + 8;
        Ok(
            b0 + 256 * b1 + 65536 * b2 + 16777216 * b3 + 4294967296 * b4 + 1099511627776 * b5
                + 281474976710656 * b6 + 72057594037927936 * b7,
        )
    }

    /// Reads `n` raw bytes at the cursor, or reports how much was missing;
    /// on failure the parser is unchanged.
    pub fn read_bytes(&mut self, n: usize) -> (r: Result<Vec<u8>, ZkError>)
        requires
            old(self).wf(),
        ensures
            final(self).wf(),
            final(self).data@ == old(self).data@,
            old(self).data@.len() - old(self).pos >= n ==> (r matches Ok(v) && v@ == old(
                self,
            ).data@.subrange(old(self).pos as int, old(self).pos + n) && final(self).pos == old(
                self,
            ).pos + n),
            old(self).data@.len() - old(self).pos < n ==> r == Err::<Vec<u8>, ZkError>(
                ZkError::Truncation { offset: old(self).pos, needed: n as u64 },
            ) && final(self).pos == old(self).pos,
    {
        if self.data.len() - self.pos < n {
            return Err(ZkError::Truncation { offset: self.pos, needed: n as u64 });
        }
        let p = self.pos;
        let v = copy_range(&self.data, p, p + n);
        self.pos = p + n;
        Ok(v)
    }

    /// Reads an uncompressed G1 point: 32 big-endian bytes of X, then 32 of
    /// Y, each reduced into the base field.
    pub fn read_g1(&mut self) -> (r: Result<G1Point, ZkError>)
        requires
            old(self).wf(),
        ensures
            final(self).wf(),
            final(self).data@ == old(self).data@,
            old(self).data@.len() - old(self).pos >= 64 ==> (r matches Ok(p) && p.wf() && p.x.value()
                == be_val(old(self).data@.subrange(old(self).pos as int, old(self).pos + 32))
                % base_modulus() && p.y.value() == be_val(
                old(self).data@.subrange(old(self).pos + 32, old(self).pos + 64),
            ) % base_modulus() && final(self).pos == old(self).pos + 64),
            old(self).data@.len() - old(self).pos < 64 ==> r == Err::<G1Point, ZkError>(
                ZkError::Truncation { offset: old(self).pos, needed: 64 },
            ) && final(self).pos == old(self).pos,
    {
        let ghost opos = self.pos as int;
        let ghost d = self.data@;
        let b = match self.read_bytes(64) {
            Ok(b) => b,
            Err(e) => { return Err(e) },
        };
        let p = G1Point::decode(b.as_slice());
        proof {
            assert(b@.subrange(0, 32) =~= d.subrange(opos, opos + 32));
            assert(b@.subrange(32, 64) =~= d.subrange(opos + 32, opos + 64));
        }
        Ok(p)
    }

    /// Reads an uncompressed G2 point: four 32-byte big-endian components in
    /// the order `x_c0, x_c1, y_c0, y_c1`.
    pub fn read_g2(&mut self) -> (r: Result<G2Point, ZkError>)
        requires
            old(self).wf(),
        ensures
            final(self).wf(),
            final(self).data@ == old(self).data@,
            old(self).data@.len() - old(self).pos >= 128 ==> (r matches Ok(p) && p.wf()
                && p.x_c0.value() == be_val(
                old(self).data@.subrange(old(self).pos as int, old(self).pos + 32),
            ) % base_modulus() && p.x_c1.value() == be_val(
                old(self).data@.subrange(old(self).pos + 32, old(self).pos + 64),
            ) % base_modulus() && p.y_c0.value() == be_val(
                old(self).data@.subrange(old(self).pos + 64, old(self).pos + 96),
            ) % base_modulus() && p.y_c1.value() == be_val(
                old(self).data@.subrange(old(self).pos + 96, old(self).pos + 128),
            ) % base_modulus() && final(self).pos == old(self).pos + 128),
            old(self).data@.len() - old(self).pos < 128 ==> r == Err::<G2Point, ZkError>(
                ZkError::Truncation { offset: old(self).pos, needed: 128 },
            ) && final(self).pos == old(self).pos,
    {
        let ghost opos = self.pos as int;
        let ghost d = self.data@;
        let b = match self.read_bytes(128) {
            Ok(b) => b,
            Err(e) => { return Err(e) },
        };
        let p = G2Point::decode(b.as_slice());
        proof {
            assert(b@.subrange(0, 32) =~= d.subrange(opos, opos + 32));
            assert(b@.subrange(32, 64) =~= d.subrange(opos + 32, opos + 64));
            assert(b@.subrange(64, 96) =~= d.subrange(opos + 64, opos + 96));
            assert(b@.subrange(96, 128) =~= d.subrange(opos + 96, opos + 128));
        }
        Ok(p)
    }

    /// Checks the magic tag, records every section header while walking the
    /// cursor, and locates the Groth16 parameter section.  The result is
    /// exactly what `spec_parse_zkey` denotes on the buffer: a wrong magic
    /// tag or a truncated buffer aborts with no partial results.
    #[verifier::loop_isolation(false)]
    pub fn parse(&mut self) -> (r: Result<ZkeySections, ZkError>)
        ensures
            final(self).data@ == old(self).data@,
            spec_parse_zkey(old(self).data@) matches Ok(m) ==> (r matches Ok(s) && s.version
                == m.version && s.sections@ == m.sections && s.groth16 == m.groth16),
            spec_parse_zkey(old(self).data@) matches Err(e) ==> r == Err::<ZkeySections, ZkError>(
                e,
            ),
    {
        let ghost d = self.data@;
        self.pos = 0;
        let magic = match self.read_u32() {
            Ok(v) => v,
            Err(e) => { return Err(e) },
        };
        if magic != 0x7a6b6579u32 {
            return Err(ZkError::Format { offset: 0 });
        }
        let version = match self.read_u32() {
            Ok(v) => v,
            Err(e) => { return Err(e) },
        };
        let n = match self.read_u32() {
            Ok(v) => v,
            Err(e) => { return Err(e) },
        };
        let mut sections: Vec<SectionHeader> = Vec::new();
        let mut i: u32 = 0;
        while i < n
            invariant
                i <= n,
                self.wf(),
                self.data@ == d,
                spec_walk(d, 12, n as int) == (match spec_walk(
                    d,
                    self.pos as int,
                    n as int - i as int,
                ) {
                    Ok(rest) => Ok::<Seq<SectionHeader>, ZkError>(sections@ + rest),
                    Err(e) => Err::<Seq<SectionHeader>, ZkError>(e),
                }),
            decreases n as int - i as int,
        {
            let ghost pos0 = self.pos as int;
            let ghost sections0 = sections@;
            let section_type = match self.read_u32() {
                Ok(v) => v,
                Err(e) => { return Err(e) },
            };
            let section_size = match self.read_u64() {
                Ok(v) => v,
                Err(e) => { return Err(e) },
            };
            let payload_start = self.pos;
            if ((self.data.len() - self.pos) as u64) < section_size {
                return Err(ZkError::Truncation { offset: payload_start, needed: section_size });
            }
            let header = SectionHeader {
                section_type,
                offset: payload_start as u64,
                size: section_size,
            };
            sections.push(header);
            self.pos = self.pos + (section_size as usize);
            proof {
                let rest_n = n as int - i as int;
                assert(spec_walk(d, pos0, rest_n) matches Ok(rest0) ==> rest0 == seq![header]
                    + (match spec_walk(d, self.pos as int, rest_n - 1) {
                        Ok(r2) => r2,
                        Err(_) => Seq::empty(),
                    }));
                assert(sections@ =~= sections0.push(header));
                if spec_walk(d, self.pos as int, rest_n - 1) is Ok {
                    let r2 = spec_walk(d, self.pos as int, rest_n - 1)->Ok_0;
                    assert(sections0 + (seq![header] + r2) =~= sections@ + r2);
                }
            }
            i = i + 1;
        }
        assert(spec_walk(d, 12, n as int) matches Ok(ss) && ss == sections@) by {
            assert(sections@ + Seq::<SectionHeader>::empty() =~= sections@);
        }
        let groth16 = match find_section(&sections, 2) {
            Some(h) => h,
            None => {
                return Err(ZkError::MissingSection { section_type: 2 });
            },
        };
        Ok(ZkeySections { version, sections, groth16 })
    }
}

/// The first recorded header of the given type, if any.
#[verifier::loop_isolation(false)]
pub fn find_section(sections: &Vec<SectionHeader>, t: u32) -> (r: Option<SectionHeader>)
    ensures
        r == spec_find_section(sections@, t),
{
    let mut j: usize = 0;
    assert(sections@.skip(0) =~= sections@);
    while j < sections.len()
        invariant
            j <= sections@.len(),
            spec_find_section(sections@, t) == spec_find_section(sections@.skip(j as int), t),
        decreases sections@.len() - j,
    {
        let h = sections[j];
        if h.section_type == t {
            assert(sections@.skip(j as int).first() == h);
            return Some(h);
        }
        proof {
            assert(sections@.skip(j as int).drop_first() =~= sections@.skip(j as int + 1));
        }
        j = j + 1;
    }
    proof {
        assert(sections@.skip(sections@.len() as int).len() == 0);
    }
    None
}

} // verus!
