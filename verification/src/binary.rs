//! Loading a program image: parse a portable-executable binary and
//! summarize the sections to be loaded — each section's name, its size on
//! disk and the virtual address it wants.
//!
//! The parse itself is goblin's; its result is a function of the bytes
//! alone and is given the name `pe_sections` here.  Everything after the
//! parse — trimming the fixed-width section names at their first NUL —
//! is verified.

use vstd::prelude::*;

verus! {

/// The section table goblin's parser extracts from a portable-executable
/// image: for each section its raw eight-byte name, its size of raw data
/// and its virtual address, in table order — or nothing, when the bytes
/// are not a well-formed image.
pub uninterp spec fn pe_sections(bytes: Seq<u8>) -> Option<Seq<(Seq<u8>, u32, u32)>>;

/// The bytes did not parse as a portable-executable image.
#[derive(Clone, Copy, Debug, PartialEq, Eq, Structural)]
pub struct PEError;

/// One row of the section table, as parsed.
#[derive(Clone, Copy, Debug, PartialEq, Eq)]
pub struct RawSection {
    pub name: [u8; 8],
    pub size_of_raw_data: u32,
    pub virtual_address: u32,
}

/// Relies on goblin's `PE::parse`: whether the bytes parse, and the
/// name, raw-data size and virtual address of each section, depend on
/// the bytes alone.
#[verifier::external_body]
fn parse_pe(contents: &Vec<u8>) -> (r: Result<Vec<RawSection>, PEError>)
    ensures
        (match r {
            Ok(sections) => pe_sections(contents@) == Some(
                sections@.map_values(
                    |s: RawSection| (s.name@, s.size_of_raw_data, s.virtual_address),
                ),
            ),
            Err(_) => pe_sections(contents@) is None,
        }),
{
    match goblin::pe::PE::parse(contents.as_slice()) {
        Ok(pe) => Ok(
            pe.sections.iter().map(|s| RawSection {
                name: s.name,
                size_of_raw_data: s.size_of_raw_data,
                virtual_address: s.virtual_address,
            }).collect(),
        ),
        Err(_) => Err(PEError),
    }
}

/// One section as reported to the boot log: the name trimmed at its
/// first NUL, and where the raw data goes.
#[derive(Clone, Debug, PartialEq, Eq)]
pub struct SectionSummary {
    pub name: Vec<u8>,
    pub size_of_raw_data: u32,
    pub virtual_address: u32,
}

/// How many leading bytes of a section name are in use: everything
/// before the first NUL.
pub open spec fn name_length(name: Seq<u8>) -> nat
    decreases name.len(),
{
    if name.len() == 0 || name[0] == 0 {
        0
    } else {
        1 + name_length(name.drop_first())
    }
}

/// The used part of a fixed-width section name.
pub open spec fn trimmed(name: Seq<u8>) -> Seq<u8> {
    name.take(name_length(name) as int)
}

/// `name_length` is exactly the index of the first NUL — or the whole
/// width when there is none.
proof fn lemma_name_length(name: Seq<u8>, i: int)
    requires
        0 <= i <= name.len(),
        forall|j: int| 0 <= j < i ==> name[j] != 0,
        i == name.len() || name[i] == 0,
    ensures
        name_length(name) == i,
    decreases name.len(),
{
    if i > 0 {
        let rest = name.drop_first();
        assert(forall|j: int| 0 <= j < i - 1 ==> rest[j] == name[j + 1] && name[j + 1] != 0);
        if i - 1 < rest.len() {
            assert(rest[i - 1] == name[i]);
        }
        lemma_name_length(rest, i - 1);
    }
}

/// Trim a raw section name at its first NUL.
pub fn truncated_name(name: &[u8; 8]) -> (r: Vec<u8>)
    ensures
        r@ == trimmed(name@),
{
    let mut used: Vec<u8> = Vec::new();
    let mut i: usize = 0;
    while i < 8
        invariant
            i <= 8,
            name@.len() == 8,
            forall|j: int| 0 <= j < i ==> name@[j] != 0,
            used@ == name@.take(i as int),
        decreases 8 - i,
    {
        let byte = name[i];
        if byte == 0 {
            proof {
                lemma_name_length(name@, i as int);
            }
            return used;
        }
        used.push(byte);
        proof {
            assert(used@ =~= name@.take(i as int + 1));
        }
        i = i + 1;
    }
    proof {
        lemma_name_length(name@, 8);
        assert(used@ =~= name@.take(8));
    }
    used
}

/// Summarize a parsed section table: names trimmed, sizes and addresses
/// carried over, table order kept.
pub fn summarize_sections(sections: &Vec<RawSection>) -> (r: Vec<SectionSummary>)
    ensures
        r@.len() == sections@.len(),
        forall|i: int| 0 <= i < sections@.len() ==> {
            &&& (#[trigger] r@[i]).name@ == trimmed(sections@[i].name@)
            &&& r@[i].size_of_raw_data == sections@[i].size_of_raw_data
            &&& r@[i].virtual_address == sections@[i].virtual_address
        },
{
    let mut summaries: Vec<SectionSummary> = Vec::new();
    let mut i: usize = 0;
    while i < sections.len()
        invariant
            i <= sections@.len(),
            summaries@.len() == i,
            forall|j: int| 0 <= j < i ==> {
                &&& (#[trigger] summaries@[j]).name@ == trimmed(sections@[j].name@)
                &&& summaries@[j].size_of_raw_data == sections@[j].size_of_raw_data
                &&& summaries@[j].virtual_address == sections@[j].virtual_address
            },
        decreases sections@.len() - i,
    {
        let section = &sections[i];
        let name = truncated_name(&section.name);
        summaries.push(SectionSummary {
            name,
            size_of_raw_data: section.size_of_raw_data,
            virtual_address: section.virtual_address,
        });
        i = i + 1;
    }
    summaries
}

/// Parse a program image and summarize its sections: exactly the
/// sections goblin's parse names, in order, each with its name trimmed
/// at the first NUL; an error exactly when the bytes are no
/// portable-executable image.
pub fn summarize_binary(contents: &Vec<u8>) -> (r: Result<Vec<SectionSummary>, PEError>)
    ensures
        (match r {
            Ok(summaries) => {
                &&& pe_sections(contents@) is Some
                &&& {
                    let sections = pe_sections(contents@).unwrap();
                    &&& summaries@.len() == sections.len()
                    &&& (forall|i: int| 0 <= i < sections.len() ==> {
                        &&& (#[trigger] summaries@[i]).name@ == trimmed(sections[i].0)
                        &&& summaries@[i].size_of_raw_data == sections[i].1
                        &&& summaries@[i].virtual_address == sections[i].2
                    })
                }
            },
            Err(_) => pe_sections(contents@) is None,
        }),
{
    match parse_pe(contents) {
        Ok(sections) => Ok(summarize_sections(&sections)),
        Err(error) => Err(error),
    }
}

} // verus!
