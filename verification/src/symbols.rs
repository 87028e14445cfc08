//! The symbol data of a firmware image: the defmt table, and the location
//! of every log statement where the image's debug information is complete.

use crate::locations::{table_model, Location, Locations};
use defmt_decoder::Table;
use vstd::prelude::*;

verus! {

broadcast use vstd::std_specs::btree::group_btree_axioms;

#[verifier::external_type_specification]
#[verifier::external_body]
pub struct ExTable(Table);

#[verifier::external_type_specification]
#[verifier::external_body]
pub struct ExError(anyhow::Error);

/// The indices of the log statements that a table holds, in increasing
/// order.
pub uninterp spec fn table_indices(table: Table) -> Seq<u64>;

/// Whether the encoding that a table was built with lets a decoder go on
/// after a malformed frame.
pub uninterp spec fn table_recovers(table: Table) -> bool;

/// What `Table::parse` makes of an image: `None` where it cannot read it,
/// `Some(None)` where the image holds no defmt data, and for the table that
/// it builds the indices of its log statements with the answer whether its
/// encoding recovers.
pub uninterp spec fn image_table(elf: Seq<u8>) -> Option<Option<(Seq<u64>, bool)>>;

/// What `Table::get_locations` finds for a table in the debug information
/// of an image, each path rendered as text; `None` where it cannot read the
/// debug information.
pub uninterp spec fn located(table: Table, elf: Seq<u8>) -> Option<Map<u64, Location>>;

/// Whether an image is a 64-bit ELF file, by the class byte behind the
/// magic number.
pub open spec fn has_wide_addresses(elf: Seq<u8>) -> bool {
    &&& elf.len() >= 5
    &&& elf[0] == 0x7f
    &&& elf[1] == 0x45
    &&& elf[2] == 0x4c
    &&& elf[3] == 0x46
    &&& elf[4] == 2
}

/// Whether the parser can take an image: the parser adds to the addresses
/// of symbols without a check, so they must be 32 bits wide, and narrower
/// than the addresses of the machine that it runs on.
pub open spec fn fits_parser(elf: Seq<u8>) -> bool {
    !has_wide_addresses(elf) && u32::MAX + 16 <= usize::MAX
}

/// Every index of `indices` has a location in `found`.
pub open spec fn covers(found: Map<u64, Location>, indices: Seq<u64>) -> bool {
    forall|i: int| 0 <= i < indices.len() ==> found.contains_key(#[trigger] indices[i])
}

/// Why an image gave no symbol data.
#[derive(Debug)]
pub enum LoadError {
    /// The image could not be read as an ELF file with a defmt table.
    Parse(anyhow::Error),
    /// The image holds no defmt data at all.
    NoDefmtData,
    /// The debug information of the image could not be read.
    Locations(anyhow::Error),
    /// The image is a 64-bit one, which the parser is not safe on.
    WideAddresses,
}

/// Symbol data as mathematical values.
pub struct SymbolsModel {
    /// Indices of the log statements.
    pub indices: Seq<u64>,
    /// Whether decoding can go on after a malformed frame.
    pub recoverable: bool,
    /// The location table; `None` where it was found incomplete.
    pub locations: Option<Map<u64, Location>>,
}

impl SymbolsModel {
    /// A location table that is kept has a location for every log
    /// statement.
    pub open spec fn well_formed(self) -> bool {
        self.locations matches Some(found) ==> covers(found, self.indices)
    }
}

/// The model of what a table and the locations read beside it amount to:
/// the locations are kept only if they cover the table.
pub open spec fn assembled(table: Table, found: Map<u64, Location>) -> SymbolsModel {
    SymbolsModel {
        indices: table_indices(table),
        recoverable: table_recovers(table),
        locations: if covers(found, table_indices(table)) {
            Some(found)
        } else {
            None
        },
    }
}

/// What reading the locations of a table amounts to: symbol data that joins
/// the table with what was found, or the failure to read them.
pub open spec fn located_with(table: Table, elf: Seq<u8>, loaded: Result<Symbols, LoadError>) -> bool {
    match located(table, elf) {
        Some(found) => loaded matches Ok(symbols) && symbols@ == assembled(table, found),
        None => loaded matches Err(LoadError::Locations(_)),
    }
}

/// The symbol data that a session decodes with.
pub struct Symbols {
    table: Table,
    locations: Option<Locations>,
}

impl View for Symbols {
    type V = SymbolsModel;

    closed spec fn view(&self) -> SymbolsModel {
        SymbolsModel {
            indices: table_indices(self.table),
            recoverable: table_recovers(self.table),
            locations: table_model(self.locations),
        }
    }
}

/// Calls `Table::parse`. The contract gives the outcome its name,
/// `image_table`: it depends on the bytes of the image alone, and what it
/// is for given bytes is left to the decoder.
///
/// The parser adds 16 to the address of a bitflags value without a check.
/// `fits_parser` keeps that sum in range: the parser reads an image as a
/// 64-bit one only by the five bytes that `has_wide_addresses` tests, and
/// the addresses of any other image that it reads are 32 bits wide.
#[verifier::external_body]
fn parse_table(elf: &[u8]) -> (parsed: Result<Option<Table>, anyhow::Error>)
    requires
        fits_parser(elf@),
    ensures
        match parsed {
            Ok(Some(table)) => image_table(elf@) == Some(
                Some((table_indices(table), table_recovers(table))),
            ),
            Ok(None) => image_table(elf@) == Some(None::<(Seq<u64>, bool)>),
            Err(_) => image_table(elf@) is None,
        },
{
    Table::parse(elf)
}

/// Calls `Table::get_locations` and hands the entries out with each path
/// rendered as text. The contract gives the outcome its name, `located`: it
/// depends on the table and the bytes of the image alone, and what it is
/// for given bytes is left to the decoder.
#[verifier::external_body]
fn read_locations(table: &Table, elf: &[u8]) -> (read: Result<Locations, anyhow::Error>)
    ensures
        match read {
            Ok(found) => located(*table, elf@) == Some(found@),
            Err(_) => located(*table, elf@) is None,
        },
{
    let mut found = Locations::new();
    for (index, at) in table.get_locations(elf)? {
        let file = at.file.display().to_string();
        found.insert(index, Location { file, line: at.line, module: at.module });
    }
    Ok(found)
}

/// Calls `Table::indices` and collects what it yields. The contract gives
/// the sequence its name, `table_indices`.
#[verifier::external_body]
fn log_indices(table: &Table) -> (indices: Vec<u64>)
    ensures
        indices@ == table_indices(*table),
{
    table.indices().map(|index| index as u64).collect()
}

/// Calls `Encoding::can_recover` on `Table::encoding`. The contract gives
/// the answer its name, `table_recovers`.
#[verifier::external_body]
fn can_recover(table: &Table) -> (recovers: bool)
    ensures
        recovers == table_recovers(*table),
{
    table.encoding().can_recover()
}

/// Whether the parser can take an image.
pub fn parser_takes(elf: &[u8]) -> (takes: bool)
    ensures
        takes == fits_parser(elf@),
{
    let wide = elf.len() >= 5 && elf[0] == 0x7f && elf[1] == 0x45 && elf[2] == 0x4c && elf[3]
        == 0x46 && elf[4] == 2;
    let roomy = usize::MAX as u64 >= 0x1_0000_000f_u64;
    !wide && roomy
}

/// Whether `found` has a location for every index of `indices`.
pub fn is_complete(indices: &Vec<u64>, found: &Locations) -> (complete: bool)
    ensures
        complete == covers(found@, indices@),
{
    let mut i: usize = 0;
    while i < indices.len()
        invariant
            i <= indices.len(),
            forall|j: int| 0 <= j < i ==> found@.contains_key(#[trigger] indices@[j]),
        decreases indices.len() - i,
    {
        if !found.contains_key(&indices[i]) {
            return false;
        }
        i += 1;
    }
    true
}

/// Turns the outcome of parsing an image into a table or the reason why
/// there is none.
pub fn require_table(parsed: Result<Option<Table>, anyhow::Error>) -> (table: Result<
    Table,
    LoadError,
>)
    ensures
        table == match parsed {
            Ok(Some(found)) => Ok::<Table, LoadError>(found),
            Ok(None) => Err(LoadError::NoDefmtData),
            Err(error) => Err(LoadError::Parse(error)),
        },
{
    match parsed {
        Ok(Some(found)) => Ok(found),
        Ok(None) => Err(LoadError::NoDefmtData),
        Err(error) => Err(LoadError::Parse(error)),
    }
}

impl Symbols {
    #[verifier::type_invariant]
    spec fn inv(self) -> bool {
        self.locations matches Some(found) ==> covers(found@, table_indices(self.table))
    }

    /// Joins a table with the locations read beside it. Locations that miss
    /// a log statement of the table are dropped whole.
    pub fn assemble(table: Table, found: Locations) -> (symbols: Symbols)
        ensures
            symbols@ == assembled(table, found@),
            symbols@.well_formed(),
    {
        let indices = log_indices(&table);
        let locations = if is_complete(&indices, &found) {
            Some(found)
        } else {
            None
        };
        Symbols { table, locations }
    }

    /// Reads the locations of a table out of the image that it came from,
    /// and joins the two. It fails exactly where the debug information
    /// cannot be read.
    pub fn locate(table: Table, elf: &[u8]) -> (loaded: Result<Symbols, LoadError>)
        ensures
            located_with(table, elf@, loaded),
    {
        match read_locations(&table, elf) {
            Ok(found) => Ok(Symbols::assemble(table, found)),
            Err(error) => Err(LoadError::Locations(error)),
        }
    }

    /// Reads the symbol data out of an ELF image. A 64-bit image is
    /// refused unread; an image that cannot be read, or that holds no defmt
    /// data, is refused for that reason; one with a table gives what
    /// `locate` makes of that table.
    pub fn load(elf: &[u8]) -> (loaded: Result<Symbols, LoadError>)
        ensures
            !fits_parser(elf@) ==> loaded matches Err(LoadError::WideAddresses),
            fits_parser(elf@) ==> match image_table(elf@) {
                None => loaded matches Err(LoadError::Parse(_)),
                Some(None) => loaded matches Err(LoadError::NoDefmtData),
                Some(Some((indices, recoverable))) => exists|table: Table|
                    {
                        &&& table_indices(table) == indices
                        &&& table_recovers(table) == recoverable
                        &&& #[trigger] located_with(table, elf@, loaded)
                    },
            },
    {
        if !parser_takes(elf) {
            return Err(LoadError::WideAddresses);
        }
        match require_table(parse_table(elf)) {
            Ok(table) => Symbols::locate(table, elf),
            Err(error) => Err(error),
        }
    }

    /// The defmt table.
    pub fn table(&self) -> (table: &Table)
        ensures
            table_indices(*table) == self@.indices,
            table_recovers(*table) == self@.recoverable,
    {
        &self.table
    }

    /// Whether decoding can go on after a malformed frame.
    pub fn recoverable(&self) -> (recoverable: bool)
        ensures
            recoverable == self@.recoverable,
    {
        can_recover(&self.table)
    }

    /// The location table; `None` where resolution is disabled.
    pub fn locations(&self) -> (locations: &Option<Locations>)
        ensures
            table_model(*locations) == self@.locations,
            self@.well_formed(),
    {
        proof {
            use_type_invariant(self);
        }
        &self.locations
    }
}

} // verus!
