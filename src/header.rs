//! Field-by-field extraction of protein metadata from a FASTA header line.
//!
//! Each field is matched by its own pattern, so a field that is missing or
//! malformed falls back to its default without affecting the others.
use vstd::prelude::*;
use vstd::string::StringExecFns;
use vstd::string::StrSliceExecFns;

verus! {

/// Between two `|` characters.
pub const PROTEIN_ID_PATTERN: &'static str = r"\|([^|]*)\|";

/// From the first whitespace up to the whitespace before `OS=`.
pub const PROTEIN_NAME_PATTERN: &'static str = r"\s(.+?)\s*OS=";

/// Between `OS=` and the whitespace before `OX=`.
pub const SPECIES_PATTERN: &'static str = r"OS=(.+?)\s*OX=";

/// Digits between `OX=` and whitespace or the end of the line.
pub const TAXON_ID_PATTERN: &'static str = r"OX=(\d+?)(\s|$)";

/// Between `GN=` and whitespace or the end of the line.
pub const GENE_PATTERN: &'static str = r"GN=(.+?)(\s|$)";

/// Digits between `PE=` and whitespace or the end of the line.
pub const PE_LEVEL_PATTERN: &'static str = r"PE=(\d+?)(\s|$)";

/// Digits between `SV=` and whitespace or the end of the line.
pub const SEQUENCE_VERSION_PATTERN: &'static str = r"SV=(\d+?)(\s|$)";

#[verifier::external_type_specification]
#[verifier::external_body]
pub struct ExRegexError(regex::Error);

/// Why a header could not be examined at all.
#[derive(Debug, Clone, Copy, PartialEq, Eq, Structural)]
pub enum HeaderError {
    /// A field pattern was refused by the regular-expression engine.
    InvalidPattern,
}

/// The text of the first capture group of the leftmost match of the regular
/// expression `pattern` in `text`, or `None` when it does not match.
pub uninterp spec fn regex_first_group(pattern: Seq<char>, text: Seq<char>) -> Option<
    Seq<char>,
>;

/// Whether the regular-expression engine accepts `pattern`.
pub uninterp spec fn regex_compiles(pattern: Seq<char>) -> bool;

/// Whether every field pattern is accepted.
pub open spec fn header_patterns_compile() -> bool {
    &&& regex_compiles(PROTEIN_ID_PATTERN@)
    &&& regex_compiles(PROTEIN_NAME_PATTERN@)
    &&& regex_compiles(SPECIES_PATTERN@)
    &&& regex_compiles(TAXON_ID_PATTERN@)
    &&& regex_compiles(GENE_PATTERN@)
    &&& regex_compiles(PE_LEVEL_PATTERN@)
    &&& regex_compiles(SEQUENCE_VERSION_PATTERN@)
}

pub open spec fn opt_text(o: Option<String>) -> Option<Seq<char>> {
    match o {
        Some(s) => Some(s@),
        None => None,
    }
}

/// Relies on regex::Regex::new to compile `pattern` and on
/// Regex::captures / Captures::get(1) for the first group of the leftmost
/// match in `text`; whether compiling succeeds depends on the pattern alone,
/// and the match on the pattern and the text alone.
#[verifier::external_body]
fn first_group(pattern: &str, text: &str) -> (r: Result<Option<String>, regex::Error>)
    ensures
        r is Ok <==> regex_compiles(pattern@),
        r matches Ok(g) ==> opt_text(g) == regex_first_group(pattern@, text@),
{
    let re = regex::Regex::new(pattern)?;
    match re.captures(text) {
        Some(caps) => match caps.get(1) {
            Some(m) => Ok(Some(m.as_str().to_string())),
            None => Ok(None),
        },
        None => Ok(None),
    }
}

/// Metadata of one protein, as stored.
pub struct ProteinMetadata {
    pub protein_number: u64,
    pub protein_id: String,
    pub protein_name: String,
    pub species: String,
    pub taxon_id: String,
    pub gene: String,
    pub pe_level: u64,
    pub sequence_version: u64,
}

pub ghost struct MetadataModel {
    pub protein_number: nat,
    pub protein_id: Seq<char>,
    pub protein_name: Seq<char>,
    pub species: Seq<char>,
    pub taxon_id: Seq<char>,
    pub gene: Seq<char>,
    pub pe_level: nat,
    pub sequence_version: nat,
}

impl View for ProteinMetadata {
    type V = MetadataModel;

    open spec fn view(&self) -> MetadataModel {
        MetadataModel {
            protein_number: self.protein_number as nat,
            protein_id: self.protein_id@,
            protein_name: self.protein_name@,
            species: self.species@,
            taxon_id: self.taxon_id@,
            gene: self.gene@,
            pe_level: self.pe_level as nat,
            sequence_version: self.sequence_version as nat,
        }
    }
}

/// What each field pattern captured in one header (`None`: no match).
pub struct HeaderCaptures {
    pub protein_id: Option<String>,
    pub protein_name: Option<String>,
    pub species: Option<String>,
    pub taxon_id: Option<String>,
    pub gene: Option<String>,
    pub pe_level: Option<String>,
    pub sequence_version: Option<String>,
}

pub ghost struct CapturesModel {
    pub protein_id: Option<Seq<char>>,
    pub protein_name: Option<Seq<char>>,
    pub species: Option<Seq<char>>,
    pub taxon_id: Option<Seq<char>>,
    pub gene: Option<Seq<char>>,
    pub pe_level: Option<Seq<char>>,
    pub sequence_version: Option<Seq<char>>,
}

impl View for HeaderCaptures {
    type V = CapturesModel;

    open spec fn view(&self) -> CapturesModel {
        CapturesModel {
            protein_id: opt_text(self.protein_id),
            protein_name: opt_text(self.protein_name),
            species: opt_text(self.species),
            taxon_id: opt_text(self.taxon_id),
            gene: opt_text(self.gene),
            pe_level: opt_text(self.pe_level),
            sequence_version: opt_text(self.sequence_version),
        }
    }
}

/// What the field patterns capture in header `h`.
pub open spec fn captures_of(h: Seq<char>) -> CapturesModel {
    CapturesModel {
        protein_id: regex_first_group(PROTEIN_ID_PATTERN@, h),
        protein_name: regex_first_group(PROTEIN_NAME_PATTERN@, h),
        species: regex_first_group(SPECIES_PATTERN@, h),
        taxon_id: regex_first_group(TAXON_ID_PATTERN@, h),
        gene: regex_first_group(GENE_PATTERN@, h),
        pe_level: regex_first_group(PE_LEVEL_PATTERN@, h),
        sequence_version: regex_first_group(SEQUENCE_VERSION_PATTERN@, h),
    }
}

pub open spec fn is_digit(c: char) -> bool {
    '0' <= c <= '9'
}

/// A non-empty string of ASCII decimal digits.
pub open spec fn is_decimal(s: Seq<char>) -> bool {
    s.len() > 0 && forall|i: int| 0 <= i < s.len() ==> is_digit(#[trigger] s[i])
}

/// The number that a string of decimal digits writes.
pub open spec fn decimal_value(s: Seq<char>) -> nat
    decreases s.len(),
{
    if s.len() == 0 {
        0
    } else {
        decimal_value(s.drop_last()) * 10 + (s.last() as nat - '0' as nat) as nat
    }
}

/// The number written by `s` when it is a decimal that fits in a `u64`.
pub open spec fn decimal_u64(s: Seq<char>) -> Option<nat> {
    if is_decimal(s) && decimal_value(s) <= u64::MAX {
        Some(decimal_value(s))
    } else {
        None
    }
}

/// The captured text, or `default` when nothing was captured.
pub open spec fn text_or(o: Option<Seq<char>>, default: Seq<char>) -> Seq<char> {
    match o {
        Some(t) => t,
        None => default,
    }
}

/// The captured number, or 0 when nothing was captured or the capture is not
/// a decimal that fits in a `u64`.
pub open spec fn number_or_zero(o: Option<Seq<char>>) -> nat {
    match o {
        Some(t) => match decimal_u64(t) {
            Some(v) => v,
            None => 0,
        },
        None => 0,
    }
}

/// The metadata of protein `n` with identifier `id`, given what the field
/// patterns captured.
pub open spec fn metadata_model(n: nat, id: Seq<char>, c: CapturesModel) -> MetadataModel {
    MetadataModel {
        protein_number: n,
        protein_id: text_or(c.protein_id, id),
        protein_name: text_or(c.protein_name, Seq::empty()),
        species: text_or(c.species, Seq::empty()),
        taxon_id: text_or(c.taxon_id, Seq::empty()),
        gene: text_or(c.gene, Seq::empty()),
        pe_level: number_or_zero(c.pe_level),
        sequence_version: number_or_zero(c.sequence_version),
    }
}

/// The full header: the identifier, a space, and the description (empty when
/// there is none).
pub open spec fn header_text(id: Seq<char>, desc: Option<Seq<char>>) -> Seq<char> {
    id + seq![' '] + text_or(desc, Seq::empty())
}

proof fn lemma_prefix_value_le(s: Seq<char>, i: int)
    requires
        0 <= i <= s.len(),
    ensures
        decimal_value(s.subrange(0, i)) <= decimal_value(s),
    decreases s.len(),
{
    if i < s.len() {
        lemma_prefix_value_le(s.drop_last(), i);
        assert(s.drop_last().subrange(0, i) =~= s.subrange(0, i));
    } else {
        assert(s.subrange(0, i) =~= s);
    }
}

/// The number that `s` writes in decimal, when `s` is a non-empty string of
/// ASCII digits whose value fits in a `u64`; `None` otherwise.
pub fn parse_decimal(s: &str) -> (r: Option<u64>)
    ensures
        r matches Some(v) ==> decimal_u64(s@) == Some(v as nat),
        r is None ==> decimal_u64(s@) is None,
{
    let len = s.unicode_len();
    if len == 0 {
        return None;
    }
    let mut acc: u64 = 0;
    let mut i: usize = 0;
    while i < len
        invariant
            len == s@.len(),
            i <= len,
            forall|j: int| 0 <= j < i ==> is_digit(#[trigger] s@[j]),
            acc as nat == decimal_value(s@.subrange(0, i as int)),
        decreases len - i,
    {
        let c = s.get_char(i);
        if c < '0' || c > '9' {
            assert(!is_decimal(s@));
            return None;
        }
        let d = (c as u32 - '0' as u32) as u64;
        assert(s@.subrange(0, i + 1).drop_last() =~= s@.subrange(0, i as int));
        if acc > (u64::MAX - d) / 10 {
            proof {
                assert(acc * 10 + d > u64::MAX) by (nonlinear_arith)
                    requires
                        acc > (u64::MAX - d) / 10,
                        d <= 9,
                ;
                lemma_prefix_value_le(s@, i + 1);
            }
            return None;
        }
        assert(acc * 10 + d <= u64::MAX) by (nonlinear_arith)
            requires
                acc <= (u64::MAX - d) / 10,
                d <= 9,
        ;
        acc = acc * 10 + d;
        i = i + 1;
    }
    assert(s@.subrange(0, len as int) =~= s@);
    Some(acc)
}

/// The captured text, or a copy of `default`.
fn text_or_default(o: &Option<String>, default: &str) -> (r: String)
    ensures
        r@ == text_or(opt_text(*o), default@),
{
    match o {
        Some(t) => t.clone(),
        None => default.to_owned(),
    }
}

/// The captured number, or 0.
fn number_or_default(o: &Option<String>) -> (r: u64)
    ensures
        r as nat == number_or_zero(opt_text(*o)),
{
    match o {
        Some(t) => match parse_decimal(t.as_str()) {
            Some(v) => v,
            None => 0,
        },
        None => 0,
    }
}

/// A header that lacks one field still yields metadata: that field takes its
/// default, and every other field is what it would have been had the field
/// been present.
pub proof fn lemma_missing_field_defaults(n: nat, id: Seq<char>, c: CapturesModel)
    ensures
        metadata_model(n, id, CapturesModel { protein_id: None, ..c }) == (MetadataModel {
            protein_id: id,
            ..metadata_model(n, id, c)
        }),
        metadata_model(n, id, CapturesModel { protein_name: None, ..c }) == (MetadataModel {
            protein_name: Seq::empty(),
            ..metadata_model(n, id, c)
        }),
        metadata_model(n, id, CapturesModel { species: None, ..c }) == (MetadataModel {
            species: Seq::empty(),
            ..metadata_model(n, id, c)
        }),
        metadata_model(n, id, CapturesModel { taxon_id: None, ..c }) == (MetadataModel {
            taxon_id: Seq::empty(),
            ..metadata_model(n, id, c)
        }),
        metadata_model(n, id, CapturesModel { gene: None, ..c }) == (MetadataModel {
            gene: Seq::empty(),
            ..metadata_model(n, id, c)
        }),
        metadata_model(n, id, CapturesModel { pe_level: None, ..c }) == (MetadataModel {
            pe_level: 0,
            ..metadata_model(n, id, c)
        }),
        metadata_model(n, id, CapturesModel { sequence_version: None, ..c }) == (MetadataModel {
            sequence_version: 0,
            ..metadata_model(n, id, c)
        }),
{
}

/// Builds the metadata of protein `protein_number` from what the field
/// patterns captured in its header: each field missing from the header takes
/// its default (the bare identifier `record_id` for the protein id, the empty
/// string for the other texts, 0 for the numbers), independently of the others.
pub fn assemble_metadata(protein_number: u64, record_id: &str, captures: &HeaderCaptures) -> (r:
    ProteinMetadata)
    ensures
        r@ == metadata_model(protein_number as nat, record_id@, captures@),
{
    proof {
        reveal_strlit("");
        assert(""@ =~= Seq::<char>::empty());
    }
    ProteinMetadata {
        protein_number,
        protein_id: text_or_default(&captures.protein_id, record_id),
        protein_name: text_or_default(&captures.protein_name, ""),
        species: text_or_default(&captures.species, ""),
        taxon_id: text_or_default(&captures.taxon_id, ""),
        gene: text_or_default(&captures.gene, ""),
        pe_level: number_or_default(&captures.pe_level),
        sequence_version: number_or_default(&captures.sequence_version),
    }
}

/// The full header line of a record: its identifier, a space, and its
/// description, if any.
pub fn header_line(id: &str, desc: Option<&str>) -> (r: String)
    ensures
        r@ == header_text(id@, opt_str(desc)),
{
    let mut h = id.to_owned();
    h.append(" ");
    match desc {
        Some(d) => h.append(d),
        None => {},
    }
    proof {
        reveal_strlit(" ");
    }
    assert(h@ =~= header_text(id@, opt_str(desc)));
    h
}

pub open spec fn opt_str(o: Option<&str>) -> Option<Seq<char>> {
    match o {
        Some(s) => Some(s@),
        None => None,
    }
}

/// Runs every field pattern over `header`.
pub fn capture_fields(header: &str) -> (r: Result<HeaderCaptures, HeaderError>)
    ensures
        r is Ok <==> header_patterns_compile(),
        r matches Ok(c) ==> c@ == captures_of(header@),
{
    let protein_id = capture(PROTEIN_ID_PATTERN, header)?;
    let protein_name = capture(PROTEIN_NAME_PATTERN, header)?;
    let species = capture(SPECIES_PATTERN, header)?;
    let taxon_id = capture(TAXON_ID_PATTERN, header)?;
    let gene = capture(GENE_PATTERN, header)?;
    let pe_level = capture(PE_LEVEL_PATTERN, header)?;
    let sequence_version = capture(SEQUENCE_VERSION_PATTERN, header)?;
    Ok(
        HeaderCaptures {
            protein_id,
            protein_name,
            species,
            taxon_id,
            gene,
            pe_level,
            sequence_version,
        },
    )
}

fn capture(pattern: &str, header: &str) -> (r: Result<Option<String>, HeaderError>)
    ensures
        r is Ok <==> regex_compiles(pattern@),
        r matches Ok(g) ==> opt_text(g) == regex_first_group(pattern@, header@),
{
    match first_group(pattern, header) {
        Ok(g) => Ok(g),
        Err(_) => Err(HeaderError::InvalidPattern),
    }
}

/// The metadata of protein `protein_number` whose FASTA record has identifier
/// `id` and description `desc`. Every field is extracted on its own; one that
/// the header lacks takes its default.
pub fn extract_metadata(protein_number: u64, id: &str, desc: Option<&str>) -> (r: Result<
    ProteinMetadata,
    HeaderError,
>)
    ensures
        r is Ok <==> header_patterns_compile(),
        r matches Ok(m) ==> m@ == metadata_model(
            protein_number as nat,
            id@,
            captures_of(header_text(id@, opt_str(desc))),
        ),
{
    let header = header_line(id, desc);
    let captures = capture_fields(header.as_str())?;
    Ok(assemble_metadata(protein_number, id, &captures))
}

} // verus!
