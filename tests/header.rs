use proteome_kmers::header::{
    assemble_metadata, capture_fields, extract_metadata, header_line, parse_decimal,
    HeaderCaptures, ProteinMetadata,
};

const DESC: &str = "Some Name OS=Homo sapiens OX=9606 GN=ABC PE=1 SV=2";

fn fields(m: &ProteinMetadata) -> (u64, &str, &str, &str, &str, &str, u64, u64) {
    (
        m.protein_number,
        m.protein_id.as_str(),
        m.protein_name.as_str(),
        m.species.as_str(),
        m.taxon_id.as_str(),
        m.gene.as_str(),
        m.pe_level,
        m.sequence_version,
    )
}

#[test]
fn full_uniprot_header() {
    let m = extract_metadata(1, "sp|P1|NAME_HUMAN", Some(DESC)).unwrap();
    assert_eq!(
        fields(&m),
        (1, "P1", "Some Name", "Homo sapiens", "9606", "ABC", 1, 2)
    );
}

#[test]
fn header_without_gene() {
    let m = extract_metadata(
        5,
        "sp|Q9XYZ1|TEST_MOUSE",
        Some("Protein kinase OS=Mus musculus OX=10090 PE=2 SV=3"),
    )
    .unwrap();
    assert_eq!(
        fields(&m),
        (5, "Q9XYZ1", "Protein kinase", "Mus musculus", "10090", "", 2, 3)
    );
}

#[test]
fn header_without_taxon_keeps_other_fields() {
    let m = extract_metadata(2, "tr|A0A1|X_Y", Some("Thing OS=Bos taurus GN=G1 PE=4 SV=1")).unwrap();
    assert_eq!(m.protein_id, "A0A1");
    assert_eq!(m.taxon_id, "");
    assert_eq!(m.gene, "G1");
    assert_eq!(m.pe_level, 4);
    assert_eq!(m.sequence_version, 1);
}

#[test]
fn bare_identifier_header_takes_every_default() {
    let m = extract_metadata(3, "seq42", None).unwrap();
    assert_eq!(fields(&m), (3, "seq42", "", "", "", "", 0, 0));
}

#[test]
fn header_line_joins_identifier_and_description() {
    assert_eq!(header_line("sp|P1|N", Some("a b")), "sp|P1|N a b");
    assert_eq!(header_line("x", None), "x ");
}

#[test]
fn capture_fields_reads_each_pattern() {
    let c = capture_fields(&format!("sp|P1|NAME_HUMAN {}", DESC)).unwrap();
    assert_eq!(c.protein_id.as_deref(), Some("P1"));
    assert_eq!(c.species.as_deref(), Some("Homo sapiens"));
    assert_eq!(c.taxon_id.as_deref(), Some("9606"));
    assert_eq!(c.gene.as_deref(), Some("ABC"));
    assert_eq!(c.pe_level.as_deref(), Some("1"));
    assert_eq!(c.sequence_version.as_deref(), Some("2"));
    let none = capture_fields("plain").unwrap();
    assert!(none.protein_id.is_none() && none.gene.is_none() && none.sequence_version.is_none());
}

#[test]
fn parse_decimal_values() {
    assert_eq!(parse_decimal("0"), Some(0));
    assert_eq!(parse_decimal("9606"), Some(9606));
    assert_eq!(parse_decimal("18446744073709551615"), Some(u64::MAX));
    assert_eq!(parse_decimal("18446744073709551616"), None);
    assert_eq!(parse_decimal(""), None);
    assert_eq!(parse_decimal("12a"), None);
    assert_eq!(parse_decimal("١٢"), None);
}

fn captures() -> HeaderCaptures {
    HeaderCaptures {
        protein_id: Some("P1".to_string()),
        protein_name: Some("Name".to_string()),
        species: Some("Homo sapiens".to_string()),
        taxon_id: Some("9606".to_string()),
        gene: Some("ABC".to_string()),
        pe_level: Some("1".to_string()),
        sequence_version: Some("2".to_string()),
    }
}

#[test]
fn assemble_uses_captures() {
    let m = assemble_metadata(9, "id", &captures());
    assert_eq!(
        fields(&m),
        (9, "P1", "Name", "Homo sapiens", "9606", "ABC", 1, 2)
    );
}

#[test]
fn assemble_defaults_each_missing_field_alone() {
    let mut c = captures();
    c.protein_id = None;
    assert_eq!(fields(&assemble_metadata(1, "raw", &c)).1, "raw");
    let mut c = captures();
    c.gene = None;
    assert_eq!(
        fields(&assemble_metadata(1, "raw", &c)),
        (1, "P1", "Name", "Homo sapiens", "9606", "", 1, 2)
    );
    let mut c = captures();
    c.pe_level = None;
    c.species = None;
    assert_eq!(
        fields(&assemble_metadata(1, "raw", &c)),
        (1, "P1", "Name", "", "9606", "ABC", 0, 2)
    );
    let mut c = captures();
    c.sequence_version = Some("x".to_string());
    assert_eq!(assemble_metadata(1, "raw", &c).sequence_version, 0);
}

#[test]
fn fields_at_end_of_line_are_read() {
    let m = extract_metadata(1, "sp|P2|X", Some("Thing OS=Homo sapiens OX=9606 GN=ABC PE=1")).unwrap();
    assert_eq!(m.pe_level, 1);
    let m = extract_metadata(1, "sp|P2|X", Some("Thing OS=Homo sapiens OX=9606 GN=ABC")).unwrap();
    assert_eq!(m.gene, "ABC");
    let m = extract_metadata(1, "sp|P2|X", Some("Thing OS=Homo sapiens OX=9606")).unwrap();
    assert_eq!(m.taxon_id, "9606");
    assert_eq!(m.species, "Homo sapiens");
}

#[test]
fn name_containing_os_is_kept_whole() {
    let m = extract_metadata(
        1,
        "sp|P3|GLU_HUMAN",
        Some("Lysosomal alpha-glucosidase GLUCOSIDASE OS=Homo sapiens OX=9606 PE=1 SV=4"),
    )
    .unwrap();
    assert_eq!(m.protein_name, "Lysosomal alpha-glucosidase GLUCOSIDASE");
    assert_eq!(m.species, "Homo sapiens");
}

#[test]
fn species_containing_ox_is_kept_whole() {
    let m = extract_metadata(1, "sp|P4|X", Some("Thing OS=Boxus oxford OX=1 PE=1 SV=1")).unwrap();
    assert_eq!(m.species, "Boxus oxford");
    assert_eq!(m.taxon_id, "1");
}
