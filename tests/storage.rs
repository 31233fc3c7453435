use proteome_kmers::header::{extract_metadata, ProteinMetadata};
use proteome_kmers::index::IndexError;
use proteome_kmers::pipeline::{
    check_capacity, check_entries, metadata_rows, protein_kmer_ops, run_step, run_step_count,
    FastaEntry, RunError,
};
use proteome_kmers::storage::{
    index_ops, kmer_ops, metadata_ops, schema_ops, StoreOp, BEGIN_SQL, COMMIT_SQL,
    CREATE_KMER_INDEX_SQL, INSERT_KMER_SQL, SYNC_OFF_SQL, SYNC_ON_SQL,
};

#[derive(Debug, PartialEq)]
enum Shape {
    CreateMetadataTable,
    CreateKmersTable,
    Begin,
    Commit,
    Sync(bool),
    Metadata(u64, String),
    Kmer(String, u64),
    KmerIndex,
    ProteinNumberIndex,
}

fn shape(ops: &[StoreOp]) -> Vec<Shape> {
    ops.iter()
        .map(|o| match o {
            StoreOp::CreateMetadataTable => Shape::CreateMetadataTable,
            StoreOp::CreateKmersTable => Shape::CreateKmersTable,
            StoreOp::Begin => Shape::Begin,
            StoreOp::Commit => Shape::Commit,
            StoreOp::SetSynchronous(on) => Shape::Sync(*on),
            StoreOp::InsertMetadata(m) => Shape::Metadata(m.protein_number, m.protein_id.clone()),
            StoreOp::InsertKmer(r) => Shape::Kmer(r.kmer.clone(), r.index),
            StoreOp::CreateKmerIndex => Shape::KmerIndex,
            StoreOp::CreateProteinNumberIndex => Shape::ProteinNumberIndex,
        })
        .collect()
}

fn entry(id: &str, desc: Option<&str>, residues: &str) -> FastaEntry {
    FastaEntry {
        id: id.to_string(),
        description: desc.map(|d| d.to_string()),
        residues: residues.to_string(),
    }
}

#[test]
fn scenario_one_kmer_rows() {
    let ops = protein_kmer_ops(1, "MKV", 2).unwrap();
    assert_eq!(
        shape(&ops),
        vec![
            Shape::Sync(false),
            Shape::Begin,
            Shape::Kmer("MK".to_string(), 1_000_000),
            Shape::Kmer("KV".to_string(), 1_000_001),
            Shape::Commit,
            Shape::Sync(true)
        ]
    );
}

#[test]
fn short_sequence_gives_empty_batch() {
    let ops = protein_kmer_ops(4, "MK", 3).unwrap();
    assert_eq!(
        shape(&ops),
        vec![Shape::Sync(false), Shape::Begin, Shape::Commit, Shape::Sync(true)]
    );
}

#[test]
fn kmer_ops_rejects_offset_beyond_scale() {
    let kmers = vec![("AB".to_string(), 0usize), ("BC".to_string(), 1_000_000usize)];
    assert!(matches!(kmer_ops(1, &kmers), Err(IndexError::OffsetTooLarge)));
    let ok = vec![("AB".to_string(), 999_999usize)];
    assert_eq!(
        shape(&kmer_ops(2, &ok).unwrap()),
        vec![
            Shape::Sync(false),
            Shape::Begin,
            Shape::Kmer("AB".to_string(), 2_999_999),
            Shape::Commit,
            Shape::Sync(true)
        ]
    );
}

#[test]
fn protein_kmer_ops_reports_overflow() {
    assert!(matches!(protein_kmer_ops(u64::MAX, "MKV", 2), Err(IndexError::Overflow)));
}

#[test]
fn long_sequence_is_rejected() {
    let residues = "A".repeat(1_000_001);
    assert!(matches!(protein_kmer_ops(1, &residues, 1), Err(IndexError::OffsetTooLarge)));
    assert!(protein_kmer_ops(1, &residues, 2).is_ok());
}

#[test]
fn schema_metadata_and_index_plans() {
    assert_eq!(
        shape(&schema_ops()),
        vec![Shape::CreateMetadataTable, Shape::CreateKmersTable]
    );
    assert_eq!(
        shape(&index_ops()),
        vec![Shape::Begin, Shape::KmerIndex, Shape::ProteinNumberIndex, Shape::Commit]
    );
    let rows = vec![
        extract_metadata(1, "sp|P1|A", None).unwrap(),
        extract_metadata(2, "sp|P2|B", None).unwrap(),
    ];
    assert_eq!(
        shape(&metadata_ops(rows)),
        vec![
            Shape::Begin,
            Shape::Metadata(1, "P1".to_string()),
            Shape::Metadata(2, "P2".to_string()),
            Shape::Commit
        ]
    );
    assert_eq!(shape(&metadata_ops(Vec::new())), vec![Shape::Begin, Shape::Commit]);
}

#[test]
fn statements_for_operations() {
    assert_eq!(StoreOp::Begin.sql(), BEGIN_SQL);
    assert_eq!(StoreOp::Commit.sql(), COMMIT_SQL);
    assert_eq!(StoreOp::SetSynchronous(false).sql(), SYNC_OFF_SQL);
    assert_eq!(StoreOp::SetSynchronous(true).sql(), SYNC_ON_SQL);
    assert_eq!(StoreOp::CreateKmerIndex.sql(), CREATE_KMER_INDEX_SQL);
    let row = proteome_kmers::storage::KmerRow { kmer: "MK".to_string(), index: 7 };
    assert_eq!(StoreOp::InsertKmer(row).sql(), INSERT_KMER_SQL);
}

#[test]
fn metadata_rows_number_entries_from_one() {
    let entries = vec![
        entry("sp|P1|NAME_HUMAN", Some("Some Name OS=Homo sapiens OX=9606 GN=ABC PE=1 SV=2"), "MKV"),
        entry("sp|P2|OTHER_HUMAN", Some("Other OS=Homo sapiens OX=9606 PE=1 SV=1"), "YLLDLHSYL"),
        entry("plain", None, "MK"),
    ];
    let rows = metadata_rows(&entries).unwrap();
    let got: Vec<(u64, &str, &str)> = rows
        .iter()
        .map(|m: &ProteinMetadata| (m.protein_number, m.protein_id.as_str(), m.gene.as_str()))
        .collect();
    assert_eq!(got, vec![(1, "P1", "ABC"), (2, "P2", ""), (3, "plain", "")]);
}

fn run(conn: &rusqlite::Connection, ops: Vec<StoreOp>) {
    for op in &ops {
        let sql = op.sql();
        match op {
            StoreOp::InsertMetadata(m) => {
                conn.execute(
                    sql,
                    (
                        m.protein_number as i64,
                        m.protein_id.as_str(),
                        m.protein_name.as_str(),
                        m.species.as_str(),
                        m.taxon_id.as_str(),
                        m.gene.as_str(),
                        m.pe_level as i64,
                        m.sequence_version as i64,
                    ),
                )
                .unwrap();
            }
            StoreOp::InsertKmer(r) => {
                conn.execute(sql, (r.kmer.as_str(), r.index as i64)).unwrap();
            }
            _ => {
                conn.execute_batch(sql).unwrap();
            }
        }
    }
}

fn ingest(conn: &rusqlite::Connection, entries: &Vec<FastaEntry>, k: usize) {
    for step in 0..run_step_count(entries.len()) {
        run(conn, run_step(entries, k, step).unwrap());
    }
}

fn count(conn: &rusqlite::Connection, table: &str) -> i64 {
    conn.query_row(&format!("SELECT COUNT(*) FROM {}", table), (), |r| r.get(0))
        .unwrap()
}

#[test]
fn rerun_doubles_row_counts() {
    let conn = rusqlite::Connection::open_in_memory().unwrap();
    let entries = vec![
        entry("sp|P1|NAME_HUMAN", Some("Some Name OS=Homo sapiens OX=9606 GN=ABC PE=1 SV=2"), "MKV"),
        entry("sp|P2|OTHER_HUMAN", Some("Other OS=Homo sapiens OX=9606 PE=1 SV=1"), "YLLDLHSYL"),
    ];
    ingest(&conn, &entries, 2);
    assert_eq!(count(&conn, "metadata"), 2);
    assert_eq!(count(&conn, "kmers"), 2 + 8);
    let idx: i64 = conn
        .query_row("SELECT idx FROM kmers WHERE kmer = 'KV'", (), |r| r.get(0))
        .unwrap();
    assert_eq!(idx, 1_000_001);
    ingest(&conn, &entries, 2);
    assert_eq!(count(&conn, "metadata"), 4);
    assert_eq!(count(&conn, "kmers"), 20);
}

#[test]
fn capacity_checks() {
    assert_eq!(check_capacity(1, "MK", 3), Ok(()));
    assert_eq!(check_capacity(1, "MKV", 2), Ok(()));
    assert_eq!(check_capacity(u64::MAX, "MKV", 2), Err(IndexError::Overflow));
    let long = "A".repeat(1_000_001);
    assert_eq!(check_capacity(1, &long, 1), Err(IndexError::OffsetTooLarge));
    assert_eq!(check_capacity(1, &long, 2), Ok(()));
    let entries = vec![entry("a", None, "MKV"), entry("b", None, &long)];
    assert_eq!(check_entries(&entries, 2), Ok(()));
    assert_eq!(check_entries(&entries, 1), Err((1, IndexError::OffsetTooLarge)));
}

#[test]
fn run_steps_in_order() {
    let entries = vec![
        entry("sp|P1|NAME_HUMAN", Some("Some Name OS=Homo sapiens OX=9606 GN=ABC PE=1 SV=2"), "MKV"),
        entry("plain", None, "MK"),
    ];
    assert_eq!(run_step_count(entries.len()), 5);
    assert_eq!(shape(&run_step(&entries, 2, 0).unwrap()), shape(&schema_ops()));
    assert_eq!(
        shape(&run_step(&entries, 2, 1).unwrap()),
        vec![
            Shape::Begin,
            Shape::Metadata(1, "P1".to_string()),
            Shape::Metadata(2, "plain".to_string()),
            Shape::Commit
        ]
    );
    assert_eq!(
        shape(&run_step(&entries, 2, 2).unwrap()),
        shape(&protein_kmer_ops(1, "MKV", 2).unwrap())
    );
    assert_eq!(
        shape(&run_step(&entries, 2, 3).unwrap()),
        vec![
            Shape::Sync(false),
            Shape::Begin,
            Shape::Kmer("MK".to_string(), 2_000_000),
            Shape::Commit,
            Shape::Sync(true)
        ]
    );
    assert_eq!(shape(&run_step(&entries, 2, 4).unwrap()), shape(&index_ops()));
}

#[test]
fn run_step_reports_long_sequence() {
    let long = "A".repeat(1_000_001);
    let entries = vec![entry("a", None, &long)];
    assert!(matches!(
        run_step(&entries, 1, 2),
        Err(RunError::Index(IndexError::OffsetTooLarge))
    ));
}

#[test]
fn metadata_rows_of_no_entries() {
    assert!(metadata_rows(&Vec::new()).unwrap().is_empty());
}
