//! Ingestion: numbering records in file order, extracting their metadata, and
//! planning each protein's k-mer batch.
use vstd::prelude::*;
use crate::header::{
    captures_of,
    extract_metadata,
    header_patterns_compile,
    header_text,
    metadata_model,
    opt_text,
    HeaderError,
    MetadataModel,
    ProteinMetadata,
};
use crate::index::{encodable, encode_index, encode_spec, IndexError};
use vstd::string::StrSliceExecFns;
use crate::kmer::{kmers_of, split_sequence, window_count};
use crate::storage::{
    apply_plan,
    concat_plans,
    empty_store,
    index_ops,
    kmer_ops,
    kmer_plan,
    lemma_rerun_doubles,
    lemma_run_contents,
    lemma_run_steps_form_plan,
    metadata_ops,
    ops_model,
    pairs_model,
    run_steps,
    schema_ops,
    StoreOp,
};

verus! {

/// One FASTA record: identifier, optional description, residues.
pub struct FastaEntry {
    pub id: String,
    pub description: Option<String>,
    pub residues: String,
}

/// The metadata of entry `e` when it is protein number `n`.
pub open spec fn entry_metadata(n: nat, e: FastaEntry) -> MetadataModel {
    metadata_model(n, e.id@, captures_of(header_text(e.id@, opt_text(e.description))))
}

/// One metadata row per entry, in input order, entry `i` (from 0) being
/// protein number `i + 1`.
pub fn metadata_rows(entries: &Vec<FastaEntry>) -> (r: Result<Vec<ProteinMetadata>, HeaderError>)
    requires
        entries@.len() < u64::MAX,
    ensures
        r is Ok <==> entries@.len() == 0 || header_patterns_compile(),
        r matches Ok(rows) ==> rows@.len() == entries@.len() && forall|i: int|
            0 <= i < rows@.len() ==> (#[trigger] rows@[i])@ == entry_metadata(
                (i + 1) as nat,
                entries@[i],
            ),
{
    let mut rows: Vec<ProteinMetadata> = Vec::new();
    let mut i: usize = 0;
    while i < entries.len()
        invariant
            entries@.len() < u64::MAX,
            i <= entries@.len(),
            rows@.len() == i,
            i > 0 ==> header_patterns_compile(),
            forall|j: int|
                0 <= j < i ==> (#[trigger] rows@[j])@ == entry_metadata((j + 1) as nat, entries@[j]),
        decreases entries@.len() - i,
    {
        let e = &entries[i];
        let desc: Option<&str> = match &e.description {
            Some(d) => Some(d.as_str()),
            None => None,
        };
        let m = extract_metadata(i as u64 + 1, e.id.as_str(), desc)?;
        rows.push(m);
        i = i + 1;
    }
    Ok(rows)
}

/// The storage plan for the k-mers of protein `protein_number` with residues
/// `residues`: every window of `k` residues, each under its global index, in
/// one transaction. Fails when some offset has no global index (the sequence
/// is too long, or the key would not fit in 64 bits).
pub fn protein_kmer_ops(protein_number: u64, residues: &str, k: usize) -> (r: Result<
    Vec<StoreOp>,
    IndexError,
>)
    ensures
        r is Ok <==> forall|o: nat|
            o < window_count(residues@.len(), k as nat) ==> #[trigger] encodable(
                protein_number as nat,
                o,
            ),
        r matches Ok(ops) ==> ops_model(ops@) == kmer_plan(
            protein_number as nat,
            kmers_of(residues@, k as nat),
        ),
{
    let kmers = split_sequence(residues, k);
    assert(pairs_model(kmers@) =~= kmers_of(residues@, k as nat));
    let r = kmer_ops(protein_number, &kmers);
    proof {
        if r is Ok {
            assert forall|o: nat|
                o < window_count(residues@.len(), k as nat) implies #[trigger] encodable(
                protein_number as nat,
                o,
            ) by {
                assert(kmers@[o as int].1 == o);
            }
        } else {
            let j = choose|j: int|
                0 <= j < kmers@.len() && !encodable(protein_number as nat, #[trigger] kmers@[j].1 as nat);
            assert(!encodable(protein_number as nat, j as nat));
        }
    }
    r
}

/// Whether every window offset of a sequence of `len` residues has a global
/// index under protein `p`.
pub open spec fn windows_encodable(p: nat, len: nat, k: nat) -> bool {
    forall|o: nat| o < window_count(len, k) ==> #[trigger] encodable(p, o)
}

/// Checks that every k-mer of protein `protein_number` with residues
/// `residues` has a global index; when one does not, reports why.
pub fn check_capacity(protein_number: u64, residues: &str, k: usize) -> (r: Result<(), IndexError>)
    ensures
        r is Ok <==> windows_encodable(protein_number as nat, residues@.len(), k as nat),
{
    let len = residues.unicode_len();
    if len < k {
        return Ok(());
    }
    let last = len - k;
    match encode_index(protein_number, last as u64) {
        Ok(_) => {
            assert forall|o: nat| o < window_count(len as nat, k as nat) implies #[trigger] encodable(
                protein_number as nat,
                o,
            ) by {
                assert(encode_spec(protein_number as nat, o) <= encode_spec(
                    protein_number as nat,
                    last as nat,
                ));
            }
            Ok(())
        },
        Err(e) => {
            assert(!encodable(protein_number as nat, last as nat));
            Err(e)
        },
    }
}

/// Checks every entry, entry `i` (from 0) being protein number `i + 1`, before
/// anything is stored; reports the first entry whose k-mers would have no
/// global index, with the reason.
pub fn check_entries(entries: &Vec<FastaEntry>, k: usize) -> (r: Result<(), (usize, IndexError)>)
    requires
        entries@.len() < u64::MAX,
    ensures
        r is Ok <==> forall|i: int|
            0 <= i < entries@.len() ==> windows_encodable(
                (i + 1) as nat,
                (#[trigger] entries@[i]).residues@.len(),
                k as nat,
            ),
        r matches Err((i, _)) ==> i < entries@.len() && !windows_encodable(
            (i + 1) as nat,
            entries@[i as int].residues@.len(),
            k as nat,
        ),
{
    let mut i: usize = 0;
    while i < entries.len()
        invariant
            entries@.len() < u64::MAX,
            i <= entries@.len(),
            forall|j: int|
                0 <= j < i ==> windows_encodable(
                    (j + 1) as nat,
                    (#[trigger] entries@[j]).residues@.len(),
                    k as nat,
                ),
        decreases entries@.len() - i,
    {
        match check_capacity(i as u64 + 1, entries[i].residues.as_str(), k) {
            Ok(()) => {},
            Err(e) => {
                return Err((i, e));
            },
        }
        i = i + 1;
    }
    Ok(())
}

/// The metadata rows of a run over `entries`.
pub open spec fn entry_rows(entries: Seq<FastaEntry>) -> Seq<MetadataModel> {
    Seq::new(entries.len(), |i: int| entry_metadata((i + 1) as nat, entries[i]))
}

/// The proteins of a run over `entries`: each protein number with its k-mers.
pub open spec fn entry_proteins(entries: Seq<FastaEntry>, k: nat) -> Seq<
    (nat, Seq<(Seq<char>, nat)>),
> {
    Seq::new(entries.len(), |i: int| ((i + 1) as nat, kmers_of(entries[i].residues@, k)))
}

/// Why a step of a run could not be planned.
#[derive(Debug, Clone, Copy, PartialEq, Eq, Structural)]
pub enum RunError {
    Header(HeaderError),
    Index(IndexError),
}

/// Number of steps in a run over `n` records: schema, metadata, one per
/// protein, indices.
pub fn run_step_count(n: usize) -> (r: usize)
    requires
        n + 3 <= usize::MAX,
    ensures
        r == n + 3,
{
    n + 3
}

/// Step `step` of a run over `entries` with window size `k`: step 0 creates
/// the tables, step 1 stores all metadata rows, step `i + 2` stores the k-mers
/// of entry `i` (protein number `i + 1`), and the last step builds the
/// indices. Carried out in order, the steps make up the run's plan.
pub fn run_step(entries: &Vec<FastaEntry>, k: usize, step: usize) -> (r: Result<
    Vec<StoreOp>,
    RunError,
>)
    requires
        entries@.len() < u64::MAX,
        step < entries@.len() + 3,
    ensures
        step == 1 ==> (r is Ok <==> entries@.len() == 0 || header_patterns_compile()),
        2 <= step < entries@.len() + 2 ==> (r is Ok <==> windows_encodable(
            (step - 1) as nat,
            entries@[step - 2].residues@.len(),
            k as nat,
        )),
        (step == 0 || step == entries@.len() + 2) ==> r is Ok,
        r matches Ok(ops) ==> ops_model(ops@) == run_steps(
            entry_rows(entries@),
            entry_proteins(entries@, k as nat),
        )[step as int],
{
    let ghost rows = entry_rows(entries@);
    let ghost proteins = entry_proteins(entries@, k as nat);
    let n = entries.len();
    if step == 0 {
        Ok(schema_ops())
    } else if step == 1 {
        match metadata_rows(entries) {
            Ok(ms) => {
                let ghost models = ms@.map_values(|m: ProteinMetadata| m@);
                assert(models =~= rows);
                Ok(metadata_ops(ms))
            },
            Err(e) => Err(RunError::Header(e)),
        }
    } else if step - 2 < n {
        let i = step - 2;
        match protein_kmer_ops(i as u64 + 1, entries[i].residues.as_str(), k) {
            Ok(ops) => {
                assert(run_steps(rows, proteins)[step as int] == kmer_plan(
                    proteins[i as int].0,
                    proteins[i as int].1,
                ));
                Ok(ops)
            },
            Err(e) => Err(RunError::Index(e)),
        }
    } else {
        Ok(index_ops())
    }
}

/// Running the same ingestion over `entries` twice against one store,
/// starting empty, keeps both runs' rows: each table ends with exactly twice
/// the rows of one run, which holds one metadata row per entry in input order.
pub proof fn lemma_rerun_entries_doubles(entries: Seq<FastaEntry>, k: nat)
    ensures
        ({
            let plan = concat_plans(run_steps(entry_rows(entries), entry_proteins(entries, k)));
            let once = apply_plan(empty_store(), plan);
            let twice = apply_plan(once, plan);
            &&& once.metadata == entry_rows(entries)
            &&& once.metadata.len() == entries.len()
            &&& twice.metadata.len() == 2 * entries.len()
            &&& twice.kmers.len() == 2 * once.kmers.len()
            &&& twice.metadata == once.metadata + once.metadata
            &&& twice.kmers == once.kmers + once.kmers
        }),
{
    let rows = entry_rows(entries);
    let proteins = entry_proteins(entries, k);
    lemma_run_steps_form_plan(rows, proteins);
    lemma_run_contents(rows, proteins);
    lemma_rerun_doubles(rows, proteins);
}

} // verus!
