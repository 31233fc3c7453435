//! The storage layer's decisions: schema, batching into transactions, bulk-load
//! tuning and post-load indices, as a plan of store operations that a
//! database connection carries out in order.
use vstd::prelude::*;
use crate::header::{MetadataModel, ProteinMetadata};
use crate::index::{encodable, encode_index, encode_spec, IndexError, INDEX_SCALE};

verus! {

pub const CREATE_METADATA_TABLE_SQL: &'static str =
    "CREATE TABLE IF NOT EXISTS metadata (protein_number INTEGER NOT NULL, protein_id TEXT NOT NULL, protein_name TEXT NOT NULL, species TEXT NOT NULL, taxon_id TEXT NOT NULL, gene TEXT NOT NULL, pe_level INTEGER NOT NULL, sequence_version INTEGER NOT NULL)";

pub const CREATE_KMERS_TABLE_SQL: &'static str =
    "CREATE TABLE IF NOT EXISTS kmers (kmer TEXT NOT NULL, idx INTEGER NOT NULL)";

pub const BEGIN_SQL: &'static str = "BEGIN";

pub const COMMIT_SQL: &'static str = "COMMIT";

pub const SYNC_OFF_SQL: &'static str = "PRAGMA synchronous = OFF";

pub const SYNC_ON_SQL: &'static str = "PRAGMA synchronous = ON";

/// Parameters ?1 to ?8: the fields of a `ProteinMetadata`, in declaration order.
pub const INSERT_METADATA_SQL: &'static str =
    "INSERT INTO metadata (protein_number, protein_id, protein_name, species, taxon_id, gene, pe_level, sequence_version) VALUES (?1, ?2, ?3, ?4, ?5, ?6, ?7, ?8)";

/// Parameters ?1 and ?2: the k-mer and its global index.
pub const INSERT_KMER_SQL: &'static str = "INSERT INTO kmers (kmer, idx) VALUES (?1, ?2)";

pub const CREATE_KMER_INDEX_SQL: &'static str =
    "CREATE INDEX IF NOT EXISTS kmer_idx ON kmers (kmer)";

pub const CREATE_PROTEIN_NUMBER_INDEX_SQL: &'static str =
    "CREATE INDEX IF NOT EXISTS protein_number_idx ON metadata (protein_number)";

/// One stored k-mer: its text and its global index.
pub struct KmerRow {
    pub kmer: String,
    pub index: u64,
}

/// One step of a storage plan.
pub enum StoreOp {
    CreateMetadataTable,
    CreateKmersTable,
    Begin,
    Commit,
    /// Turn durability synchronisation on or off.
    SetSynchronous(bool),
    InsertMetadata(ProteinMetadata),
    InsertKmer(KmerRow),
    CreateKmerIndex,
    CreateProteinNumberIndex,
}

pub ghost enum OpModel {
    CreateMetadataTable,
    CreateKmersTable,
    Begin,
    Commit,
    SetSynchronous(bool),
    InsertMetadata(MetadataModel),
    InsertKmer(Seq<char>, nat),
    CreateKmerIndex,
    CreateProteinNumberIndex,
}

impl View for StoreOp {
    type V = OpModel;

    open spec fn view(&self) -> OpModel {
        match self {
            StoreOp::CreateMetadataTable => OpModel::CreateMetadataTable,
            StoreOp::CreateKmersTable => OpModel::CreateKmersTable,
            StoreOp::Begin => OpModel::Begin,
            StoreOp::Commit => OpModel::Commit,
            StoreOp::SetSynchronous(on) => OpModel::SetSynchronous(*on),
            StoreOp::InsertMetadata(m) => OpModel::InsertMetadata(m@),
            StoreOp::InsertKmer(row) => OpModel::InsertKmer(row.kmer@, row.index as nat),
            StoreOp::CreateKmerIndex => OpModel::CreateKmerIndex,
            StoreOp::CreateProteinNumberIndex => OpModel::CreateProteinNumberIndex,
        }
    }
}

/// The SQL statement that carries out an operation.
pub open spec fn sql_of(op: OpModel) -> Seq<char> {
    match op {
        OpModel::CreateMetadataTable => CREATE_METADATA_TABLE_SQL@,
        OpModel::CreateKmersTable => CREATE_KMERS_TABLE_SQL@,
        OpModel::Begin => BEGIN_SQL@,
        OpModel::Commit => COMMIT_SQL@,
        OpModel::SetSynchronous(on) => if on {
            SYNC_ON_SQL@
        } else {
            SYNC_OFF_SQL@
        },
        OpModel::InsertMetadata(_) => INSERT_METADATA_SQL@,
        OpModel::InsertKmer(_, _) => INSERT_KMER_SQL@,
        OpModel::CreateKmerIndex => CREATE_KMER_INDEX_SQL@,
        OpModel::CreateProteinNumberIndex => CREATE_PROTEIN_NUMBER_INDEX_SQL@,
    }
}

impl StoreOp {
    /// The SQL statement that carries out this operation; an insert binds the
    /// row's values as its parameters.
    pub fn sql(&self) -> (r: &'static str)
        ensures
            r@ == sql_of(self@),
    {
        match self {
            StoreOp::CreateMetadataTable => CREATE_METADATA_TABLE_SQL,
            StoreOp::CreateKmersTable => CREATE_KMERS_TABLE_SQL,
            StoreOp::Begin => BEGIN_SQL,
            StoreOp::Commit => COMMIT_SQL,
            StoreOp::SetSynchronous(on) => if *on {
                SYNC_ON_SQL
            } else {
                SYNC_OFF_SQL
            },
            StoreOp::InsertMetadata(_) => INSERT_METADATA_SQL,
            StoreOp::InsertKmer(_) => INSERT_KMER_SQL,
            StoreOp::CreateKmerIndex => CREATE_KMER_INDEX_SQL,
            StoreOp::CreateProteinNumberIndex => CREATE_PROTEIN_NUMBER_INDEX_SQL,
        }
    }
}

pub open spec fn ops_model(ops: Seq<StoreOp>) -> Seq<OpModel> {
    ops.map_values(|o: StoreOp| o@)
}

/// Both tables, created only where absent.
pub open spec fn schema_plan() -> Seq<OpModel> {
    seq![OpModel::CreateMetadataTable, OpModel::CreateKmersTable]
}

/// All metadata rows in one transaction.
pub open spec fn metadata_plan(rows: Seq<MetadataModel>) -> Seq<OpModel> {
    seq![OpModel::Begin] + rows.map_values(|m: MetadataModel| OpModel::InsertMetadata(m))
        + seq![OpModel::Commit]
}

/// The k-mer inserts of one protein, each with its global index.
pub open spec fn kmer_inserts(p: nat, kmers: Seq<(Seq<char>, nat)>) -> Seq<OpModel> {
    kmers.map_values(|e: (Seq<char>, nat)| OpModel::InsertKmer(e.0, encode_spec(p, e.1)))
}

/// One protein's k-mers in one transaction, with synchronisation relaxed for
/// the load and restored after it.
pub open spec fn kmer_plan(p: nat, kmers: Seq<(Seq<char>, nat)>) -> Seq<OpModel> {
    seq![OpModel::SetSynchronous(false), OpModel::Begin] + kmer_inserts(p, kmers) + seq![
        OpModel::Commit,
        OpModel::SetSynchronous(true),
    ]
}

/// Both lookup indices, built once after the load.
pub open spec fn index_plan() -> Seq<OpModel> {
    seq![
        OpModel::Begin,
        OpModel::CreateKmerIndex,
        OpModel::CreateProteinNumberIndex,
        OpModel::Commit,
    ]
}

pub open spec fn pairs_model(v: Seq<(String, usize)>) -> Seq<(Seq<char>, nat)> {
    v.map_values(|e: (String, usize)| (e.0@, e.1 as nat))
}

/// Creates both tables where they are absent.
pub fn schema_ops() -> (r: Vec<StoreOp>)
    ensures
        ops_model(r@) == schema_plan(),
{
    let r = vec![StoreOp::CreateMetadataTable, StoreOp::CreateKmersTable];
    assert(ops_model(r@) =~= schema_plan());
    r
}

/// Appends all `rows` inside one transaction.
pub fn metadata_ops(rows: Vec<ProteinMetadata>) -> (r: Vec<StoreOp>)
    ensures
        ops_model(r@) == metadata_plan(rows@.map_values(|m: ProteinMetadata| m@)),
{
    let ghost models = rows@.map_values(|m: ProteinMetadata| m@);
    let mut ops: Vec<StoreOp> = Vec::new();
    ops.push(StoreOp::Begin);
    let mut rows = rows;
    let mut rest: Vec<ProteinMetadata> = Vec::new();
    let ghost n = models.len();
    while rows.len() > 0
        invariant
            n == models.len(),
            rows@.len() + rest@.len() == n,
            forall|j: int| 0 <= j < rows@.len() ==> (#[trigger] rows@[j])@ == models[j],
            forall|j: int|
                0 <= j < rest@.len() ==> (#[trigger] rest@[j])@ == models[n - 1 - j],
        decreases rows@.len(),
    {
        let m = rows.pop().unwrap();
        rest.push(m);
    }
    while rest.len() > 0
        invariant
            n == models.len(),
            rest@.len() <= n,
            ops_model(ops@) =~= seq![OpModel::Begin] + models.subrange(0, n - rest@.len()).map_values(
                |m: MetadataModel| OpModel::InsertMetadata(m),
            ),
            forall|j: int|
                0 <= j < rest@.len() ==> (#[trigger] rest@[j])@ == models[n - 1 - j],
        decreases rest@.len(),
    {
        let ghost i = n - rest@.len();
        let ghost before = ops@;
        let m = rest.pop().unwrap();
        ops.push(StoreOp::InsertMetadata(m));
        proof {
            assert(ops@ =~= before.push(StoreOp::InsertMetadata(m)));
            assert(ops_model(ops@) =~= ops_model(before).push(OpModel::InsertMetadata(m@)));
            assert(models.subrange(0, i + 1) =~= models.subrange(0, i).push(models[i]));
            assert(models.subrange(0, i + 1).map_values(
                |m: MetadataModel| OpModel::InsertMetadata(m),
            ) =~= models.subrange(0, i).map_values(
                |m: MetadataModel| OpModel::InsertMetadata(m),
            ).push(OpModel::InsertMetadata(models[i])));
        }
    }
    ops.push(StoreOp::Commit);
    assert(models.subrange(0, n as int) =~= models);
    assert(ops_model(ops@) =~= metadata_plan(models));
    ops
}

/// The error that encoding offset `o` of protein `p` reports.
pub open spec fn index_error(p: nat, o: nat) -> IndexError {
    if o >= INDEX_SCALE {
        IndexError::OffsetTooLarge
    } else {
        IndexError::Overflow
    }
}

/// Appends the k-mers of protein `protein_number` (each with its start
/// offset) inside one transaction, with synchronisation relaxed for the load
/// and restored after it. Fails, before planning any write, when an offset has
/// no global index.
pub fn kmer_ops(protein_number: u64, kmers: &Vec<(String, usize)>) -> (r: Result<
    Vec<StoreOp>,
    IndexError,
>)
    ensures
        r is Ok <==> forall|j: int|
            0 <= j < kmers@.len() ==> encodable(protein_number as nat, #[trigger] kmers@[j].1 as nat),
        r matches Ok(ops) ==> ops_model(ops@) == kmer_plan(
            protein_number as nat,
            pairs_model(kmers@),
        ),
        r matches Err(e) ==> exists|j: int|
            0 <= j < kmers@.len() && !encodable(protein_number as nat, #[trigger] kmers@[j].1 as nat)
                && e == index_error(protein_number as nat, kmers@[j].1 as nat),
{
    let ghost p = protein_number as nat;
    let ghost ks = pairs_model(kmers@);
    let mut ops: Vec<StoreOp> = Vec::new();
    ops.push(StoreOp::SetSynchronous(false));
    ops.push(StoreOp::Begin);
    let mut i: usize = 0;
    while i < kmers.len()
        invariant
            ks == pairs_model(kmers@),
            p == protein_number as nat,
            i <= kmers@.len(),
            forall|j: int| 0 <= j < i ==> encodable(p, #[trigger] kmers@[j].1 as nat),
            ops_model(ops@) =~= seq![OpModel::SetSynchronous(false), OpModel::Begin]
                + kmer_inserts(p, ks.subrange(0, i as int)),
        decreases kmers@.len() - i,
    {
        let offset = kmers[i].1;
        let index = match encode_index(protein_number, offset as u64) {
            Ok(g) => g,
            Err(e) => {
                return Err(e);
            },
        };
        let ghost before = ops@;
        ops.push(StoreOp::InsertKmer(KmerRow { kmer: kmers[i].0.clone(), index }));
        proof {
            assert(ops@ =~= before.push(ops@.last()));
            assert(ops_model(ops@) =~= ops_model(before).push(ops@.last()@));
            assert(ks.subrange(0, i + 1) =~= ks.subrange(0, i as int).push(ks[i as int]));
            assert(kmer_inserts(p, ks.subrange(0, i + 1)) =~= kmer_inserts(
                p,
                ks.subrange(0, i as int),
            ).push(OpModel::InsertKmer(ks[i as int].0, encode_spec(p, ks[i as int].1))));
        }
        i = i + 1;
    }
    ops.push(StoreOp::Commit);
    ops.push(StoreOp::SetSynchronous(true));
    assert(ks.subrange(0, ks.len() as int) =~= ks);
    assert(ops_model(ops@) =~= kmer_plan(p, ks));
    Ok(ops)
}

/// Builds the kmer and protein-number indices in one transaction, once the
/// load is done.
pub fn index_ops() -> (r: Vec<StoreOp>)
    ensures
        ops_model(r@) == index_plan(),
{
    let r = vec![
        StoreOp::Begin,
        StoreOp::CreateKmerIndex,
        StoreOp::CreateProteinNumberIndex,
        StoreOp::Commit,
    ];
    assert(ops_model(r@) =~= index_plan());
    r
}

/// The rows held by the two tables.
pub ghost struct StoreModel {
    pub metadata: Seq<MetadataModel>,
    pub kmers: Seq<(Seq<char>, nat)>,
}

pub open spec fn empty_store() -> StoreModel {
    StoreModel { metadata: Seq::empty(), kmers: Seq::empty() }
}

/// The tables after one operation has been committed: inserts append a row;
/// table and index creation (each only where absent), transaction bounds and
/// synchronisation leave the rows as they are.
pub open spec fn apply_op(db: StoreModel, op: OpModel) -> StoreModel {
    match op {
        OpModel::InsertMetadata(m) => StoreModel { metadata: db.metadata.push(m), ..db },
        OpModel::InsertKmer(kmer, idx) => StoreModel { kmers: db.kmers.push((kmer, idx)), ..db },
        _ => db,
    }
}

/// The tables after a whole plan has been carried out and committed.
pub open spec fn apply_plan(db: StoreModel, plan: Seq<OpModel>) -> StoreModel
    decreases plan.len(),
{
    if plan.len() == 0 {
        db
    } else {
        apply_op(apply_plan(db, plan.drop_last()), plan.last())
    }
}

/// The plans of the batches, one after another.
pub open spec fn concat_plans(batches: Seq<Seq<OpModel>>) -> Seq<OpModel>
    decreases batches.len(),
{
    if batches.len() == 0 {
        Seq::empty()
    } else {
        concat_plans(batches.drop_last()) + batches.last()
    }
}

/// A full ingestion run: the schema, all metadata rows, each protein's
/// k-mers (protein number and k-mers with their offsets), then the indices.
pub open spec fn run_plan(
    rows: Seq<MetadataModel>,
    proteins: Seq<(nat, Seq<(Seq<char>, nat)>)>,
) -> Seq<OpModel> {
    schema_plan() + metadata_plan(rows) + concat_plans(
        proteins.map_values(|e: (nat, Seq<(Seq<char>, nat)>)| kmer_plan(e.0, e.1)),
    ) + index_plan()
}

/// The batches of a run, in order: schema, metadata, one per protein, indices.
pub open spec fn run_steps(
    rows: Seq<MetadataModel>,
    proteins: Seq<(nat, Seq<(Seq<char>, nat)>)>,
) -> Seq<Seq<OpModel>> {
    seq![schema_plan(), metadata_plan(rows)] + proteins.map_values(
        |e: (nat, Seq<(Seq<char>, nat)>)| kmer_plan(e.0, e.1),
    ) + seq![index_plan()]
}

proof fn lemma_concat_plans_append(a: Seq<Seq<OpModel>>, b: Seq<Seq<OpModel>>)
    ensures
        concat_plans(a + b) == concat_plans(a) + concat_plans(b),
    decreases b.len(),
{
    if b.len() == 0 {
        assert(a + b =~= a);
        assert(concat_plans(a) + Seq::<OpModel>::empty() =~= concat_plans(a));
    } else {
        assert((a + b).drop_last() =~= a + b.drop_last());
        lemma_concat_plans_append(a, b.drop_last());
        assert(concat_plans(a) + concat_plans(b.drop_last()) + b.last() =~= concat_plans(a) + (
        concat_plans(b.drop_last()) + b.last()));
    }
}

/// The steps of a run, carried out one after another, are the run's plan.
pub proof fn lemma_run_steps_form_plan(
    rows: Seq<MetadataModel>,
    proteins: Seq<(nat, Seq<(Seq<char>, nat)>)>,
)
    ensures
        concat_plans(run_steps(rows, proteins)) == run_plan(rows, proteins),
{
    let batches = proteins.map_values(|e: (nat, Seq<(Seq<char>, nat)>)| kmer_plan(e.0, e.1));
    let head = seq![schema_plan(), metadata_plan(rows)];
    lemma_concat_plans_append(head + batches, seq![index_plan()]);
    lemma_concat_plans_append(head, batches);
    assert(head.drop_last() =~= seq![schema_plan()]);
    assert(seq![schema_plan()].drop_last() =~= Seq::<Seq<OpModel>>::empty());
    assert(Seq::<OpModel>::empty() + schema_plan() =~= schema_plan());
    assert(seq![index_plan()].drop_last() =~= Seq::<Seq<OpModel>>::empty());
    assert(Seq::<OpModel>::empty() + index_plan() =~= index_plan());
    assert(concat_plans(seq![schema_plan()]) == concat_plans(Seq::<Seq<OpModel>>::empty())
        + schema_plan());
    assert(concat_plans(seq![schema_plan()]) =~= schema_plan());
    assert(concat_plans(head) == concat_plans(head.drop_last()) + metadata_plan(rows));
    assert(concat_plans(head) =~= schema_plan() + metadata_plan(rows));
    assert(concat_plans(seq![index_plan()]) == concat_plans(Seq::<Seq<OpModel>>::empty())
        + index_plan());
    assert(concat_plans(seq![index_plan()]) =~= index_plan());
    assert(run_steps(rows, proteins) == head + batches + seq![index_plan()]);
    assert(concat_plans(run_steps(rows, proteins)) =~= run_plan(rows, proteins));
}

/// Carrying out a plan on any store adds to it exactly the rows that the plan
/// adds to an empty store, after the rows already there.
pub proof fn lemma_plan_appends(db: StoreModel, plan: Seq<OpModel>)
    ensures
        apply_plan(db, plan).metadata == db.metadata + apply_plan(empty_store(), plan).metadata,
        apply_plan(db, plan).kmers == db.kmers + apply_plan(empty_store(), plan).kmers,
    decreases plan.len(),
{
    if plan.len() > 0 {
        lemma_plan_appends(db, plan.drop_last());
        let a = apply_plan(db, plan.drop_last());
        let e = apply_plan(empty_store(), plan.drop_last());
        match plan.last() {
            OpModel::InsertMetadata(m) => {
                assert(a.metadata.push(m) =~= db.metadata + e.metadata.push(m));
            },
            OpModel::InsertKmer(kmer, idx) => {
                assert(a.kmers.push((kmer, idx)) =~= db.kmers + e.kmers.push((kmer, idx)));
            },
            _ => {},
        }
    } else {
        assert(db.metadata + Seq::<MetadataModel>::empty() =~= db.metadata);
        assert(db.kmers + Seq::<(Seq<char>, nat)>::empty() =~= db.kmers);
    }
}

proof fn lemma_apply_concat(db: StoreModel, a: Seq<OpModel>, b: Seq<OpModel>)
    ensures
        apply_plan(db, a + b) == apply_plan(apply_plan(db, a), b),
    decreases b.len(),
{
    if b.len() == 0 {
        assert(a + b =~= a);
    } else {
        assert((a + b).drop_last() =~= a + b.drop_last());
        lemma_apply_concat(db, a, b.drop_last());
    }
}

/// The k-mer rows of one protein: each k-mer under its global index.
pub open spec fn kmer_rows(p: nat, kmers: Seq<(Seq<char>, nat)>) -> Seq<(Seq<char>, nat)> {
    kmers.map_values(|e: (Seq<char>, nat)| (e.0, encode_spec(p, e.1)))
}

/// The k-mer rows of a run, protein after protein.
pub open spec fn run_kmer_rows(proteins: Seq<(nat, Seq<(Seq<char>, nat)>)>) -> Seq<
    (Seq<char>, nat),
>
    decreases proteins.len(),
{
    if proteins.len() == 0 {
        Seq::empty()
    } else {
        run_kmer_rows(proteins.drop_last()) + kmer_rows(
            proteins.last().0,
            proteins.last().1,
        )
    }
}

proof fn lemma_apply_metadata_inserts(db: StoreModel, rows: Seq<MetadataModel>)
    ensures
        apply_plan(db, rows.map_values(|m: MetadataModel| OpModel::InsertMetadata(m))) == (
        StoreModel { metadata: db.metadata + rows, ..db }),
    decreases rows.len(),
{
    let plan = rows.map_values(|m: MetadataModel| OpModel::InsertMetadata(m));
    if rows.len() == 0 {
        assert(plan =~= Seq::<OpModel>::empty());
        assert(db.metadata + rows =~= db.metadata);
    } else {
        assert(plan.drop_last() =~= rows.drop_last().map_values(
            |m: MetadataModel| OpModel::InsertMetadata(m),
        ));
        lemma_apply_metadata_inserts(db, rows.drop_last());
        assert((db.metadata + rows.drop_last()).push(rows.last()) =~= db.metadata + rows);
    }
}

proof fn lemma_apply_kmer_inserts(db: StoreModel, p: nat, kmers: Seq<(Seq<char>, nat)>)
    ensures
        apply_plan(db, kmer_inserts(p, kmers)) == (StoreModel {
            kmers: db.kmers + kmer_rows(p, kmers),
            ..db
        }),
    decreases kmers.len(),
{
    if kmers.len() == 0 {
        assert(kmer_inserts(p, kmers) =~= Seq::<OpModel>::empty());
        assert(db.kmers + kmer_rows(p, kmers) =~= db.kmers);
    } else {
        assert(kmer_inserts(p, kmers).drop_last() =~= kmer_inserts(p, kmers.drop_last()));
        lemma_apply_kmer_inserts(db, p, kmers.drop_last());
        assert((db.kmers + kmer_rows(p, kmers.drop_last())).push(
            (kmers.last().0, encode_spec(p, kmers.last().1)),
        ) =~= db.kmers + kmer_rows(p, kmers));
    }
}

/// Applying a plan made of operations that add no rows.
proof fn lemma_apply_rowless(db: StoreModel, plan: Seq<OpModel>)
    requires
        forall|i: int|
            0 <= i < plan.len() ==> !((#[trigger] plan[i]) is InsertMetadata) && !(
            plan[i] is InsertKmer),
    ensures
        apply_plan(db, plan) == db,
    decreases plan.len(),
{
    if plan.len() > 0 {
        lemma_apply_rowless(db, plan.drop_last());
    }
}

proof fn lemma_apply_kmer_plan(db: StoreModel, p: nat, kmers: Seq<(Seq<char>, nat)>)
    ensures
        apply_plan(db, kmer_plan(p, kmers)) == (StoreModel {
            kmers: db.kmers + kmer_rows(p, kmers),
            ..db
        }),
{
    let head = seq![OpModel::SetSynchronous(false), OpModel::Begin];
    let tail = seq![OpModel::Commit, OpModel::SetSynchronous(true)];
    lemma_apply_concat(db, head + kmer_inserts(p, kmers), tail);
    lemma_apply_concat(db, head, kmer_inserts(p, kmers));
    lemma_apply_rowless(db, head);
    lemma_apply_kmer_inserts(db, p, kmers);
    lemma_apply_rowless(apply_plan(db, head + kmer_inserts(p, kmers)), tail);
}

proof fn lemma_apply_protein_plans(db: StoreModel, proteins: Seq<(nat, Seq<(Seq<char>, nat)>)>)
    ensures
        apply_plan(
            db,
            concat_plans(
                proteins.map_values(|e: (nat, Seq<(Seq<char>, nat)>)| kmer_plan(e.0, e.1)),
            ),
        ) == (StoreModel { kmers: db.kmers + run_kmer_rows(proteins), ..db }),
    decreases proteins.len(),
{
    let batches = proteins.map_values(|e: (nat, Seq<(Seq<char>, nat)>)| kmer_plan(e.0, e.1));
    if proteins.len() == 0 {
        assert(db.kmers + run_kmer_rows(proteins) =~= db.kmers);
    } else {
        let rest = proteins.drop_last();
        assert(batches.drop_last() =~= rest.map_values(
            |e: (nat, Seq<(Seq<char>, nat)>)| kmer_plan(e.0, e.1),
        ));
        lemma_apply_protein_plans(db, rest);
        let mid = StoreModel { kmers: db.kmers + run_kmer_rows(rest), ..db };
        lemma_apply_concat(db, concat_plans(batches.drop_last()), batches.last());
        lemma_apply_kmer_plan(mid, proteins.last().0, proteins.last().1);
        assert(mid.kmers + kmer_rows(proteins.last().0, proteins.last().1) =~= db.kmers
            + run_kmer_rows(proteins));
    }
}

/// One run against an empty store leaves exactly one metadata row per input
/// record, in input order, and each protein's k-mers under their global
/// indices, protein after protein.
pub proof fn lemma_run_contents(
    rows: Seq<MetadataModel>,
    proteins: Seq<(nat, Seq<(Seq<char>, nat)>)>,
)
    ensures
        apply_plan(empty_store(), run_plan(rows, proteins)).metadata == rows,
        apply_plan(empty_store(), run_plan(rows, proteins)).kmers == run_kmer_rows(proteins),
{
    let e = empty_store();
    let batches = concat_plans(
        proteins.map_values(|e: (nat, Seq<(Seq<char>, nat)>)| kmer_plan(e.0, e.1)),
    );
    let meta_inserts = rows.map_values(|m: MetadataModel| OpModel::InsertMetadata(m));
    let s1 = schema_plan();
    let s2 = metadata_plan(rows);
    lemma_apply_concat(e, s1 + s2 + batches, index_plan());
    lemma_apply_concat(e, s1 + s2, batches);
    lemma_apply_concat(e, s1, s2);
    lemma_apply_rowless(e, s1);
    let a1 = apply_plan(e, s1);
    lemma_apply_concat(a1, seq![OpModel::Begin] + meta_inserts, seq![OpModel::Commit]);
    lemma_apply_concat(a1, seq![OpModel::Begin], meta_inserts);
    lemma_apply_rowless(a1, seq![OpModel::Begin]);
    lemma_apply_metadata_inserts(a1, rows);
    let a2 = apply_plan(a1, seq![OpModel::Begin] + meta_inserts);
    lemma_apply_rowless(a2, seq![OpModel::Commit]);
    assert(e.metadata + rows =~= rows);
    let a3 = apply_plan(e, s1 + s2);
    lemma_apply_protein_plans(a3, proteins);
    let a4 = apply_plan(a3, batches);
    lemma_apply_rowless(a4, index_plan());
    assert(a3.kmers =~= Seq::<(Seq<char>, nat)>::empty());
    assert(a3.kmers + run_kmer_rows(proteins) =~= run_kmer_rows(proteins));
}

/// Running the same ingestion twice against one store, starting empty, keeps
/// both runs' rows: every table ends with exactly twice the rows of one run,
/// the first run's rows followed by an identical second set.
pub proof fn lemma_rerun_doubles(
    rows: Seq<MetadataModel>,
    proteins: Seq<(nat, Seq<(Seq<char>, nat)>)>,
)
    ensures
        ({
            let once = apply_plan(empty_store(), run_plan(rows, proteins));
            let twice = apply_plan(once, run_plan(rows, proteins));
            &&& twice.metadata == once.metadata + once.metadata
            &&& twice.kmers == once.kmers + once.kmers
            &&& twice.metadata.len() == 2 * once.metadata.len()
            &&& twice.kmers.len() == 2 * once.kmers.len()
            &&& twice.metadata == rows + rows
            &&& twice.kmers == run_kmer_rows(proteins) + run_kmer_rows(proteins)
        }),
{
    let once = apply_plan(empty_store(), run_plan(rows, proteins));
    lemma_plan_appends(once, run_plan(rows, proteins));
    lemma_run_contents(rows, proteins);
}

} // verus!
