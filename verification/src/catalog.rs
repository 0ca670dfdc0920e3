//! The sound catalog: one record per uploaded clip, keyed by its identifier.

use vstd::prelude::*;

verus! {

/// One row of the catalog.
#[derive(Debug, PartialEq, Eq)]
pub struct SoundRecord {
    /// The record's key, drawn at upload time.
    pub id: String,
    /// Base name of the blob on disk; not the name the file was uploaded under.
    pub file_name: String,
    /// The extension, with its leading dot.
    pub extension: String,
    /// Fingerprint of the content.
    pub file_hash: String,
    /// Display name, taken from the stem of the uploaded file's name.
    pub name: String,
}

/// A record as contracts speak of it.
pub struct SoundRecordView {
    pub id: Seq<char>,
    pub file_name: Seq<char>,
    pub extension: Seq<char>,
    pub file_hash: Seq<char>,
    pub name: Seq<char>,
}

impl View for SoundRecord {
    type V = SoundRecordView;

    open spec fn view(&self) -> SoundRecordView {
        SoundRecordView {
            id: self.id@,
            file_name: self.file_name@,
            extension: self.extension@,
            file_hash: self.file_hash@,
            name: self.name@,
        }
    }
}

impl Clone for SoundRecord {
    fn clone(&self) -> (r: Self)
        ensures
            r@ == self@,
    {
        SoundRecord {
            id: self.id.clone(),
            file_name: self.file_name.clone(),
            extension: self.extension.clone(),
            file_hash: self.file_hash.clone(),
            name: self.name.clone(),
        }
    }
}

/// The records of `rows`, each by its view.
pub open spec fn rows_view(rows: Seq<SoundRecord>) -> Seq<SoundRecordView> {
    rows.map_values(|r: SoundRecord| r@)
}

/// Whether some row of `rows` has the key `id`.
pub open spec fn has_id(rows: Seq<SoundRecordView>, id: Seq<char>) -> bool {
    exists|i: int| 0 <= i < rows.len() && #[trigger] rows[i].id == id
}

/// No two rows share a key.
pub open spec fn keys_distinct(rows: Seq<SoundRecordView>) -> bool {
    forall|i: int, j: int|
        0 <= i < j < rows.len() ==> #[trigger] rows[i].id != #[trigger] rows[j].id
}

/// The row with the key `id`: the first one, which under `keys_distinct` is the only one.
pub open spec fn row_with_id(rows: Seq<SoundRecordView>, id: Seq<char>) -> Option<
    SoundRecordView,
>
    decreases rows.len(),
{
    if rows.len() == 0 {
        None
    } else if rows[0].id == id {
        Some(rows[0])
    } else {
        row_with_id(rows.drop_first(), id)
    }
}

/// The catalog refused a row: its key is taken.
#[derive(Clone, Copy, Debug, PartialEq, Eq)]
pub enum StorageError {
    DuplicateId,
}

/// The catalog's rows, in the order in which they were inserted.
pub struct Catalog {
    rows: Vec<SoundRecord>,
}

impl View for Catalog {
    type V = Seq<SoundRecordView>;

    closed spec fn view(&self) -> Seq<SoundRecordView> {
        rows_view(self.rows@)
    }
}

impl Catalog {
    /// The identifier is a key: no two rows share one.
    #[verifier::type_invariant]
    spec fn keys_are_distinct(&self) -> bool {
        keys_distinct(rows_view(self.rows@))
    }

    /// An empty catalog.
    pub fn new() -> (c: Catalog)
        ensures
            c@ == Seq::<SoundRecordView>::empty(),
    {
        let rows: Vec<SoundRecord> = Vec::new();
        assert(rows_view(rows@) =~= Seq::<SoundRecordView>::empty());
        Catalog { rows }
    }

    /// The number of rows.
    pub fn len(&self) -> (n: usize)
        ensures
            n == self@.len(),
    {
        self.rows.len()
    }

    /// Position of the row with the key `id`.
    fn position_of(&self, id: &String) -> (r: Option<usize>)
        ensures
            match r {
                Some(i) => i < self@.len() && self@[i as int].id == id@ && forall|j: int|
                    0 <= j < i ==> self@[j].id != id@,
                None => !has_id(self@, id@),
            },
    {
        let mut i: usize = 0;
        while i < self.rows.len()
            invariant
                i <= self.rows.len(),
                forall|j: int| 0 <= j < i ==> self@[j].id != id@,
            decreases self.rows.len() - i,
        {
            if self.rows[i].id == *id {
                return Some(i);
            }
            i = i + 1;
        }
        None
    }

    /// Adds `record` at the end, unless a row already has its key.
    ///
    /// On refusal the catalog is left as it was.
    pub fn insert(&mut self, record: SoundRecord) -> (r: Result<(), StorageError>)
        ensures
            keys_distinct(final(self)@),
            r is Ok <==> !has_id(old(self)@, record@.id),
            r is Ok ==> final(self)@ == old(self)@.push(record@),
            r is Err ==> final(self)@ == old(self)@ && r == Err::<(), StorageError>(
                StorageError::DuplicateId,
            ),
    {
        proof {
            use_type_invariant(&*self);
        }
        match self.position_of(&record.id) {
            Some(_) => Err(StorageError::DuplicateId),
            None => {
                let ghost before = self@;
                proof {
                    lemma_insert_then_fetch(before, record@);
                    assert(rows_view(self.rows@.push(record)) =~= before.push(record@));
                    assert(rows_view(Seq::<SoundRecord>::empty()) =~= Seq::<
                        SoundRecordView,
                    >::empty());
                }
                // The rows are taken out for the push and put back with the new one.
                let mut rows: Vec<SoundRecord> = Vec::new();
                std::mem::swap(&mut self.rows, &mut rows);
                rows.push(record);
                std::mem::swap(&mut self.rows, &mut rows);
                Ok(())
            },
        }
    }

    /// The row with the key `id`, if there is one. That none is found is no error.
    pub fn fetch_by_id(&self, id: &String) -> (r: Option<SoundRecord>)
        ensures
            keys_distinct(self@),
            r is Some <==> has_id(self@, id@),
            match r {
                Some(record) => record@.id == id@ && Some(record@) == row_with_id(self@, id@),
                None => row_with_id(self@, id@) is None,
            },
    {
        proof {
            use_type_invariant(self);
        }
        match self.position_of(id) {
            Some(i) => {
                let record = self.rows[i].clone();
                proof {
                    lemma_row_with_id_first(self@, id@, i as int);
                    assert(self@[i as int] == self.rows@[i as int]@);
                }
                Some(record)
            },
            None => {
                proof {
                    lemma_row_with_id_none(self@, id@);
                }
                None
            },
        }
    }

    /// Every row, in storage order.
    pub fn list_all(&self) -> (all: Vec<SoundRecord>)
        ensures
            rows_view(all@) == self@,
            keys_distinct(self@),
    {
        proof {
            use_type_invariant(self);
        }
        let mut all: Vec<SoundRecord> = Vec::new();
        let mut i: usize = 0;
        while i < self.rows.len()
            invariant
                i <= self.rows.len(),
                rows_view(all@) == self@.take(i as int),
            decreases self.rows.len() - i,
        {
            let ghost before = rows_view(all@);
            let record = self.rows[i].clone();
            all.push(record);
            proof {
                assert(rows_view(all@) =~= before.push(self@[i as int]));
                assert(self@.take(i + 1) =~= self@.take(i as int).push(self@[i as int]));
            }
            i = i + 1;
        }
        proof {
            assert(self@.take(i as int) =~= self@);
        }
        all
    }
}

/// Where the first row with the key `id` stands at `i`, a lookup of `id` gives that row.
pub proof fn lemma_row_with_id_first(rows: Seq<SoundRecordView>, id: Seq<char>, i: int)
    requires
        0 <= i < rows.len(),
        rows[i].id == id,
        forall|j: int| 0 <= j < i ==> rows[j].id != id,
    ensures
        row_with_id(rows, id) == Some(rows[i]),
    decreases rows.len(),
{
    if i > 0 {
        let rest = rows.drop_first();
        assert(rows[0].id != id);
        assert forall|j: int| 0 <= j < i - 1 implies rest[j].id != id by {
            assert(rest[j] == rows[j + 1]);
        }
        lemma_row_with_id_first(rest, id, i - 1);
    }
}

/// A lookup finds nothing exactly when no row has the key.
pub proof fn lemma_row_with_id_none(rows: Seq<SoundRecordView>, id: Seq<char>)
    ensures
        row_with_id(rows, id) is None <==> !has_id(rows, id),
        row_with_id(rows, id) is Some ==> row_with_id(rows, id)->0.id == id,
    decreases rows.len(),
{
    if rows.len() > 0 {
        let rest = rows.drop_first();
        lemma_row_with_id_none(rest, id);
        if rows[0].id == id {
            assert(has_id(rows, id));
        } else {
            if has_id(rest, id) {
                let k = choose|k: int| 0 <= k < rest.len() && #[trigger] rest[k].id == id;
                assert(rows[k + 1].id == id);
            }
            if has_id(rows, id) {
                let k = choose|k: int| 0 <= k < rows.len() && #[trigger] rows[k].id == id;
                assert(rest[k - 1].id == id);
            }
        }
    }
}

/// A row that was inserted is the row that a lookup of its key returns, and
/// every row that was there before is still found under its key.
pub proof fn lemma_insert_then_fetch(rows: Seq<SoundRecordView>, record: SoundRecordView)
    requires
        keys_distinct(rows),
        !has_id(rows, record.id),
    ensures
        keys_distinct(rows.push(record)),
        row_with_id(rows.push(record), record.id) == Some(record),
        forall|id: Seq<char>|
            has_id(rows, id) ==> #[trigger] row_with_id(rows.push(record), id) == row_with_id(
                rows,
                id,
            ),
{
    let after = rows.push(record);
    assert forall|i: int, j: int| 0 <= i < j < after.len() implies after[i].id
        != after[j].id by {
        if j == rows.len() {
            assert(rows[i].id != record.id);
        }
    }
    assert forall|j: int| 0 <= j < rows.len() implies after[j].id != record.id by {
        assert(rows[j].id != record.id);
    }
    lemma_row_with_id_first(after, record.id, rows.len() as int);
    assert forall|id: Seq<char>| has_id(rows, id) implies #[trigger] row_with_id(after, id)
        == row_with_id(rows, id) by {
        let k = choose|k: int| 0 <= k < rows.len() && #[trigger] rows[k].id == id;
        lemma_first_with_id(rows, id, k);
        let f = choose|f: int|
            0 <= f <= k && rows[f].id == id && forall|j: int| 0 <= j < f ==> rows[j].id != id;
        lemma_row_with_id_first(rows, id, f);
        assert forall|j: int| 0 <= j < f implies after[j].id != id by {
            assert(rows[j].id != id);
        }
        lemma_row_with_id_first(after, id, f);
    }
}

/// Among the rows up to one with the key `id` there is a first with that key.
proof fn lemma_first_with_id(rows: Seq<SoundRecordView>, id: Seq<char>, k: int)
    requires
        0 <= k < rows.len(),
        rows[k].id == id,
    ensures
        exists|f: int|
            0 <= f <= k && rows[f].id == id && forall|j: int| 0 <= j < f ==> rows[j].id != id,
    decreases k,
{
    if exists|j: int| 0 <= j < k && rows[j].id == id {
        let j = choose|j: int| 0 <= j < k && rows[j].id == id;
        lemma_first_with_id(rows, id, j);
        let f = choose|f: int|
            0 <= f <= j && rows[f].id == id && forall|m: int| 0 <= m < f ==> rows[m].id != id;
        assert(0 <= f <= k && rows[f].id == id && forall|m: int| 0 <= m < f ==> rows[m].id != id);
    } else {
        assert(0 <= k <= k && rows[k].id == id && forall|m: int| 0 <= m < k ==> rows[m].id != id);
    }
}

} // verus!
