//! The persistence adapter's shapes and rules: the row-shaped `BookDto`, the
//! table model, the per-column write plans that a SQL backend executes, and
//! an in-memory backend that implements the repository contract.

use vstd::prelude::*;

use crate::ports::{ApiError, Book, BookModel, BookRepo};
use crate::urls::{normalize_url, url_norm_of};

verus! {

/// A row of the `books` table, minus `updated_at` (which the store itself
/// maintains). A `None` in an optional column means "do not touch this
/// column in storage", never "set it to NULL".
pub struct BookDto {
    pub id: u128,
    pub name: String,
    pub url: Option<String>,
    pub published_year: Option<i32>,
    pub original_published_year: Option<i32>,
}

/// The mathematical value of a `BookDto`.
#[verifier::ext_equal]
pub ghost struct DtoModel {
    pub id: u128,
    pub name: Seq<char>,
    pub url: Option<Seq<char>>,
    pub published_year: Option<i32>,
    pub original_published_year: Option<i32>,
}

impl View for BookDto {
    type V = DtoModel;

    open spec fn view(&self) -> DtoModel {
        DtoModel {
            id: self.id,
            name: self.name@,
            url: self.url.deep_view(),
            published_year: self.published_year,
            original_published_year: self.original_published_year,
        }
    }
}

impl DeepView for BookDto {
    type V = DtoModel;

    open spec fn deep_view(&self) -> DtoModel {
        self.view()
    }
}

/// A stored row: the columns plus the write stamp that orders the listing.
pub struct BookRow {
    pub dto: BookDto,
    pub updated_at: u64,
}

/// The mathematical value of a stored row.
#[verifier::ext_equal]
pub ghost struct RowModel {
    pub dto: DtoModel,
    pub updated_at: u64,
}

impl View for BookRow {
    type V = RowModel;

    open spec fn view(&self) -> RowModel {
        RowModel { dto: self.dto@, updated_at: self.updated_at }
    }
}

impl DeepView for BookRow {
    type V = RowModel;

    open spec fn deep_view(&self) -> RowModel {
        self.view()
    }
}

/// The record a `Book` is persisted as: the two optional year columns are
/// never written by the current surface.
pub open spec fn dto_of_book(b: BookModel) -> DtoModel {
    DtoModel {
        id: b.id,
        name: b.name,
        url: b.url,
        published_year: None,
        original_published_year: None,
    }
}

/// The `Book` read back from a row: a stored `url` value that no longer
/// parses is mapped to `None` rather than surfaced as an error — a deliberate
/// tolerance for legacy rows.
pub open spec fn book_of_dto(d: DtoModel) -> BookModel {
    BookModel {
        id: d.id,
        name: d.name,
        url: match d.url {
            Some(u) => url_norm_of(u),
            None => None,
        },
    }
}

/// The partial-update rule at row level: mandatory columns are written
/// outright; an optional column is overwritten when the record carries a
/// value and left as stored when it carries `None`.
pub open spec fn merge_dto(stored: DtoModel, fresh: DtoModel) -> DtoModel {
    DtoModel {
        id: stored.id,
        name: fresh.name,
        url: if fresh.url is Some {
            fresh.url
        } else {
            stored.url
        },
        published_year: if fresh.published_year is Some {
            fresh.published_year
        } else {
            stored.published_year
        },
        original_published_year: if fresh.original_published_year is Some {
            fresh.original_published_year
        } else {
            stored.original_published_year
        },
    }
}

/// Whether some row of the table carries this identifier.
pub open spec fn id_present(rows: Seq<RowModel>, id: u128) -> bool {
    exists|i: int| 0 <= i < rows.len() && #[trigger] rows[i].dto.id == id
}

/// The index of the row carrying this identifier (meaningful when the
/// identifier is present and the table's identifiers are unique).
pub open spec fn row_index_of(rows: Seq<RowModel>, id: u128) -> int {
    choose|i: int| 0 <= i < rows.len() && #[trigger] rows[i].dto.id == id
}

/// The row carrying this identifier.
pub open spec fn row_with(rows: Seq<RowModel>, id: u128) -> RowModel {
    rows[row_index_of(rows, id)]
}

/// No two rows share an identifier: `id` is the sole primary key.
pub open spec fn unique_ids(rows: Seq<RowModel>) -> bool {
    forall|i: int, j: int|
        0 <= i < j < rows.len() ==> #[trigger] rows[i].dto.id != #[trigger] rows[j].dto.id
}

/// How many rows the listing returns: at most ten.
pub open spec fn listing_len(rows: Seq<RowModel>) -> int {
    if rows.len() < 10 {
        rows.len() as int
    } else {
        10
    }
}

/// What `find_all` returns over a table whose rows stand in ascending stamp
/// order: the most recently written rows first, capped at ten.
pub open spec fn listing(rows: Seq<RowModel>) -> Seq<BookModel> {
    Seq::new(listing_len(rows) as nat, |k: int| book_of_dto(rows[rows.len() - 1 - k].dto))
}

impl BookDto {
    /// The row record a `Book` is written as.
    pub fn new(model: &Book) -> (r: Self)
        ensures
            r@ == dto_of_book(model@),
    {
        BookDto {
            id: model.id,
            name: model.name.clone(),
            url: match &model.url {
                Some(u) => Some(u.clone()),
                None => None,
            },
            published_year: None,
            original_published_year: None,
        }
    }

    /// The `Book` this row reads back as, with the URL tolerance on read.
    pub fn to_model(&self) -> (r: Book)
        ensures
            r@ == book_of_dto(self@),
    {
        Book {
            id: self.id,
            name: self.name.clone(),
            url: match &self.url {
                Some(u) => normalize_url(u.as_str()),
                None => None,
            },
        }
    }
}

/// One SQL statement of a write plan. Each statement touches exactly one
/// mandatory pair or one optional column of the row named by `id`.
pub enum SqlWrite {
    InsertBook { id: u128, name: String },
    SetName { id: u128, name: String },
    SetUrl { id: u128, url: String },
    SetPublishedYear { id: u128, year: i32 },
    SetOriginalPublishedYear { id: u128, year: i32 },
}

/// The mathematical value of a `SqlWrite`.
#[verifier::ext_equal]
pub ghost enum SqlWriteModel {
    InsertBook { id: u128, name: Seq<char> },
    SetName { id: u128, name: Seq<char> },
    SetUrl { id: u128, url: Seq<char> },
    SetPublishedYear { id: u128, year: i32 },
    SetOriginalPublishedYear { id: u128, year: i32 },
}

impl View for SqlWrite {
    type V = SqlWriteModel;

    open spec fn view(&self) -> SqlWriteModel {
        match self {
            SqlWrite::InsertBook { id, name } => SqlWriteModel::InsertBook {
                id: *id,
                name: name@,
            },
            SqlWrite::SetName { id, name } => SqlWriteModel::SetName { id: *id, name: name@ },
            SqlWrite::SetUrl { id, url } => SqlWriteModel::SetUrl { id: *id, url: url@ },
            SqlWrite::SetPublishedYear { id, year } => SqlWriteModel::SetPublishedYear {
                id: *id,
                year: *year,
            },
            SqlWrite::SetOriginalPublishedYear { id, year } => {
                SqlWriteModel::SetOriginalPublishedYear { id: *id, year: *year }
            },
        }
    }
}

impl DeepView for SqlWrite {
    type V = SqlWriteModel;

    open spec fn deep_view(&self) -> SqlWriteModel {
        self.view()
    }
}

/// The optional-column tail of every write plan: one `UPDATE` per optional
/// column that the record carries, in column order, and none for a `None`.
pub open spec fn nullable_writes(d: DtoModel) -> Seq<SqlWriteModel> {
    (match d.url {
        Some(u) => seq![SqlWriteModel::SetUrl { id: d.id, url: u }],
        None => Seq::<SqlWriteModel>::empty(),
    }) + (match d.published_year {
        Some(y) => seq![SqlWriteModel::SetPublishedYear { id: d.id, year: y }],
        None => Seq::<SqlWriteModel>::empty(),
    }) + (match d.original_published_year {
        Some(y) => seq![SqlWriteModel::SetOriginalPublishedYear { id: d.id, year: y }],
        None => Seq::<SqlWriteModel>::empty(),
    })
}

/// The plan for `create`: the baseline insert of the mandatory columns,
/// then the optional-column writes.
pub open spec fn create_writes_spec(d: DtoModel) -> Seq<SqlWriteModel> {
    seq![SqlWriteModel::InsertBook { id: d.id, name: d.name }] + nullable_writes(d)
}

/// The plan for `update_one`: the baseline write of the mandatory column,
/// then the optional-column writes.
pub open spec fn update_writes_spec(d: DtoModel) -> Seq<SqlWriteModel> {
    seq![SqlWriteModel::SetName { id: d.id, name: d.name }] + nullable_writes(d)
}

/// What one statement does to the row stored under the identifier it
/// names; a statement naming another row leaves this one as it is. The
/// baseline insert adds a row instead of changing one, so it never stands
/// in an update plan and changes no existing row.
pub open spec fn apply_write(row: DtoModel, w: SqlWriteModel) -> DtoModel {
    match w {
        SqlWriteModel::InsertBook { .. } => row,
        SqlWriteModel::SetName { id, name } => if id == row.id {
            DtoModel {
                id: row.id,
                name,
                url: row.url,
                published_year: row.published_year,
                original_published_year: row.original_published_year,
            }
        } else {
            row
        },
        SqlWriteModel::SetUrl { id, url } => if id == row.id {
            DtoModel {
                id: row.id,
                name: row.name,
                url: Some(url),
                published_year: row.published_year,
                original_published_year: row.original_published_year,
            }
        } else {
            row
        },
        SqlWriteModel::SetPublishedYear { id, year } => if id == row.id {
            DtoModel {
                id: row.id,
                name: row.name,
                url: row.url,
                published_year: Some(year),
                original_published_year: row.original_published_year,
            }
        } else {
            row
        },
        SqlWriteModel::SetOriginalPublishedYear { id, year } => if id == row.id {
            DtoModel {
                id: row.id,
                name: row.name,
                url: row.url,
                published_year: row.published_year,
                original_published_year: Some(year),
            }
        } else {
            row
        },
    }
}

/// A plan run statement by statement against one stored row.
pub open spec fn apply_writes(row: DtoModel, plan: Seq<SqlWriteModel>) -> DtoModel
    decreases plan.len(),
{
    if plan.len() == 0 {
        row
    } else {
        apply_writes(apply_write(row, plan[0]), plan.subrange(1, plan.len() as int))
    }
}

/// The per-column writes for the optional columns of one record. A `None`
/// column contributes no statement: the stored value is left untouched.
pub fn nullable_column_writes(dto: &BookDto) -> (r: Vec<SqlWrite>)
    ensures
        r.deep_view() == nullable_writes(dto@),
{
    let mut v: Vec<SqlWrite> = Vec::new();
    match &dto.url {
        Some(u) => v.push(SqlWrite::SetUrl { id: dto.id, url: u.clone() }),
        None => (),
    }
    match &dto.published_year {
        Some(y) => v.push(SqlWrite::SetPublishedYear { id: dto.id, year: *y }),
        None => (),
    }
    match &dto.original_published_year {
        Some(y) => v.push(SqlWrite::SetOriginalPublishedYear { id: dto.id, year: *y }),
        None => (),
    }
    proof {
        assert(v.deep_view() =~= nullable_writes(dto@));
    }
    v
}

/// The statement sequence that persists a new record.
pub fn create_writes(dto: &BookDto) -> (r: Vec<SqlWrite>)
    ensures
        r.deep_view() == create_writes_spec(dto@),
{
    let mut v: Vec<SqlWrite> = Vec::new();
    v.push(SqlWrite::InsertBook { id: dto.id, name: dto.name.clone() });
    let mut rest = nullable_column_writes(dto);
    v.append(&mut rest);
    proof {
        assert(v.deep_view() =~= create_writes_spec(dto@));
    }
    v
}

/// The statement sequence that applies a record to its stored row.
pub fn update_writes(dto: &BookDto) -> (r: Vec<SqlWrite>)
    ensures
        r.deep_view() == update_writes_spec(dto@),
{
    let mut v: Vec<SqlWrite> = Vec::new();
    v.push(SqlWrite::SetName { id: dto.id, name: dto.name.clone() });
    let mut rest = nullable_column_writes(dto);
    v.append(&mut rest);
    proof {
        assert(v.deep_view() =~= update_writes_spec(dto@));
    }
    v
}

fn merge_dtos(stored: &BookDto, fresh: &BookDto) -> (r: BookDto)
    ensures
        r@ == merge_dto(stored@, fresh@),
{
    BookDto {
        id: stored.id,
        name: fresh.name.clone(),
        url: match &fresh.url {
            Some(u) => Some(u.clone()),
            None => match &stored.url {
                Some(u) => Some(u.clone()),
                None => None,
            },
        },
        published_year: match &fresh.published_year {
            Some(y) => Some(*y),
            None => stored.published_year,
        },
        original_published_year: match &fresh.original_published_year {
            Some(y) => Some(*y),
            None => stored.original_published_year,
        },
    }
}

/// The stamps grow strictly along the table: a later write carries a later
/// stamp. This is what orders the listing.
pub open spec fn stamps_ascending(rows: Seq<RowModel>) -> bool {
    forall|i: int, j: int|
        0 <= i < j < rows.len() ==> #[trigger] rows[i].updated_at < #[trigger] rows[j].updated_at
}

/// Every stamp in the table lies strictly below the bound.
pub open spec fn stamps_below(rows: Seq<RowModel>, bound: u64) -> bool {
    forall|i: int| 0 <= i < rows.len() ==> #[trigger] rows[i].updated_at < bound
}

/// An in-memory backend: the rows of the `books` table held in write order,
/// with a counter standing in for the clock that stamps each mutation.
pub struct MemBookRepo {
    pub table: Vec<BookRow>,
    pub next_stamp: u64,
}

impl MemBookRepo {
    /// An empty table.
    pub fn new() -> (r: Self)
        ensures
            r.inv(),
            r.rows() == Seq::<RowModel>::empty(),
            r.stamp() == 0,
    {
        let r = MemBookRepo { table: Vec::new(), next_stamp: 0 };
        proof {
            assert(r.rows() =~= Seq::<RowModel>::empty());
        }
        r
    }

    /// Restores a row as an existing table would hold it — in particular a
    /// legacy row whose `url` column no longer parses. The caller names the
    /// row's identifier, which must still be fresh.
    pub fn load_row(&mut self, dto: BookDto)
        requires
            old(self).inv(),
            old(self).stamp() < u64::MAX,
            !id_present(old(self).rows(), dto@.id),
        ensures
            final(self).inv(),
            final(self).rows() == old(self).rows().push(
                RowModel { dto: dto@, updated_at: old(self).stamp() },
            ),
            final(self).stamp() == old(self).stamp() + 1,
    {
        let stamp = self.next_stamp;
        self.table.push(BookRow { dto, updated_at: stamp });
        self.next_stamp = stamp + 1;
        proof {
            self.lemma_push_keeps_inv(*old(self));
        }
    }

    /// After a push of a fresh row stamped with the old bound, the table
    /// invariant holds again.
    proof fn lemma_push_keeps_inv(&self, prev: Self)
        requires
            prev.inv(),
            prev.stamp() < u64::MAX,
            self.table@.len() == prev.table@.len() + 1,
            self.table@ == prev.table@.push(self.table@[prev.table@.len() as int]),
            self.rows()[prev.table@.len() as int].updated_at == prev.stamp(),
            !id_present(prev.rows(), self.rows()[prev.table@.len() as int].dto.id),
            self.next_stamp == prev.stamp() + 1,
        ensures
            self.inv(),
            self.rows() == prev.rows().push(self.rows()[prev.table@.len() as int]),
    {
        let n = prev.table@.len() as int;
        let nr = self.rows();
        let or = prev.rows();
        assert(nr =~= or.push(nr[n]));
        assert forall|i: int, j: int| 0 <= i < j < nr.len() implies nr[i].dto.id != nr[j].dto.id by {
            if j < n {
                assert(or[i].dto.id != or[j].dto.id);
            } else {
                if nr[i].dto.id == nr[j].dto.id {
                    assert(or[i].dto.id == nr[j].dto.id);
                    assert(id_present(or, nr[j].dto.id));
                }
            }
        }
        assert forall|i: int, j: int| 0 <= i < j < nr.len() implies nr[i].updated_at
            < nr[j].updated_at by {
            if j < n {
                assert(or[i].updated_at < or[j].updated_at);
            } else {
                assert(or[i].updated_at < prev.next_stamp);
            }
        }
        assert forall|i: int| 0 <= i < nr.len() implies nr[i].updated_at < self.next_stamp by {
            if i < n {
                assert(or[i].updated_at < prev.next_stamp);
            }
        }
    }
}

impl BookRepo for MemBookRepo {
    open spec fn rows(&self) -> Seq<RowModel> {
        self.table@.map_values(|row: BookRow| row@)
    }

    open spec fn stamp(&self) -> u64 {
        self.next_stamp
    }

    open spec fn inv(&self) -> bool {
        &&& unique_ids(self.rows())
        &&& stamps_ascending(self.rows())
        &&& stamps_below(self.rows(), self.next_stamp)
    }

    fn create(&mut self, book: &Book) -> (r: Result<(), ApiError>) {
        if contains_id(&self.table, book.id) {
            return Err(ApiError::StorageFailure);
        }
        let dto = BookDto::new(book);
        let stamp = self.next_stamp;
        self.table.push(BookRow { dto, updated_at: stamp });
        self.next_stamp = stamp + 1;
        proof {
            self.lemma_push_keeps_inv(*old(self));
        }
        Ok(())
    }

    fn find_one(&self, id: u128) -> (r: Result<Book, ApiError>) {
        let n = self.table.len();
        let mut i: usize = 0;
        while i < n
            invariant
                self.inv(),
                n == self.table.len(),
                i <= n,
                forall|j: int| 0 <= j < i ==> #[trigger] self.rows()[j].dto.id != id,
            decreases n - i,
        {
            if self.table[i].dto.id == id {
                let b = self.table[i].dto.to_model();
                proof {
                    assert(self.rows()[i as int].dto.id == id);
                    lemma_row_index_is(self.rows(), id, i as int);
                }
                return Ok(b);
            }
            i += 1;
        }
        proof {
            assert(!id_present(self.rows(), id));
        }
        Err(ApiError::NotFound)
    }

    fn find_all(&self) -> (r: Result<Vec<Book>, ApiError>) {
        let n = self.table.len();
        let cap = if n < 10 {
            n
        } else {
            10
        };
        let mut v: Vec<Book> = Vec::new();
        let mut k: usize = 0;
        while k < cap
            invariant
                n == self.table.len(),
                cap == listing_len(self.rows()),
                k <= cap,
                v.deep_view().len() == k,
                forall|m: int| 0 <= m < k ==> #[trigger] v.deep_view()[m] == listing(
                    self.rows(),
                )[m],
            decreases cap - k,
        {
            let ghost prev = v@;
            let ghost prevdv = v.deep_view();
            let b = self.table[n - 1 - k].dto.to_model();
            v.push(b);
            k += 1;
            proof {
                assert forall|m: int| 0 <= m < k implies #[trigger] v.deep_view()[m] == listing(
                    self.rows(),
                )[m] by {
                    assert(v@ == prev.push(b));
                    if m < k - 1 {
                        assert(v@[m] == prev[m]);
                        assert(prev[m].deep_view() == prevdv[m]);
                        assert(prevdv[m] == listing(self.rows())[m]);
                    } else {
                        assert(v@[m] == b);
                        assert(b@ == book_of_dto(self.rows()[self.rows().len() - 1 - m].dto));
                    }
                }
            }
        }
        proof {
            assert(v.deep_view() =~= listing(self.rows()));
        }
        Ok(v)
    }

    fn update_one(&mut self, book: &Book) -> (r: Result<(), ApiError>) {
        let n = self.table.len();
        let mut i: usize = 0;
        while i < n
            invariant
                self.inv(),
                self.next_stamp < u64::MAX,
                n == self.table.len(),
                i <= n,
                *self == *old(self),
                forall|j: int| 0 <= j < i ==> #[trigger] self.rows()[j].dto.id != book@.id,
            decreases n - i,
        {
            if self.table[i].dto.id == book.id {
                let fresh = BookDto::new(book);
                let merged_dto = merge_dtos(&self.table[i].dto, &fresh);
                let stamp = self.next_stamp;
                let _removed = self.table.remove(i);
                self.table.push(BookRow { dto: merged_dto, updated_at: stamp });
                self.next_stamp = stamp + 1;
                proof {
                    let or = old(self).rows();
                    let nr = self.rows();
                    assert(or[i as int].dto.id == book@.id);
                    lemma_row_index_is(or, book@.id, i as int);
                    let merged_row = RowModel {
                        dto: merge_dto(row_with(or, book@.id).dto, dto_of_book(book@)),
                        updated_at: old(self).next_stamp,
                    };
                    assert(nr =~= or.remove(i as int).push(merged_row));
                    lemma_remove_push_keeps_inv(
                        *old(self),
                        *self,
                        i as int,
                        merged_row,
                    );
                }
                return Ok(());
            }
            i += 1;
        }
        proof {
            assert(!id_present(self.rows(), book@.id));
        }
        Err(ApiError::NotFound)
    }
}

/// In a table with unique identifiers, the chosen index of an identifier is
/// the index where it stands.
pub proof fn lemma_row_index_is(rows: Seq<RowModel>, id: u128, i: int)
    requires
        unique_ids(rows),
        0 <= i < rows.len(),
        rows[i].dto.id == id,
    ensures
        id_present(rows, id),
        row_index_of(rows, id) == i,
        row_with(rows, id) == rows[i],
{
    assert(id_present(rows, id));
    let k = row_index_of(rows, id);
    assert(0 <= k < rows.len() && rows[k].dto.id == id);
    if k < i {
        assert(rows[k].dto.id != rows[i].dto.id);
    } else if i < k {
        assert(rows[i].dto.id != rows[k].dto.id);
    }
}

/// Removing a row and appending a fresh one stamped with the old bound
/// keeps the table invariant, provided the fresh row reuses the removed
/// row's identifier.
proof fn lemma_remove_push_keeps_inv(prev: MemBookRepo, cur: MemBookRepo, i: int, row: RowModel)
    requires
        prev.inv(),
        prev.stamp() < u64::MAX,
        0 <= i < prev.rows().len(),
        row.dto.id == prev.rows()[i].dto.id,
        row.updated_at == prev.stamp(),
        cur.rows() == prev.rows().remove(i).push(row),
        cur.next_stamp == prev.stamp() + 1,
    ensures
        cur.inv(),
{
    let or = prev.rows();
    let nr = cur.rows();
    let m = or.len() - 1;
    assert(nr.len() == or.len());
    // index map: the first m entries of nr are or with entry i dropped
    assert(forall|j: int| 0 <= j < i ==> nr[j] == or[j]);
    assert(forall|j: int| i <= j < m ==> nr[j] == or[j + 1]);
    assert(nr[m] == row);
    assert forall|p: int, q: int| 0 <= p < q < nr.len() implies nr[p].dto.id != nr[q].dto.id by {
        if q < m {
            let p0 = if p < i { p } else { p + 1 };
            let q0 = if q < i { q } else { q + 1 };
            assert(or[p0].dto.id != or[q0].dto.id);
        } else {
            let p0 = if p < i { p } else { p + 1 };
            if p0 != i {
                if p0 < i {
                    assert(or[p0].dto.id != or[i].dto.id);
                } else {
                    assert(or[i].dto.id != or[p0].dto.id);
                }
            }
        }
    }
    assert forall|p: int, q: int| 0 <= p < q < nr.len() implies nr[p].updated_at
        < nr[q].updated_at by {
        if q < m {
            let p0 = if p < i { p } else { p + 1 };
            let q0 = if q < i { q } else { q + 1 };
            assert(or[p0].updated_at < or[q0].updated_at);
        } else {
            let p0 = if p < i { p } else { p + 1 };
            assert(or[p0].updated_at < prev.next_stamp);
        }
    }
    assert forall|p: int| 0 <= p < nr.len() implies nr[p].updated_at < cur.next_stamp by {
        if p < m {
            let p0 = if p < i { p } else { p + 1 };
            assert(or[p0].updated_at < prev.next_stamp);
        }
    }
}

/// Whether some row of the table carries this identifier, decided by a scan.
fn contains_id(table: &Vec<BookRow>, id: u128) -> (r: bool)
    ensures
        r == id_present(table@.map_values(|row: BookRow| row@), id),
{
    let ghost rows = table@.map_values(|row: BookRow| row@);
    let n = table.len();
    let mut i: usize = 0;
    while i < n
        invariant
            n == table.len(),
            i <= n,
            rows == table@.map_values(|row: BookRow| row@),
            forall|j: int| 0 <= j < i ==> #[trigger] rows[j].dto.id != id,
        decreases n - i,
    {
        if table[i].dto.id == id {
            proof {
                assert(rows[i as int].dto.id == id);
            }
            return true;
        }
        i += 1;
    }
    proof {
        assert(!id_present(rows, id));
    }
    false
}

} // verus!
