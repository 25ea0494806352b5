//! The laws that relate the operations to one another, stated over the
//! table model that the repository and service contracts speak of.

use vstd::prelude::*;

use crate::book_repo::{
    apply_write, apply_writes, book_of_dto, dto_of_book, id_present, listing, listing_len,
    merge_dto, nullable_writes, row_index_of, row_with, stamps_ascending, unique_ids,
    update_writes_spec, DtoModel, RowModel, SqlWriteModel,
};
use crate::ports::{merged, BookUpdateModel};
use crate::urls::url_norm_of;

verus! {

/// In a table where only position `m` carries the identifier, the chosen
/// index of that identifier is `m`.
pub proof fn lemma_row_index_unique(rows: Seq<RowModel>, id: u128, m: int)
    requires
        0 <= m < rows.len(),
        rows[m].dto.id == id,
        forall|j: int| 0 <= j < rows.len() && j != m ==> #[trigger] rows[j].dto.id != id,
    ensures
        id_present(rows, id),
        row_index_of(rows, id) == m,
        row_with(rows, id) == rows[m],
{
    assert(id_present(rows, id));
    let k = row_index_of(rows, id);
    assert(0 <= k < rows.len() && rows[k].dto.id == id);
}

/// Create-then-read round-trip: after a new record is stored under a fresh
/// identifier, reading that identifier finds exactly the stored record; the
/// Book read back carries the stored name, no URL where none was stored,
/// and the stored URL itself where that URL is a parsed URL's own
/// serialization — which is all the create surface ever stores.
pub proof fn lemma_create_then_read(rows: Seq<RowModel>, d: DtoModel, t: u64)
    requires
        unique_ids(rows),
        !id_present(rows, d.id),
    ensures
        ({
            let rows2 = rows.push(RowModel { dto: d, updated_at: t });
            &&& id_present(rows2, d.id)
            &&& row_with(rows2, d.id).dto == d
        }),
        book_of_dto(d).name == d.name,
        d.url is None ==> book_of_dto(d).url is None,
        match d.url {
            Some(u) => url_norm_of(u) == Some(u) ==> book_of_dto(d).url == Some(u),
            None => true,
        },
{
    let rows2 = rows.push(RowModel { dto: d, updated_at: t });
    let n = rows.len() as int;
    assert(rows2[n].dto.id == d.id);
    assert forall|j: int| 0 <= j < rows2.len() && j != n implies #[trigger] rows2[j].dto.id
        != d.id by {
        if rows2[j].dto.id == d.id {
            assert(rows[j].dto.id == d.id);
            assert(id_present(rows, d.id));
        }
    }
    lemma_row_index_unique(rows2, d.id, n);
}

/// Update merge law: after a successful update with input `u` of the row
/// stored under `id`, reading `id` back gives a Book whose name is `u`'s
/// name where present and the previously read name otherwise, and whose URL
/// is `u`'s URL where present and the previously read URL otherwise; in
/// particular an empty `u` is a no-op on the readable fields. The stored
/// row's URL column is assumed to be either unparsable (a tolerated legacy
/// row) or a parsed URL's own serialization, and `u`'s URL its own
/// serialization — which is all the update surface ever hands down.
pub proof fn lemma_update_merge(rows: Seq<RowModel>, id: u128, u: BookUpdateModel, t: u64)
    requires
        unique_ids(rows),
        id_present(rows, id),
        match u.url {
            Some(x) => url_norm_of(x) == Some(x),
            None => true,
        },
        match row_with(rows, id).dto.url {
            Some(s) => url_norm_of(s) is None || url_norm_of(s) == Some(s),
            None => true,
        },
    ensures
        ({
            let prev = row_with(rows, id);
            let before = book_of_dto(prev.dto);
            let b = merged(u, before);
            let rows2 = rows.remove(row_index_of(rows, id)).push(
                RowModel { dto: merge_dto(prev.dto, dto_of_book(b)), updated_at: t },
            );
            let after = book_of_dto(row_with(rows2, id).dto);
            &&& id_present(rows2, id)
            &&& after.name == (match u.name {
                Some(n) => n,
                None => before.name,
            })
            &&& after.url == (match u.url {
                Some(x) => Some(x),
                None => before.url,
            })
        }),
{
    let k = row_index_of(rows, id);
    assert(0 <= k < rows.len() && rows[k].dto.id == id);
    let prev = row_with(rows, id);
    let before = book_of_dto(prev.dto);
    let b = merged(u, before);
    let rows2 = rows.remove(k).push(RowModel { dto: merge_dto(prev.dto, dto_of_book(b)), updated_at: t });
    let m = rows.len() - 1;
    assert(rows2[m].dto.id == id);
    assert forall|j: int| 0 <= j < rows2.len() && j != m implies #[trigger] rows2[j].dto.id
        != id by {
        let j0 = if j < k {
            j
        } else {
            j + 1
        };
        assert(rows2[j] == rows[j0]);
        if rows[j0].dto.id == id {
            if j0 < k {
                assert(rows[j0].dto.id != rows[k].dto.id);
            } else {
                assert(rows[k].dto.id != rows[j0].dto.id);
            }
        }
    }
    lemma_row_index_unique(rows2, id, m);
}

/// Listing order and cap: over a table whose stamps ascend in write order,
/// the listing holds at most ten entries — entry `k` reading back the row
/// at distance `k` from the newest end — an earlier entry's row carries a
/// strictly later stamp than a later entry's, and every row left out of a
/// full listing carries a stamp below that of every listed row.
pub proof fn lemma_listing_order(rows: Seq<RowModel>)
    requires
        stamps_ascending(rows),
    ensures
        listing(rows).len() == listing_len(rows),
        listing(rows).len() <= 10,
        forall|k: int|
            0 <= k < listing_len(rows) ==> #[trigger] listing(rows)[k] == book_of_dto(
                rows[rows.len() - 1 - k].dto,
            ),
        forall|a: int, b: int|
            0 <= a < b < listing_len(rows) ==> #[trigger] rows[rows.len() - 1 - a].updated_at
                > #[trigger] rows[rows.len() - 1 - b].updated_at,
        forall|j: int, k: int|
            0 <= j < rows.len() - listing_len(rows) && 0 <= k < listing_len(rows)
                ==> #[trigger] rows[j].updated_at < #[trigger] rows[rows.len() - 1
                - k].updated_at,
{
}

/// Running a plan over a concatenation runs its two halves in order.
pub proof fn lemma_apply_writes_concat(row: DtoModel, a: Seq<SqlWriteModel>, b: Seq<
    SqlWriteModel,
>)
    ensures
        apply_writes(row, a + b) == apply_writes(apply_writes(row, a), b),
    decreases a.len(),
{
    if a.len() == 0 {
        assert(a + b =~= b);
    } else {
        assert((a + b)[0] == a[0]);
        assert((a + b).subrange(1, (a + b).len() as int) =~= a.subrange(1, a.len() as int) + b);
        lemma_apply_writes_concat(apply_write(row, a[0]), a.subrange(1, a.len() as int), b);
    }
}

/// A one-statement plan does what its statement does.
pub proof fn lemma_apply_writes_singleton(row: DtoModel, w: SqlWriteModel)
    ensures
        apply_writes(row, seq![w]) == apply_write(row, w),
{
    let s = seq![w];
    assert(s.subrange(1, 1) =~= Seq::<SqlWriteModel>::empty());
    assert(apply_writes(apply_write(row, w), Seq::<SqlWriteModel>::empty()) == apply_write(
        row,
        w,
    ));
}

/// The update plan, run statement by statement against the stored row,
/// yields exactly the merged row that `update_one` promises: the mandatory
/// column is overwritten, and each optional column is overwritten where the
/// record carries a value and left as stored where it carries `None`.
pub proof fn lemma_update_plan_applies_merge(stored: DtoModel, fresh: DtoModel)
    requires
        stored.id == fresh.id,
    ensures
        apply_writes(stored, update_writes_spec(fresh)) == merge_dto(stored, fresh),
{
    let name_part = seq![SqlWriteModel::SetName { id: fresh.id, name: fresh.name }];
    let url_part: Seq<SqlWriteModel> = match fresh.url {
        Some(u) => seq![SqlWriteModel::SetUrl { id: fresh.id, url: u }],
        None => Seq::<SqlWriteModel>::empty(),
    };
    let py_part: Seq<SqlWriteModel> = match fresh.published_year {
        Some(y) => seq![SqlWriteModel::SetPublishedYear { id: fresh.id, year: y }],
        None => Seq::<SqlWriteModel>::empty(),
    };
    let opy_part: Seq<SqlWriteModel> = match fresh.original_published_year {
        Some(y) => seq![SqlWriteModel::SetOriginalPublishedYear { id: fresh.id, year: y }],
        None => Seq::<SqlWriteModel>::empty(),
    };
    assert(update_writes_spec(fresh) == name_part + (url_part + py_part + opy_part));
    lemma_apply_writes_concat(stored, name_part, url_part + py_part + opy_part);
    lemma_apply_writes_singleton(stored, name_part[0]);
    let after_name = apply_write(stored, name_part[0]);
    lemma_apply_writes_concat(after_name, url_part + py_part, opy_part);
    lemma_apply_writes_concat(after_name, url_part, py_part);
    assert((url_part + py_part + opy_part).subrange(0, (url_part + py_part).len() as int) =~= (
    url_part + py_part));
    assert(url_part + py_part + opy_part =~= (url_part + py_part) + opy_part);
    if fresh.url is Some {
        lemma_apply_writes_singleton(after_name, url_part[0]);
    } else {
        assert(apply_writes(after_name, url_part) == after_name);
    }
    let after_url = apply_writes(after_name, url_part);
    if fresh.published_year is Some {
        lemma_apply_writes_singleton(after_url, py_part[0]);
    } else {
        assert(apply_writes(after_url, py_part) == after_url);
    }
    let after_py = apply_writes(after_url, py_part);
    if fresh.original_published_year is Some {
        lemma_apply_writes_singleton(after_py, opy_part[0]);
    } else {
        assert(apply_writes(after_py, opy_part) == after_py);
    }
}

/// The create plan's tail, run against the row that its baseline insert
/// just added (the mandatory columns set, every optional column NULL),
/// raises that row to the full record.
pub proof fn lemma_create_plan_applies(d: DtoModel)
    ensures
        apply_writes(
            DtoModel {
                id: d.id,
                name: d.name,
                url: None,
                published_year: None,
                original_published_year: None,
            },
            nullable_writes(d),
        ) == d,
{
    let base = DtoModel {
        id: d.id,
        name: d.name,
        url: None,
        published_year: None,
        original_published_year: None,
    };
    let url_part: Seq<SqlWriteModel> = match d.url {
        Some(u) => seq![SqlWriteModel::SetUrl { id: d.id, url: u }],
        None => Seq::<SqlWriteModel>::empty(),
    };
    let py_part: Seq<SqlWriteModel> = match d.published_year {
        Some(y) => seq![SqlWriteModel::SetPublishedYear { id: d.id, year: y }],
        None => Seq::<SqlWriteModel>::empty(),
    };
    let opy_part: Seq<SqlWriteModel> = match d.original_published_year {
        Some(y) => seq![SqlWriteModel::SetOriginalPublishedYear { id: d.id, year: y }],
        None => Seq::<SqlWriteModel>::empty(),
    };
    assert(nullable_writes(d) == url_part + py_part + opy_part);
    assert(url_part + py_part + opy_part =~= (url_part + py_part) + opy_part);
    lemma_apply_writes_concat(base, url_part + py_part, opy_part);
    lemma_apply_writes_concat(base, url_part, py_part);
    if d.url is Some {
        lemma_apply_writes_singleton(base, url_part[0]);
    }
    let after_url = apply_writes(base, url_part);
    if d.published_year is Some {
        lemma_apply_writes_singleton(after_url, py_part[0]);
    }
    let after_py = apply_writes(after_url, py_part);
    if d.original_published_year is Some {
        lemma_apply_writes_singleton(after_py, opy_part[0]);
    }
}

/// URL tolerance on read: a row whose `url` column no longer parses reads
/// back as a Book that simply carries no URL.
pub proof fn lemma_url_tolerance(d: DtoModel)
    requires
        d.url matches Some(u) && url_norm_of(u) is None,
    ensures
        book_of_dto(d).url is None,
{
}

} // verus!
