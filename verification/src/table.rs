//! A posts table held in memory.
//!
//! Each method is one statement of the service. Its contract says, over the
//! table's view, which rows the statement leaves stored and what it gives
//! back.

use crate::models::{Post, PostView};
use crate::store::{
    found_view, lemma_landing_is, lemma_slot_is, lemma_with_change_wf, lemma_with_row_wf,
    lemma_without_wf, views, StoreError, TableView,
};
use vstd::prelude::*;

verus! {

/// The posts table. A new value stands for a store in which the table has
/// not been created yet.
pub struct PostTable {
    present: bool,
    rows: Vec<Post>,
}

impl View for PostTable {
    type V = TableView;

    closed spec fn view(&self) -> TableView {
        TableView { present: self.present, rows: views(self.rows@) }
    }
}

impl PostTable {
    #[verifier::type_invariant]
    spec fn inv(self) -> bool {
        self@.wf()
    }

    /// A store without the posts table.
    pub fn new() -> (table: PostTable)
        ensures
            table@ == TableView::missing(),
    {
        let table = PostTable { present: false, rows: Vec::new() };
        assert(table@.rows =~= Seq::empty());
        table
    }

    /// Where the row `id` stands among the rows, if it is stored.
    fn position(&self, id: u128) -> (at: Option<usize>)
        ensures
            self@.wf(),
            match at {
                Some(i) => self@.holds(id) && i == self@.slot(id) && i < self.rows.len(),
                None => !self@.holds(id),
            },
    {
        proof {
            use_type_invariant(self);
        }
        let mut i: usize = 0;
        while i < self.rows.len()
            invariant
                self@.wf(),
                i <= self.rows.len(),
                forall|j: int| 0 <= j < i ==> (#[trigger] self@.rows[j]).id != id,
            decreases self.rows.len() - i,
        {
            if self.rows[i].id == id {
                proof {
                    assert(self@.rows[i as int] == self.rows@[i as int]@);
                    lemma_slot_is(self@, i as int);
                }
                return Some(i);
            }
            assert(self@.rows[i as int] == self.rows@[i as int]@);
            i = i + 1;
        }
        None
    }

    /// `CREATE TABLE IF NOT EXISTS`: creates the table, empty, where it is
    /// missing, and changes nothing where it exists.
    pub fn create_table(&mut self) -> (done: Result<(), StoreError>)
        ensures
            done is Ok,
            final(self)@ == old(self)@.created(),
            final(self)@.rows == old(self)@.rows,
            final(self)@.wf(),
    {
        proof {
            use_type_invariant(&*self);
        }
        self.present = true;
        assert(self@.rows =~= old(self)@.created().rows);
        Ok(())
    }

    /// `SELECT ... ORDER BY created_at DESC`: every stored row, newest first.
    /// Fails with `MissingTable`, and only then, where the table was never
    /// created.
    pub fn select_all(&self) -> (listed: Result<Vec<Post>, StoreError>)
        ensures
            self@.wf(),
            match listed {
                Ok(posts) => self@.present && views(posts@) == self@.rows,
                Err(e) => !self@.present && e == StoreError::MissingTable,
            },
    {
        proof {
            use_type_invariant(self);
        }
        if !self.present {
            return Err(StoreError::MissingTable);
        }
        let mut posts: Vec<Post> = Vec::new();
        let mut i: usize = 0;
        while i < self.rows.len()
            invariant
                i <= self.rows.len(),
                posts.len() == i,
                forall|j: int| 0 <= j < i ==> posts@[j] == self.rows@[j],
            decreases self.rows.len() - i,
        {
            posts.push(self.rows[i].clone());
            i = i + 1;
        }
        assert(views(posts@) =~= self@.rows);
        Ok(posts)
    }

    /// `SELECT ... WHERE id = $1`: the row with this id, or none. Fails with
    /// `MissingTable`, and only then, where the table was never created.
    pub fn select_by_id(&self, id: u128) -> (found: Result<Option<Post>, StoreError>)
        ensures
            self@.wf(),
            match found {
                Ok(post) => self@.present && found_view(post) == self@.find(id),
                Err(e) => !self@.present && e == StoreError::MissingTable,
            },
    {
        proof {
            use_type_invariant(self);
        }
        if !self.present {
            return Err(StoreError::MissingTable);
        }
        match self.position(id) {
            Some(i) => {
                let post = self.rows[i].clone();
                assert(self@.rows[i as int] == self.rows@[i as int]@);
                Ok(Some(post))
            },
            None => Ok(None),
        }
    }

    /// `INSERT ... RETURNING`: stores `row` and gives it back. Fails with
    /// `MissingTable` where the table was never created, else with
    /// `DuplicateId` where a row with the same id is stored; a failed insert
    /// changes nothing.
    pub fn insert(&mut self, row: Post) -> (stored: Result<Post, StoreError>)
        ensures
            final(self)@.wf(),
            match stored {
                Ok(post) => {
                    &&& old(self)@.present
                    &&& !old(self)@.holds(row.id)
                    &&& post@ == row@
                    &&& final(self)@ == old(self)@.with_row(row@)
                    &&& final(self)@.find(row.id) == Some(row@)
                    &&& final(self)@.rows.len() == old(self)@.rows.len() + 1
                },
                Err(e) => {
                    &&& final(self)@ == old(self)@
                    &&& e == if !old(self)@.present {
                        StoreError::MissingTable
                    } else {
                        StoreError::DuplicateId
                    }
                    &&& !old(self)@.present || old(self)@.holds(row.id)
                },
            },
    {
        proof {
            use_type_invariant(&*self);
        }
        if !self.present {
            return Err(StoreError::MissingTable);
        }
        if self.position(row.id).is_some() {
            return Err(StoreError::DuplicateId);
        }
        let mut k: usize = 0;
        while k < self.rows.len() && self.rows[k].created_at > row.created_at
            invariant
                self@.wf(),
                k <= self.rows.len(),
                forall|j: int|
                    0 <= j < k ==> (#[trigger] self@.rows[j]).created_at > row.created_at,
            decreases self.rows.len() - k,
        {
            assert(self@.rows[k as int] == self.rows@[k as int]@);
            k = k + 1;
        }
        let copy = row.clone();
        proof {
            let rows = self@.rows;
            assert forall|j: int| k <= j < rows.len() implies (#[trigger] rows[j]).created_at
                <= row.created_at by {
                assert(rows[k as int] == self.rows@[k as int]@);
                assert(rows[k as int].created_at >= rows[j].created_at);
            }
            lemma_landing_is(rows, row.created_at, k as int);
            lemma_with_row_wf(self@, row@);
        }
        let ghost before = self@;
        let mut rows: Vec<Post> = Vec::new();
        std::mem::swap(&mut rows, &mut self.rows);
        rows.insert(k, row);
        proof {
            assert(views(rows@) =~= before.rows.insert(k as int, row@));
            assert(self@.rows =~= Seq::<PostView>::empty());
        }
        self.rows = rows;
        Ok(copy)
    }

    /// `UPDATE ... SET title, content, published, updated_at WHERE id = $5
    /// RETURNING`: writes the four columns of the row `id` and gives the row
    /// back. Fails with `MissingTable` where the table was never created,
    /// else with `RowNotFound` where no row has this id; a failed update
    /// changes nothing.
    pub fn update(
        &mut self,
        id: u128,
        title: String,
        content: String,
        published: bool,
        updated_at: Option<i64>,
    ) -> (written: Result<Post, StoreError>)
        ensures
            final(self)@.wf(),
            match written {
                Ok(post) => {
                    &&& old(self)@.present
                    &&& old(self)@.holds(id)
                    &&& post@ == old(self)@.rewritten(id, title@, content@, published, updated_at)
                    &&& final(self)@ == old(self)@.with_change(post@)
                    &&& final(self)@.find(id) == Some(post@)
                    &&& final(self)@.rows.len() == old(self)@.rows.len()
                },
                Err(e) => {
                    &&& final(self)@ == old(self)@
                    &&& e == if !old(self)@.present {
                        StoreError::MissingTable
                    } else {
                        StoreError::RowNotFound
                    }
                    &&& !old(self)@.present || !old(self)@.holds(id)
                },
            },
    {
        proof {
            use_type_invariant(&*self);
        }
        if !self.present {
            return Err(StoreError::MissingTable);
        }
        let at = match self.position(id) {
            Some(i) => i,
            None => {
                return Err(StoreError::RowNotFound);
            },
        };
        let ghost before = self@;
        assert(before.rows[at as int] == self.rows@[at as int]@);
        let mut rows: Vec<Post> = Vec::new();
        std::mem::swap(&mut rows, &mut self.rows);
        proof {
            assert(self@.rows =~= Seq::<PostView>::empty());
        }
        let stored = rows.remove(at);
        let row = Post {
            id: stored.id,
            title: title,
            content: content,
            author: stored.author,
            published: published,
            created_at: stored.created_at,
            updated_at: updated_at,
        };
        let copy = row.clone();
        rows.insert(at, row);
        proof {
            assert(row@ == before.rewritten(id, title@, content@, published, updated_at));
            assert(views(rows@) =~= before.rows.update(at as int, row@));
            lemma_with_change_wf(before, row@);
        }
        self.rows = rows;
        Ok(copy)
    }

    /// `DELETE ... WHERE id = $1`: removes the row `id` and gives back how
    /// many rows it removed, 1 or 0. Fails with `MissingTable`, and only
    /// then, where the table was never created.
    pub fn delete(&mut self, id: u128) -> (affected: Result<u64, StoreError>)
        ensures
            final(self)@.wf(),
            final(self)@ == old(self)@.without(id),
            final(self)@.find(id) is None,
            match affected {
                Ok(n) => old(self)@.present && n == if old(self)@.holds(id) {
                    1u64
                } else {
                    0u64
                },
                Err(e) => !old(self)@.present && e == StoreError::MissingTable,
            },
    {
        proof {
            use_type_invariant(&*self);
        }
        proof {
            lemma_without_wf(self@, id);
        }
        if !self.present {
            assert(!self@.holds(id));
            return Err(StoreError::MissingTable);
        }
        let at = match self.position(id) {
            Some(i) => i,
            None => {
                return Ok(0);
            },
        };
        let ghost before = self@;
        let mut rows: Vec<Post> = Vec::new();
        std::mem::swap(&mut rows, &mut self.rows);
        proof {
            assert(self@.rows =~= Seq::<PostView>::empty());
        }
        let _ = rows.remove(at);
        proof {
            assert(views(rows@) =~= before.rows.remove(at as int));
        }
        self.rows = rows;
        Ok(1)
    }
}

} // verus!
