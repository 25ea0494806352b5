//! The service layer: identifier generation on create, pass-through reads,
//! and the read-then-merge rule for partial update, over any repository
//! backend.

use vstd::prelude::*;

use crate::book_repo::{id_present, row_with, RowModel};
use crate::ports::{
    registered, ApiError, Book, BookCreateInput, BookRepo, BookService, BookUpdateInput,
};

verus! {

/// The service over a repository backend; stateless apart from the
/// repository it delegates to.
pub struct BookServiceImpl<A: BookRepo> {
    pub book_repo: A,
}

impl<A: BookRepo> BookService for BookServiceImpl<A> {
    open spec fn rows(&self) -> Seq<RowModel> {
        self.book_repo.rows()
    }

    open spec fn stamp(&self) -> u64 {
        self.book_repo.stamp()
    }

    open spec fn inv(&self) -> bool {
        self.book_repo.inv()
    }

    fn register(&mut self, input: &BookCreateInput) -> (r: Result<(), ApiError>) {
        let book = input.to_model();
        let res = self.book_repo.create(&book);
        proof {
            if res is Err {
                // a collision needs a stored row to collide with
                assert(id_present(old(self).rows(), book@.id));
                assert(old(self).rows().len() > 0);
            }
            if res is Ok {
                assert(registered(
                    old(self).rows(),
                    self.rows(),
                    old(self).stamp(),
                    input@,
                    book@.id,
                ));
                assert(exists|id: u128|
                    #[trigger] registered(
                        old(self).rows(),
                        self.rows(),
                        old(self).stamp(),
                        input@,
                        id,
                    ));
            }
        }
        res
    }

    fn get_one(&self, id: u128) -> (r: Result<Book, ApiError>) {
        self.book_repo.find_one(id)
    }

    fn get_all(&self) -> (r: Result<Vec<Book>, ApiError>) {
        self.book_repo.find_all()
    }

    fn update(&mut self, id: u128, input: &BookUpdateInput) -> (r: Result<(), ApiError>) {
        let prev = match self.book_repo.find_one(id) {
            Ok(b) => b,
            Err(e) => {
                return Err(e);
            },
        };
        let merged_book = input.to_model(&prev);
        proof {
            assert(merged_book@.id == row_with(old(self).rows(), id).dto.id);
        }
        self.book_repo.update_one(&merged_book)
    }
}

} // verus!
