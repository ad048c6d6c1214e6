//! The category records and their collection, with the create / read /
//! update / delete operations the category endpoints expose. Ids are
//! assigned by the collection and stay unique.

use vstd::prelude::*;

verus! {

/// A stored category.
#[derive(Debug, PartialEq, Eq)]
pub struct Category {
    pub id: i32,
    pub name: String,
}

/// The category creation request body.
#[derive(Debug, PartialEq, Eq)]
pub struct NewCategory {
    pub id: i32,
    pub name: String,
}

/// Two categories that agree on id and name.
pub open spec fn category_views_eq(a: Category, b: Category) -> bool {
    a.id == b.id && a.name@ == b.name@
}

/// Why a category operation failed.
#[derive(Clone, Copy, Debug, PartialEq, Eq, Structural)]
pub enum CatalogError {
    /// No category carries the requested id.
    NotFound,
}

impl CatalogError {
    /// The HTTP status code the failure maps to.
    pub fn status_code(&self) -> (s: u16)
        ensures
            s == 404u16,
    {
        404
    }
}

/// The set of categories.
pub struct CategoryStore {
    pub items: Vec<Category>,
    /// The id the next created category receives.
    pub next_id: i32,
}

impl CategoryStore {
    /// Ids are positive, unique, and below the next one to be assigned.
    pub open spec fn wf(self) -> bool {
        &&& forall|i: int|
            0 <= i < self.items@.len() ==> 0 < (#[trigger] self.items@[i]).id < self.next_id
        &&& forall|i: int, j: int|
            0 <= i < j < self.items@.len() ==> self.items@[i].id != self.items@[j].id
        &&& 0 < self.next_id
    }

    /// Whether some category carries this id.
    pub open spec fn spec_has_id(self, id: int) -> bool {
        exists|i: int| 0 <= i < self.items@.len() && (#[trigger] self.items@[i]).id == id
    }

    /// Room for one more category under the id assignment scheme.
    pub open spec fn has_capacity(self) -> bool {
        self.next_id < i32::MAX
    }

    /// An empty collection.
    pub fn new() -> (r: CategoryStore)
        ensures
            r.wf(),
            r.items@.len() == 0,
            r.next_id == 1,
    {
        CategoryStore { items: Vec::new(), next_id: 1 }
    }

    /// Index of the category carrying `id`.
    fn find(&self, id: i32) -> (r: Option<usize>)
        ensures
            (r matches Some(i) ==> i < self.items@.len() && self.items@[i as int].id == id),
            r is None ==> !self.spec_has_id(id as int),
    {
        let n = self.items.len();
        let mut i: usize = 0;
        while i < n
            invariant
                n == self.items@.len(),
                i <= n,
                forall|j: int| 0 <= j < i ==> (#[trigger] self.items@[j]).id != id,
            decreases n - i,
        {
            if self.items[i].id == id {
                return Some(i);
            }
            i = i + 1;
        }
        None
    }

    /// Copies of all categories, in storage order.
    pub fn get_categories(&self) -> (r: Vec<Category>)
        ensures
            r@.len() == self.items@.len(),
            forall|i: int|
                0 <= i < self.items@.len() ==> category_views_eq(
                    #[trigger] r@[i],
                    self.items@[i],
                ),
    {
        let n = self.items.len();
        let mut out: Vec<Category> = Vec::new();
        let mut i: usize = 0;
        while i < n
            invariant
                n == self.items@.len(),
                i <= n,
                out@.len() == i,
                forall|j: int|
                    0 <= j < i ==> category_views_eq(#[trigger] out@[j], self.items@[j]),
            decreases n - i,
        {
            let c = Category { id: self.items[i].id, name: self.items[i].name.clone() };
            out.push(c);
            i = i + 1;
        }
        out
    }

    /// A copy of the category carrying `id`, or `NotFound`.
    pub fn get_category(&self, id: i32) -> (r: Result<Category, CatalogError>)
        ensures
            !self.spec_has_id(id as int) ==> r == Err::<Category, CatalogError>(
                CatalogError::NotFound,
            ),
            self.spec_has_id(id as int) ==> (r matches Ok(c) && c.id == id),
            r matches Ok(c) ==> (exists|i: int|
                0 <= i < self.items@.len() && category_views_eq(#[trigger] self.items@[i], c)),
    {
        match self.find(id) {
            Some(i) => Ok(
                Category { id: self.items[i].id, name: self.items[i].name.clone() },
            ),
            None => Err(CatalogError::NotFound),
        }
    }

    /// Create a category from the request body; the collection assigns the
    /// id and returns it.
    pub fn post_category(&mut self, data: NewCategory) -> (id: i32)
        requires
            old(self).wf(),
            old(self).has_capacity(),
        ensures
            final(self).wf(),
            id == old(self).next_id,
            final(self).next_id == old(self).next_id + 1,
            final(self).items@ == old(self).items@.push(
                (Category { id: old(self).next_id, name: data.name }),
            ),
    {
        let id = self.next_id;
        self.items.push(Category { id, name: data.name });
        self.next_id = self.next_id + 1;
        id
    }

    /// Rename the category carrying `id`, or report `NotFound`.
    pub fn update_category(&mut self, id: i32, name: String) -> (r: Result<(), CatalogError>)
        requires
            old(self).wf(),
        ensures
            final(self).wf(),
            final(self).next_id == old(self).next_id,
            !old(self).spec_has_id(id as int) ==> r == Err::<(), CatalogError>(
                CatalogError::NotFound,
            ) && final(self).items@ == old(self).items@,
            forall|i: int|
                0 <= i < old(self).items@.len() && (#[trigger] old(self).items@[i]).id == id
                    ==> r == Ok::<(), CatalogError>(()) && final(self).items@ == old(
                    self,
                ).items@.update(i, (Category { id, name })),
    {
        match self.find(id) {
            Some(i) => {
                self.items[i] = Category { id, name };
                proof {
                    assert forall|k: int|
                        0 <= k < old(self).items@.len() && (#[trigger] old(
                            self,
                        ).items@[k]).id == id implies self.items@ == old(self).items@.update(
                        k,
                        (Category { id, name }),
                    ) by {
                        assert(k == i);
                        assert(self.items@ =~= old(self).items@.update(
                            i as int,
                            (Category { id, name }),
                        ));
                    }
                }
                Ok(())
            },
            None => Err(CatalogError::NotFound),
        }
    }

    /// Remove the category carrying `id`, or report `NotFound`.
    pub fn delete_category(&mut self, id: i32) -> (r: Result<(), CatalogError>)
        requires
            old(self).wf(),
        ensures
            final(self).wf(),
            final(self).next_id == old(self).next_id,
            !old(self).spec_has_id(id as int) ==> r == Err::<(), CatalogError>(
                CatalogError::NotFound,
            ) && final(self).items@ == old(self).items@,
            r == Ok::<(), CatalogError>(()) ==> final(self).items@.len() == old(
                self,
            ).items@.len() - 1 && !final(self).spec_has_id(id as int),
            old(self).spec_has_id(id as int) ==> r == Ok::<(), CatalogError>(()),
            forall|i: int|
                0 <= i < old(self).items@.len() && (#[trigger] old(self).items@[i]).id == id
                    ==> final(self).items@ == old(self).items@.remove(i),
    {
        match self.find(id) {
            Some(i) => {
                self.items.remove(i);
                proof {
                    assert forall|k: int|
                        0 <= k < self.items@.len() implies (#[trigger] self.items@[k]).id
                        != id by {
                        if k < i {
                            assert(self.items@[k] == old(self).items@[k]);
                        } else {
                            assert(self.items@[k] == old(self).items@[k + 1]);
                        }
                    }
                    assert forall|k: int|
                        0 <= k < old(self).items@.len() && (#[trigger] old(
                            self,
                        ).items@[k]).id == id implies self.items@ == old(self).items@.remove(
                        k,
                    ) by {
                        assert(k == i);
                    }
                }
                Ok(())
            },
            None => Err(CatalogError::NotFound),
        }
    }
}

} // verus!
