//! The frame controller: sole owner of the library, the display cursor and
//! the store handle. Callers serialise access to it behind one lock.
use vstd::prelude::*;

use crate::record::{records_view, ImageLibrary, ImageRecord, RecordView};

verus! {

/// Where the cursor goes on "next", for a library of `len` records.
///
/// The zero index is checked first, then the last index, then the plain
/// increment; an empty library leaves the cursor where it is.
pub open spec fn advance_index(i: nat, len: nat) -> nat {
    if len == 0 {
        i
    } else if i == 0 {
        if len > 1 {
            1
        } else {
            0
        }
    } else if i + 1 == len {
        0
    } else {
        i + 1
    }
}

/// Where the cursor goes after `n` applications of "next".
pub open spec fn advance_times(i: nat, len: nat, n: nat) -> nat
    decreases n,
{
    if n == 0 {
        i
    } else {
        advance_times(advance_index(i, len), len, (n - 1) as nat)
    }
}

/// Where the cursor goes when the library is replaced by one of `len`
/// records: it stays unless it would fall outside, then it returns to `0`.
pub open spec fn reload_index(i: nat, len: nat) -> nat {
    if i >= len {
        0
    } else {
        i
    }
}

/// A cursor is valid for a library of `len` records when it points inside a
/// non-empty library, or is `0` for an empty one.
pub open spec fn cursor_ok(i: nat, len: nat) -> bool {
    i < len || (len == 0 && i == 0)
}

/// Owns the library, the cursor into it and the handle `S` of the record
/// store.
pub struct FrameController<S> {
    library: Box<ImageLibrary>,
    current_photo: usize,
    database: S,
}

impl<S> FrameController<S> {
    /// The records, in display order.
    pub closed spec fn library_view(&self) -> Seq<RecordView> {
        self.library@
    }

    /// The cursor.
    pub closed spec fn cursor(&self) -> nat {
        self.current_photo as nat
    }

    /// The store handle.
    pub closed spec fn store(&self) -> S {
        self.database
    }

    /// The cursor lies within the library.
    pub open spec fn wf(&self) -> bool {
        cursor_ok(self.cursor(), self.library_view().len())
    }

    /// The record under the cursor, if the library is not empty.
    pub open spec fn current_view(&self) -> Option<RecordView> {
        if self.cursor() < self.library_view().len() {
            Some(self.library_view()[self.cursor() as int])
        } else {
            None
        }
    }

    /// A controller over an empty library with the cursor at `0`. Loading
    /// the store's records is the caller's next step (`update_library`).
    pub fn new(database: S) -> (r: FrameController<S>)
        ensures
            r.wf(),
            r.library_view() == Seq::<RecordView>::empty(),
            r.cursor() == 0,
            r.store() == database,
    {
        FrameController { library: Box::new(ImageLibrary::new()), current_photo: 0, database }
    }

    /// The store handle, for the store operations the caller performs.
    pub fn database(&self) -> (r: &S)
        ensures
            *r == self.store(),
    {
        &self.database
    }

    /// Number of records in the library.
    pub fn len(&self) -> (r: usize)
        ensures
            r == self.library_view().len(),
    {
        self.library.len()
    }

    /// The cursor's position.
    pub fn current_index(&self) -> (r: usize)
        ensures
            r == self.cursor(),
    {
        self.current_photo
    }

    /// Moves the cursor to the next record; see `advance_index`.
    pub fn next(&mut self)
        requires
            old(self).wf(),
        ensures
            final(self).wf(),
            final(self).library_view() == old(self).library_view(),
            final(self).store() == old(self).store(),
            final(self).cursor() == advance_index(old(self).cursor(), old(self).library_view().len()),
    {
        let len = self.library.len();
        if len == 0 {
        } else if self.current_photo == 0 {
            if len > 1 {
                self.current_photo = 1;
            }
        } else if self.current_photo + 1 == len {
            self.current_photo = 0;
        } else {
            self.current_photo = self.current_photo + 1;
        }
    }

    /// Replaces the library wholesale with `records`, bringing the cursor
    /// back to `0` when it would fall outside the new library.
    pub fn reload(&mut self, records: Vec<ImageRecord>)
        requires
            old(self).wf(),
        ensures
            final(self).wf(),
            final(self).library_view() == records_view(records@),
            final(self).store() == old(self).store(),
            final(self).cursor() == reload_index(old(self).cursor(), records@.len()),
    {
        let len = records.len();
        self.library = Box::new(ImageLibrary { images: records });
        if self.current_photo >= len {
            self.current_photo = 0;
        }
    }

    /// Applies the outcome of reading every record from the store. A
    /// successful read replaces the library as `reload` does; a failed one
    /// leaves the controller untouched and hands the error back.
    pub fn update_library<E>(&mut self, loaded: Result<Vec<ImageRecord>, E>) -> (r: Result<(), E>)
        requires
            old(self).wf(),
        ensures
            final(self).wf(),
            final(self).store() == old(self).store(),
            match loaded {
                Ok(records) => {
                    &&& r is Ok
                    &&& final(self).library_view() == records_view(records@)
                    &&& final(self).cursor() == reload_index(old(self).cursor(), records@.len())
                },
                Err(e) => {
                    &&& r == Err::<(), E>(e)
                    &&& final(self).library_view() == old(self).library_view()
                    &&& final(self).cursor() == old(self).cursor()
                },
            },
    {
        match loaded {
            Ok(records) => {
                self.reload(records);
                Ok(())
            },
            Err(e) => Err(e),
        }
    }

    /// A copy of the record under the cursor; `None` on an empty library.
    pub fn current(&self) -> (r: Option<ImageRecord>)
        requires
            self.wf(),
        ensures
            match r {
                Some(rec) => self.current_view() == Some(rec@),
                None => self.current_view() is None,
            },
            r is None <==> self.library_view().len() == 0,
    {
        if self.current_photo < self.library.images.len() {
            Some(self.library.images[self.current_photo].duplicate())
        } else {
            None
        }
    }

    /// Moves the cursor on and returns a copy of the record now under it;
    /// `None` on an empty library.
    pub fn advance(&mut self) -> (r: Option<ImageRecord>)
        requires
            old(self).wf(),
        ensures
            final(self).wf(),
            final(self).library_view() == old(self).library_view(),
            final(self).store() == old(self).store(),
            final(self).cursor() == advance_index(old(self).cursor(), old(self).library_view().len()),
            match r {
                Some(rec) => final(self).current_view() == Some(rec@),
                None => final(self).current_view() is None,
            },
            r is None <==> old(self).library_view().len() == 0,
    {
        self.next();
        self.current()
    }

    /// A copy of the whole library.
    pub fn library_snapshot(&self) -> (r: ImageLibrary)
        ensures
            r@ == self.library_view(),
    {
        self.library.snapshot()
    }

    /// The thumbnail path of the record at position `index`; `None` when
    /// `index` is outside the library.
    pub fn thumb_path(&self, index: i32) -> (r: Option<String>)
        ensures
            match r {
                Some(p) => 0 <= index < self.library_view().len() && p@ == self.library_view()[index as int].thumb_path,
                None => !(0 <= index < self.library_view().len()),
            },
    {
        if index >= 0 && (index as usize) < self.library.images.len() {
            Some(self.library.images[index as usize].thumb_path.clone())
        } else {
            None
        }
    }

    /// Whether a record already uses `image_path` as image path or
    /// `thumb_path` as thumbnail path.
    pub fn holds_path(&self, image_path: &String, thumb_path: &String) -> (r: bool)
        ensures
            r == crate::record::path_taken(self.library_view(), image_path@, thumb_path@),
    {
        self.library.holds_path(image_path, thumb_path)
    }

    /// A copy of the first record that carries the id `id`, if any.
    pub fn find_id(&self, id: i32) -> (r: Option<ImageRecord>)
        ensures
            match r {
                Some(rec) => exists|k: int|
                    crate::record::first_with_id(self.library_view(), id, k) && self.library_view()[k]
                        == rec@,
                None => !crate::record::id_taken(self.library_view(), id),
            },
    {
        let r = self.library.find_id(id);
        proof {
            if r is Some {
                let rec = r->Some_0;
                let k = choose|k: int|
                    crate::record::first_with_id(self.library@, id, k) && self.library@[k] == rec@;
                assert(crate::record::first_with_id(self.library_view(), id, k));
            }
        }
        r
    }

    /// Whether some record carries the id `id`.
    pub fn holds_id(&self, id: i32) -> (r: bool)
        ensures
            r == crate::record::id_taken(self.library_view(), id),
    {
        self.library.holds_id(id)
    }
}

} // verus!
