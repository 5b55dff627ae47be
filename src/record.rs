//! Catalogued images and their mathematical view.
use vstd::prelude::*;

verus! {

/// One catalogued image. `image_id` is assigned by the store on insert and
/// is `0` before that.
#[derive(Clone, Debug)]
pub struct ImageRecord {
    pub image_id: i32,
    pub image_path: String,
    pub thumb_path: String,
    pub date_added: i32,
    pub date_created: i32,
    pub favourite: bool,
}

/// The record with its strings seen as sequences of characters.
pub struct RecordView {
    pub image_id: i32,
    pub image_path: Seq<char>,
    pub thumb_path: Seq<char>,
    pub date_added: i32,
    pub date_created: i32,
    pub favourite: bool,
}

impl View for ImageRecord {
    type V = RecordView;

    open spec fn view(&self) -> RecordView {
        RecordView {
            image_id: self.image_id,
            image_path: self.image_path@,
            thumb_path: self.thumb_path@,
            date_added: self.date_added,
            date_created: self.date_created,
            favourite: self.favourite,
        }
    }
}

/// The view of each record of a sequence, in order.
pub open spec fn records_view(s: Seq<ImageRecord>) -> Seq<RecordView> {
    s.map_values(|r: ImageRecord| r@)
}

impl ImageRecord {
    /// A record not yet stored: its id is the `0` placeholder and it is not a
    /// favourite.
    pub fn unsaved(image_path: String, thumb_path: String, date_added: i32, date_created: i32) -> (r:
        ImageRecord)
        ensures
            r@ == (RecordView {
                image_id: 0,
                image_path: image_path@,
                thumb_path: thumb_path@,
                date_added,
                date_created,
                favourite: false,
            }),
    {
        ImageRecord { image_id: 0, image_path, thumb_path, date_added, date_created, favourite: false }
    }

    /// An independent copy of the record.
    pub fn duplicate(&self) -> (r: ImageRecord)
        ensures
            r@ == self@,
    {
        ImageRecord {
            image_id: self.image_id,
            image_path: self.image_path.clone(),
            thumb_path: self.thumb_path.clone(),
            date_added: self.date_added,
            date_created: self.date_created,
            favourite: self.favourite,
        }
    }
}

/// The ordered collection of catalogued images; insertion order is display
/// order.
#[derive(Clone, Debug)]
pub struct ImageLibrary {
    pub images: Vec<ImageRecord>,
}

impl View for ImageLibrary {
    type V = Seq<RecordView>;

    open spec fn view(&self) -> Seq<RecordView> {
        records_view(self.images@)
    }
}

impl ImageLibrary {
    /// An empty library.
    pub fn new() -> (r: ImageLibrary)
        ensures
            r@ == Seq::<RecordView>::empty(),
    {
        let r = ImageLibrary { images: Vec::new() };
        assert(r@ =~= Seq::<RecordView>::empty());
        r
    }

    /// Number of records.
    pub fn len(&self) -> (r: usize)
        ensures
            r == self@.len(),
    {
        self.images.len()
    }

    /// A copy of the whole library, record by record.
    pub fn snapshot(&self) -> (r: ImageLibrary)
        ensures
            r@ == self@,
    {
        let mut images: Vec<ImageRecord> = Vec::new();
        let mut i: usize = 0;
        while i < self.images.len()
            invariant
                i <= self.images@.len(),
                images@.len() == i,
                forall|j: int| 0 <= j < i ==> (#[trigger] images@[j])@ == self.images@[j]@,
            decreases self.images@.len() - i,
        {
            images.push(self.images[i].duplicate());
            i = i + 1;
        }
        let r = ImageLibrary { images };
        assert(r@ =~= self@);
        r
    }

    /// Whether a record already holds `image_path` as its image path or
    /// `thumb_path` as its thumbnail path.
    pub fn holds_path(&self, image_path: &String, thumb_path: &String) -> (r: bool)
        ensures
            r == path_taken(self@, image_path@, thumb_path@),
    {
        let mut i: usize = 0;
        while i < self.images.len()
            invariant
                i <= self@.len(),
                forall|j: int|
                    0 <= j < i ==> self@[j].image_path != image_path@ && self@[j].thumb_path
                        != thumb_path@,
            decreases self.images@.len() - i,
        {
            let rec = &self.images[i];
            if rec.image_path == *image_path || rec.thumb_path == *thumb_path {
                assert(self@[i as int] == rec@);
                return true;
            }
            i = i + 1;
        }
        false
    }

    /// Whether some record carries the id `id`.
    pub fn holds_id(&self, id: i32) -> (r: bool)
        ensures
            r == id_taken(self@, id),
    {
        let mut i: usize = 0;
        while i < self.images.len()
            invariant
                i <= self@.len(),
                forall|j: int| 0 <= j < i ==> self@[j].image_id != id,
            decreases self.images@.len() - i,
        {
            if self.images[i].image_id == id {
                assert(self@[i as int] == self.images@[i as int]@);
                return true;
            }
            i = i + 1;
        }
        false
    }

    /// A copy of the first record that carries the id `id`, if any.
    pub fn find_id(&self, id: i32) -> (r: Option<ImageRecord>)
        ensures
            match r {
                Some(rec) => exists|k: int| first_with_id(self@, id, k) && self@[k] == rec@,
                None => !id_taken(self@, id),
            },
    {
        let mut i: usize = 0;
        while i < self.images.len()
            invariant
                i <= self@.len(),
                forall|j: int| 0 <= j < i ==> self@[j].image_id != id,
            decreases self.images@.len() - i,
        {
            if self.images[i].image_id == id {
                let rec = self.images[i].duplicate();
                assert(first_with_id(self@, id, i as int));
                return Some(rec);
            }
            i = i + 1;
        }
        None
    }
}

/// `k` is the first position of `lib` whose record carries the id `id`.
pub open spec fn first_with_id(lib: Seq<RecordView>, id: i32, k: int) -> bool {
    &&& 0 <= k < lib.len()
    &&& lib[k].image_id == id
    &&& forall|j: int| 0 <= j < k ==> lib[j].image_id != id
}

/// Some record of `lib` already uses `image_path` or `thumb_path`.
pub open spec fn path_taken(lib: Seq<RecordView>, image_path: Seq<char>, thumb_path: Seq<char>) -> bool {
    exists|j: int|
        0 <= j < lib.len() && (lib[j].image_path == image_path || lib[j].thumb_path == thumb_path)
}

/// Some record of `lib` carries the id `id`.
pub open spec fn id_taken(lib: Seq<RecordView>, id: i32) -> bool {
    exists|j: int| 0 <= j < lib.len() && lib[j].image_id == id
}

} // verus!
