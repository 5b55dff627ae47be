//! Adding a record: a check against the in-memory library, then the file
//! placement, the store insert and the store reload, each performed by the
//! caller and reported back here. Each report decides the next action.
use vstd::prelude::*;

use crate::controller::{reload_index, FrameController};
use crate::record::{first_with_id, id_taken, path_taken, records_view, ImageRecord, RecordView};

verus! {

/// A failed store operation.
#[derive(Clone, Copy, Debug, PartialEq, Eq, Structural)]
pub enum StoreError {
    /// Reading the records failed.
    ReadFailed,
    /// Writing a record failed, or the store refused it.
    WriteFailed,
    /// The store assigned an id that a record of the library already carries.
    IdReused,
    /// The reloaded records hold no record with the id the store assigned
    /// and the requested paths.
    RecordMissing,
}

/// Why a record could not be added.
#[derive(Clone, Copy, Debug, PartialEq, Eq, Structural)]
pub enum AddError {
    /// The image path or the thumbnail path is already in the library.
    DuplicatePath,
    /// The files could not be put in place.
    FileMoveFailed,
    /// A store operation failed.
    Store(StoreError),
}

/// How far an addition has come.
#[derive(Clone, Copy, Debug, PartialEq, Eq, Structural)]
pub enum AddStage {
    AwaitingMove,
    AwaitingInsert,
    AwaitingReload,
    Finished,
}

/// What the caller does next.
#[derive(Debug)]
pub enum AddAction {
    /// Put the image and thumbnail files at their paths, then report with
    /// `files_moved`.
    MoveFiles,
    /// Insert this record into the store, then report with `inserted`.
    Insert(ImageRecord),
    /// Read every record from the store, then report with `reloaded`.
    LoadAll,
    /// The addition ended with this error; nothing further is done.
    Fail(AddError),
}

/// Where an uploaded file named `file_name` is placed: under `image_dir`
/// for the image and under `thumb_dir` for its thumbnail, with the same name.
pub fn placement_paths(image_dir: &str, thumb_dir: &str, file_name: &str) -> (r: (String, String))
    ensures
        r.0@ == image_dir@ + file_name@,
        r.1@ == thumb_dir@ + file_name@,
{
    let image_path = String::from_str(image_dir).concat(file_name);
    let thumb_path = String::from_str(thumb_dir).concat(file_name);
    (image_path, thumb_path)
}

/// One addition in progress.
pub struct AddRecordFlow {
    record: ImageRecord,
    stage: AddStage,
    library_at_insert: Ghost<Seq<RecordView>>,
}

impl AddRecordFlow {
    /// The record being added; its id is the store's once inserted.
    pub closed spec fn record_view(&self) -> RecordView {
        self.record@
    }

    /// The library as it stood when the store's id was checked.
    pub closed spec fn library_at_insert_view(&self) -> Seq<RecordView> {
        self.library_at_insert@
    }

    /// Once the store has assigned an id, no record of the library carried
    /// it when it was checked.
    pub open spec fn wf(&self) -> bool {
        self.stage_view() == AddStage::AwaitingReload ==> !id_taken(
            self.library_at_insert_view(),
            self.record_view().image_id,
        )
    }

    /// The stage reached.
    pub closed spec fn stage_view(&self) -> AddStage {
        self.stage
    }

    /// Starts adding a record with the given paths and dates. The paths are
    /// checked against the library first: if either is taken the addition
    /// fails with `DuplicatePath` at once, and no store write is asked for.
    pub fn begin<S>(
        controller: &FrameController<S>,
        image_path: String,
        thumb_path: String,
        date_added: i32,
        date_created: i32,
    ) -> (r: (AddRecordFlow, AddAction))
        ensures
            r.0.wf(),
            r.0.record_view() == (RecordView {
                image_id: 0,
                image_path: image_path@,
                thumb_path: thumb_path@,
                date_added,
                date_created,
                favourite: false,
            }),
            path_taken(controller.library_view(), image_path@, thumb_path@) ==> {
                &&& r.1 == AddAction::Fail(AddError::DuplicatePath)
                &&& r.0.stage_view() == AddStage::Finished
            },
            !path_taken(controller.library_view(), image_path@, thumb_path@) ==> {
                &&& r.1 == AddAction::MoveFiles
                &&& r.0.stage_view() == AddStage::AwaitingMove
            },
    {
        let taken = controller.holds_path(&image_path, &thumb_path);
        let record = ImageRecord::unsaved(image_path, thumb_path, date_added, date_created);
        if taken {
            (AddRecordFlow { record, stage: AddStage::Finished, library_at_insert: Ghost(Seq::empty()) }, AddAction::Fail(AddError::DuplicatePath))
        } else {
            (AddRecordFlow { record, stage: AddStage::AwaitingMove, library_at_insert: Ghost(Seq::empty()) }, AddAction::MoveFiles)
        }
    }

    /// The stage reached.
    pub fn stage(&self) -> (r: AddStage)
        ensures
            r == self.stage_view(),
    {
        self.stage
    }

    /// The path the image file goes to.
    pub fn image_path(&self) -> (r: &String)
        ensures
            r@ == self.record_view().image_path,
    {
        &self.record.image_path
    }

    /// The path the thumbnail file goes to.
    pub fn thumb_path(&self) -> (r: &String)
        ensures
            r@ == self.record_view().thumb_path,
    {
        &self.record.thumb_path
    }

    /// Takes the outcome of placing the files. Once they are in place the
    /// record goes to the store; if not, the addition fails with
    /// `FileMoveFailed` and nothing is written.
    pub fn files_moved(&mut self, moved: bool) -> (r: AddAction)
        requires
            old(self).stage_view() == AddStage::AwaitingMove,
        ensures
            final(self).wf(),
            final(self).record_view() == old(self).record_view(),
            moved ==> final(self).stage_view() == AddStage::AwaitingInsert && match r {
                AddAction::Insert(rec) => rec@ == old(self).record_view(),
                _ => false,
            },
            !moved ==> {
                &&& final(self).stage_view() == AddStage::Finished
                &&& r == AddAction::Fail(AddError::FileMoveFailed)
            },
    {
        if moved {
            self.stage = AddStage::AwaitingInsert;
            AddAction::Insert(self.record.duplicate())
        } else {
            self.stage = AddStage::Finished;
            AddAction::Fail(AddError::FileMoveFailed)
        }
    }

    /// Takes the outcome of the store insert: the id the store assigned, or
    /// its error. An id that a record of the library already carries is a
    /// store fault (`IdReused`). Otherwise the record takes the id and the
    /// store is to be reloaded.
    pub fn inserted<S>(&mut self, controller: &FrameController<S>, outcome: Result<i32, StoreError>) -> (r:
        AddAction)
        requires
            old(self).stage_view() == AddStage::AwaitingInsert,
        ensures
            final(self).wf(),
            match outcome {
                Ok(id) => if id_taken(controller.library_view(), id) {
                    &&& r == AddAction::Fail(AddError::Store(StoreError::IdReused))
                    &&& final(self).stage_view() == AddStage::Finished
                    &&& final(self).record_view() == old(self).record_view()
                } else {
                    &&& r == AddAction::LoadAll
                    &&& final(self).stage_view() == AddStage::AwaitingReload
                    &&& final(self).record_view() == (RecordView { image_id: id, ..old(self).record_view() })
                    &&& final(self).library_at_insert_view() == controller.library_view()
                },
                Err(e) => {
                    &&& r == AddAction::Fail(AddError::Store(e))
                    &&& final(self).stage_view() == AddStage::Finished
                    &&& final(self).record_view() == old(self).record_view()
                },
            },
    {
        match outcome {
            Ok(id) => {
                if controller.holds_id(id) {
                    self.stage = AddStage::Finished;
                    AddAction::Fail(AddError::Store(StoreError::IdReused))
                } else {
                    self.record.image_id = id;
                    self.library_at_insert = Ghost(controller.library_view());
                    self.stage = AddStage::AwaitingReload;
                    AddAction::LoadAll
                }
            },
            Err(e) => {
                self.stage = AddStage::Finished;
                AddAction::Fail(AddError::Store(e))
            },
        }
    }

    /// Takes the outcome of reloading the store and ends the addition. A
    /// successful read replaces the controller's library and the added
    /// record is returned as the store now holds it: the first record with
    /// the assigned id, which must carry the requested paths. Its id is one
    /// that no record of the library carried when the store assigned it. A
    /// failed read leaves the controller as it was.
    pub fn reloaded<S>(
        &mut self,
        controller: &mut FrameController<S>,
        loaded: Result<Vec<ImageRecord>, StoreError>,
    ) -> (r: Result<ImageRecord, AddError>)
        requires
            old(self).stage_view() == AddStage::AwaitingReload,
            old(self).wf(),
            old(controller).wf(),
        ensures
            final(self).stage_view() == AddStage::Finished,
            final(self).record_view() == old(self).record_view(),
            final(controller).wf(),
            final(controller).store() == old(controller).store(),
            match loaded {
                Ok(records) => {
                    let lib = records_view(records@);
                    let req = old(self).record_view();
                    let id = req.image_id;
                    &&& final(controller).library_view() == lib
                    &&& final(controller).cursor() == reload_index(
                        old(controller).cursor(),
                        records@.len(),
                    )
                    &&& match r {
                        Ok(rec) => {
                            &&& exists|k: int| first_with_id(lib, id, k) && lib[k] == rec@
                            &&& rec.image_id == id
                            &&& rec.image_path@ == req.image_path
                            &&& rec.thumb_path@ == req.thumb_path
                            &&& !id_taken(old(self).library_at_insert_view(), rec.image_id)
                        },
                        Err(e) => {
                            &&& e == AddError::Store(StoreError::RecordMissing)
                            &&& forall|k: int|
                                first_with_id(lib, id, k) ==> (lib[k].image_path != req.image_path
                                    || lib[k].thumb_path != req.thumb_path)
                        },
                    }
                },
                Err(e) => {
                    &&& r == Err::<ImageRecord, AddError>(AddError::Store(e))
                    &&& final(controller).library_view() == old(controller).library_view()
                    &&& final(controller).cursor() == old(controller).cursor()
                },
            },
    {
        self.stage = AddStage::Finished;
        match controller.update_library(loaded) {
            Ok(()) => match controller.find_id(self.record.image_id) {
                Some(rec) => {
                    if rec.image_path == self.record.image_path && rec.thumb_path == self.record.thumb_path {
                        Ok(rec)
                    } else {
                        Err(AddError::Store(StoreError::RecordMissing))
                    }
                },
                None => Err(AddError::Store(StoreError::RecordMissing)),
            },
            Err(e) => Err(AddError::Store(e)),
        }
    }
}

} // verus!
