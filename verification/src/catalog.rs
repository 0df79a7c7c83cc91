//! The catalog of usage types: what is decided between one statement to the database and the
//! next. The database has no transactions, so each decision rests on what was just read.
use vstd::prelude::*;
use vstd::string::*;

verus! {

/// How a usage is measured.
#[derive(Debug, Clone, Copy, PartialEq, Eq, Structural)]
pub enum UsageKind {
    Counter,
    Gauge,
}

/// A type of usage. The order and number of its metadata fields do not matter, only which
/// there are.
#[derive(Debug)]
pub struct UsageType {
    pub gts_id: String,
    pub kind: UsageKind,
    pub metadata_fields: Vec<String>,
}

/// What a usage type says besides its id.
pub struct Payload {
    pub kind: UsageKind,
    pub fields: Set<Seq<char>>,
}

/// The fields in a list of them.
pub open spec fn field_set(fields: Seq<String>) -> Set<Seq<char>> {
    Set::new(|f: Seq<char>| exists|i: int| 0 <= i < fields.len() && #[trigger] fields[i]@ == f)
}

impl UsageType {
    /// What this type says besides its id.
    pub open spec fn payload(self) -> Payload {
        Payload { kind: self.kind, fields: field_set(self.metadata_fields@) }
    }
}

/// Why the catalog did not do what it was asked.
#[derive(Debug)]
pub enum CatalogError {
    /// The database did not answer, or not in time.
    Transient { message: String },
    /// Another type has this id.
    UsageTypeAlreadyExists { gts_id: String },
    /// No type has this id.
    UsageTypeNotFound { gts_id: String },
    /// There are records of this type.
    UsageTypeReferenced { gts_id: String },
}

/// Whether `field` is among `fields`.
fn has_field(fields: &Vec<String>, field: &String) -> (r: bool)
    ensures
        r == field_set(fields@).contains(field@),
{
    for i in 0..fields.len()
        invariant
            forall|j: int| 0 <= j < i ==> #[trigger] fields@[j]@ != field@,
    {
        if fields[i] == *field {
            assert(fields@[i as int]@ == field@);
            return true;
        }
    }
    false
}

/// Whether every field in `a` is in `b`.
fn fields_within(a: &Vec<String>, b: &Vec<String>) -> (r: bool)
    ensures
        r == field_set(a@).subset_of(field_set(b@)),
{
    for i in 0..a.len()
        invariant
            forall|j: int| 0 <= j < i ==> field_set(b@).contains(#[trigger] a@[j]@),
    {
        if !has_field(b, &a[i]) {
            assert(field_set(a@).contains(a@[i as int]@));
            return false;
        }
    }
    true
}

/// Whether two types say the same besides their ids.
pub fn same_payload(a: &UsageType, b: &UsageType) -> (r: bool)
    ensures
        r == (a.payload() == b.payload()),
        r ==> a.kind == b.kind,
        r ==> forall|i: int|
            0 <= i < a.metadata_fields@.len() ==> names_field(
                *b,
                #[trigger] a.metadata_fields@[i]@,
            ),
        r ==> forall|j: int|
            0 <= j < b.metadata_fields@.len() ==> names_field(
                *a,
                #[trigger] b.metadata_fields@[j]@,
            ),
{
    let r = a.kind == b.kind && fields_within(&a.metadata_fields, &b.metadata_fields)
        && fields_within(&b.metadata_fields, &a.metadata_fields);
    proof {
        if r {
            assert(field_set(a.metadata_fields@) =~= field_set(b.metadata_fields@));
            law_same_payload_is_same_kind_and_fields(*a, *b);
        }
    }
    r
}

/// What creating a type does once its id was looked up.
pub enum CreateStep {
    /// Insert the type.
    Insert(UsageType),
    /// The call is over.
    Return(Result<UsageType, CatalogError>),
}

/// What creating `asked` does, by what was found under its id: the same type again is absorbed
/// and the stored one returned, and another type of that id is a conflict.
pub open spec fn create_decided(
    asked: UsageType,
    found: Result<Option<UsageType>, CatalogError>,
) -> CreateStep {
    match found {
        Err(e) => CreateStep::Return(Err(e)),
        Ok(None) => CreateStep::Insert(asked),
        Ok(Some(stored)) => if stored.payload() == asked.payload() {
            CreateStep::Return(Ok(stored))
        } else {
            CreateStep::Return(Err(CatalogError::UsageTypeAlreadyExists { gts_id: asked.gts_id }))
        },
    }
}

/// Decides what creating `asked` does, by what was found under its id.
pub fn create(asked: UsageType, found: Result<Option<UsageType>, CatalogError>) -> (r: CreateStep)
    ensures
        r == create_decided(asked, found),
{
    match found {
        Err(e) => CreateStep::Return(Err(e)),
        Ok(None) => CreateStep::Insert(asked),
        Ok(Some(stored)) => if same_payload(&stored, &asked) {
            CreateStep::Return(Ok(stored))
        } else {
            CreateStep::Return(Err(CatalogError::UsageTypeAlreadyExists { gts_id: asked.gts_id }))
        },
    }
}

/// What a create ends with.
pub struct Created {
    /// What the caller gets.
    pub result: Result<UsageType, CatalogError>,
    /// The catalog's size is to be counted anew.
    pub refresh: bool,
}

/// Ends a create that inserted `asked`: the new type is returned and the size is to be counted
/// anew, unless the insert failed, which is then the caller's error.
pub fn create_inserted(asked: UsageType, inserted: Result<(), CatalogError>) -> (r: Created)
    ensures
        match inserted {
            Ok(_) => r == (Created { result: Ok(asked), refresh: true }),
            Err(e) => r == (Created { result: Err(e), refresh: false }),
        },
{
    match inserted {
        Ok(_) => Created { result: Ok(asked), refresh: true },
        Err(e) => Created { result: Err(e), refresh: false },
    }
}

/// What reading the type with this id gives, by what was found under it.
pub fn get(gts_id: String, found: Result<Option<UsageType>, CatalogError>) -> (r: Result<
    UsageType,
    CatalogError,
>)
    ensures
        r == match found {
            Err(e) => Err(e),
            Ok(Some(stored)) => Ok(stored),
            Ok(None) => Err(CatalogError::UsageTypeNotFound { gts_id }),
        },
{
    match found {
        Err(e) => Err(e),
        Ok(Some(stored)) => Ok(stored),
        Ok(None) => Err(CatalogError::UsageTypeNotFound { gts_id }),
    }
}

/// What deleting a type does next.
pub enum DeleteTask {
    /// See whether the type is there.
    LookUp,
    /// Count the records of the type.
    CountReferences,
    /// Remove the type, and wait until it is gone.
    Remove,
    /// Count the records that came in while the type was being removed.
    CountOrphans,
    /// Remove those records, and wait until they are gone.
    Sweep,
    /// The call is over.
    Finish(Result<(), CatalogError>),
}

/// What came of a task.
pub enum DeleteEvent {
    Found(Result<bool, CatalogError>),
    Counted(Result<u64, CatalogError>),
    Removed(Result<(), CatalogError>),
}

/// `event` is something that can come of `task`.
pub open spec fn answers(task: DeleteTask, event: DeleteEvent) -> bool {
    match task {
        DeleteTask::LookUp => event is Found,
        DeleteTask::CountReferences | DeleteTask::CountOrphans => event is Counted,
        DeleteTask::Remove | DeleteTask::Sweep => event is Removed,
        DeleteTask::Finish(_) => false,
    }
}

/// What deleting the type with this id does once `event` came of `task`.
pub open spec fn delete_stepped(gts_id: String, task: DeleteTask, event: DeleteEvent) -> DeleteTask {
    match event {
        DeleteEvent::Found(Err(e)) => DeleteTask::Finish(Err(e)),
        DeleteEvent::Counted(Err(e)) => DeleteTask::Finish(Err(e)),
        DeleteEvent::Removed(Err(e)) => DeleteTask::Finish(Err(e)),
        DeleteEvent::Found(Ok(there)) => if there {
            DeleteTask::CountReferences
        } else {
            DeleteTask::Finish(Err(CatalogError::UsageTypeNotFound { gts_id }))
        },
        DeleteEvent::Counted(Ok(n)) => match task {
            DeleteTask::CountReferences => if n == 0 {
                DeleteTask::Remove
            } else {
                DeleteTask::Finish(Err(CatalogError::UsageTypeReferenced { gts_id }))
            },
            _ => if n == 0 {
                DeleteTask::Finish(Ok(()))
            } else {
                DeleteTask::Sweep
            },
        },
        DeleteEvent::Removed(Ok(_)) => match task {
            DeleteTask::Remove => DeleteTask::CountOrphans,
            _ => DeleteTask::Finish(Ok(())),
        },
    }
}

/// Decides what deleting a type does next, beginning with [`DeleteTask::LookUp`]. Whatever the
/// database fails to answer ends the call with that failure.
pub fn delete_step(gts_id: String, task: DeleteTask, event: DeleteEvent) -> (r: DeleteTask)
    requires
        answers(task, event),
    ensures
        r == delete_stepped(gts_id, task, event),
{
    match event {
        DeleteEvent::Found(Err(e)) => DeleteTask::Finish(Err(e)),
        DeleteEvent::Counted(Err(e)) => DeleteTask::Finish(Err(e)),
        DeleteEvent::Removed(Err(e)) => DeleteTask::Finish(Err(e)),
        DeleteEvent::Found(Ok(there)) => if there {
            DeleteTask::CountReferences
        } else {
            DeleteTask::Finish(Err(CatalogError::UsageTypeNotFound { gts_id }))
        },
        DeleteEvent::Counted(Ok(n)) => match task {
            DeleteTask::CountReferences => if n == 0 {
                DeleteTask::Remove
            } else {
                DeleteTask::Finish(Err(CatalogError::UsageTypeReferenced { gts_id }))
            },
            _ => if n == 0 {
                DeleteTask::Finish(Ok(()))
            } else {
                DeleteTask::Sweep
            },
        },
        DeleteEvent::Removed(Ok(_)) => match task {
            DeleteTask::Remove => DeleteTask::CountOrphans,
            _ => DeleteTask::Finish(Ok(())),
        },
    }
}

/// What a delete ends with.
pub struct Deleted {
    /// What the caller gets.
    pub result: Result<(), CatalogError>,
    /// The catalog's size is to be counted anew.
    pub refresh: bool,
}

/// Ends a delete: the size is to be counted anew where it succeeded.
pub fn delete_ended(end: Result<(), CatalogError>) -> (r: Deleted)
    ensures
        r == (Deleted { result: end, refresh: end is Ok }),
{
    let refresh = end.is_ok();
    Deleted { result: end, refresh }
}

/// The tables behind the catalog: the types by their ids, and how many records there are of
/// each.
pub struct Tables {
    pub types: Map<Seq<char>, Payload>,
    pub records: Map<Seq<char>, nat>,
}

impl Tables {
    /// How many records there are of the type with this id.
    pub open spec fn references(self, gts_id: Seq<char>) -> nat {
        if self.records.contains_key(gts_id) {
            self.records[gts_id]
        } else {
            0
        }
    }

    /// `found` is what these tables hold under this id.
    pub open spec fn holds(self, gts_id: Seq<char>, found: Option<UsageType>) -> bool {
        match found {
            Some(stored) => {
                &&& stored.gts_id@ == gts_id
                &&& self.types.contains_key(gts_id)
                &&& self.types[gts_id] == stored.payload()
            },
            None => !self.types.contains_key(gts_id),
        }
    }

    /// These tables after a step of a create was carried out.
    pub open spec fn after_create(self, step: CreateStep) -> Tables {
        match step {
            CreateStep::Insert(asked) => Tables {
                types: self.types.insert(asked.gts_id@, asked.payload()),
                records: self.records,
            },
            CreateStep::Return(_) => self,
        }
    }

    /// Working tables answer `task` with `event` and are `after` then.
    pub open spec fn serve(
        self,
        gts_id: Seq<char>,
        task: DeleteTask,
        event: DeleteEvent,
        after: Tables,
    ) -> bool {
        match task {
            DeleteTask::LookUp => {
                &&& event == DeleteEvent::Found(Ok(self.types.contains_key(gts_id)))
                &&& after == self
            },
            DeleteTask::CountReferences | DeleteTask::CountOrphans => {
                &&& event is Counted
                &&& event->Counted_0 is Ok
                &&& event->Counted_0->Ok_0 == self.references(gts_id)
                &&& after == self
            },
            DeleteTask::Remove => {
                &&& event is Removed
                &&& event->Removed_0 is Ok
                &&& after.types == self.types.remove(gts_id)
                &&& after.records == self.records
            },
            DeleteTask::Sweep => {
                &&& event is Removed
                &&& event->Removed_0 is Ok
                &&& after.types == self.types
                &&& after.records == self.records.remove(gts_id)
            },
            DeleteTask::Finish(_) => false,
        }
    }
}

/// Creating a type that was just created is absorbed: the stored type comes back, and the
/// tables stay as they are.
pub proof fn law_the_same_type_again_is_absorbed(
    tables: Tables,
    asked: UsageType,
    again: UsageType,
    stored: UsageType,
)
    requires
        tables.holds(asked.gts_id@, None),
        again.gts_id@ == asked.gts_id@,
        again.payload() == asked.payload(),
        tables.after_create(create_decided(asked, Ok(None))).holds(asked.gts_id@, Some(stored)),
    ensures
        ({
            let after = tables.after_create(create_decided(asked, Ok(None)));
            let step = create_decided(again, Ok(Some(stored)));
            &&& step == CreateStep::Return(Ok(stored))
            &&& stored.payload() == asked.payload()
            &&& after.after_create(step) == after
        }),
{
}

/// Creating another type under an id that is taken is refused, names that id, and leaves the
/// tables as they are.
pub proof fn law_a_conflict_changes_nothing(tables: Tables, asked: UsageType, stored: UsageType)
    requires
        tables.holds(asked.gts_id@, Some(stored)),
        stored.payload() != asked.payload(),
    ensures
        create_decided(asked, Ok(Some(stored))) == CreateStep::Return(
            Err(CatalogError::UsageTypeAlreadyExists { gts_id: asked.gts_id }),
        ),
        tables.after_create(create_decided(asked, Ok(Some(stored)))) == tables,
{
}

/// `tasks` and `events` are how deleting the type with this id went on working tables, which
/// were `before[i]` when they answered the task `i` and `after[i]` once they had. Others may
/// write in between.
pub open spec fn delete_ran(
    gts_id: String,
    tasks: Seq<DeleteTask>,
    events: Seq<DeleteEvent>,
    before: Seq<Tables>,
    after: Seq<Tables>,
) -> bool {
    &&& tasks.len() == events.len() + 1
    &&& before.len() == events.len()
    &&& after.len() == events.len()
    &&& tasks[0] == DeleteTask::LookUp
    &&& tasks.last() is Finish
    &&& forall|i: int|
        0 <= i < events.len() ==> {
            &&& before[i].serve(gts_id@, tasks[i], #[trigger] events[i], after[i])
            &&& tasks[i + 1] == delete_stepped(gts_id, tasks[i], events[i])
        }
}

/// Nobody wrote between two tasks.
pub open spec fn undisturbed(before: Seq<Tables>, after: Seq<Tables>) -> bool {
    forall|i: int| 0 < i < before.len() ==> #[trigger] before[i] == after[i - 1]
}

/// Whatever others write in the meantime, a delete that succeeds saw the type, then found no
/// records of it, then removed it, and did not end before it either found again that there were
/// none or removed those that had come in.
pub proof fn law_delete_ends_without_records(
    gts_id: String,
    tasks: Seq<DeleteTask>,
    events: Seq<DeleteEvent>,
    before: Seq<Tables>,
    after: Seq<Tables>,
)
    requires
        delete_ran(gts_id, tasks, events, before, after),
        tasks.last()->Finish_0 is Ok,
    ensures
        events.len() == if before[3].references(gts_id@) > 0 {
            5int
        } else {
            4int
        },
        before[0].types.contains_key(gts_id@),
        before[1].references(gts_id@) == 0,
        after[2].types == before[2].types.remove(gts_id@),
        before[3].references(gts_id@) > 0 ==> {
            &&& tasks[4] == DeleteTask::Sweep
            &&& after[4].records == before[4].records.remove(gts_id@)
        },
        after.last().references(gts_id@) == 0,
{
    lemma_delete_goes_by_what_it_reads(gts_id, tasks, events, before, after);
}

/// Deleting a type that is not there fails and says so; one that has records is refused; any
/// other is removed, at once. Where nobody else writes, a delete that fails leaves the tables
/// as they are, and every delete leaves the other types and all records as they are.
pub proof fn law_delete_removes_exactly_the_unreferenced(
    gts_id: String,
    tasks: Seq<DeleteTask>,
    events: Seq<DeleteEvent>,
    before: Seq<Tables>,
    after: Seq<Tables>,
)
    requires
        delete_ran(gts_id, tasks, events, before, after),
        undisturbed(before, after),
    ensures
        if !before[0].types.contains_key(gts_id@) {
            &&& tasks.last() == DeleteTask::Finish(Err(CatalogError::UsageTypeNotFound { gts_id }))
            &&& after.last() == before[0]
        } else if before[0].references(gts_id@) > 0 {
            &&& tasks.last() == DeleteTask::Finish(
                Err(CatalogError::UsageTypeReferenced { gts_id }),
            )
            &&& after.last() == before[0]
        } else {
            &&& tasks.last()->Finish_0 is Ok
            &&& after.last().types == before[0].types.remove(gts_id@)
            &&& after.last().records == before[0].records
        },
{
    lemma_delete_goes_by_what_it_reads(gts_id, tasks, events, before, after);
    if before[0].types.contains_key(gts_id@) {
        assert(before[1] == after[0]);
        if before[1].references(gts_id@) == 0 {
            assert(before[2] == after[1]);
            assert(before[3] == after[2]);
        }
    }
}

/// How a delete goes, by what each of its tasks reads.
proof fn lemma_delete_goes_by_what_it_reads(
    gts_id: String,
    tasks: Seq<DeleteTask>,
    events: Seq<DeleteEvent>,
    before: Seq<Tables>,
    after: Seq<Tables>,
)
    requires
        delete_ran(gts_id, tasks, events, before, after),
    ensures
        events.len() >= 1,
        after[0] == before[0],
        if !before[0].types.contains_key(gts_id@) {
            &&& events.len() == 1
            &&& tasks[1] == DeleteTask::Finish(Err(CatalogError::UsageTypeNotFound { gts_id }))
        } else if before[1].references(gts_id@) > 0 {
            &&& events.len() == 2
            &&& after[1] == before[1]
            &&& tasks[2] == DeleteTask::Finish(Err(CatalogError::UsageTypeReferenced { gts_id }))
        } else {
            &&& after[1] == before[1]
            &&& after[2].types == before[2].types.remove(gts_id@)
            &&& after[2].records == before[2].records
            &&& after[3] == before[3]
            &&& if before[3].references(gts_id@) > 0 {
                &&& events.len() == 5
                &&& tasks[4] == DeleteTask::Sweep
                &&& after[4].types == before[4].types
                &&& after[4].records == before[4].records.remove(gts_id@)
                &&& tasks[5]->Finish_0 is Ok
            } else {
                &&& events.len() == 4
                &&& tasks[4]->Finish_0 is Ok
            }
        },
{
    lemma_finish_is_last(gts_id, tasks, events, before, after);
    assert(before[0].serve(gts_id@, tasks[0], events[0], after[0]));
    if before[0].types.contains_key(gts_id@) {
        assert(tasks[1] == DeleteTask::CountReferences);
        assert(before[1].serve(gts_id@, tasks[1], events[1], after[1]));
        if before[1].references(gts_id@) == 0 {
            assert(tasks[2] == DeleteTask::Remove);
            assert(before[2].serve(gts_id@, tasks[2], events[2], after[2]));
            assert(tasks[3] == DeleteTask::CountOrphans);
            assert(before[3].serve(gts_id@, tasks[3], events[3], after[3]));
            if before[3].references(gts_id@) > 0 {
                assert(tasks[4] == DeleteTask::Sweep);
                assert(before[4].serve(gts_id@, tasks[4], events[4], after[4]));
                assert(tasks[5] is Finish);
            } else {
                assert(tasks[4] is Finish);
            }
        } else {
            assert(tasks[2] is Finish);
        }
    } else {
        assert(tasks[1] is Finish);
    }
}

/// Nothing comes after a delete is over, and nothing else ends it.
proof fn lemma_finish_is_last(
    gts_id: String,
    tasks: Seq<DeleteTask>,
    events: Seq<DeleteEvent>,
    before: Seq<Tables>,
    after: Seq<Tables>,
)
    requires
        delete_ran(gts_id, tasks, events, before, after),
    ensures
        forall|k: int|
            0 <= k < tasks.len() ==> (#[trigger] tasks[k] is Finish <==> k == tasks.len() - 1),
{
    assert forall|k: int| 0 <= k < tasks.len() implies (#[trigger] tasks[k] is Finish <==> k
        == tasks.len() - 1) by {
        if k < tasks.len() - 1 {
            assert(before[k].serve(gts_id@, tasks[k], events[k], after[k]));
        }
    }
}

/// After a delete that succeeded while nobody else wrote the id is free: reading it finds
/// nothing, and creating a type under it inserts that type, which can then be read.
pub proof fn law_a_deleted_type_can_be_created_again(
    gts_id: String,
    tasks: Seq<DeleteTask>,
    events: Seq<DeleteEvent>,
    before: Seq<Tables>,
    after: Seq<Tables>,
    asked: UsageType,
)
    requires
        delete_ran(gts_id, tasks, events, before, after),
        undisturbed(before, after),
        tasks.last()->Finish_0 is Ok,
        asked.gts_id@ == gts_id@,
    ensures
        after.last().holds(gts_id@, None),
        after.last().after_create(create_decided(asked, Ok(None))).holds(gts_id@, Some(asked)),
{
    law_delete_removes_exactly_the_unreferenced(gts_id, tasks, events, before, after);
}

/// `field` is one of the metadata fields of `t`.
pub open spec fn names_field(t: UsageType, field: Seq<char>) -> bool {
    exists|i: int| 0 <= i < t.metadata_fields@.len() && #[trigger] t.metadata_fields@[i]@ == field
}

/// Two types say the same exactly where they are of one kind and every text is a field of the one
/// if and only if it is a field of the other, whatever the kind.
pub proof fn law_same_payload_is_same_kind_and_fields(a: UsageType, b: UsageType)
    ensures
        a.payload() == b.payload() <==> a.kind == b.kind && forall|field: Seq<char>|
            #[trigger] names_field(a, field) <==> names_field(b, field),
        a.payload() == b.payload() ==> forall|i: int|
            0 <= i < a.metadata_fields@.len() ==> names_field(
                b,
                #[trigger] a.metadata_fields@[i]@,
            ),
        a.payload() == b.payload() ==> forall|j: int|
            0 <= j < b.metadata_fields@.len() ==> names_field(
                a,
                #[trigger] b.metadata_fields@[j]@,
            ),
{
    let x = field_set(a.metadata_fields@);
    let y = field_set(b.metadata_fields@);
    assert forall|field: Seq<char>| x.contains(field) <==> names_field(a, field) by {}
    assert forall|field: Seq<char>| y.contains(field) <==> names_field(b, field) by {}
    if a.payload() == b.payload() {
        assert forall|field: Seq<char>| #[trigger] names_field(a, field) <==> names_field(
            b,
            field,
        ) by {
            assert(a.payload().fields.contains(field) <==> b.payload().fields.contains(field));
            assert(x.contains(field) <==> y.contains(field));
        }
        assert forall|i: int| 0 <= i < a.metadata_fields@.len() implies names_field(
            b,
            #[trigger] a.metadata_fields@[i]@,
        ) by {
            assert(names_field(a, a.metadata_fields@[i]@));
        }
        assert forall|j: int| 0 <= j < b.metadata_fields@.len() implies names_field(
            a,
            #[trigger] b.metadata_fields@[j]@,
        ) by {
            assert(names_field(b, b.metadata_fields@[j]@));
        }
    }
    if a.kind == b.kind && forall|field: Seq<char>|
        #[trigger] names_field(a, field) <==> names_field(b, field) {
        assert forall|field: Seq<char>| x.contains(field) <==> y.contains(field) by {
            assert(names_field(a, field) <==> names_field(b, field));
        }
        assert(x =~= y);
    }
}

/// A create is refused exactly where another type has the id: one of another kind, or one with a
/// field that the asked type has not, or without one that it has. It inserts exactly where the id
/// is free, and what it inserts is the type that was asked for. Any other create gives back the
/// type that is stored, or the failure to look.
pub proof fn law_create_refuses_every_difference(
    asked: UsageType,
    found: Result<Option<UsageType>, CatalogError>,
)
    ensures
        create_decided(asked, found) is Insert <==> found is Ok && found->Ok_0 is None,
        create_decided(asked, found) is Insert ==> create_decided(asked, found)->Insert_0 == asked,
        found is Err ==> create_decided(asked, found)->Return_0 is Err && create_decided(
            asked,
            found,
        )->Return_0->Err_0 == found->Err_0,
        found matches Ok(Some(stored)) ==> {
            let r = create_decided(asked, found)->Return_0;
            let same = stored.kind == asked.kind && forall|field: Seq<char>|
                #[trigger] names_field(stored, field) <==> names_field(asked, field);
            &&& same ==> r is Ok && r->Ok_0 == stored
            &&& !same ==> r is Err && r->Err_0 is UsageTypeAlreadyExists
                && r->Err_0->UsageTypeAlreadyExists_gts_id == asked.gts_id
        },
{
    if let Ok(Some(stored)) = found {
        law_same_payload_is_same_kind_and_fields(stored, asked);
    }
}

/// Each task of a delete is answered by its own kind of event, and a delete that is over by none.
pub proof fn law_tasks_have_their_own_answers(task: DeleteTask, event: DeleteEvent)
    ensures
        answers(task, event) <==> {
            ||| task is LookUp && event is Found
            ||| task is CountReferences && event is Counted
            ||| task is CountOrphans && event is Counted
            ||| task is Remove && event is Removed
            ||| task is Sweep && event is Removed
        },
{
}

/// What the database fails to answer ends a delete with that failure, whatever was asked.
pub proof fn law_failures_end_a_delete(gts_id: String, task: DeleteTask, e: CatalogError)
    ensures
        delete_stepped(gts_id, task, DeleteEvent::Found(Err(e))) == DeleteTask::Finish(Err(e)),
        delete_stepped(gts_id, task, DeleteEvent::Counted(Err(e))) == DeleteTask::Finish(Err(e)),
        delete_stepped(gts_id, task, DeleteEvent::Removed(Err(e))) == DeleteTask::Finish(Err(e)),
{
}

/// A type is removed only after a count that found no record of it, and a delete succeeds only
/// after a removal or a count that found none; any record there is refuses or sweeps.
pub proof fn law_delete_decides_by_the_count(gts_id: String, task: DeleteTask, event: DeleteEvent)
    requires
        answers(task, event),
    ensures
        ({
            let next = delete_stepped(gts_id, task, event);
            &&& next is Remove <==> task is CountReferences && event->Counted_0 is Ok
                && event->Counted_0->Ok_0 == 0
            &&& next is Sweep <==> task is CountOrphans && event->Counted_0 is Ok
                && event->Counted_0->Ok_0 > 0
            &&& next is CountReferences <==> task is LookUp && event->Found_0 is Ok
                && event->Found_0->Ok_0
            &&& next is CountOrphans <==> task is Remove && event->Removed_0 is Ok
            &&& next !is LookUp
            &&& next is Finish && next->Finish_0 is Ok <==> {
                ||| task is CountOrphans && event->Counted_0 is Ok && event->Counted_0->Ok_0 == 0
                ||| task is Sweep && event->Removed_0 is Ok
            }
            &&& task is LookUp && event->Found_0 is Ok && !event->Found_0->Ok_0 ==> next
                == DeleteTask::Finish(Err(CatalogError::UsageTypeNotFound { gts_id }))
            &&& task is CountReferences && event->Counted_0 is Ok && event->Counted_0->Ok_0 > 0
                ==> next == DeleteTask::Finish(Err(CatalogError::UsageTypeReferenced { gts_id }))
        }),
{
}

/// A create that inserted gives back the type that was asked for and has the size counted anew;
/// one whose insert failed gives that failure and does not. A delete has the size counted anew
/// exactly where it succeeded, and gives what it came to.
pub proof fn law_changes_have_the_size_counted(
    asked: UsageType,
    inserted: Result<(), CatalogError>,
    created: Created,
    end: Result<(), CatalogError>,
    deleted: Deleted,
)
    requires
        call_ensures(create_inserted, (asked, inserted), created),
        call_ensures(delete_ended, (end,), deleted),
    ensures
        created.refresh <==> inserted is Ok,
        created.result is Ok <==> inserted is Ok,
        inserted is Ok ==> created.result->Ok_0 == asked,
        inserted is Err ==> created.result->Err_0 == inserted->Err_0,
        deleted.refresh <==> end is Ok,
        deleted.result is Ok <==> end is Ok,
        end is Err ==> deleted.result->Err_0 == end->Err_0,
{
}

/// A read gives the type that is stored, says that there is none, or tells the failure to look.
pub proof fn law_reads_give_what_is_stored(
    gts_id: String,
    found: Result<Option<UsageType>, CatalogError>,
    r: Result<UsageType, CatalogError>,
)
    requires
        call_ensures(get, (gts_id, found), r),
    ensures
        r is Ok <==> found is Ok && found->Ok_0 is Some,
        r is Ok ==> r->Ok_0 == found->Ok_0->0,
        found is Err ==> r->Err_0 == found->Err_0,
        found is Ok && found->Ok_0 is None ==> r->Err_0 is UsageTypeNotFound
            && r->Err_0->UsageTypeNotFound_gts_id == gts_id,
{
}

} // verus!
