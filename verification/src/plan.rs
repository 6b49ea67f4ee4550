//! The decisions of a migration: which steps run, in which order, and which changes are refused.

use vstd::prelude::*;
use crate::args::Args;
use crate::data::{DiffView, MigrationUnitData};
use crate::schema::ModelType;

verus! {

/// The steps of a migration of an existing object, in an order where they do not conflict.
#[derive(Debug, Clone, Copy, PartialEq, Eq, Structural)]
pub enum MigrationStep {
    ChangeTableOptions,
    ChangeFieldTypes,
    AddFields,
    AddGlobalIndexes,
    AddLocalIndexes,
    RemoveLocalIndexes,
    RemoveGlobalIndexes,
    RemoveFields,
}

/// A change that a migration refuses to make.
#[derive(Debug, Clone, Copy, PartialEq, Eq, Structural)]
pub enum MigrationError {
    /// A column changed type and dropping and recreating columns was not asked for.
    FieldTypeChange,
    /// A column changed type, which this migration does not support at all.
    FieldTypeChangeUnsupported,
    PartitionKeyChange,
    ClusteringKeyChange,
    UdtFieldsRemoval,
    MaterializedViewFieldsChange,
}

/// What a migration does, one action after the other.
#[derive(Debug, Clone, Copy, PartialEq, Eq, Structural)]
pub enum MigrationAction {
    /// Creates the object, which the database does not have yet.
    FirstMigration,
    ChangeTableOptions,
    /// Drops the columns whose type changed and adds them again with the new type.
    ChangeFieldTypes,
    AddFields,
    AddGlobalIndexes,
    AddLocalIndexes,
    RemoveLocalIndexes,
    RemoveGlobalIndexes,
    RemoveFields,
    /// Reports that no column or index changed.
    ReportNoFieldChanges,
    /// The refusal of a change that is not allowed: always the last action of a plan; the
    /// migration stops here and reports the error.
    Abort(MigrationError),
}

/// The steps of a migration of an existing object, in order.
pub open spec fn migration_steps() -> Seq<MigrationStep> {
    seq![
        MigrationStep::ChangeTableOptions,
        MigrationStep::ChangeFieldTypes,
        MigrationStep::AddFields,
        MigrationStep::AddGlobalIndexes,
        MigrationStep::AddLocalIndexes,
        MigrationStep::RemoveLocalIndexes,
        MigrationStep::RemoveGlobalIndexes,
        MigrationStep::RemoveFields,
    ]
}

impl MigrationStep {
    /// All steps, in the order in which a migration takes them.
    pub fn array() -> (res: [MigrationStep; 8])
        ensures
            res@ == migration_steps(),
    {
        let res = [
            MigrationStep::ChangeTableOptions,
            MigrationStep::ChangeFieldTypes,
            MigrationStep::AddFields,
            MigrationStep::AddGlobalIndexes,
            MigrationStep::AddLocalIndexes,
            MigrationStep::RemoveLocalIndexes,
            MigrationStep::RemoveGlobalIndexes,
            MigrationStep::RemoveFields,
        ];
        assert(res@ =~= migration_steps());
        res
    }
}

/// What one step does: nothing, an action (and whether it changes columns or indexes), or a
/// refusal.
pub enum StepOutcome {
    Skip,
    Run(MigrationAction, bool),
    Fail(MigrationError),
}

/// The refusal of a column change in a materialized view, and of a column removal (or type
/// change) in a UDT.
pub open spec fn removal_refusal(d: DiffView) -> Option<MigrationError> {
    if d.object_type == ModelType::MaterializedView {
        Some(MigrationError::MaterializedViewFieldsChange)
    } else if d.object_type == ModelType::Udt && (d.has_removed_fields() || d.has_changed_type_fields()) {
        Some(MigrationError::UdtFieldsRemoval)
    } else {
        None
    }
}

/// What `step` does for the differences `d`.
pub open spec fn step_outcome(d: DiffView, drop_and_replace: bool, step: MigrationStep) -> StepOutcome {
    match step {
        MigrationStep::ChangeTableOptions => StepOutcome::Run(MigrationAction::ChangeTableOptions, false),
        MigrationStep::ChangeFieldTypes => if !d.has_changed_type_fields() {
            StepOutcome::Skip
        } else if !drop_and_replace {
            StepOutcome::Fail(MigrationError::FieldTypeChange)
        } else {
            match removal_refusal(d) {
                Some(e) => StepOutcome::Fail(e),
                None => StepOutcome::Run(MigrationAction::ChangeFieldTypes, true),
            }
        },
        MigrationStep::AddFields => if !d.has_new_fields() {
            StepOutcome::Skip
        } else if d.object_type == ModelType::MaterializedView {
            StepOutcome::Fail(MigrationError::MaterializedViewFieldsChange)
        } else {
            StepOutcome::Run(MigrationAction::AddFields, true)
        },
        MigrationStep::AddGlobalIndexes => if d.has_new_global_secondary_indexes() {
            StepOutcome::Run(MigrationAction::AddGlobalIndexes, true)
        } else {
            StepOutcome::Skip
        },
        MigrationStep::AddLocalIndexes => if d.has_new_local_secondary_indexes() {
            StepOutcome::Run(MigrationAction::AddLocalIndexes, true)
        } else {
            StepOutcome::Skip
        },
        MigrationStep::RemoveLocalIndexes => if d.has_removed_local_secondary_indexes() {
            StepOutcome::Run(MigrationAction::RemoveLocalIndexes, true)
        } else {
            StepOutcome::Skip
        },
        MigrationStep::RemoveGlobalIndexes => if d.has_removed_global_secondary_indexes() {
            StepOutcome::Run(MigrationAction::RemoveGlobalIndexes, true)
        } else {
            StepOutcome::Skip
        },
        MigrationStep::RemoveFields => if !d.has_removed_fields() {
            StepOutcome::Skip
        } else {
            match removal_refusal(d) {
                Some(e) => StepOutcome::Fail(e),
                None => StepOutcome::Run(MigrationAction::RemoveFields, true),
            }
        },
    }
}

/// The actions of `steps` taken in order, up to the first refusal; when no step changed a
/// column or an index (and none refused), a final report that nothing changed.
pub open spec fn steps_plan(d: DiffView, drop_and_replace: bool, steps: Seq<MigrationStep>, changed: bool) -> Seq<MigrationAction>
    decreases steps.len(),
{
    if steps.len() == 0 {
        if changed { Seq::empty() } else { seq![MigrationAction::ReportNoFieldChanges] }
    } else {
        match step_outcome(d, drop_and_replace, steps[0]) {
            StepOutcome::Skip => steps_plan(d, drop_and_replace, steps.drop_first(), changed),
            StepOutcome::Run(a, c) => seq![a] + steps_plan(d, drop_and_replace, steps.drop_first(), changed || c),
            StepOutcome::Fail(e) => seq![MigrationAction::Abort(e)],
        }
    }
}

/// The migration of an object that the database does not have: create it, then its indexes.
pub open spec fn first_migration_plan(d: DiffView) -> Seq<MigrationAction> {
    seq![MigrationAction::FirstMigration]
        + (if d.has_new_global_secondary_indexes() { seq![MigrationAction::AddGlobalIndexes] } else { Seq::empty() })
        + (if d.has_new_local_secondary_indexes() { seq![MigrationAction::AddLocalIndexes] } else { Seq::empty() })
}

/// The actions of the migration of one object: a first migration creates it; otherwise a
/// change of the partition or clustering key of a table or view is refused before anything
/// runs, and the steps run in their order.
pub open spec fn model_plan(d: DiffView, drop_and_replace: bool) -> Seq<MigrationAction> {
    if d.is_first_migration() {
        first_migration_plan(d)
    } else if d.object_type != ModelType::Udt && d.partition_key_changed() {
        seq![MigrationAction::Abort(MigrationError::PartitionKeyChange)]
    } else if d.object_type != ModelType::Udt && d.clustering_key_changed() {
        seq![MigrationAction::Abort(MigrationError::ClusteringKeyChange)]
    } else {
        steps_plan(d, drop_and_replace, migration_steps(), false)
    }
}

/// The change a plan refuses: the error of its last action when that is `Abort`.
pub open spec fn refusal_of(p: Seq<MigrationAction>) -> Option<MigrationError> {
    if p.len() > 0 && p.last() is Abort {
        Some(p.last()->Abort_0)
    } else {
        None
    }
}

/// Splits a plan into the actions before its refusal and the refusal's error.
fn split_refusal(p: Vec<MigrationAction>) -> (res: Option<(Vec<MigrationAction>, MigrationError)>)
    ensures
        match res {
            None => refusal_of(p@) is None,
            Some((before, e)) => refusal_of(p@) == Some(e) && p@ == before@.push(MigrationAction::Abort(e)),
        },
{
    let mut p = p;
    let ghost all = p@;
    if p.len() > 0 {
        let n = p.len();
        if let MigrationAction::Abort(e) = p[n - 1] {
            p.pop();
            assert(all =~= p@.push(MigrationAction::Abort(e)));
            return Some((p, e));
        }
    }
    None
}

/// The migration of one object with the options it runs under.
pub struct ModelMigration<'a> {
    pub data: &'a MigrationUnitData<'a>,
    pub args: &'a Args,
}

impl<'a> ModelMigration<'a> {
    pub fn new(data: &'a MigrationUnitData<'a>, args: &'a Args) -> (res: ModelMigration<'a>)
        ensures
            res.data == data,
            res.args == args,
    {
        ModelMigration { data, args }
    }

    fn first_migration(&self) -> (res: Vec<MigrationAction>)
        ensures
            res@ == first_migration_plan(self.data.diff()),
    {
        let mut res = Vec::new();
        res.push(MigrationAction::FirstMigration);
        if self.data.has_new_global_secondary_indexes() {
            res.push(MigrationAction::AddGlobalIndexes);
        }
        if self.data.has_new_local_secondary_indexes() {
            res.push(MigrationAction::AddLocalIndexes);
        }
        assert(res@ =~= first_migration_plan(self.data.diff()));
        res
    }

    fn removal_refusal(&self) -> (res: Option<MigrationError>)
        ensures
            res == removal_refusal(self.data.diff()),
    {
        if self.data.migration_object_type == ModelType::MaterializedView {
            Some(MigrationError::MaterializedViewFieldsChange)
        } else if self.data.migration_object_type == ModelType::Udt
            && (self.data.has_removed_fields() || self.data.has_changed_type_fields()) {
            Some(MigrationError::UdtFieldsRemoval)
        } else {
            None
        }
    }

    fn step_outcome(&self, step: MigrationStep) -> (res: StepOutcome)
        ensures
            res == step_outcome(self.data.diff(), self.args.drop_and_replace, step),
    {
        let d = self.data;
        match step {
            MigrationStep::ChangeTableOptions => StepOutcome::Run(MigrationAction::ChangeTableOptions, false),
            MigrationStep::ChangeFieldTypes => if !d.has_changed_type_fields() {
                StepOutcome::Skip
            } else if !self.args.drop_and_replace {
                StepOutcome::Fail(MigrationError::FieldTypeChange)
            } else {
                match self.removal_refusal() {
                    Some(e) => StepOutcome::Fail(e),
                    None => StepOutcome::Run(MigrationAction::ChangeFieldTypes, true),
                }
            },
            MigrationStep::AddFields => if !d.has_new_fields() {
                StepOutcome::Skip
            } else if d.migration_object_type == ModelType::MaterializedView {
                StepOutcome::Fail(MigrationError::MaterializedViewFieldsChange)
            } else {
                StepOutcome::Run(MigrationAction::AddFields, true)
            },
            MigrationStep::AddGlobalIndexes => if d.has_new_global_secondary_indexes() {
                StepOutcome::Run(MigrationAction::AddGlobalIndexes, true)
            } else {
                StepOutcome::Skip
            },
            MigrationStep::AddLocalIndexes => if d.has_new_local_secondary_indexes() {
                StepOutcome::Run(MigrationAction::AddLocalIndexes, true)
            } else {
                StepOutcome::Skip
            },
            MigrationStep::RemoveLocalIndexes => if d.has_removed_local_secondary_indexes() {
                StepOutcome::Run(MigrationAction::RemoveLocalIndexes, true)
            } else {
                StepOutcome::Skip
            },
            MigrationStep::RemoveGlobalIndexes => if d.has_removed_global_secondary_indexes() {
                StepOutcome::Run(MigrationAction::RemoveGlobalIndexes, true)
            } else {
                StepOutcome::Skip
            },
            MigrationStep::RemoveFields => if !d.has_removed_fields() {
                StepOutcome::Skip
            } else {
                match self.removal_refusal() {
                    Some(e) => StepOutcome::Fail(e),
                    None => StepOutcome::Run(MigrationAction::RemoveFields, true),
                }
            },
        }
    }

    /// The actions this migration takes, in order, for a migration that refuses nothing. A
    /// change the migration does not allow (a changed key of a table or view, a retyped column
    /// without drop-and-replace, a column change of a materialized view, a dropped or retyped
    /// column of a UDT) is left out here: see `refusal`, which the caller asks first.
    pub fn plan(&self) -> (res: Vec<MigrationAction>)
        requires
            refusal_of(model_plan(self.data.diff(), self.args.drop_and_replace)) is None,
        ensures
            res@ == model_plan(self.data.diff(), self.args.drop_and_replace),
            forall|i: int| 0 <= i < res.len() ==> !(#[trigger] res@[i] is Abort),
    {
        proof {
            crate::laws::lemma_abort_is_last(self.data.diff(), self.args.drop_and_replace);
        }
        self.planned_actions()
    }

    /// The refusal of this migration, if it refuses a change: the actions that run before the
    /// refusal (those that the migration takes up to the change it does not allow) and the error
    /// it stops with. `None` when the migration refuses nothing, and then `plan` may be asked.
    pub fn refusal(&self) -> (res: Option<(Vec<MigrationAction>, MigrationError)>)
        ensures
            match res {
                None => refusal_of(model_plan(self.data.diff(), self.args.drop_and_replace)) is None,
                Some((before, e)) => refusal_of(model_plan(self.data.diff(), self.args.drop_and_replace)) == Some(e)
                    && model_plan(self.data.diff(), self.args.drop_and_replace) == before@.push(MigrationAction::Abort(e)),
            },
    {
        split_refusal(self.planned_actions())
    }

    fn planned_actions(&self) -> (res: Vec<MigrationAction>)
        ensures
            res@ == model_plan(self.data.diff(), self.args.drop_and_replace),
    {
        let ghost d = self.data.diff();
        let ghost dr = self.args.drop_and_replace;
        if self.data.is_first_migration() {
            return self.first_migration();
        }
        let not_udt = self.data.migration_object_type != ModelType::Udt;
        if not_udt && self.data.partition_key_changed() {
            let mut res = Vec::new();
            res.push(MigrationAction::Abort(MigrationError::PartitionKeyChange));
            assert(res@ =~= model_plan(d, dr));
            return res;
        }
        if not_udt && self.data.clustering_key_changed() {
            let mut res = Vec::new();
            res.push(MigrationAction::Abort(MigrationError::ClusteringKeyChange));
            assert(res@ =~= model_plan(d, dr));
            return res;
        }
        let steps = MigrationStep::array();
        let ghost all = migration_steps();
        let mut res: Vec<MigrationAction> = Vec::new();
        let mut changed = false;
        let mut i: usize = 0;
        assert(all.skip(0) =~= all);
        assert(res@ + steps_plan(d, dr, all.skip(0), false) =~= steps_plan(d, dr, all, false));
        while i < 8
            invariant
                steps@ == all,
                all == migration_steps(),
                d == self.data.diff(),
                dr == self.args.drop_and_replace,
                model_plan(d, dr) == steps_plan(d, dr, all, false),
                i <= 8,
                res@ + steps_plan(d, dr, all.skip(i as int), changed) == steps_plan(d, dr, all, false),
            decreases 8 - i,
        {
            let ghost rest = all.skip(i as int);
            assert(rest[0] == steps@[i as int]);
            assert(rest.drop_first() =~= all.skip(i + 1));
            match self.step_outcome(steps[i]) {
                StepOutcome::Skip => {},
                StepOutcome::Run(a, c) => {
                    let ghost old_res = res@;
                    res.push(a);
                    assert(res@ + steps_plan(d, dr, all.skip(i + 1), changed || c)
                        =~= old_res + (seq![a] + steps_plan(d, dr, all.skip(i + 1), changed || c)));
                    changed = changed || c;
                },
                StepOutcome::Fail(e) => {
                    let ghost old_res = res@;
                    res.push(MigrationAction::Abort(e));
                    assert(steps_plan(d, dr, rest, changed) == seq![MigrationAction::Abort(e)]);
                    assert(res@ =~= old_res + seq![MigrationAction::Abort(e)]);
                    return res;
                },
            }
            i = i + 1;
        }
        if !changed {
            let ghost old_res = res@;
            res.push(MigrationAction::ReportNoFieldChanges);
            assert(res@ =~= old_res + steps_plan(d, dr, all.skip(8), changed));
        } else {
            assert(res@ =~= res@ + steps_plan(d, dr, all.skip(8), changed));
        }
        res
    }
}

/// The migration of an existing object by the command-line migration unit: table options
/// first; any column type change, and any key change of a table or view, is refused; then
/// new columns, removed columns and (for tables and views) index changes.
pub open spec fn unit_plan(d: DiffView) -> Seq<MigrationAction> {
    if d.is_first_migration() {
        first_migration_plan(d)
    } else {
        seq![MigrationAction::ChangeTableOptions] + unit_changes(d)
    }
}

/// The part of `unit_plan` after the table options.
pub open spec fn unit_changes(d: DiffView) -> Seq<MigrationAction> {
    let not_udt = d.object_type != ModelType::Udt;
    let is_mv = d.object_type == ModelType::MaterializedView;
    if d.has_changed_type_fields() {
        seq![MigrationAction::Abort(MigrationError::FieldTypeChangeUnsupported)]
    } else if not_udt && d.partition_key_changed() {
        seq![MigrationAction::Abort(MigrationError::PartitionKeyChange)]
    } else if not_udt && d.clustering_key_changed() {
        seq![MigrationAction::Abort(MigrationError::ClusteringKeyChange)]
    } else if d.has_new_fields() && is_mv {
        seq![MigrationAction::Abort(MigrationError::MaterializedViewFieldsChange)]
    } else {
        let add = if d.has_new_fields() { seq![MigrationAction::AddFields] } else { Seq::empty() };
        if d.has_removed_fields() && is_mv {
            add + seq![MigrationAction::Abort(MigrationError::MaterializedViewFieldsChange)]
        } else if d.has_removed_fields() && !not_udt {
            add + seq![MigrationAction::Abort(MigrationError::UdtFieldsRemoval)]
        } else {
            let remove = if d.has_removed_fields() { seq![MigrationAction::RemoveFields] } else { Seq::empty() };
            let idx = if not_udt { unit_index_changes(d) } else { Seq::empty() };
            let changes = add + remove + idx;
            if changes.len() == 0 { seq![MigrationAction::ReportNoFieldChanges] } else { changes }
        }
    }
}

/// The index actions of `unit_plan`, in order.
pub open spec fn unit_index_changes(d: DiffView) -> Seq<MigrationAction> {
    (if d.has_new_global_secondary_indexes() { seq![MigrationAction::AddGlobalIndexes] } else { Seq::empty() })
        + (if d.has_new_local_secondary_indexes() { seq![MigrationAction::AddLocalIndexes] } else { Seq::empty() })
        + (if d.has_removed_global_secondary_indexes() { seq![MigrationAction::RemoveGlobalIndexes] } else { Seq::empty() })
        + (if d.has_removed_local_secondary_indexes() { seq![MigrationAction::RemoveLocalIndexes] } else { Seq::empty() })
}

/// The migration of one object as the command-line migration unit performs it.
pub struct MigrationUnit<'a> {
    pub data: &'a MigrationUnitData<'a>,
}

impl<'a> MigrationUnit<'a> {
    pub fn new(data: &'a MigrationUnitData<'a>) -> (res: MigrationUnit<'a>)
        ensures
            res.data == data,
    {
        MigrationUnit { data }
    }

    fn index_changes(&self) -> (res: Vec<MigrationAction>)
        ensures
            res@ == unit_index_changes(self.data.diff()),
    {
        let d = self.data;
        let mut res = Vec::new();
        if d.has_new_global_secondary_indexes() {
            res.push(MigrationAction::AddGlobalIndexes);
        }
        if d.has_new_local_secondary_indexes() {
            res.push(MigrationAction::AddLocalIndexes);
        }
        if d.has_removed_global_secondary_indexes() {
            res.push(MigrationAction::RemoveGlobalIndexes);
        }
        if d.has_removed_local_secondary_indexes() {
            res.push(MigrationAction::RemoveLocalIndexes);
        }
        assert(res@ =~= unit_index_changes(self.data.diff()));
        res
    }

    fn changes(&self) -> (res: Vec<MigrationAction>)
        ensures
            res@ == unit_changes(self.data.diff()),
    {
        let ghost dv = self.data.diff();
        let d = self.data;
        let not_udt = d.migration_object_type != ModelType::Udt;
        let is_mv = d.migration_object_type == ModelType::MaterializedView;
        let mut res = Vec::new();
        if d.field_type_changed() {
            res.push(MigrationAction::Abort(MigrationError::FieldTypeChangeUnsupported));
        } else if not_udt && d.partition_key_changed() {
            res.push(MigrationAction::Abort(MigrationError::PartitionKeyChange));
        } else if not_udt && d.clustering_key_changed() {
            res.push(MigrationAction::Abort(MigrationError::ClusteringKeyChange));
        } else if d.has_new_fields() && is_mv {
            res.push(MigrationAction::Abort(MigrationError::MaterializedViewFieldsChange));
        } else {
            if d.has_new_fields() {
                res.push(MigrationAction::AddFields);
            }
            if d.has_removed_fields() && is_mv {
                res.push(MigrationAction::Abort(MigrationError::MaterializedViewFieldsChange));
            } else if d.has_removed_fields() && !not_udt {
                res.push(MigrationAction::Abort(MigrationError::UdtFieldsRemoval));
            } else {
                if d.has_removed_fields() {
                    res.push(MigrationAction::RemoveFields);
                }
                if not_udt {
                    let mut idx = self.index_changes();
                    res.append(&mut idx);
                }
                if res.len() == 0 {
                    res.push(MigrationAction::ReportNoFieldChanges);
                }
            }
        }
        assert(res@ =~= unit_changes(dv));
        res
    }

    /// The actions this migration unit takes, in order, for a unit that refuses nothing; a
    /// change it does not allow is left out here (see `refusal`, which the caller asks first).
    pub fn plan(&self) -> (res: Vec<MigrationAction>)
        requires
            refusal_of(unit_plan(self.data.diff())) is None,
        ensures
            res@ == unit_plan(self.data.diff()),
            forall|i: int| 0 <= i < res.len() ==> !(#[trigger] res@[i] is Abort),
    {
        proof {
            crate::laws::lemma_abort_is_last(self.data.diff(), false);
        }
        self.planned_actions()
    }

    /// The refusal of this unit, if it refuses a change: the actions that run before it and the
    /// error it stops with (a retyped column comes right after the table options, see
    /// `lemma_refusals_stop_the_plan`). `None` when the unit refuses nothing.
    pub fn refusal(&self) -> (res: Option<(Vec<MigrationAction>, MigrationError)>)
        ensures
            match res {
                None => refusal_of(unit_plan(self.data.diff())) is None,
                Some((before, e)) => refusal_of(unit_plan(self.data.diff())) == Some(e)
                    && unit_plan(self.data.diff()) == before@.push(MigrationAction::Abort(e)),
            },
    {
        split_refusal(self.planned_actions())
    }

    fn planned_actions(&self) -> (res: Vec<MigrationAction>)
        ensures
            res@ == unit_plan(self.data.diff()),
    {
        if self.data.is_first_migration() {
            let mut res = Vec::new();
            res.push(MigrationAction::FirstMigration);
            if self.data.has_new_global_secondary_indexes() {
                res.push(MigrationAction::AddGlobalIndexes);
            }
            if self.data.has_new_local_secondary_indexes() {
                res.push(MigrationAction::AddLocalIndexes);
            }
            assert(res@ =~= unit_plan(self.data.diff()));
            return res;
        }
        let mut res = Vec::new();
        res.push(MigrationAction::ChangeTableOptions);
        let mut rest = self.changes();
        res.append(&mut rest);
        assert(res@ =~= unit_plan(self.data.diff()));
        res
    }
}

} // verus!
