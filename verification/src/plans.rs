use vstd::prelude::*;

use crate::data::{DataSchema, FieldView};
use crate::users::UserPrivilege;

verus! {

/// The planner-produced description of one privilege grant: principal name,
/// host pattern, and the requested privilege set.
#[derive(Debug)]
pub struct GrantPrivilegePlan {
    pub name: String,
    pub hostname: String,
    pub priv_types: UserPrivilege,
}

impl Clone for GrantPrivilegePlan {
    fn clone(&self) -> (res: Self)
        ensures
            res == *self,
    {
        GrantPrivilegePlan {
            name: self.name.clone(),
            hostname: self.hostname.clone(),
            priv_types: self.priv_types,
        }
    }
}

impl GrantPrivilegePlan {
    /// The schema a grant declares for its (empty) result stream.
    pub open spec fn schema_view(self) -> Seq<FieldView> {
        Seq::<FieldView>::empty()
    }

    /// A grant returns no rows, so its declared schema has no columns.
    pub fn schema(&self) -> (schema: DataSchema)
        ensures
            schema@ =~= self.schema_view(),
    {
        DataSchema::empty()
    }
}

/// An immutable, pre-validated statement description from the planner,
/// tagged by statement kind. Each value is consumed exactly once by its
/// matching interpreter.
#[derive(Debug)]
pub enum PlanNode {
    GrantPrivilege(GrantPrivilegePlan),
}

impl Clone for PlanNode {
    fn clone(&self) -> (res: Self)
        ensures
            res == *self,
    {
        match self {
            PlanNode::GrantPrivilege(plan) => PlanNode::GrantPrivilege(plan.clone()),
        }
    }
}

impl PlanNode {
    /// The schema the plan declares for its result stream.
    pub open spec fn schema_view(self) -> Seq<FieldView> {
        match self {
            PlanNode::GrantPrivilege(plan) => plan.schema_view(),
        }
    }

    pub fn schema(&self) -> (schema: DataSchema)
        ensures
            schema@ =~= self.schema_view(),
    {
        match self {
            PlanNode::GrantPrivilege(plan) => plan.schema(),
        }
    }
}

} // verus!
