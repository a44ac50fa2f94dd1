//! The guard that decides whether a GraphQL operation on an entity may go on.
use crate::common::constants::{
    lemma_right_table_values, spec_right_id,
    CREATE_RIGHT_ID, DELETE_RIGHT_ID, EDIT_RIGHT_ID, GRANT_RIGHT_ID, ROLES_GOAL_ID, USERS_GOAL_ID,
    VIEW_RIGHT_ID,
};
use crate::services::permissions::{GoalRight, RequestPermissions};
use vstd::prelude::*;

verus! {

/// The kind of a GraphQL operation on an entity.
#[derive(Clone, Copy, Debug, PartialEq, Eq, Structural)]
pub enum OperationType {
    Read,
    Create,
    Update,
    Delete,
}

/// What the guard lets happen.
pub enum GuardAction {
    Allow,
    /// Refuse, with an optional message.
    Block(Option<String>),
}

/// The right that an operation needs.
pub open spec fn right_for(action: OperationType) -> i32 {
    match action {
        OperationType::Read => VIEW_RIGHT_ID,
        OperationType::Create => CREATE_RIGHT_ID,
        OperationType::Update => EDIT_RIGHT_ID,
        OperationType::Delete => DELETE_RIGHT_ID,
    }
}

/// The guard of GraphQL entities.
pub struct AuthGuard {}

impl AuthGuard {
    pub fn new() -> (r: AuthGuard)
        ensures
            r == (AuthGuard {  }),
    {
        AuthGuard {  }
    }

    /// Whether an operation on an entity may go on. Only the `Users` entity is
    /// guarded: the request must hold the right that the operation needs on
    /// the users goal. A request whose permissions are not at hand
    /// (`perms` is `None`) is blocked without a message; one that lacks the
    /// right is blocked with "User has no rights for this action".
    pub fn entity_guard(
        &self,
        perms: Option<&RequestPermissions>,
        entity: &str,
        action: OperationType,
    ) -> (r: GuardAction)
        ensures
            entity@ != "Users"@ ==> r == GuardAction::Allow,
            entity@ == "Users"@ ==> match perms {
                None => r == GuardAction::Block(None),
                Some(p) => if p.rights@.contains(
                    GoalRight { goal_id: USERS_GOAL_ID, right_id: right_for(action) },
                ) {
                    r == GuardAction::Allow
                } else {
                    r matches GuardAction::Block(Some(m)) && m@
                        == "User has no rights for this action"@
                },
            },
    {
        let name = entity.to_owned();
        let goal_id = if name == "Users".to_owned() {
            USERS_GOAL_ID
        } else {
            return GuardAction::Allow;
        };
        let right_id = if goal_id == ROLES_GOAL_ID && name == "UserRoles".to_owned() {
            GRANT_RIGHT_ID
        } else {
            match action {
                OperationType::Read => VIEW_RIGHT_ID,
                OperationType::Create => CREATE_RIGHT_ID,
                OperationType::Update => EDIT_RIGHT_ID,
                OperationType::Delete => DELETE_RIGHT_ID,
            }
        };
        let perms = match perms {
            Some(p) => p,
            None => {
                return GuardAction::Block(None);
            },
        };
        if perms.has(goal_id, right_id) {
            GuardAction::Allow
        } else {
            GuardAction::Block(Some("User has no rights for this action".to_owned()))
        }
    }
}

/// Each operation on users needs its own right: reading needs the view right
/// (1), creating the create right (2), updating the edit right (3) and
/// deleting the delete right (4); no two operations need the same right.
pub proof fn lemma_operation_rights()
    ensures
        right_for(OperationType::Read) == 1i32,
        right_for(OperationType::Create) == 2i32,
        right_for(OperationType::Update) == 3i32,
        right_for(OperationType::Delete) == 4i32,
        right_for(OperationType::Read) == VIEW_RIGHT_ID,
        right_for(OperationType::Create) == CREATE_RIGHT_ID,
        right_for(OperationType::Update) == EDIT_RIGHT_ID,
        right_for(OperationType::Delete) == DELETE_RIGHT_ID,
        right_for(OperationType::Read) == spec_right_id("view"@)->0,
        right_for(OperationType::Create) == spec_right_id("create"@)->0,
        right_for(OperationType::Update) == spec_right_id("edit"@)->0,
        right_for(OperationType::Delete) == spec_right_id("delete"@)->0,
        forall|a: OperationType, b: OperationType| right_for(a) == right_for(b) ==> a == b,
{
    lemma_right_table_values();
}

impl Default for AuthGuard {
    fn default() -> (r: AuthGuard)
        ensures
            r == (AuthGuard {  }),
    {
        AuthGuard::new()
    }
}

} // verus!
