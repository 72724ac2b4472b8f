//! From a position in the menu to an operation.

use vstd::prelude::*;
use crate::actions::domain::{ActionError, TandemAction};

verus! {

/// The number of operations on offer.
pub const SUPPORTED_ACTION_COUNT: usize = 4;

/// The operation at each position of the menu.
pub open spec fn action_at(position: int) -> Option<TandemAction> {
    if position == 0 {
        Some(TandemAction::Prepare)
    } else if position == 1 {
        Some(TandemAction::CreateAccount)
    } else if position == 2 {
        Some(TandemAction::Migrate)
    } else if position == 3 {
        Some(TandemAction::AppendHandle)
    } else {
        None
    }
}

/// The label under which the menu shows an operation.
pub open spec fn label_of(action: TandemAction) -> Seq<char> {
    match action {
        TandemAction::Prepare => "Upgrade Account"@,
        TandemAction::CreateAccount => "Create Account"@,
        TandemAction::Migrate => "Migrate Account"@,
        TandemAction::AppendHandle => "Append Handle"@,
    }
}

/// The operation at position `selected_operation` of the menu.
pub fn get_action(selected_operation: usize) -> (out: Result<TandemAction, ActionError>)
    ensures
        match out {
            Ok(action) => action_at(selected_operation as int) == Some(action),
            Err(e) => e == ActionError::UnsupportedOperation && action_at(selected_operation as int)
                is None,
        },
{
    match selected_operation {
        0 => Ok(TandemAction::Prepare),
        1 => Ok(TandemAction::CreateAccount),
        2 => Ok(TandemAction::Migrate),
        3 => Ok(TandemAction::AppendHandle),
        _ => Err(ActionError::UnsupportedOperation),
    }
}

/// The label of an operation.
pub fn action_label(action: TandemAction) -> (label: &'static str)
    ensures
        label@ == label_of(action),
{
    match action {
        TandemAction::Prepare => "Upgrade Account",
        TandemAction::CreateAccount => "Create Account",
        TandemAction::Migrate => "Migrate Account",
        TandemAction::AppendHandle => "Append Handle",
    }
}

/// The labels of the menu, in order: the label at each position is that of
/// the operation that `get_action` gives for the position.
pub fn supported_actions() -> (labels: Vec<&'static str>)
    ensures
        labels@.len() == SUPPORTED_ACTION_COUNT,
        forall|i: int|
            0 <= i < labels@.len() ==> (action_at(i) matches Some(action) && (#[trigger] labels@[i])@
                == label_of(action)),
{
    let mut labels: Vec<&'static str> = Vec::new();
    labels.push(action_label(TandemAction::Prepare));
    labels.push(action_label(TandemAction::CreateAccount));
    labels.push(action_label(TandemAction::Migrate));
    labels.push(action_label(TandemAction::AppendHandle));
    labels
}

} // verus!
