//! The validation pipeline: from the raw argument vector to a fully
//! validated, executable action.

pub mod valid_action;

use vstd::prelude::*;

use crate::action::{resolve_spec, Action};
use crate::error::TodoError;
use crate::log_wrapper::Logger;

verus! {

/// Turns raw command tokens into a validated action.
pub struct Validator {}

impl Validator {
    /// Validate a full argument vector, program name first: there must be
    /// an action token, it must resolve in the catalog, and the remaining
    /// tokens must satisfy the action's arity policy.
    pub fn validate_input<L: Logger>(user_input: Vec<String>, logger: &mut L) -> (r: Result<
        Action,
        TodoError,
    >)
        ensures
            match r {
                Ok(a) => user_input@.len() >= 2 && resolve_spec(user_input.deep_view()[1])
                    == Some(a.action_type) && a.requires_arguments == a.action_type.flag()
                    && a.arguments.deep_view() == user_input.deep_view().subrange(
                    2,
                    user_input.deep_view().len() as int,
                ) && !(a.requires_arguments && user_input@.len() == 2),
                Err(e) => {
                    if user_input@.len() < 2 {
                        e == TodoError::MissingAction
                    } else {
                        match resolve_spec(user_input.deep_view()[1]) {
                            None => e == TodoError::UnknownAction,
                            Some(t) => e == TodoError::MissingArguments && t.flag()
                                && user_input@.len() == 2,
                        }
                    }
                },
            },
    {
        if user_input.len() < 2 {
            return Err(TodoError::MissingAction);
        }
        let mut valid_action = match Action::new(user_input[1].as_str()) {
            Ok(a) => a,
            Err(e) => {
                return Err(e);
            },
        };
        let mut arguments: Vec<String> = Vec::new();
        proof {
            assert(arguments.deep_view() =~= user_input.deep_view().subrange(2, 2));
        }
        let mut i: usize = 2;
        while i < user_input.len()
            invariant
                2 <= i <= user_input@.len(),
                arguments.deep_view() == user_input.deep_view().subrange(2, i as int),
            decreases user_input@.len() - i,
        {
            let ghost pre = arguments.deep_view();
            arguments.push(user_input[i].clone());
            proof {
                assert(arguments.deep_view() =~= pre.push(user_input.deep_view()[i as int]));
                assert(user_input.deep_view().subrange(2, i + 1) =~= user_input.deep_view()
                    .subrange(2, i as int).push(user_input.deep_view()[i as int]));
            }
            i = i + 1;
        }
        Validator::validate_arguments(arguments, &mut valid_action, logger)?;
        Ok(valid_action)
    }

    /// Attach the collected tokens to the action under its arity policy:
    /// an action that requires arguments rejects an empty collection with
    /// `MissingArguments`; one that requires none still keeps any tokens
    /// supplied, after reporting a single warning through the logger.
    pub fn validate_arguments<L: Logger>(
        user_args: Vec<String>,
        valid_action: &mut Action,
        logger: &mut L,
    ) -> (r: Result<(), TodoError>)
        ensures
            old(valid_action).requires_arguments && user_args@.len() == 0 ==> r == Err::<
                (),
                TodoError,
            >(TodoError::MissingArguments) && *final(valid_action) == *old(valid_action),
            !(old(valid_action).requires_arguments && user_args@.len() == 0) ==> r == Ok::<
                (),
                TodoError,
            >(()) && final(valid_action).action_type == old(valid_action).action_type
                && final(valid_action).requires_arguments == old(valid_action).requires_arguments
                && final(valid_action).arguments == user_args,
    {
        if valid_action.requires_arguments && user_args.len() == 0 {
            return Err(TodoError::MissingArguments);
        }
        if !valid_action.requires_arguments && user_args.len() > 0 {
            let _ = logger.log_errln("Action does not take arguments");
        }
        valid_action.arguments = user_args;
        Ok(())
    }
}

} // verus!
