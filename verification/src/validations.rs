//! Checks on the fields of a request.

use crate::errors::AZSmartContractHubError;
use crate::errors::AZSmartContractHubErrorView;
use vstd::prelude::*;
use vstd::string::StringExecFns;

verus! {

/// What `validate_presence_of` returns: nothing where `string` holds a
/// character, and else the complaint that the field `field_name` is blank.
pub open spec fn presence_of(string: Seq<char>, field_name: Seq<char>) -> Result<
    (),
    AZSmartContractHubErrorView,
> {
    if string.len() == 0 {
        Err(AZSmartContractHubErrorView::UnprocessableEntity(field_name + " can't be blank"@))
    } else {
        Ok(())
    }
}

/// Checks that `string` is not empty. The failure names the field
/// `field_name`.
pub fn validate_presence_of(string: &str, field_name: &str) -> (r: Result<
    (),
    AZSmartContractHubError,
>)
    ensures
        (match r {
            Ok(_) => presence_of(string@, field_name@) is Ok,
            Err(e) => presence_of(string@, field_name@) == Err::<(), AZSmartContractHubErrorView>(
                e@,
            ),
        }),
{
    if string.is_empty() {
        let message: String = String::from_str(field_name).concat(" can't be blank");
        return Err(AZSmartContractHubError::UnprocessableEntity(message));
    }
    Ok(())
}

} // verus!
