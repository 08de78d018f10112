//! Properties that hold across the operations of the engine core.
use vstd::prelude::*;
use crate::engine::lowered;
use crate::path::{valid_part, DELIMITER};
use crate::registry::{has_name, unique_names, UnitView};
use crate::text::ascii_lower;

verus! {

/// An empty segment, or one holding the delimiter, is never a valid path
/// segment, so `validate_path_part` rejects it with `InvalidPath`.
pub proof fn lemma_empty_or_delimited_part_invalid(s: Seq<char>)
    requires
        s.len() == 0 || s.contains(DELIMITER),
    ensures
        !valid_part(s),
{
}

/// Once a unit is registered, registering another under the same name
/// fails: the name is taken in the registry that the first registration
/// left, which still holds each name once and still holds the first unit.
pub proof fn lemma_duplicate_registration_fails(units: Seq<UnitView>, first: UnitView, second: UnitView)
    requires
        unique_names(units),
        !has_name(units, first.name),
        second.name == first.name,
    ensures
        unique_names(units.push(first)),
        has_name(units.push(first), second.name),
        units.push(first).contains(first),
{
    let after = units.push(first);
    assert(after[units.len() as int] == first);
    assert forall|i: int, j: int|
        0 <= i < after.len() && 0 <= j < after.len() && #[trigger] after[i].name
            == #[trigger] after[j].name implies i == j by {
        if i < units.len() && j == units.len() {
            assert(units[i].name == first.name);
        }
        if j < units.len() && i == units.len() {
            assert(units[j].name == first.name);
        }
    }
}

/// Agent names are compared without regard to ASCII case: once an agent is
/// registered, an agent whose name differs from it only in ASCII case finds
/// its lowercased name taken.
pub proof fn lemma_agent_names_case_insensitive(units: Seq<UnitView>, first: UnitView, second: UnitView)
    requires
        ascii_lower(first.name) == ascii_lower(second.name),
    ensures
        has_name(units.push(lowered(first)), ascii_lower(second.name)),
{
    let after = units.push(lowered(first));
    assert(after[units.len() as int].name == ascii_lower(second.name));
}

} // verus!
