//! Tier 0: the bare model layer over the embedded store.
use vstd::prelude::*;
use vstd::string::*;

verus! {

/// The logical store names, grouped as they are registered on the shared
/// embedded handle: one group per subsystem store.
pub open spec fn router_group_names() -> Seq<Seq<Seq<char>>> {
    seq![seq!["default"@], seq!["boson"@], seq!["chronon"@], seq!["photon"@]]
}

/// The logical store names in registration order.
pub open spec fn logical_names() -> Seq<Seq<char>> {
    seq!["default"@, "boson"@, "chronon"@, "photon"@]
}

/// The logical names under which subsystem stores are registered, in groups.
pub fn router_groups() -> (groups: &'static [&'static [&'static str]])
    ensures
        groups@.len() == router_group_names().len(),
        forall|i: int|
            0 <= i < groups@.len() ==> #[trigger] groups@[i]@.len() == router_group_names()[i].len(),
        forall|i: int, j: int|
            0 <= i < groups@.len() && 0 <= j < groups@[i]@.len() ==> #[trigger] groups@[i]@[j]@
                == router_group_names()[i][j],
{
    let groups: &'static [&'static [&'static str]] = &[&["default"], &["boson"], &["chronon"], &["photon"]];
    proof {
        assert(groups@[0]@[0]@ == "default"@);
    }
    groups
}

/// Label of the acting user: `User(<id>)`.
pub open spec fn actor_label_text(user_id: Seq<char>) -> Seq<char> {
    "User("@ + user_id + ")"@
}

pub fn actor_label(user_id: &str) -> (label: String)
    ensures
        label@ == actor_label_text(user_id@),
{
    let mut label = String::from_str("User(");
    label.append(user_id);
    label.append(")");
    label
}

} // verus!
