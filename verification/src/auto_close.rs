use vstd::prelude::*;
use crate::actions::CloseStep;
use crate::state::UniversalOrder;

verus! {

/// Whether an order is done: after a refund the negotiation is over and the
/// order always closes once drained; after a settlement it closes only when
/// nothing remains to fill and nothing is reserved.
pub open spec fn spec_should_close(o: UniversalOrder, is_refund: bool) -> bool {
    is_refund || (o.spec_remaining() == 0 && o.reserved_amount == 0)
}

/// The record destructions reclamation asks for: none while the custody
/// account still holds value or the order is not done; otherwise the custody
/// account first, then the order record that is its authority.
pub open spec fn spec_auto_close(o: UniversalOrder, vault_balance: u64, is_refund: bool) -> Seq<
    CloseStep,
> {
    if spec_should_close(o, is_refund) && vault_balance == 0 {
        seq![CloseStep::Vault, CloseStep::Order]
    } else {
        Seq::empty()
    }
}

/// Reclaim an order and its custody account once no value and no reservation
/// remains. `is_refund` selects the always-close-if-empty mode used by the
/// cancellation paths; settlements close only a fully completed order.
pub fn auto_close_if_needed(order: &UniversalOrder, vault_balance: u64, is_refund: bool) -> (steps:
    Vec<CloseStep>)
    ensures
        steps@ == spec_auto_close(*order, vault_balance, is_refund),
{
    let mut steps: Vec<CloseStep> = Vec::new();
    let should_close: bool = is_refund || (order.remaining_amount() == 0 && order.reserved_amount
        == 0);
    if should_close && vault_balance == 0 {
        steps.push(CloseStep::Vault);
        steps.push(CloseStep::Order);
    }
    proof {
        assert(steps@ =~= spec_auto_close(*order, vault_balance, is_refund));
    }
    steps
}

/// Law: reclamation never destroys the order record before the custody
/// account it controls; wherever the order record is destroyed, the step just
/// before it destroys the custody account.
pub proof fn lemma_vault_closed_before_order(o: UniversalOrder, vault_balance: u64, is_refund: bool)
    ensures
        forall|i: int|
            0 <= i < spec_auto_close(o, vault_balance, is_refund).len() && #[trigger] spec_auto_close(
                o,
                vault_balance,
                is_refund,
            )[i] == CloseStep::Order ==> 1 <= i && spec_auto_close(o, vault_balance, is_refund)[i
                - 1] == CloseStep::Vault,
{
}

} // verus!
