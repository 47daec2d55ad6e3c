//! The shape of the output side: a payment, and change where the inputs
//! exceed payment and fee.

use crate::amount::{value_difference, value_sum, Amount, DecimalValue};
use crate::keys::PublicKey;
use crate::unspent::{unspent_for, Unspent, UnspentView, SALT_BOUND};
use crate::utxo::{Utxo, UtxoView};
use vstd::prelude::*;

verus! {

/// The sum of the UTXOs' worths, added from zero in the order of the list.
/// `None` where an addition overflows.
pub open spec fn total_unspent(utxos: Seq<UtxoView>) -> Option<DecimalValue>
    decreases utxos.len(),
{
    if utxos.len() == 0 {
        Some(DecimalValue { mantissa: 0, scale: 0 })
    } else {
        match total_unspent(utxos.drop_last()) {
            Some(sum) => value_sum(sum, utxos.last().unspent),
            None => None,
        }
    }
}

/// What is to go back to the sender.
pub enum Change {
    /// An amount computation overflowed: nothing can be decided.
    Overflow,
    /// The inputs do not exceed payment and fee. No output goes back, and
    /// nothing is asked about whether the inputs cover payment and fee.
    Nothing,
    /// The inputs exceed payment and fee by this much.
    Due(DecimalValue),
}

/// What is to go back to the sender, as computed.
#[derive(Clone, Copy, Debug, PartialEq, Eq)]
pub enum ChangeAmount {
    /// An amount computation overflowed.
    Overflow,
    /// No output goes back.
    Nothing,
    /// This much goes back.
    Due(Amount),
}

impl View for ChangeAmount {
    type V = Change;

    open spec fn view(&self) -> Change {
        match self {
            ChangeAmount::Overflow => Change::Overflow,
            ChangeAmount::Nothing => Change::Nothing,
            ChangeAmount::Due(amount) => Change::Due(amount@),
        }
    }
}

/// The change for a total input, a payment and a fee: the total less the
/// payment less the fee, where the total is greater than payment plus fee.
pub open spec fn change_for(
    total: DecimalValue,
    requested: DecimalValue,
    fee: DecimalValue,
) -> Change {
    match value_sum(requested, fee) {
        None => Change::Overflow,
        Some(needed) => if total.exceeds(needed) {
            match value_difference(total, requested) {
                None => Change::Overflow,
                Some(rest) => match value_difference(rest, fee) {
                    None => Change::Overflow,
                    Some(change) => Change::Due(change),
                },
            }
        } else {
            Change::Nothing
        },
    }
}

/// The change for a list of UTXOs, a payment and a fee.
pub open spec fn change_of(
    utxos: Seq<UtxoView>,
    requested: DecimalValue,
    fee: DecimalValue,
) -> Change {
    match total_unspent(utxos) {
        None => Change::Overflow,
        Some(total) => change_for(total, requested, fee),
    }
}

/// The outputs of a transfer: the change to the sender first, where change
/// is due, then the payment to the recipient. `None` on overflow.
pub open spec fn selected(
    utxos: Seq<UtxoView>,
    requested: DecimalValue,
    fee: DecimalValue,
    sender: Seq<u8>,
    recipient: Seq<u8>,
    change_salt: nat,
    payment_salt: nat,
) -> Option<Seq<UnspentView>> {
    match change_of(utxos, requested, fee) {
        Change::Overflow => None,
        Change::Nothing => Some(seq![unspent_for(recipient, payment_salt, requested)]),
        Change::Due(change) => Some(
            seq![
                unspent_for(sender, change_salt, change),
                unspent_for(recipient, payment_salt, requested),
            ],
        ),
    }
}

/// Decides the outputs of a transfer from the UTXOs that were fetched
/// for it.
pub struct CoinSelector;

impl CoinSelector {
    /// The sum of the worths of `utxos`, or `None` where it overflows.
    pub fn total(utxos: &Vec<Utxo>) -> (r: Option<Amount>)
        ensures
            r is Some <==> total_unspent(utxos.deep_view()) is Some,
            r matches Some(sum) ==> Some(sum@) == total_unspent(utxos.deep_view()),
    {
        let mut sum = Amount::zero();
        let mut i: usize = 0;
        while i < utxos.len()
            invariant
                i <= utxos.len(),
                total_unspent(utxos.deep_view().take(i as int)) == Some(sum@),
            decreases utxos.len() - i,
        {
            proof {
                let next = utxos.deep_view().take(i as int + 1);
                assert(next.drop_last() =~= utxos.deep_view().take(i as int));
                assert(next.last() == utxos[i as int]@);
            }
            match sum.checked_add(&utxos[i].unspent) {
                Some(more) => {
                    sum = more;
                },
                None => {
                    proof {
                        lemma_overflow_stays(utxos.deep_view(), i as int + 1);
                    }
                    return None;
                },
            }
            i += 1;
        }
        proof {
            assert(utxos.deep_view().take(utxos.len() as int) =~= utxos.deep_view());
        }
        Some(sum)
    }

    /// The change that is due for a total input, a payment and a fee.
    pub fn change(total: &Amount, requested: &Amount, fee: &Amount) -> (r: ChangeAmount)
        ensures
            r@ == change_for(total@, requested@, fee@),
    {
        let needed = match requested.checked_add(fee) {
            Some(needed) => needed,
            None => {
                return ChangeAmount::Overflow;
            },
        };
        if total.exceeds(&needed) {
            let rest = match total.checked_sub(requested) {
                Some(rest) => rest,
                None => {
                    return ChangeAmount::Overflow;
                },
            };
            match rest.checked_sub(fee) {
                Some(change) => ChangeAmount::Due(change),
                None => ChangeAmount::Overflow,
            }
        } else {
            ChangeAmount::Nothing
        }
    }

    /// The outputs of a transfer, with the salts given. The UTXOs are taken
    /// as they were fetched: none is left out, and a total that falls short
    /// of payment and fee is not refused. `None` where an amount
    /// computation overflows.
    pub fn select_with_salts(
        utxos: &Vec<Utxo>,
        requested: Amount,
        fee: Amount,
        sender: PublicKey,
        recipient: PublicKey,
        change_salt: u32,
        payment_salt: u32,
    ) -> (r: Option<Vec<Unspent>>)
        ensures
            match selected(
                utxos.deep_view(),
                requested@,
                fee@,
                sender@,
                recipient@,
                change_salt as nat,
                payment_salt as nat,
            ) {
                Some(outputs) => r matches Some(v) && v.deep_view() == outputs,
                None => r is None,
            },
    {
        let total = match Self::total(utxos) {
            Some(total) => total,
            None => {
                return None;
            },
        };
        let mut outputs: Vec<Unspent> = Vec::new();
        match Self::change(&total, &requested, &fee) {
            ChangeAmount::Overflow => {
                return None;
            },
            ChangeAmount::Due(amount) => {
                outputs.push(Unspent::with_salt(sender, change_salt, amount));
                outputs.push(Unspent::with_salt(recipient, payment_salt, requested));
                assert(outputs.deep_view() =~= seq![
                    unspent_for(sender@, change_salt as nat, amount@),
                    unspent_for(recipient@, payment_salt as nat, requested@),
                ]);
            },
            ChangeAmount::Nothing => {
                outputs.push(Unspent::with_salt(recipient, payment_salt, requested));
                assert(outputs.deep_view() =~= seq![
                    unspent_for(recipient@, payment_salt as nat, requested@),
                ]);
            },
        }
        Some(outputs)
    }

    /// The outputs of a transfer, each with a salt drawn for it.
    pub fn select(
        utxos: &Vec<Utxo>,
        requested: Amount,
        fee: Amount,
        sender: PublicKey,
        recipient: PublicKey,
    ) -> (r: Option<Vec<Unspent>>)
        ensures
            r is None <==> change_of(utxos.deep_view(), requested@, fee@) is Overflow,
            r matches Some(v) ==> exists|change_salt: nat, payment_salt: nat|
                change_salt < SALT_BOUND && payment_salt < SALT_BOUND && Some(v.deep_view())
                    == #[trigger] selected(
                    utxos.deep_view(),
                    requested@,
                    fee@,
                    sender@,
                    recipient@,
                    change_salt,
                    payment_salt,
                ),
    {
        let change_salt = Unspent::draw_salt();
        let payment_salt = Unspent::draw_salt();
        Self::select_with_salts(
            utxos,
            requested,
            fee,
            sender,
            recipient,
            change_salt,
            payment_salt,
        )
    }
}

/// Once a prefix of the list overflows, every longer prefix does.
proof fn lemma_overflow_stays(utxos: Seq<UtxoView>, n: int)
    requires
        0 <= n <= utxos.len(),
        total_unspent(utxos.take(n)) is None,
    ensures
        total_unspent(utxos) is None,
    decreases utxos.len() - n,
{
    if n < utxos.len() {
        assert(utxos.take(n + 1).drop_last() =~= utxos.take(n));
        lemma_overflow_stays(utxos, n + 1);
    } else {
        assert(utxos.take(n) =~= utxos);
    }
}

} // verus!
