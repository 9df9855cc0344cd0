//! What the relational backend's table of payment methods looks like after
//! each operation the workflows ask for, and what that means for the default
//! flag: among a user's active methods at most one is the default.

use vstd::prelude::*;
use crate::payment_methods::{
    promotion_target, removal_step, sole_active, update_step, RemovalFlow, Removed, UpdateFlow,
    UpdateStage,
};
use crate::processor::{ProcessorCall, ProcessorReply};
use crate::records::PaymentMethod;
use crate::registration::{register_step, RegisterFlow, RegisterStage};
use crate::remote::{accepted, method_rows, Action, Event, StoreOp};

verus! {

/// The row belongs to the user.
pub open spec fn owned(row: PaymentMethod, user: Seq<char>) -> bool {
    row.user_id@ == user
}

/// The row is an active default of the user.
pub open spec fn active_default(row: PaymentMethod, user: Seq<char>) -> bool {
    owned(row, user) && row.is_active && row.is_default
}

/// Among the user's active rows at most one is marked default.
pub open spec fn single_default(rows: Seq<PaymentMethod>, user: Seq<char>) -> bool {
    forall|i: int, j: int|
        0 <= i < rows.len() && 0 <= j < rows.len() && active_default(#[trigger] rows[i], user)
            && active_default(#[trigger] rows[j], user) ==> i == j
}

/// The row stands for this processor payment method of this user.
pub open spec fn names(row: PaymentMethod, payment_method_id: Seq<char>, user: Seq<char>) -> bool {
    row.stripe_payment_method_id@ == payment_method_id && row.user_id@ == user
}

/// Two rows are the same record: they differ at most in their flags and in
/// the time of their last update.
pub open spec fn same_record(a: PaymentMethod, b: PaymentMethod) -> bool {
    &&& a.id == b.id
    &&& a.user_id == b.user_id
    &&& a.stripe_customer_id == b.stripe_customer_id
    &&& a.stripe_payment_method_id == b.stripe_payment_method_id
    &&& a.card_brand == b.card_brand
    &&& a.card_last4 == b.card_last4
    &&& a.card_exp_month == b.card_exp_month
    &&& a.card_exp_year == b.card_exp_year
    &&& a.created_at == b.created_at
    &&& a.last_used_at == b.last_used_at
}

/// A flag after an update that may or may not set it.
pub open spec fn flag_after(before: bool, set: Option<bool>) -> bool {
    match set {
        Some(value) => value,
        None => before,
    }
}

/// The table `after` is what the backend holds once it has carried out `op`
/// on the table `before`. Operations on other tables leave this one alone.
pub open spec fn applied(
    before: Seq<PaymentMethod>,
    op: StoreOp,
    after: Seq<PaymentMethod>,
) -> bool {
    match op {
        StoreOp::UnsetDefaultPaymentMethods { user_id } => {
            &&& after.len() == before.len()
            &&& forall|i: int|
                0 <= i < before.len() ==> {
                    &&& same_record(before[i], #[trigger] after[i])
                    &&& after[i].is_active == before[i].is_active
                    &&& after[i].is_default == (before[i].is_default && !active_default(
                        before[i],
                        user_id@,
                    ))
                }
        },
        StoreOp::InsertPaymentMethod {
            user_id,
            customer_id,
            payment_method_id,
            card_brand,
            card_last4,
            card_exp_month,
            card_exp_year,
            is_default,
        } => {
            &&& after.len() == before.len() + 1
            &&& forall|i: int| 0 <= i < before.len() ==> #[trigger] after[i] == before[i]
            &&& after[before.len() as int].user_id@ == user_id@
            &&& after[before.len() as int].stripe_customer_id@ == customer_id@
            &&& after[before.len() as int].stripe_payment_method_id@ == payment_method_id@
            &&& after[before.len() as int].card_brand@ == card_brand@
            &&& after[before.len() as int].card_last4@ == card_last4@
            &&& after[before.len() as int].card_exp_month == card_exp_month
            &&& after[before.len() as int].card_exp_year == card_exp_year
            &&& after[before.len() as int].is_default == is_default
            &&& after[before.len() as int].is_active
        },
        StoreOp::UpdatePaymentMethod { payment_method_id, user_id, set_default, set_active } => {
            &&& after.len() == before.len()
            &&& forall|i: int|
                0 <= i < before.len() ==> {
                    &&& same_record(before[i], #[trigger] after[i])
                    &&& if names(before[i], payment_method_id@, user_id@) {
                        &&& after[i].is_default == flag_after(before[i].is_default, set_default)
                        &&& after[i].is_active == flag_after(before[i].is_active, set_active)
                    } else {
                        &&& after[i].is_default == before[i].is_default
                        &&& after[i].is_active == before[i].is_active
                    }
                }
        },
        StoreOp::DeletePaymentMethod { payment_method_id, user_id } => after == before.filter(
            |row: PaymentMethod| !names(row, payment_method_id@, user_id@),
        ),
        _ => after == before,
    }
}

/// Clearing a user's defaults leaves that user without an active default,
/// and leaves every other user's rows as they were.
pub proof fn unset_clears_defaults(
    before: Seq<PaymentMethod>,
    user_id: String,
    after: Seq<PaymentMethod>,
    other: Seq<char>,
)
    requires
        applied(before, StoreOp::UnsetDefaultPaymentMethods { user_id }, after),
    ensures
        forall|i: int| 0 <= i < after.len() ==> !active_default(#[trigger] after[i], user_id@),
        single_default(after, user_id@),
        other != user_id@ && single_default(before, other) ==> single_default(after, other),
{
    assert forall|i: int| 0 <= i < after.len() implies !active_default(
        #[trigger] after[i],
        user_id@,
    ) by {
        assert(same_record(before[i], after[i]));
    }
    if other != user_id@ && single_default(before, other) {
        assert forall|i: int, j: int|
            0 <= i < after.len() && 0 <= j < after.len() && active_default(
                #[trigger] after[i],
                other,
            ) && active_default(#[trigger] after[j], other) implies i == j by {
            assert(same_record(before[i], after[i]));
            assert(same_record(before[j], after[j]));
            assert(active_default(before[i], other));
            assert(active_default(before[j], other));
        }
    }
}

/// Single default, on registration: a row that is inserted as a default
/// after the user's defaults were cleared, or that is inserted as no default
/// without clearing, leaves the user with at most one active default.
pub proof fn registration_keeps_single_default(
    before: Seq<PaymentMethod>,
    cleared: Seq<PaymentMethod>,
    after: Seq<PaymentMethod>,
    insert: StoreOp,
)
    requires
        insert is InsertPaymentMethod,
        single_default(before, insert->InsertPaymentMethod_user_id@),
        if insert->InsertPaymentMethod_is_default {
            applied(
                before,
                StoreOp::UnsetDefaultPaymentMethods {
                    user_id: insert->InsertPaymentMethod_user_id,
                },
                cleared,
            )
        } else {
            cleared == before
        },
        applied(cleared, insert, after),
    ensures
        single_default(after, insert->InsertPaymentMethod_user_id@),
{
    let user = insert->InsertPaymentMethod_user_id@;
    if insert->InsertPaymentMethod_is_default {
        unset_clears_defaults(before, insert->InsertPaymentMethod_user_id, cleared, user);
    }
    assert forall|i: int, j: int|
        0 <= i < after.len() && 0 <= j < after.len() && active_default(#[trigger] after[i], user)
            && active_default(#[trigger] after[j], user) implies i == j by {
        if i < cleared.len() {
            assert(after[i] == cleared[i]);
        }
        if j < cleared.len() {
            assert(after[j] == cleared[j]);
        }
    }
}

/// Single default, restored: a row that is inserted as the default after
/// the user's defaults were cleared is the user's only active default,
/// however many the user had before.
pub proof fn default_registration_restores_single_default(
    before: Seq<PaymentMethod>,
    cleared: Seq<PaymentMethod>,
    after: Seq<PaymentMethod>,
    insert: StoreOp,
)
    requires
        insert is InsertPaymentMethod,
        insert->InsertPaymentMethod_is_default,
        applied(
            before,
            StoreOp::UnsetDefaultPaymentMethods { user_id: insert->InsertPaymentMethod_user_id },
            cleared,
        ),
        applied(cleared, insert, after),
    ensures
        single_default(after, insert->InsertPaymentMethod_user_id@),
        active_default(after[after.len() - 1], insert->InsertPaymentMethod_user_id@),
        forall|i: int|
            0 <= i < after.len() - 1 ==> !active_default(
                #[trigger] after[i],
                insert->InsertPaymentMethod_user_id@,
            ),
{
    let user = insert->InsertPaymentMethod_user_id@;
    unset_clears_defaults(before, insert->InsertPaymentMethod_user_id, cleared, user);
    assert forall|i: int| 0 <= i < after.len() - 1 implies !active_default(
        #[trigger] after[i],
        user,
    ) by {
        assert(after[i] == cleared[i]);
    }
}

/// Registration leaves the defaults of every other user as they were.
pub proof fn registration_spares_other_users(
    before: Seq<PaymentMethod>,
    cleared: Seq<PaymentMethod>,
    after: Seq<PaymentMethod>,
    insert: StoreOp,
    other: Seq<char>,
)
    requires
        insert is InsertPaymentMethod,
        other != insert->InsertPaymentMethod_user_id@,
        single_default(before, other),
        if insert->InsertPaymentMethod_is_default {
            applied(
                before,
                StoreOp::UnsetDefaultPaymentMethods {
                    user_id: insert->InsertPaymentMethod_user_id,
                },
                cleared,
            )
        } else {
            cleared == before
        },
        applied(cleared, insert, after),
    ensures
        single_default(after, other),
{
    if insert->InsertPaymentMethod_is_default {
        unset_clears_defaults(before, insert->InsertPaymentMethod_user_id, cleared, other);
    }
    assert forall|i: int, j: int|
        0 <= i < after.len() && 0 <= j < after.len() && active_default(#[trigger] after[i], other)
            && active_default(#[trigger] after[j], other) implies i == j by {
        if i < cleared.len() {
            assert(after[i] == cleared[i]);
        }
        if j < cleared.len() {
            assert(after[j] == cleared[j]);
        }
    }
}

/// At most one active row of the user stands for the payment method.
pub open spec fn stored_once(
    rows: Seq<PaymentMethod>,
    payment_method_id: Seq<char>,
    user: Seq<char>,
) -> bool {
    forall|i: int, j: int|
        0 <= i < rows.len() && 0 <= j < rows.len() && names(
            #[trigger] rows[i],
            payment_method_id,
            user,
        ) && rows[i].is_active && names(#[trigger] rows[j], payment_method_id, user)
            && rows[j].is_active ==> i == j
}

/// Single default, on choosing a default: once the user's defaults were
/// cleared and the chosen method's flag is set, the user has at most one
/// active default, provided that the method is stored in at most one active
/// row of the user. With two active rows for one method both would be marked.
pub proof fn set_default_keeps_single_default(
    before: Seq<PaymentMethod>,
    cleared: Seq<PaymentMethod>,
    after: Seq<PaymentMethod>,
    payment_method_id: String,
    user_id: String,
)
    requires
        stored_once(before, payment_method_id@, user_id@),
        applied(before, StoreOp::UnsetDefaultPaymentMethods { user_id }, cleared),
        applied(
            cleared,
            StoreOp::UpdatePaymentMethod {
                payment_method_id,
                user_id,
                set_default: Some(true),
                set_active: None,
            },
            after,
        ),
    ensures
        single_default(after, user_id@),
        forall|i: int|
            0 <= i < after.len() && names(#[trigger] after[i], payment_method_id@, user_id@)
                ==> after[i].is_default,
{
    unset_clears_defaults(before, user_id, cleared, user_id@);
    assert forall|i: int, j: int|
        0 <= i < after.len() && 0 <= j < after.len() && active_default(
            #[trigger] after[i],
            user_id@,
        ) && active_default(#[trigger] after[j], user_id@) implies i == j by {
        assert(same_record(cleared[i], after[i]) && same_record(before[i], cleared[i]));
        assert(same_record(cleared[j], after[j]) && same_record(before[j], cleared[j]));
        assert(!active_default(cleared[i], user_id@));
        assert(!active_default(cleared[j], user_id@));
        assert(names(before[i], payment_method_id@, user_id@) && before[i].is_active);
        assert(names(before[j], payment_method_id@, user_id@) && before[j].is_active);
    }
    assert forall|i: int|
        0 <= i < after.len() && names(
            #[trigger] after[i],
            payment_method_id@,
            user_id@,
        ) implies after[i].is_default by {
        assert(same_record(cleared[i], after[i]));
    }
}

/// Choosing a default for one user leaves the defaults of every other user
/// as they were.
pub proof fn choice_spares_other_users(
    before: Seq<PaymentMethod>,
    cleared: Seq<PaymentMethod>,
    after: Seq<PaymentMethod>,
    payment_method_id: String,
    user_id: String,
    other: Seq<char>,
)
    requires
        other != user_id@,
        single_default(before, other),
        applied(before, StoreOp::UnsetDefaultPaymentMethods { user_id }, cleared),
        applied(
            cleared,
            StoreOp::UpdatePaymentMethod {
                payment_method_id,
                user_id,
                set_default: Some(true),
                set_active: None,
            },
            after,
        ),
    ensures
        single_default(after, other),
{
    unset_clears_defaults(before, user_id, cleared, other);
    assert forall|i: int, j: int|
        0 <= i < after.len() && 0 <= j < after.len() && active_default(#[trigger] after[i], other)
            && active_default(#[trigger] after[j], other) implies i == j by {
        assert(same_record(cleared[i], after[i]));
        assert(same_record(cleared[j], after[j]));
        assert(active_default(cleared[i], other));
        assert(active_default(cleared[j], other));
    }
}

/// A call that can change which of a user's methods is the default.
pub enum DefaultChange {
    /// A registration, which ends in this insert.
    Registered { insert: StoreOp },
    /// The choice of a stored method as the default.
    Chosen { payment_method_id: String, user_id: String },
}

/// The table `cleared` is `before` with the user's defaults cleared where
/// `clearing` is set, and `before` itself where it is not.
pub open spec fn cleared_first(
    before: Seq<PaymentMethod>,
    user_id: String,
    clearing: bool,
    cleared: Seq<PaymentMethod>,
) -> bool {
    if clearing {
        applied(before, StoreOp::UnsetDefaultPaymentMethods { user_id }, cleared)
    } else {
        cleared == before
    }
}

/// The table `after` is what the backend holds once the call has gone through
/// on the table `before`: a registration clears the user's defaults where the
/// new row is to be the default, and inserts the row; a choice clears the
/// user's defaults and sets the flag of the chosen method.
pub open spec fn changed(
    before: Seq<PaymentMethod>,
    call: DefaultChange,
    after: Seq<PaymentMethod>,
) -> bool {
    match call {
        DefaultChange::Registered { insert } => {
            &&& insert is InsertPaymentMethod
            &&& exists|cleared: Seq<PaymentMethod>| #[trigger]
                cleared_first(
                    before,
                    insert->InsertPaymentMethod_user_id,
                    insert->InsertPaymentMethod_is_default,
                    cleared,
                ) && applied(cleared, insert, after)
        },
        DefaultChange::Chosen { payment_method_id, user_id } => exists|
            cleared: Seq<PaymentMethod>,
        | #[trigger]
            cleared_first(before, user_id, true, cleared) && applied(
                cleared,
                StoreOp::UpdatePaymentMethod {
                    payment_method_id,
                    user_id,
                    set_default: Some(true),
                    set_active: None,
                },
                after,
            ),
    }
}

/// The tables that the backend holds before, between and after a sequence of
/// calls: each follows from the one before it by the call at its place.
pub open spec fn history(tables: Seq<Seq<PaymentMethod>>, calls: Seq<DefaultChange>) -> bool {
    &&& tables.len() == calls.len() + 1
    &&& forall|i: int|
        0 <= i < calls.len() ==> changed(tables[i], #[trigger] calls[i], tables[i + 1])
}

/// Every method that is chosen as the default is stored, when it is chosen,
/// in at most one active row of its user.
pub open spec fn chosen_once(tables: Seq<Seq<PaymentMethod>>, calls: Seq<DefaultChange>) -> bool {
    forall|i: int|
        0 <= i < calls.len() ==> match #[trigger] calls[i] {
            DefaultChange::Chosen { payment_method_id, user_id } => stored_once(
                tables[i],
                payment_method_id@,
                user_id@,
            ),
            _ => true,
        }
}

/// Single default, over any sequence of calls: where a user starts with at
/// most one active default, the user has at most one after every
/// registration and every choice of a default, whoever they were made for,
/// as long as no method is chosen that two active rows of its user stand
/// for.
pub proof fn single_default_through_history(
    tables: Seq<Seq<PaymentMethod>>,
    calls: Seq<DefaultChange>,
    user: Seq<char>,
    upto: int,
)
    requires
        history(tables, calls),
        chosen_once(tables, calls),
        single_default(tables[0], user),
        0 <= upto < tables.len(),
    ensures
        single_default(tables[upto], user),
    decreases upto,
{
    if upto > 0 {
        single_default_through_history(tables, calls, user, upto - 1);
        let before = tables[upto - 1];
        let after = tables[upto];
        let call = calls[upto - 1];
        assert(changed(before, call, after));
        match call {
            DefaultChange::Registered { insert } => {
                let cleared = choose|cleared: Seq<PaymentMethod>| #[trigger]
                    cleared_first(
                        before,
                        insert->InsertPaymentMethod_user_id,
                        insert->InsertPaymentMethod_is_default,
                        cleared,
                    ) && applied(cleared, insert, after);
                if insert->InsertPaymentMethod_user_id@ == user {
                    registration_keeps_single_default(before, cleared, after, insert);
                } else {
                    registration_spares_other_users(before, cleared, after, insert, user);
                }
            },
            DefaultChange::Chosen { payment_method_id, user_id } => {
                let cleared = choose|cleared: Seq<PaymentMethod>| #[trigger]
                    cleared_first(before, user_id, true, cleared) && applied(
                        cleared,
                        StoreOp::UpdatePaymentMethod {
                            payment_method_id,
                            user_id,
                            set_default: Some(true),
                            set_active: None,
                        },
                        after,
                    );
                if user_id@ == user {
                    set_default_keeps_single_default(
                        before,
                        cleared,
                        after,
                        payment_method_id,
                        user_id,
                    );
                } else {
                    choice_spares_other_users(
                        before,
                        cleared,
                        after,
                        payment_method_id,
                        user_id,
                        user,
                    );
                }
            },
        }
    }
}

/// Position `k` holds the only active row of the user.
pub open spec fn only_active(rows: Seq<PaymentMethod>, user: Seq<char>, k: int) -> bool {
    &&& 0 <= k < rows.len()
    &&& owned(rows[k], user)
    &&& rows[k].is_active
    &&& forall|j: int|
        0 <= j < rows.len() && j != k && owned(#[trigger] rows[j], user) ==> !rows[j].is_active
}

/// Auto-promotion: where a removal has left the user with exactly one active
/// method, clearing the user's defaults and setting that method's flag makes
/// it the user's one active default, whatever flags the inactive rows carry.
pub proof fn promotion_makes_sole_method_default(
    remaining: Seq<PaymentMethod>,
    cleared: Seq<PaymentMethod>,
    after: Seq<PaymentMethod>,
    user_id: String,
    k: int,
)
    requires
        only_active(remaining, user_id@, k),
        applied(remaining, StoreOp::UnsetDefaultPaymentMethods { user_id }, cleared),
        applied(
            cleared,
            StoreOp::UpdatePaymentMethod {
                payment_method_id: remaining[k].stripe_payment_method_id,
                user_id,
                set_default: Some(true),
                set_active: None,
            },
            after,
        ),
    ensures
        active_default(after[k], user_id@),
        single_default(after, user_id@),
        only_active(after, user_id@, k),
{
    assert(same_record(remaining[k], cleared[k]) && same_record(cleared[k], after[k]));
    assert forall|j: int|
        0 <= j < after.len() && j != k && owned(
            #[trigger] after[j],
            user_id@,
        ) implies !after[j].is_active by {
        assert(same_record(remaining[j], cleared[j]) && same_record(cleared[j], after[j]));
        assert(owned(remaining[j], user_id@));
    }
}

/// Auto-promotion, from the list the backend returns: when the list of a
/// user's methods holds exactly one active row, that row's position in the
/// table is the only active one of the user.
pub proof fn listed_sole_method_is_only_active(
    table: Seq<PaymentMethod>,
    user: Seq<char>,
    listing: Seq<PaymentMethod>,
    positions: Seq<int>,
    k: int,
)
    requires
        positions.len() == listing.len(),
        forall|i: int|
            0 <= i < listing.len() ==> 0 <= #[trigger] positions[i] < table.len()
                && table[positions[i]] == listing[i],
        forall|t: int|
            0 <= t < table.len() && owned(#[trigger] table[t], user) ==> exists|i: int|
                0 <= i < listing.len() && #[trigger] positions[i] == t,
        sole_active(listing, k),
        owned(listing[k], user),
    ensures
        only_active(table, user, positions[k]),
{
    assert forall|t: int|
        0 <= t < table.len() && t != positions[k] && owned(
            #[trigger] table[t],
            user,
        ) implies !table[t].is_active by {
        let i = choose|i: int| 0 <= i < listing.len() && #[trigger] positions[i] == t;
        assert(i != k);
        assert(!listing[i].is_active);
    }
}

/// Soft removal keeps the flags of every other row, so that rows which were
/// inactive stay inactive.
pub proof fn soft_removal_deactivates(
    before: Seq<PaymentMethod>,
    after: Seq<PaymentMethod>,
    payment_method_id: String,
    user_id: String,
)
    requires
        applied(
            before,
            StoreOp::UpdatePaymentMethod {
                payment_method_id,
                user_id,
                set_default: None,
                set_active: Some(false),
            },
            after,
        ),
    ensures
        forall|i: int|
            0 <= i < after.len() && names(#[trigger] after[i], payment_method_id@, user_id@)
                ==> !after[i].is_active,
        forall|i: int|
            0 <= i < after.len() && !names(#[trigger] after[i], payment_method_id@, user_id@)
                ==> after[i].is_active == before[i].is_active,
        single_default(before, user_id@) ==> single_default(after, user_id@),
{
    assert forall|i: int|
        0 <= i < after.len() && names(
            #[trigger] after[i],
            payment_method_id@,
            user_id@,
        ) implies !after[i].is_active by {
        assert(same_record(before[i], after[i]));
    }
    assert forall|i: int|
        0 <= i < after.len() && !names(
            #[trigger] after[i],
            payment_method_id@,
            user_id@,
        ) implies after[i].is_active == before[i].is_active by {
        assert(same_record(before[i], after[i]));
    }
    if single_default(before, user_id@) {
        assert forall|i: int, j: int|
            0 <= i < after.len() && 0 <= j < after.len() && active_default(
                #[trigger] after[i],
                user_id@,
            ) && active_default(#[trigger] after[j], user_id@) implies i == j by {
            assert(same_record(before[i], after[i]));
            assert(same_record(before[j], after[j]));
            assert(active_default(before[i], user_id@));
            assert(active_default(before[j], user_id@));
        }
    }
}

/// Idempotent attach: a method that the processor reports as attached is not
/// attached again, and the registration goes on to the user's stored methods
/// instead of failing.
pub proof fn attached_method_is_not_reattached(
    flow: RegisterFlow,
    event: Event,
    next: RegisterFlow,
    action: Action<PaymentMethod>,
)
    requires
        flow.stage == RegisterStage::AwaitMethod,
        event matches Event::Processor(ProcessorReply::Method(method)) && method.customer is Some,
        register_step(flow, event, next, action),
    ensures
        next.stage is AwaitExisting,
        action == Action::<PaymentMethod>::Store(
            StoreOp::ListPaymentMethods { user_id: flow.request.user_id, ordered: true },
        ),
{
}

/// The processor is asked to attach a method only right after it reported the
/// method as attached to no customer.
pub proof fn attach_only_when_unattached(
    flow: RegisterFlow,
    event: Event,
    next: RegisterFlow,
    action: Action<PaymentMethod>,
)
    requires
        register_step(flow, event, next, action),
        action matches Action::Processor(ProcessorCall::AttachPaymentMethod { .. }),
    ensures
        flow.stage == RegisterStage::AwaitMethod,
        event matches Event::Processor(ProcessorReply::Method(method)) && method.customer is None,
{
}

/// A registration succeeds only with the answer to the write of the customer
/// reference onto the profile, only if the backend accepted that write, and
/// then hands back the row that was stored.
pub proof fn registered_only_when_linked(
    flow: RegisterFlow,
    event: Event,
    next: RegisterFlow,
    action: Action<PaymentMethod>,
)
    requires
        register_step(flow, event, next, action),
        action matches Action::Finish(Ok(_)),
    ensures
        flow.stage matches RegisterStage::AwaitLink { record } && action == Action::<
            PaymentMethod,
        >::Finish(Ok(record)),
        event matches Event::Store(reply) && accepted(reply),
{
}

/// The customer reference that a registration writes onto the profile is the
/// one it was started with, for the user it was started for, and it is
/// written right after the row was stored.
pub proof fn link_names_the_customer(
    flow: RegisterFlow,
    event: Event,
    next: RegisterFlow,
    action: Action<PaymentMethod>,
)
    requires
        register_step(flow, event, next, action),
        next.stage is AwaitLink,
    ensures
        flow.stage is AwaitInsert,
        action == Action::<PaymentMethod>::Store(
            StoreOp::LinkCustomer {
                user_id: flow.request.user_id,
                customer_id: flow.request.customer_id,
            },
        ),
{
}

/// A removal succeeds only in two ways: the list of the methods that are
/// left showed that none has to be promoted, or the backend accepted the
/// promotion, which the outcome then names.
pub proof fn removed_only_when_settled(
    flow: RemovalFlow,
    event: Event,
    next: RemovalFlow,
    action: Action<Removed>,
)
    requires
        removal_step(flow, event, next, action),
        action matches Action::Finish(Ok(_)),
    ensures
        match action->Finish_0->Ok_0.promoted {
            None => flow.stage is AwaitRemaining && (event matches Event::Store(reply) && (
            method_rows(reply) matches Some(rows) && promotion_target(rows@) is None)),
            Some(method) => flow.stage is AwaitPromotion && flow.stage->AwaitPromotion_candidate
                == method && (event matches Event::Store(reply) && accepted(reply)),
        },
{
}

/// During a registration a row is inserted as the default only after the
/// clearing of the user's other defaults was asked for and the processor took
/// the new default.
pub proof fn default_insert_follows_clearing(
    flow: RegisterFlow,
    event: Event,
    next: RegisterFlow,
    action: Action<PaymentMethod>,
)
    requires
        register_step(flow, event, next, action),
    ensures
        (action matches Action::Store(StoreOp::InsertPaymentMethod { is_default, .. })
            && is_default) ==> flow.stage is AwaitProcessorDefault,
        next.stage is AwaitProcessorDefault ==> flow.stage is AwaitUnset,
        next.stage is AwaitUnset ==> action == Action::<PaymentMethod>::Store(
            StoreOp::UnsetDefaultPaymentMethods { user_id: flow.request.user_id },
        ),
{
}

/// During a change of flags that makes a method the default, the flags are
/// written only after the clearing of the user's other defaults was asked
/// for.
pub proof fn default_update_follows_clearing(
    flow: UpdateFlow,
    event: Event,
    next: UpdateFlow,
    action: Action<PaymentMethod>,
)
    requires
        update_step(flow, event, next, action),
        action matches Action::Store(StoreOp::UpdatePaymentMethod { .. }),
    ensures
        flow.stage == UpdateStage::AwaitUnset,
        next.stage == UpdateStage::AwaitUpdate,
{
}

} // verus!
