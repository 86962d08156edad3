//! What the admin, the merchants and the parties of a subscription set, told by what stands in the
//! vault before and after.
use crate::address::Address;
use crate::agreements::ids_under;
use crate::charging::{next_number, statements_of, turned_down};
use crate::error::{Error, Failure, Signers};
use crate::events::Event;
use crate::requests::Request;
use crate::types::{
    Config, OracleConfig, ProtocolFee, UsageLimits, MAX_SUBSCRIPTION_LIST_PAGE, STORAGE_VERSION,
};
use crate::vault::{reason_text, VaultState};
use vstd::prelude::*;

verus! {

/// Everyone's signature covers every account, nobody's covers none, and the signature of one account
/// covers that account only.
pub proof fn law_signatures_cover_their_accounts(signer: Address, account: Address)
    ensures
        Signers::Everyone.covers(account),
        !Signers::Nobody.covers(account),
        Signers::Only(signer).covers(account) <==> signer == account,
{
}

/// A setting that only the admin changes: without the signature the call aborts, one who is not the
/// admin is answered with `denial`, and for the admin the vault goes on to `next`.
pub open spec fn admin_sets(
    state: VaultState,
    request: Request,
    admin: Address,
    denial: Error,
    next: VaultState,
) -> bool {
    let signed = state.signers.covers(admin);
    let office = signed && admin == state.config.admin;
    &&& state.refusal(request) == Some(Failure::Abort) <==> !signed
    &&& state.refusal(request) == turned_down(denial) <==> signed && !office
    &&& state.refusal(request) is None <==> office
    &&& office ==> state.after(request) == next
}

/// The settings are set to what the admin asks for, and to nothing else.
pub proof fn law_settings_are_set_as_asked(
    state: VaultState,
    admin: Address,
    account: Address,
    token: Address,
    amount: i128,
    number: u32,
    oracle: OracleConfig,
)
    ensures
        admin_sets(
            state,
            Request::SetMinTopup { admin, min_topup: amount },
            admin,
            Error::Unauthorized,
            VaultState { config: Config { min_topup: amount, ..state.config }, ..state },
        ),
        admin_sets(
            state,
            Request::RotateAdmin { admin, new_admin: account },
            admin,
            Error::Unauthorized,
            VaultState {
                config: Config { admin: account, ..state.config },
                events: state.events.push(
                    Event::AdminRotated {
                        old_admin: admin,
                        new_admin: account,
                        timestamp: state.timestamp,
                    },
                ),
                ..state
            },
        ),
        admin_sets(
            state,
            Request::AddAcceptedToken { admin, token, decimals: number },
            admin,
            Error::Unauthorized,
            VaultState { accepted_tokens: state.accepted_tokens.insert(token, number), ..state },
        ),
        admin_sets(
            state,
            Request::SetSubscriberCreditLimit {
                admin,
                subscriber: account,
                token,
                credit_limit: amount,
            },
            admin,
            Error::Unauthorized,
            VaultState {
                credit_limits: state.credit_limits.insert((account, token), amount),
                ..state
            },
        ),
        admin_sets(
            state,
            Request::SetBillingRetention { admin, retention: number },
            admin,
            Error::Unauthorized,
            VaultState { config: Config { billing_retention: number, ..state.config }, ..state },
        ),
        admin_sets(
            state,
            Request::SetOracleConfig { admin, oracle },
            admin,
            Error::Unauthorized,
            VaultState { config: Config { oracle, ..state.config }, ..state },
        ),
        admin_sets(
            state,
            Request::ExportContractSnapshot { admin },
            admin,
            Error::Unauthorized,
            state,
        ),
{
}

/// The fee is set to the treasury and the basis points that the admin asks for; more than the whole
/// is turned down.
pub proof fn law_fees_are_set_as_asked(
    state: VaultState,
    admin: Address,
    treasury: Address,
    fee_bps: u32,
)
    ensures
        ({
            let request = Request::SetProtocolFee { admin, treasury, fee_bps };
            let signed = state.signers.covers(admin);
            let office = signed && admin == state.config.admin;
            &&& state.refusal(request) == Some(Failure::Abort) <==> !signed
            &&& state.refusal(request) == turned_down(Error::Forbidden) <==> signed && !office
            &&& state.refusal(request) == turned_down(Error::InvalidInput) <==> office && fee_bps
                > 10_000
            &&& state.refusal(request) is None <==> office && fee_bps <= 10_000
            &&& state.refusal(request) is None ==> state.after(request) == (VaultState {
                config: Config {
                    protocol_fee: Some(ProtocolFee { treasury, fee_bps }),
                    ..state.config
                },
                events: state.events.push(
                    Event::ProtocolFeeConfigured {
                        admin,
                        treasury,
                        fee_bps,
                        timestamp: state.timestamp,
                    },
                ),
                ..state
            })
        }),
{
}

/// The emergency stop is switched on and off by the admin; what changes is published, and to ask for
/// what is so already changes nothing.
pub proof fn law_the_stop_is_switched_as_asked(state: VaultState, admin: Address)
    ensures
        ({
            let on = VaultState {
                config: Config { emergency_stop: true, ..state.config },
                events: state.events.push(
                    Event::EmergencyStopEnabled { admin, timestamp: state.timestamp },
                ),
                ..state
            };
            let off = VaultState {
                config: Config { emergency_stop: false, ..state.config },
                events: state.events.push(
                    Event::EmergencyStopDisabled { admin, timestamp: state.timestamp },
                ),
                ..state
            };
            &&& admin_sets(
                state,
                Request::EnableEmergencyStop { admin },
                admin,
                Error::Unauthorized,
                if state.config.emergency_stop {
                    state
                } else {
                    on
                },
            )
            &&& admin_sets(
                state,
                Request::DisableEmergencyStop { admin },
                admin,
                Error::Unauthorized,
                if state.config.emergency_stop {
                    off
                } else {
                    state
                },
            )
        }),
{
}

/// The blanket pause of a merchant is switched on and off by that merchant; what changes is published,
/// and to ask for what is so already changes nothing. No other merchant is touched.
pub proof fn law_blanket_pauses_are_switched_as_asked(state: VaultState, merchant: Address)
    ensures
        ({
            let pause = Request::PauseMerchant { merchant };
            let unpause = Request::UnpauseMerchant { merchant };
            let signed = state.signers.covers(merchant);
            let paused = state.paused_merchants.contains(merchant);
            &&& !signed ==> state.refusal(pause) == Some(Failure::Abort) && state.refusal(unpause)
                == Some(Failure::Abort)
            &&& signed ==> state.refusal(pause) is None && state.refusal(unpause) is None
            &&& signed && paused ==> state.after(pause) == state && state.after(unpause) == (
            VaultState {
                paused_merchants: state.paused_merchants.remove(merchant),
                events: state.events.push(
                    Event::MerchantUnpaused { merchant, timestamp: state.timestamp },
                ),
                ..state
            })
            &&& signed && !paused ==> state.after(unpause) == state && state.after(pause) == (
            VaultState {
                paused_merchants: state.paused_merchants.insert(merchant),
                events: state.events.push(
                    Event::MerchantPaused { merchant, timestamp: state.timestamp },
                ),
                ..state
            })
        }),
{
}

/// Usage limits are set by the merchant of the subscription, to what was asked for.
pub proof fn law_usage_limits_are_set_as_asked(
    state: VaultState,
    merchant: Address,
    id: u32,
    limits: UsageLimits,
)
    ensures
        ({
            let request = Request::ConfigureUsageLimits { merchant, id, limits };
            let signed = state.signers.covers(merchant);
            let stored = signed && state.subscriptions.contains_key(id);
            let own = stored && state.subscriptions[id].merchant == merchant;
            &&& state.refusal(request) == Some(Failure::Abort) <==> !signed
            &&& state.refusal(request) == turned_down(Error::NotFound) <==> signed && !stored
            &&& state.refusal(request) == turned_down(Error::Forbidden) <==> stored && !own
            &&& state.refusal(request) is None <==> own
            &&& own ==> state.after(request) == (VaultState {
                usage_limits: state.usage_limits.insert(id, limits),
                ..state
            })
        }),
{
}

/// The admin takes a token from the accepted ones; one that is not among them is not found.
pub proof fn law_tokens_are_removed_as_asked(state: VaultState, admin: Address, token: Address)
    ensures
        ({
            let request = Request::RemoveAcceptedToken { admin, token };
            let signed = state.signers.covers(admin);
            let office = signed && admin == state.config.admin;
            let known = office && state.accepted_tokens.contains_key(token);
            &&& state.refusal(request) == Some(Failure::Abort) <==> !signed
            &&& state.refusal(request) == turned_down(Error::Unauthorized) <==> signed && !office
            &&& state.refusal(request) == turned_down(Error::NotFound) <==> office && !known
            &&& state.refusal(request) is None <==> known
            &&& known ==> state.after(request) == (VaultState {
                accepted_tokens: state.accepted_tokens.remove(token),
                ..state
            })
        }),
{
}

/// A compaction drops the oldest statements of one subscription and keeps the newest, as many as asked
/// for or as the settings say. The numbering goes on, and no other subscription is touched.
pub proof fn law_compactions_keep_the_newest(
    state: VaultState,
    admin: Address,
    id: u32,
    keep: Option<u32>,
)
    requires
        state.wf(),
    ensures
        ({
            let request = Request::CompactBillingStatements { admin, id, keep };
            let after = state.after(request);
            let signed = state.signers.covers(admin);
            let office = signed && admin == state.config.admin;
            let stored = office && state.subscriptions.contains_key(id);
            let most: int = match keep {
                Some(count) => count as int,
                None => state.config.billing_retention as int,
            };
            let before = statements_of(state, id);
            let kept = statements_of(after, id);
            &&& state.refusal(request) == Some(Failure::Abort) <==> !signed
            &&& state.refusal(request) == turned_down(Error::Unauthorized) <==> signed && !office
            &&& state.refusal(request) == turned_down(Error::NotFound) <==> office && !stored
            &&& state.refusal(request) is None <==> stored
            &&& stored ==> {
                &&& kept.len() <= most
                &&& kept.len() == before.len() || kept.len() == most
                &&& kept == before.skip(before.len() - kept.len())
                &&& next_number(after, id) == next_number(state, id)
                &&& after == (VaultState {
                    statements: state.statements.insert(id, after.statements[id]),
                    ..state
                })
            }
        }),
{
    if state.statements.contains_key(id) {
        assert(state.statements[id].numbered());
    }
    let before = statements_of(state, id);
    let kept = statements_of(
        state.after(Request::CompactBillingStatements { admin, id, keep }),
        id,
    );
    if kept.len() <= before.len() {
        assert(kept =~= before.skip(before.len() - kept.len()));
    }
}

/// A subscriber is put on the blocklist by the admin, or by a merchant with whom the subscriber has a
/// subscription, with the reason that is given. One who is on it stays on it as before, and nothing is
/// published again.
pub proof fn law_blocking_does_what_it_says(
    state: VaultState,
    authorizer: Address,
    subscriber: Address,
    reason: Option<String>,
)
    ensures
        ({
            let request = Request::AddToBlocklist { authorizer, subscriber, reason };
            let signed = state.signers.covers(authorizer);
            let customers = ids_under(state.merchant_index, authorizer);
            let serves = exists|i: int|
                0 <= i < customers.len() && state.subscriptions[
                #[trigger] customers[i]].subscriber == subscriber;
            let entitled = signed && (authorizer == state.config.admin || serves);
            &&& state.refusal(request) == Some(Failure::Abort) <==> !signed
            &&& state.refusal(request) == turned_down(Error::Forbidden) <==> signed && !entitled
            &&& state.refusal(request) is None <==> entitled
            &&& entitled && state.blocklist.contains_key(subscriber) ==> state.after(request)
                == state
            &&& entitled && !state.blocklist.contains_key(subscriber) ==> state.after(request) == (
            VaultState {
                blocklist: state.blocklist.insert(
                    subscriber,
                    match reason {
                        Some(text) => Some(text@),
                        None => None,
                    },
                ),
                events: state.events.push(
                    Event::BlocklistAdded { subscriber, added_by: authorizer },
                ),
                ..state
            })
        }),
{
    assert(reason_text(reason) == match reason {
        Some(text) => Some(text@),
        None => None,
    });
}

/// A subscriber is taken off the blocklist by the admin; one who is not on it is not found.
pub proof fn law_unblocking_does_what_it_says(
    state: VaultState,
    admin: Address,
    subscriber: Address,
)
    ensures
        ({
            let request = Request::RemoveFromBlocklist { admin, subscriber };
            let signed = state.signers.covers(admin);
            let office = signed && admin == state.config.admin;
            let blocked = office && state.blocklist.contains_key(subscriber);
            &&& state.refusal(request) == Some(Failure::Abort) <==> !signed
            &&& state.refusal(request) == turned_down(Error::Unauthorized) <==> signed && !office
            &&& state.refusal(request) == turned_down(Error::NotFound) <==> office && !blocked
            &&& state.refusal(request) is None <==> blocked
            &&& blocked ==> state.after(request) == (VaultState {
                blocklist: state.blocklist.remove(subscriber),
                events: state.events.push(
                    Event::BlocklistRemoved { subscriber, removed_by: admin },
                ),
                ..state
            })
        }),
{
}

/// A party of a subscription notes a value down under a key, and deletes it again. Other keys and other
/// subscriptions are not touched; what is published names the key, and not the value.
pub proof fn law_notes_are_kept_as_asked(
    state: VaultState,
    id: u32,
    authorizer: Address,
    key: String,
    value: String,
)
    ensures
        ({
            let set = Request::SetMetadata { id, authorizer, key, value };
            let delete = Request::DeleteMetadata { id, authorizer, key };
            let signed = state.signers.covers(authorizer);
            let stored = signed && state.subscriptions.contains_key(id);
            let party = stored && (authorizer == state.subscriptions[id].subscriber || authorizer
                == state.subscriptions[id].merchant);
            let noted = party && state.metadata.contains_key((id, key@));
            &&& !signed ==> state.refusal(set) == Some(Failure::Abort) && state.refusal(delete)
                == Some(Failure::Abort)
            &&& signed && !stored ==> state.refusal(set) == turned_down(Error::NotFound)
                && state.refusal(delete) == turned_down(Error::NotFound)
            &&& stored && !party ==> state.refusal(set) == turned_down(Error::Forbidden)
                && state.refusal(delete) == turned_down(Error::Forbidden)
            &&& party ==> state.refusal(set) is None && state.after(set) == (VaultState {
                metadata: state.metadata.insert((id, key@), value@),
                events: state.events.push(
                    Event::MetadataSet { subscription_id: id, key, authorizer },
                ),
                ..state
            })
            &&& party && !noted ==> state.refusal(delete) == turned_down(Error::NotFound)
            &&& noted ==> state.refusal(delete) is None && state.after(delete) == (VaultState {
                metadata: state.metadata.remove((id, key@)),
                events: state.events.push(
                    Event::MetadataDeleted { subscription_id: id, key, authorizer },
                ),
                ..state
            })
        }),
{
}

/// Exports are for the admin and change nothing; a subscription that is not stored is not found, and a
/// page has a size that is not out of bounds.
pub proof fn law_exports_are_for_the_admin(
    state: VaultState,
    admin: Address,
    id: u32,
    start: u32,
    limit: u32,
)
    ensures
        ({
            let one = Request::ExportSubscriptionSummary { admin, id };
            let page = Request::ExportSubscriptionSummaries { admin, start, limit };
            let signed = state.signers.covers(admin);
            let office = signed && admin == state.config.admin;
            let sized = 1 <= limit <= MAX_SUBSCRIPTION_LIST_PAGE;
            let snapshot = state.snapshot();
            &&& !signed ==> state.refusal(one) == Some(Failure::Abort) && state.refusal(page)
                == Some(Failure::Abort)
            &&& signed && !office ==> state.refusal(one) == turned_down(Error::Unauthorized)
                && state.refusal(page) == turned_down(Error::Unauthorized)
            &&& office ==> state.refusal(one) == if state.subscriptions.contains_key(id) {
                None
            } else {
                turned_down(Error::NotFound)
            }
            &&& office ==> state.refusal(page) == if sized {
                None
            } else {
                turned_down(Error::InvalidInput)
            }
            &&& state.after(one) == state
            &&& state.after(page) == state
            &&& snapshot.admin == state.config.admin
            &&& snapshot.token == state.config.token
            &&& snapshot.min_topup == state.config.min_topup
            &&& snapshot.next_id == state.next_id
            &&& snapshot.timestamp == state.timestamp
            &&& snapshot.storage_version == STORAGE_VERSION
        }),
{
}

} // verus!
