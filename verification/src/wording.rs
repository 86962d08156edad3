//! Records as texts, field by field.
use crate::address::Address;
use crate::host::{account_key, host_account_text};
use crate::status::SubscriptionStatus;
use crate::types::{
    BatchChargeResult, CompactionSummary, ContractSnapshot, Subscription, SubscriptionSummary,
};
use vstd::prelude::*;

verus! {

/// The character of a digit.
pub open spec fn digit(n: nat) -> char {
    ('0' as int + n) as char
}

/// The decimal digits of a number.
pub open spec fn digits(n: nat) -> Seq<char>
    decreases n,
{
    if n < 10 {
        seq![digit(n)]
    } else {
        digits(n / 10).push(digit(n % 10))
    }
}

/// A number in decimal.
pub open spec fn number_text(n: int) -> Seq<char> {
    if n < 0 {
        "-"@ + digits((-n) as nat)
    } else {
        digits(n as nat)
    }
}

pub open spec fn truth_text(b: bool) -> Seq<char> {
    if b {
        "true"@
    } else {
        "false"@
    }
}

/// An amount that may be missing.
pub open spec fn amount_option_text(amount: Option<i128>) -> Seq<char> {
    match amount {
        Some(amount) => "Some("@ + number_text(amount as int) + ")"@,
        None => "None"@,
    }
}

/// A time that may be missing.
pub open spec fn time_option_text(time: Option<u64>) -> Seq<char> {
    match time {
        Some(time) => "Some("@ + number_text(time as int) + ")"@,
        None => "None"@,
    }
}

pub open spec fn status_text(status: SubscriptionStatus) -> Seq<char> {
    match status {
        SubscriptionStatus::Active => "Active"@,
        SubscriptionStatus::Paused => "Paused"@,
        SubscriptionStatus::Cancelled => "Cancelled"@,
        SubscriptionStatus::InsufficientBalance => "InsufficientBalance"@,
        SubscriptionStatus::GracePeriod => "GracePeriod"@,
        SubscriptionStatus::Expired => "Expired"@,
        SubscriptionStatus::Archived => "Archived"@,
    }
}

/// The parts, with commas between them.
pub open spec fn joined(parts: Seq<Seq<char>>) -> Seq<char>
    decreases parts.len(),
{
    if parts.len() == 0 {
        Seq::empty()
    } else if parts.len() == 1 {
        parts[0]
    } else {
        joined(parts.drop_last()) + ", "@ + parts.last()
    }
}

/// A field with its value.
pub open spec fn field(name: Seq<char>, value: Seq<char>) -> Seq<char> {
    name + ": "@ + value
}

/// A record with its fields.
pub open spec fn record(name: Seq<char>, fields: Seq<Seq<char>>) -> Seq<char> {
    name + " { "@ + joined(fields) + " }"@
}

/// A list of items, as the host writes its lists.
pub open spec fn list(items: Seq<Seq<char>>) -> Seq<char> {
    "Vec("@ + joined(items) + ")"@
}

/// An item of a host list: the host reads every item, and writes that reading it went well.
pub open spec fn item(text: Seq<char>) -> Seq<char> {
    "Ok("@ + text + ")"@
}

/// The text of an account, as the host writes its accounts.
pub open spec fn address_text(address: Address) -> Seq<char> {
    "Contract("@ + account_key(address.id) + ")"@
}

/// The fields of the result of one charge.
pub open spec fn charge_result_fields(charge_result: BatchChargeResult) -> Seq<Seq<char>> {
    seq![
        field("success"@, truth_text(charge_result.success)),
        field("error_code"@, number_text(charge_result.error_code as int)),
    ]
}

/// The text of the result of one charge.
pub open spec fn charge_result_text(charge_result: BatchChargeResult) -> Seq<char> {
    record("BatchChargeResult"@, charge_result_fields(charge_result))
}

/// The fields of what a compaction did.
pub open spec fn compaction_fields(compaction: CompactionSummary) -> Seq<Seq<char>> {
    seq![
        field("pruned"@, number_text(compaction.pruned as int)),
        field("kept"@, number_text(compaction.kept as int)),
    ]
}

/// The text of what a compaction did.
pub open spec fn compaction_text(compaction: CompactionSummary) -> Seq<char> {
    record("CompactionSummary"@, compaction_fields(compaction))
}

/// The fields of exported settings.
pub open spec fn snapshot_fields(snapshot: ContractSnapshot) -> Seq<Seq<char>> {
    seq![
        field("admin"@, address_text(snapshot.admin)),
        field("token"@, address_text(snapshot.token)),
        field("min_topup"@, number_text(snapshot.min_topup as int)),
        field("next_id"@, number_text(snapshot.next_id as int)),
        field("storage_version"@, number_text(snapshot.storage_version as int)),
        field("timestamp"@, number_text(snapshot.timestamp as int)),
    ]
}

/// The text of exported settings.
pub open spec fn snapshot_text(snapshot: ContractSnapshot) -> Seq<char> {
    record("ContractSnapshot"@, snapshot_fields(snapshot))
}

/// The fields of a subscription.
pub open spec fn subscription_fields(subscription: Subscription) -> Seq<Seq<char>> {
    seq![
        field("subscriber"@, address_text(subscription.subscriber)),
        field("merchant"@, address_text(subscription.merchant)),
        field("token"@, address_text(subscription.token)),
        field("amount"@, number_text(subscription.amount as int)),
        field("interval_seconds"@, number_text(subscription.interval_seconds as int)),
        field("last_payment_timestamp"@, number_text(subscription.last_payment_timestamp as int)),
        field("status"@, status_text(subscription.status)),
        field("prepaid_balance"@, number_text(subscription.prepaid_balance as int)),
        field("usage_enabled"@, truth_text(subscription.usage_enabled)),
        field("lifetime_cap"@, amount_option_text(subscription.lifetime_cap)),
        field("lifetime_charged"@, number_text(subscription.lifetime_charged as int)),
        field("start_time"@, number_text(subscription.start_time as int)),
        field("expires_at"@, time_option_text(subscription.expires_at)),
        field("grace_start_timestamp"@, time_option_text(subscription.grace_start_timestamp)),
    ]
}

/// The text of a subscription.
pub open spec fn subscription_text(subscription: Subscription) -> Seq<char> {
    record("Subscription"@, subscription_fields(subscription))
}

/// The fields of an exported subscription.
pub open spec fn summary_fields(summary: SubscriptionSummary) -> Seq<Seq<char>> {
    seq![
        field("subscription_id"@, number_text(summary.subscription_id as int)),
        field("subscription"@, subscription_text(summary.subscription)),
    ]
}

/// The text of an exported subscription.
pub open spec fn summary_text(summary: SubscriptionSummary) -> Seq<char> {
    record("SubscriptionSummary"@, summary_fields(summary))
}

/// The texts that strings hold.
pub open spec fn texts(strings: Seq<String>) -> Seq<Seq<char>> {
    strings.map_values(|string: String| string@)
}

/// Writes the digits of a number out.
fn write_digits(n: u128) -> (text: String)
    ensures
        text@ == digits(n as nat),
    decreases n,
{
    let mut text = if n < 10 {
        String::new()
    } else {
        write_digits(n / 10)
    };
    let ghost before = text@;
    let last: &str = match n % 10 {
        0 => "0",
        1 => "1",
        2 => "2",
        3 => "3",
        4 => "4",
        5 => "5",
        6 => "6",
        7 => "7",
        8 => "8",
        _ => "9",
    };
    text.append(last);
    proof {
        reveal_strlit("0");
        reveal_strlit("1");
        reveal_strlit("2");
        reveal_strlit("3");
        reveal_strlit("4");
        reveal_strlit("5");
        reveal_strlit("6");
        reveal_strlit("7");
        reveal_strlit("8");
        reveal_strlit("9");
        assert(text@ =~= before.push(digit((n % 10) as nat)));
        assert(text@ =~= digits(n as nat));
    }
    text
}

/// Writes a number out.
pub fn write_number(n: i128) -> (text: String)
    ensures
        text@ == number_text(n as int),
{
    if n < 0 {
        let mut text = "-".to_owned();
        let magnitude: u128 = (-(n + 1)) as u128 + 1;
        text.append(write_digits(magnitude).as_str());
        text
    } else {
        write_digits(n as u128)
    }
}

fn write_truth(b: bool) -> (text: String)
    ensures
        text@ == truth_text(b),
{
    if b {
        "true".to_owned()
    } else {
        "false".to_owned()
    }
}

/// Writes a number out that is there.
fn write_some(n: i128) -> (text: String)
    ensures
        text@ == "Some("@ + number_text(n as int) + ")"@,
{
    let mut text = "Some(".to_owned();
    text.append(write_number(n).as_str());
    text.append(")");
    text
}

/// Writes an amount out that may be missing.
fn write_amount_option(amount: Option<i128>) -> (text: String)
    ensures
        text@ == amount_option_text(amount),
{
    match amount {
        Some(amount) => write_some(amount),
        None => "None".to_owned(),
    }
}

/// Writes a time out that may be missing.
fn write_time_option(time: Option<u64>) -> (text: String)
    ensures
        text@ == time_option_text(time),
{
    match time {
        Some(time) => write_some(time as i128),
        None => "None".to_owned(),
    }
}

fn write_status(status: SubscriptionStatus) -> (text: String)
    ensures
        text@ == status_text(status),
{
    match status {
        SubscriptionStatus::Active => "Active".to_owned(),
        SubscriptionStatus::Paused => "Paused".to_owned(),
        SubscriptionStatus::Cancelled => "Cancelled".to_owned(),
        SubscriptionStatus::InsufficientBalance => "InsufficientBalance".to_owned(),
        SubscriptionStatus::GracePeriod => "GracePeriod".to_owned(),
        SubscriptionStatus::Expired => "Expired".to_owned(),
        SubscriptionStatus::Archived => "Archived".to_owned(),
    }
}

/// Writes the parts out, with commas between them.
fn write_joined(parts: &Vec<String>) -> (text: String)
    ensures
        text@ == joined(texts(parts@)),
{
    let mut text = String::new();
    let mut i: usize = 0;
    while i < parts.len()
        invariant
            i <= parts@.len(),
            text@ == joined(texts(parts@).take(i as int)),
        decreases parts@.len() - i,
    {
        let ghost before = texts(parts@).take(i as int);
        if i > 0 {
            text.append(", ");
        }
        text.append(parts[i].as_str());
        i += 1;
        proof {
            let now = texts(parts@).take(i as int);
            assert(now.drop_last() =~= before);
            assert(now.last() == parts@[i - 1]@);
            if i == 1 {
                assert(text@ =~= now[0]);
            }
        }
    }
    assert(texts(parts@).take(i as int) =~= texts(parts@));
    text
}

/// Writes a field with its value out.
fn write_field(name: &str, value: String) -> (text: String)
    ensures
        text@ == field(name@, value@),
{
    let mut text = name.to_owned();
    text.append(": ");
    text.append(value.as_str());
    text
}

/// Writes a record with its fields out.
fn write_record(name: &str, fields: &Vec<String>) -> (text: String)
    ensures
        text@ == record(name@, texts(fields@)),
{
    let mut text = name.to_owned();
    text.append(" { ");
    text.append(write_joined(fields).as_str());
    text.append(" }");
    text
}

/// Writes an item of a list out.
fn write_item(value: String) -> (text: String)
    ensures
        text@ == item(value@),
{
    let mut text = "Ok(".to_owned();
    text.append(value.as_str());
    text.append(")");
    text
}

/// Writes a list of items out.
fn write_list(items: &Vec<String>) -> (text: String)
    ensures
        text@ == list(texts(items@)),
{
    let mut text = "Vec(".to_owned();
    text.append(write_joined(items).as_str());
    text.append(")");
    text
}

/// Writes the result of one charge out.
fn write_charge_result(charge_result: &BatchChargeResult) -> (text: String)
    ensures
        text@ == charge_result_text(*charge_result),
{
    let mut fields: Vec<String> = Vec::new();
    fields.push(write_field("success", write_truth(charge_result.success)));
    fields.push(write_field("error_code", write_number(charge_result.error_code as i128)));
    assert(texts(fields@) =~= charge_result_fields(*charge_result));
    write_record("BatchChargeResult", &fields)
}

/// Writes what a compaction did out.
pub fn write_compaction(compaction: &CompactionSummary) -> (text: String)
    ensures
        text@ == compaction_text(*compaction),
{
    let mut fields: Vec<String> = Vec::new();
    fields.push(write_field("pruned", write_number(compaction.pruned as i128)));
    fields.push(write_field("kept", write_number(compaction.kept as i128)));
    assert(texts(fields@) =~= compaction_fields(*compaction));
    write_record("CompactionSummary", &fields)
}

/// Writes exported settings out.
pub fn write_snapshot(env: &soroban_sdk::Env, snapshot: &ContractSnapshot) -> (text: String)
    ensures
        text@ == snapshot_text(*snapshot),
{
    let mut fields: Vec<String> = Vec::new();
    fields.push(write_field("admin", host_account_text(env, snapshot.admin.id)));
    fields.push(write_field("token", host_account_text(env, snapshot.token.id)));
    fields.push(write_field("min_topup", write_number(snapshot.min_topup)));
    fields.push(write_field("next_id", write_number(snapshot.next_id as i128)));
    fields.push(write_field("storage_version", write_number(snapshot.storage_version as i128)));
    fields.push(write_field("timestamp", write_number(snapshot.timestamp as i128)));
    assert(texts(fields@) =~= snapshot_fields(*snapshot));
    write_record("ContractSnapshot", &fields)
}

/// Writes a subscription out.
fn write_subscription(env: &soroban_sdk::Env, subscription: &Subscription) -> (text: String)
    ensures
        text@ == subscription_text(*subscription),
{
    let mut fields: Vec<String> = Vec::new();
    fields.push(write_field("subscriber", host_account_text(env, subscription.subscriber.id)));
    fields.push(write_field("merchant", host_account_text(env, subscription.merchant.id)));
    fields.push(write_field("token", host_account_text(env, subscription.token.id)));
    fields.push(write_field("amount", write_number(subscription.amount)));
    fields.push(
        write_field("interval_seconds", write_number(subscription.interval_seconds as i128)),
    );
    fields.push(
        write_field("last_payment_timestamp", write_number(subscription.last_payment_timestamp as i128)),
    );
    fields.push(write_field("status", write_status(subscription.status)));
    fields.push(write_field("prepaid_balance", write_number(subscription.prepaid_balance)));
    fields.push(write_field("usage_enabled", write_truth(subscription.usage_enabled)));
    fields.push(write_field("lifetime_cap", write_amount_option(subscription.lifetime_cap)));
    fields.push(write_field("lifetime_charged", write_number(subscription.lifetime_charged)));
    fields.push(write_field("start_time", write_number(subscription.start_time as i128)));
    fields.push(write_field("expires_at", write_time_option(subscription.expires_at)));
    fields.push(
        write_field("grace_start_timestamp", write_time_option(subscription.grace_start_timestamp)),
    );
    assert(texts(fields@) =~= subscription_fields(*subscription));
    write_record("Subscription", &fields)
}

/// Writes an exported subscription out.
pub fn write_summary(env: &soroban_sdk::Env, summary: &SubscriptionSummary) -> (text: String)
    ensures
        text@ == summary_text(*summary),
{
    let mut fields: Vec<String> = Vec::new();
    fields.push(write_field("subscription_id", write_number(summary.subscription_id as i128)));
    fields.push(write_field("subscription", write_subscription(env, &summary.subscription)));
    assert(texts(fields@) =~= summary_fields(*summary));
    write_record("SubscriptionSummary", &fields)
}

/// The items of the results of a batch.
pub open spec fn charge_result_items(charge_results: Seq<BatchChargeResult>) -> Seq<Seq<char>> {
    charge_results.map_values(|charge_result: BatchChargeResult| item(charge_result_text(charge_result)))
}

/// The text of the results of a batch.
pub open spec fn charge_results_text(charge_results: Seq<BatchChargeResult>) -> Seq<char> {
    list(charge_result_items(charge_results))
}

/// Writes the results of a batch out.
pub fn write_charge_results(charge_results: &Vec<BatchChargeResult>) -> (text:
    String)
    ensures
        text@ == charge_results_text(charge_results@),
{
    let mut items: Vec<String> = Vec::new();
    let mut i: usize = 0;
    while i < charge_results.len()
        invariant
            i <= charge_results@.len(),
            texts(items@) == charge_result_items(charge_results@).take(i as int),
        decreases charge_results@.len() - i,
    {
        let ghost before = texts(items@);
        let written = write_item(write_charge_result(&charge_results[i]));
        items.push(written);
        i += 1;
        assert(texts(items@) =~= before.push(written@));
        assert(texts(items@) =~= charge_result_items(charge_results@).take(i as int));
    }
    assert(charge_result_items(charge_results@).take(i as int) =~= charge_result_items(charge_results@));
    write_list(&items)
}

/// The items of exported subscriptions.
pub open spec fn summary_items(summaries: Seq<SubscriptionSummary>) -> Seq<Seq<char>> {
    summaries.map_values(|summary: SubscriptionSummary| item(summary_text(summary)))
}

/// The text of exported subscriptions.
pub open spec fn summaries_text(summaries: Seq<SubscriptionSummary>) -> Seq<char> {
    list(summary_items(summaries))
}

/// Writes exported subscriptions out.
pub fn write_summaries(env: &soroban_sdk::Env, summaries: &Vec<SubscriptionSummary>) -> (text:
    String)
    ensures
        text@ == summaries_text(summaries@),
{
    let mut items: Vec<String> = Vec::new();
    let mut i: usize = 0;
    while i < summaries.len()
        invariant
            i <= summaries@.len(),
            texts(items@) == summary_items(summaries@).take(i as int),
        decreases summaries@.len() - i,
    {
        let ghost before = texts(items@);
        let written = write_item(write_summary(env, &summaries[i]));
        items.push(written);
        i += 1;
        assert(texts(items@) =~= before.push(written@));
        assert(texts(items@) =~= summary_items(summaries@).take(i as int));
    }
    assert(summary_items(summaries@).take(i as int) =~= summary_items(summaries@));
    write_list(&items)
}

/// The number that a digit stands for.
pub open spec fn digit_value(digit: char) -> int {
    digit as int - '0' as int
}

/// The number that decimal digits stand for.
pub open spec fn digits_value(text: Seq<char>) -> int
    decreases text.len(),
{
    if text.len() == 0 {
        0
    } else {
        digits_value(text.drop_last()) * 10 + digit_value(text.last())
    }
}

/// A number is read back from its digits, which are all digits, and it has no zeros in front.
pub proof fn law_numbers_are_read_back(n: nat)
    ensures
        digits_value(digits(n)) == n,
        digits(n).len() > 0,
        forall|i: int| 0 <= i < digits(n).len() ==> 0 <= digit_value(#[trigger] digits(n)[i]) <= 9,
        n > 0 ==> digit_value(digits(n)[0]) != 0,
        number_text(n as int) == digits(n),
        n > 0 ==> number_text(-n) == "-"@ + digits(n),
    decreases n,
{
    if n >= 10 {
        law_numbers_are_read_back(n / 10);
        assert(digits(n).drop_last() =~= digits(n / 10));
    } else {
        assert(digits(n).drop_last() =~= Seq::<char>::empty());
        assert(digits(n).last() == digit(n));
        assert(digits_value(digits(n).drop_last()) == 0);
    }
}

} // verus!
