use vstd::prelude::*;
use vstd::string::StringExecFns;

use crate::error::AppError;
use crate::model::{NotifyMedium, UserId};
use crate::text::opt_string_view;

verus! {

/// A group's sending settings, by medium (webhook URLs in plain text).
#[derive(Debug)]
pub enum GroupConfigData {
    Discord {
        webhook_url: Option<String>,
        embed_color: Option<String>,
        mention_enabled: bool,
        mention_targets: Vec<String>,
    },
    Slack { webhook_url: Option<String>, mention_enabled: bool, mention_targets: Vec<String> },
}

/// The medium that settings are for.
pub open spec fn config_medium_of(c: GroupConfigData) -> NotifyMedium {
    match c {
        GroupConfigData::Discord { .. } => NotifyMedium::Discord,
        GroupConfigData::Slack { .. } => NotifyMedium::Slack,
    }
}

impl GroupConfigData {
    /// The medium that these settings are for.
    pub fn medium(&self) -> (m: NotifyMedium)
        ensures
            m == config_medium_of(*self),
    {
        match self {
            GroupConfigData::Discord { .. } => NotifyMedium::Discord,
            GroupConfigData::Slack { .. } => NotifyMedium::Slack,
        }
    }
}

/// The webhook URL to store (encrypted): none when it is absent or empty.
pub fn webhook_to_store(plain: Option<String>) -> (r: Option<String>)
    ensures
        match plain {
            Some(p) => if p@.len() > 0 { r == Some(p) } else { r is None },
            None => r is None,
        },
{
    match plain {
        Some(p) => if p.as_str().is_empty() {
            None
        } else {
            Some(p)
        },
        None => None,
    }
}

/// The message of an embed color that is not a hex color.
pub open spec fn embed_color_message() -> Seq<char> {
    "embed_colorの形式が不正です"@
}

/// A Discord embed color, where one is given (an empty one counts as none),
/// must parse as a hex color; `parses` tells whether it does.
pub fn check_embed_color(color: &Option<String>, parses: bool) -> (r: Result<(), AppError>)
    ensures
        (color matches Some(c) && c@.len() > 0 && !parses) ==> (r matches Err(AppError::InvalidInput(m))
            && m@ == embed_color_message()),
        !(color matches Some(c) && c@.len() > 0 && !parses) ==> r is Ok,
{
    match color {
        Some(c) => if !c.as_str().is_empty() && !parses {
            Err(AppError::InvalidInput(String::from_str("embed_colorの形式が不正です")))
        } else {
            Ok(())
        },
        None => Ok(()),
    }
}

/// Whether a group (`Some((owner, medium))`; `None`: no such group) takes a
/// bulk change of settings for `medium` requested by `requester`.
pub open spec fn takes_bulk_change(group: Option<(UserId, NotifyMedium)>, requester: UserId, medium: NotifyMedium) -> bool {
    group matches Some(g) && g.0 == requester && g.1 == medium
}

/// The positions, in order, of the groups that take a bulk change.
pub open spec fn bulk_targets(groups: Seq<Option<(UserId, NotifyMedium)>>, requester: UserId, medium: NotifyMedium) -> Seq<usize>
    decreases groups.len(),
{
    if groups.len() == 0 {
        Seq::empty()
    } else {
        let prev = bulk_targets(groups.drop_last(), requester, medium);
        if takes_bulk_change(groups.last(), requester, medium) {
            prev.push((groups.len() - 1) as usize)
        } else {
            prev
        }
    }
}

/// Which of the listed groups a bulk change of settings for `medium` updates:
/// those that exist, belong to the requester and send to that medium; the
/// others are skipped without error. The count of updates is the result's length.
pub fn bulk_destination(groups: &Vec<Option<(UserId, NotifyMedium)>>, requester: UserId, medium: NotifyMedium) -> (r: Vec<usize>)
    ensures
        r@ == bulk_targets(groups@, requester, medium),
{
    let mut r: Vec<usize> = Vec::new();
    let mut i: usize = 0;
    while i < groups.len()
        invariant
            i <= groups@.len(),
            r@ == bulk_targets(groups@.take(i as int), requester, medium),
        decreases groups@.len() - i,
    {
        assert(groups@.take(i + 1).drop_last() =~= groups@.take(i as int));
        assert(groups@.take(i + 1).last() == groups@[i as int]);
        let takes = match groups[i] {
            Some((owner, m)) => owner == requester && m == medium,
            None => false,
        };
        if takes {
            r.push(i);
        }
        i = i + 1;
    }
    assert(groups@.take(groups@.len() as int) =~= groups@);
    r
}

// ---------------------------------------------------------------------------
// Test sends.

/// What a test send may override. `evaluation` is an evaluation's name.
pub struct TestSendInput {
    pub ticker: Option<String>,
    pub company_name: Option<String>,
    pub title: Option<String>,
    pub evaluation: Option<String>,
    pub embed_color: Option<String>,
    pub webhook_url: Option<String>,
    pub mention_targets: Option<Vec<String>>,
}

/// The answer to a test send.
#[derive(Debug)]
pub struct TestSendOutput {
    pub success: bool,
    pub failure_reason: Option<String>,
}

/// The message that a test send posts.
#[derive(Debug)]
pub struct TestMessage {
    pub webhook_url: String,
    pub title: String,
    pub description: String,
    pub embed_color: Option<String>,
}

/// The answer for a group that sends to Slack.
pub open spec fn slack_unsupported_reason() -> Seq<char> {
    "Slack向けのテスト送信はまだ対応していません"@
}

/// The answer when no webhook URL is at hand.
pub open spec fn no_webhook_reason() -> Seq<char> {
    "webhook_urlが設定されていません"@
}

/// A test send goes only to Discord groups; for a Slack group it answers failure at once.
pub fn test_send_medium_gate(medium: NotifyMedium) -> (r: Option<TestSendOutput>)
    ensures
        medium == NotifyMedium::Discord ==> r is None,
        medium == NotifyMedium::Slack ==> (r matches Some(o) && !o.success
            && opt_string_view(o.failure_reason) == Some(slack_unsupported_reason())),
{
    match medium {
        NotifyMedium::Discord => None,
        NotifyMedium::Slack => Some(
            TestSendOutput {
                success: false,
                failure_reason: Some(String::from_str("Slack向けのテスト送信はまだ対応していません")),
            },
        ),
    }
}

/// The given text, or the default.
pub open spec fn or_default(o: Option<String>, default: Seq<char>) -> Seq<char> {
    match o {
        Some(s) => s@,
        None => default,
    }
}

/// The webhook URL of a test send: the one given, else the stored one
/// (`stored`: the group's stored URL, decrypted, if any); an empty one counts as none.
pub open spec fn chosen_webhook(given: Option<String>, stored: Option<String>) -> Option<Seq<char>> {
    let w = match given {
        Some(g) => Some(g@),
        None => opt_string_view(stored),
    };
    match w {
        Some(u) => if u.len() > 0 { Some(u) } else { None },
        None => None,
    }
}

/// The description of a test message: "company(ticker) - evaluation".
pub open spec fn test_description(company: Seq<char>, ticker: Seq<char>, evaluation: Seq<char>) -> Seq<char> {
    company + "("@ + ticker + ") - "@ + evaluation
}

fn text_or(o: Option<String>, default: &str) -> (s: String)
    ensures
        s@ == or_default(o, default@),
{
    match o {
        Some(s) => s,
        None => String::from_str(default),
    }
}

/// The message of a test send to a Discord group, with defaults for what the
/// input leaves out, or the failure answer when no webhook URL is at hand.
pub fn plan_test_message(input: TestSendInput, stored_webhook: Option<String>) -> (r: Result<TestMessage, TestSendOutput>)
    ensures
        chosen_webhook(input.webhook_url, stored_webhook) is None ==> (r matches Err(o) && !o.success
            && opt_string_view(o.failure_reason) == Some(no_webhook_reason())),
        chosen_webhook(input.webhook_url, stored_webhook) matches Some(url) ==> (r matches Ok(m)
            && m.webhook_url@ == url
            && m.title@ == or_default(input.title, "【テスト送信】決算速報プレビュー"@)
            && m.description@ == test_description(
                or_default(input.company_name, "サンプル株式会社"@),
                or_default(input.ticker, "0000"@),
                or_default(input.evaluation, "Unrated"@),
            )
            && opt_string_view(m.embed_color) == opt_string_view(input.embed_color)),
{
    let chosen = match input.webhook_url {
        Some(g) => Some(g),
        None => stored_webhook,
    };
    let webhook_url = match chosen {
        Some(u) => if u.as_str().is_empty() {
            None
        } else {
            Some(u)
        },
        None => None,
    };
    let webhook_url = match webhook_url {
        Some(u) => u,
        None => {
            return Err(
                TestSendOutput {
                    success: false,
                    failure_reason: Some(String::from_str("webhook_urlが設定されていません")),
                },
            );
        },
    };
    let ticker = text_or(input.ticker, "0000");
    let company_name = text_or(input.company_name, "サンプル株式会社");
    let title = text_or(input.title, "【テスト送信】決算速報プレビュー");
    let evaluation = text_or(input.evaluation, "Unrated");
    let mut description = company_name;
    description.append("(");
    description.append(ticker.as_str());
    description.append(") - ");
    description.append(evaluation.as_str());
    Ok(TestMessage { webhook_url, title, description, embed_color: input.embed_color })
}

/// The answer to a failed delivery: "送信先が{status}を返しました".
pub open spec fn rejected_reason(status: Seq<char>) -> Seq<char> {
    "送信先が"@ + status + "を返しました"@
}

/// The answer to a delivery that could not be made: "通信に失敗しました: {error}".
pub open spec fn unreachable_reason(error: Seq<char>) -> Seq<char> {
    "通信に失敗しました: "@ + error
}

/// The answer to a test send from what posting the message gave:
/// `Ok((success, status))` with the HTTP status (as text) that the webhook
/// answered, or `Err(error)` with the text of a failure to deliver.
pub fn test_send_outcome(sent: Result<(bool, String), String>) -> (o: TestSendOutput)
    ensures
        match sent {
            Ok((true, _)) => o.success && o.failure_reason is None,
            Ok((false, status)) => !o.success && opt_string_view(o.failure_reason) == Some(rejected_reason(status@)),
            Err(e) => !o.success && opt_string_view(o.failure_reason) == Some(unreachable_reason(e@)),
        },
{
    match sent {
        Ok((true, _)) => TestSendOutput { success: true, failure_reason: None },
        Ok((false, status)) => {
            let mut m = String::from_str("送信先が");
            m.append(status.as_str());
            m.append("を返しました");
            TestSendOutput { success: false, failure_reason: Some(m) }
        },
        Err(e) => {
            let mut m = String::from_str("通信に失敗しました: ");
            m.append(e.as_str());
            TestSendOutput { success: false, failure_reason: Some(m) }
        },
    }
}

} // verus!
