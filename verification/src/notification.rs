//! Where a clicked message notification leads.

use vstd::prelude::*;
use crate::text::str_eq;

verus! {

/// The Slack client address that a notification for `team_id` and
/// `channel_id` opens: the channel where both are known, the workspace
/// where only the team is known (`unknown` marks an unknown id), and
/// nothing where the team is unknown or either id is missing.
pub open spec fn notification_target(
    team_id: Option<Seq<char>>,
    channel_id: Option<Seq<char>>,
) -> Option<Seq<char>> {
    match (team_id, channel_id) {
        (Some(t), Some(c)) => if t != "unknown"@ && c != "unknown"@ {
            Some("https://app.slack.com/client/"@ + t + "/"@ + c)
        } else if t != "unknown"@ {
            Some("https://app.slack.com/client/"@ + t)
        } else {
            None
        },
        _ => None,
    }
}

/// The Slack client address that a notification leads to, as
/// [`notification_target`] says.
pub fn notification_target_url(team_id: Option<&str>, channel_id: Option<&str>) -> (r: Option<
    String,
>)
    ensures
        r.deep_view() == notification_target(
            match team_id {
                Some(t) => Some(t@),
                None => None,
            },
            match channel_id {
                Some(c) => Some(c@),
                None => None,
            },
        ),
{
    match (team_id, channel_id) {
        (Some(t), Some(c)) => {
            let team_known = !str_eq(t, "unknown");
            let channel_known = !str_eq(c, "unknown");
            if team_known && channel_known {
                let mut u = String::from_str("https://app.slack.com/client/");
                u.append(t);
                u.append("/");
                u.append(c);
                Some(u)
            } else if team_known {
                let mut u = String::from_str("https://app.slack.com/client/");
                u.append(t);
                Some(u)
            } else {
                None
            }
        },
        _ => None,
    }
}

/// Law: every place a notification leads to is in the Slack web client,
/// `https://app.slack.com/client/`.
pub proof fn notification_targets_slack_client(
    team_id: Option<Seq<char>>,
    channel_id: Option<Seq<char>>,
)
    ensures
        notification_target(team_id, channel_id) matches Some(u) ==> u.len() >= "https://app.slack.com/client/"@.len() && u.subrange(
            0,
            "https://app.slack.com/client/"@.len() as int,
        ) == "https://app.slack.com/client/"@,
{
    let p = "https://app.slack.com/client/"@;
    if let Some(u) = notification_target(team_id, channel_id) {
        let t = team_id->0;
        let c = channel_id->0;
        if t != "unknown"@ && c != "unknown"@ {
            assert(u == p + (t + "/"@ + c));
            assert(u.subrange(0, p.len() as int) =~= p);
        } else {
            assert(u.subrange(0, p.len() as int) =~= p);
        }
    }
}

/// Law: the target of a notification for a known team and a known channel
/// is the target for that team alone followed by `/` and the channel; an
/// unknown or missing team leads nowhere.
pub proof fn notification_channel_extends_team(t: Seq<char>, c: Seq<char>)
    ensures
        t != "unknown"@ && c != "unknown"@ ==> notification_target(Some(t), Some(c)) == Some(
            notification_target(Some(t), Some("unknown"@))->0 + seq!['/'] + c,
        ),
        notification_target(Some("unknown"@), Some(c)) is None,
        notification_target(None, Some(c)) is None,
        notification_target(Some(t), None) is None,
{
    reveal_strlit("/");
    assert("/"@ =~= seq!['/']);
    let p = "https://app.slack.com/client/"@;
    assert(p + t + "/"@ + c =~= (p + t) + seq!['/'] + c);
}

} // verus!
