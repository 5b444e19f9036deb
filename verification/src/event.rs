//! Domains of the platform and the names of their event streams and documents.

use vstd::prelude::*;
use crate::text::{occurs_at, replace_all, replaced, same_text};

verus! {

/// Whether `c` is one of the URL-safe symbols `A-Za-z0-9_-`.
pub open spec fn is_safe_char(c: char) -> bool {
    ||| c == '_'
    ||| c == '-'
    ||| ('0' <= c && c <= '9')
    ||| ('a' <= c && c <= 'z')
    ||| ('A' <= c && c <= 'Z')
}

/// Whether `id` is made of URL-safe symbols only.
pub open spec fn is_safe_text(id: Seq<char>) -> bool {
    forall|i: int| 0 <= i < id.len() ==> is_safe_char(#[trigger] id[i])
}

/// The number of symbols in a stream's unique suffix.
pub const ID_SIZE: usize = 21;

/// Whether `id` can be the unique suffix of a stream name.
pub open spec fn is_stream_suffix(id: Seq<char>) -> bool {
    id.len() == ID_SIZE && is_safe_text(id)
}

/// `nanoid::format` with `nanoid::rngs::default` and `nanoid::alphabet::SAFE`:
/// a random text of `size` symbols, each drawn from `A-Za-z0-9_-`. Its value
/// depends on chance; the contract states only its length and its symbols.
#[verifier::external_body]
fn random_safe_id(size: usize) -> (id: String)
    requires
        size <= isize::MAX,
    ensures
        id@.len() == size,
        is_safe_text(id@),
{
    nanoid::format(nanoid::rngs::default, &nanoid::alphabet::SAFE, size)
}

/// A business domain whose events are kept in streams of their own.
#[derive(Debug, Clone, Copy, PartialEq, Eq, Structural)]
pub enum Domain {
    Group,
}

impl Domain {
    /// The domain's name in snake case.
    pub open spec fn name(self) -> Seq<char> {
        match self {
            Domain::Group => "group"@,
        }
    }

    /// The type of the documents that hold this domain's read model.
    pub open spec fn document_type_spec(self) -> Seq<char> {
        "cobase:"@ + self.name()
    }

    /// What every stream name of this domain starts with.
    pub open spec fn stream_prefix(self) -> Seq<char> {
        self.document_type_spec() + "-"@
    }

    /// The domain's name in snake case.
    pub fn as_str(&self) -> (r: &'static str)
        ensures
            r@ == self.name(),
    {
        match self {
            Domain::Group => "group",
        }
    }

    /// The domain whose snake-case name is `s`, if there is one.
    pub fn from_name(s: &str) -> (r: Option<Domain>)
        ensures
            r == (if s@ == Domain::Group.name() { Some(Domain::Group) } else { None::<Domain> }),
    {
        if same_text(s, "group") {
            Some(Domain::Group)
        } else {
            None
        }
    }

    /// The type of the documents that hold this domain's read model,
    /// `cobase:` followed by the domain's name.
    pub fn document_type(&self) -> (r: String)
        ensures
            r@ == self.document_type_spec(),
    {
        let mut r = String::from_str("cobase:");
        r.append(self.as_str());
        r
    }

    /// The stream name of this domain with unique suffix `suffix`: the prefix
    /// `cobase:<domain>-` followed by `suffix`.
    pub fn with_suffix(&self, suffix: &str) -> (r: String)
        ensures
            r@ == self.stream_prefix() + suffix@,
    {
        let mut r = self.stream_prefix_string();
        r.append(suffix);
        r
    }

    /// A new stream name of this domain: the prefix `cobase:<domain>-`
    /// followed by a random suffix of 21 URL-safe symbols.
    pub fn to_stream_id(&self) -> (r: String)
        ensures
            r@.len() == self.stream_prefix().len() + ID_SIZE,
            r@.subrange(0, self.stream_prefix().len() as int) == self.stream_prefix(),
            is_stream_suffix(r@.skip(self.stream_prefix().len() as int)),
    {
        let suffix = random_safe_id(ID_SIZE);
        let r = self.with_suffix(suffix.as_str());
        assert(r@.subrange(0, self.stream_prefix().len() as int) =~= self.stream_prefix());
        assert(r@.skip(self.stream_prefix().len() as int) =~= suffix@);
        r
    }

    /// The identifier carried by stream name `id`: `id` with every occurrence of
    /// the domain's stream prefix removed.
    pub fn from_stream_id(&self, id: &str) -> (r: String)
        ensures
            r@ == replaced(id@, self.stream_prefix(), Seq::empty()),
    {
        let from = self.stream_prefix_string();
        let empty = "";
        proof {
            reveal_strlit("cobase:");
            reveal_strlit("");
        }
        assert(empty@ =~= Seq::<char>::empty());
        replace_all(id, from.as_str(), empty)
    }

    /// The category stream that gathers the events of every stream of this
    /// domain: `$ce-` followed by the document type.
    pub fn category_stream(&self) -> (r: String)
        ensures
            r@ == "$ce-"@ + self.document_type_spec(),
    {
        let mut r = String::from_str("$ce-");
        r.append(self.document_type().as_str());
        r
    }

    /// The prefix of every stream name of this domain.
    fn stream_prefix_string(&self) -> (r: String)
        ensures
            r@ == self.stream_prefix(),
    {
        let mut r = self.document_type();
        r.append("-");
        r
    }
}

/// The persistent subscription group through which the query side reads the
/// group events.
pub const QUERY_SUBSCRIPTION_GROUP: &'static str = "cobase-api-query";

/// What a subscription to a stream learns next.
#[derive(Debug, Clone, PartialEq, Eq)]
pub enum FeedEvent {
    /// The subscription could not be opened; the text says why.
    ConnectFailed(String),
    /// The next event could not be read; the text says why.
    ReadFailed(String),
    /// The stream of events came to its end.
    Ended,
    /// An event appeared; `recorded` tells whether it carries a recorded event.
    Appeared { recorded: bool },
    /// Something other than an event appeared.
    Other,
    /// The handler accepted the last event.
    Handled,
    /// The handler failed on the last event; the text says why.
    HandleFailed(String),
}

/// What a subscription does next.
#[derive(Debug, PartialEq, Eq)]
pub enum FeedAction {
    /// Read the next event.
    Read,
    /// Hand the recorded event to the handler.
    Handle,
    /// Acknowledge the handled event, whatever the acknowledgement gives,
    /// then read the next event.
    AckThenRead,
    /// End the subscription with this outcome.
    Stop(Result<(), String>),
}

/// The message of a subscription that met an event without a recorded event.
pub open spec fn missing_record_message() -> Seq<char> {
    "RecordedEvent is None"@
}

/// Decides what a subscription does after it learns `event`: failures end
/// it with their message, the end of the stream ends it without error,
/// events without a recorded event end it, other items are skipped, recorded
/// events are handled and, once handled, acknowledged.
pub fn next_feed_action(event: FeedEvent) -> (r: FeedAction)
    ensures
        match event {
            FeedEvent::ConnectFailed(e) => r == FeedAction::Stop(Err(e)),
            FeedEvent::ReadFailed(e) => r == FeedAction::Stop(Err(e)),
            FeedEvent::Ended => r == FeedAction::Stop(Ok(())),
            FeedEvent::Appeared { recorded } => if recorded {
                r == FeedAction::Handle
            } else {
                r matches FeedAction::Stop(Err(m)) && m@ == missing_record_message()
            },
            FeedEvent::Other => r == FeedAction::Read,
            FeedEvent::Handled => r == FeedAction::AckThenRead,
            FeedEvent::HandleFailed(e) => r == FeedAction::Stop(Err(e)),
        },
{
    match event {
        FeedEvent::ConnectFailed(e) => FeedAction::Stop(Err(e)),
        FeedEvent::ReadFailed(e) => FeedAction::Stop(Err(e)),
        FeedEvent::Ended => FeedAction::Stop(Ok(())),
        FeedEvent::Appeared { recorded } => {
            if recorded {
                FeedAction::Handle
            } else {
                FeedAction::Stop(Err(String::from_str("RecordedEvent is None")))
            }
        },
        FeedEvent::Other => FeedAction::Read,
        FeedEvent::Handled => FeedAction::AckThenRead,
        FeedEvent::HandleFailed(e) => FeedAction::Stop(Err(e)),
    }
}

/// The seconds a subscription waits before it is opened again.
pub const RETRY_DELAY_SECS: u64 = 2;

/// What follows the end of a subscription: the error to log, if it ended
/// with one, the seconds to wait, and the notice logged before it is opened
/// again.
#[derive(Debug, Clone, PartialEq, Eq)]
pub struct RetryPlan {
    pub error: Option<String>,
    pub delay_secs: u64,
    pub notice: String,
}

/// The plan after a subscription of `group_name` to `stream` ended with
/// `outcome`: it is always opened again, after two seconds.
pub fn retry_plan(outcome: Result<(), String>, group_name: &str, stream: &str) -> (r: RetryPlan)
    ensures
        match outcome {
            Ok(()) => r.error is None,
            Err(e) => r.error matches Some(m) && m@ == e@,
        },
        r.delay_secs == RETRY_DELAY_SECS,
        r.notice@ == "try to subscribe "@ + group_name@ + "::"@ + stream@,
{
    let error = match outcome {
        Ok(()) => None,
        Err(e) => Some(e),
    };
    let mut notice = String::from_str("try to subscribe ");
    notice.append(group_name);
    notice.append("::");
    notice.append(stream);
    RetryPlan { error, delay_secs: RETRY_DELAY_SECS, notice }
}

/// Replacing a pattern that holds `c` changes nothing in a text without `c`.
proof fn lemma_replace_absent(s: Seq<char>, pat: Seq<char>, c: char)
    requires
        pat.contains(c),
        !s.contains(c),
    ensures
        replaced(s, pat, Seq::empty()) == s,
    decreases s.len(),
{
    if s.len() > 0 {
        if pat.len() <= s.len() && s.subrange(0, pat.len() as int) == pat {
            let k = choose|k: int| 0 <= k < pat.len() && pat[k] == c;
            assert(s[k] == s.subrange(0, pat.len() as int)[k]);
        }
        assert(!s.skip(1).contains(c)) by {
            if s.skip(1).contains(c) {
                let k = choose|k: int| 0 <= k < s.skip(1).len() && s.skip(1)[k] == c;
                assert(s[k + 1] == c);
            }
        }
        lemma_replace_absent(s.skip(1), pat, c);
        assert(seq![s[0]] + s.skip(1) =~= s);
    }
}

/// The identifier that `from_stream_id` recovers from a stream name made by
/// `to_stream_id` is the stream's random suffix.
pub proof fn lemma_stream_id_round_trip(d: Domain, stream_id: Seq<char>)
    requires
        stream_id.len() == d.stream_prefix().len() + ID_SIZE,
        stream_id.subrange(0, d.stream_prefix().len() as int) == d.stream_prefix(),
        is_stream_suffix(stream_id.skip(d.stream_prefix().len() as int)),
    ensures
        replaced(stream_id, d.stream_prefix(), Seq::empty()) == stream_id.skip(
            d.stream_prefix().len() as int,
        ),
{
    reveal_strlit("cobase:");
    reveal_strlit("group");
    reveal_strlit("-");
    let p = d.stream_prefix();
    let suffix = stream_id.skip(p.len() as int);
    assert(p.len() > 0);
    assert(p[6] == ':');
    assert(p.contains(':'));
    assert(!suffix.contains(':')) by {
        if suffix.contains(':') {
            let k = choose|k: int| 0 <= k < suffix.len() && suffix[k] == ':';
            assert(is_safe_char(suffix[k]));
        }
    }
    lemma_replace_absent(suffix, p, ':');
    assert(Seq::<char>::empty() + suffix =~= suffix);
}

/// A domain's name read back gives the domain.
pub proof fn lemma_domain_name_round_trip(d: Domain)
    ensures
        (if d.name() == Domain::Group.name() { Some(Domain::Group) } else { None::<Domain> }) == Some(d),
{
}

} // verus!
