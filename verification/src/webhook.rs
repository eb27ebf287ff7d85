use vstd::prelude::*;
use vstd::string::{StrSliceExecFns, StringExecFns};

use crate::execution::Side;

verus! {

/// What `str::to_lowercase` gives for a string: its Unicode lowercase mapping.
pub uninterp spec fn lowercased(s: Seq<char>) -> Seq<char>;

/// Calls `str::to_lowercase`; the result is its lowercase mapping of the
/// argument, a function of the argument alone (named, not spelled out here).
#[verifier::external_body]
fn to_lowercase(s: &str) -> (r: String)
    ensures
        r@ == lowercased(s@),
{
    s.to_lowercase()
}

/// Whether two strings hold the same characters.
fn same_chars(a: &str, b: &str) -> (r: bool)
    ensures
        r == (a@ == b@),
{
    let n = a.unicode_len();
    if n != b.unicode_len() {
        return false;
    }
    let mut i: usize = 0;
    while i < n
        invariant
            n == a@.len(),
            n == b@.len(),
            i <= n,
            forall|j: int| 0 <= j < i ==> a@[j] == b@[j],
        decreases n - i,
    {
        if a.get_char(i) != b.get_char(i) {
            return false;
        }
        i = i + 1;
    }
    assert(a@ =~= b@);
    true
}

/// What the webhook listener does with one alert.
#[derive(Debug)]
pub struct WebhookPlan {
    /// Close the open position (at the alert's price) before anything else.
    pub close_existing: bool,
    /// The side of the position to open, or the text of the rejection.
    pub outcome: Result<Side, String>,
}

/// The side that an alert's (lowercased) signal asks for.
pub open spec fn requested_side(lowered: Seq<char>) -> Option<Side> {
    if lowered == "long"@ {
        Some(Side::Long)
    } else if lowered == "short"@ {
        Some(Side::Short)
    } else {
        None
    }
}

/// Exactly two signals name a side: `long` names the long side, `short` the
/// short side, and every other text names none.
pub proof fn lemma_requested_side(lowered: Seq<char>)
    ensures
        lowered == "long"@ ==> requested_side(lowered) == Some(Side::Long),
        lowered == "short"@ ==> requested_side(lowered) == Some(Side::Short),
        lowered != "long"@ && lowered != "short"@ ==> requested_side(lowered) is None,
        requested_side(lowered) == Some(Side::Long) ==> lowered == "long"@,
        requested_side(lowered) == Some(Side::Short) ==> lowered == "short"@,
{
    reveal_strlit("long");
    reveal_strlit("short");
    assert("long"@ != "short"@) by {
        assert("long"@.len() != "short"@.len());
    }
}

/// Plan the handling of an alert whose signal is already lowercased: any open
/// position is closed first, whatever the signal; then `long` and `short`
/// open a position and anything else is rejected with `Unknown signal: ...`.
pub fn plan_webhook_lowered(has_position: bool, lowered: &str) -> (p: WebhookPlan)
    ensures
        p.close_existing == has_position,
        match p.outcome {
            Ok(side) => requested_side(lowered@) == Some(side),
            Err(msg) => requested_side(lowered@) is None && msg@ == "Unknown signal: "@ + lowered@,
        },
        // only the two documented signals open a position
        p.outcome is Ok ==> (lowered@ == "long"@ && p.outcome == Ok::<Side, String>(Side::Long))
            || (lowered@ == "short"@ && p.outcome == Ok::<Side, String>(Side::Short)),
        lowered@ == "long"@ ==> p.outcome == Ok::<Side, String>(Side::Long),
        lowered@ == "short"@ ==> p.outcome == Ok::<Side, String>(Side::Short),
        (lowered@ != "long"@ && lowered@ != "short"@) ==> p.outcome is Err,
{
    proof {
        lemma_requested_side(lowered@);
    }
    let outcome = if same_chars(lowered, "long") {
        Ok(Side::Long)
    } else if same_chars(lowered, "short") {
        Ok(Side::Short)
    } else {
        let mut msg = String::from_str("Unknown signal: ");
        msg.append(lowered);
        Err(msg)
    };
    WebhookPlan { close_existing: has_position, outcome }
}

/// Plan the handling of an alert: its signal is compared without regard to
/// case; any open position is closed first, whatever the signal.
pub fn plan_webhook(has_position: bool, signal: &str) -> (p: WebhookPlan)
    ensures
        p.close_existing == has_position,
        match p.outcome {
            Ok(side) => requested_side(lowercased(signal@)) == Some(side),
            Err(msg) => requested_side(lowercased(signal@)) is None
                && msg@ == "Unknown signal: "@ + lowercased(signal@),
        },
        // only the two documented signals open a position
        p.outcome is Ok ==> (lowercased(signal@) == "long"@ && p.outcome == Ok::<Side, String>(Side::Long))
            || (lowercased(signal@) == "short"@ && p.outcome == Ok::<Side, String>(Side::Short)),
        lowercased(signal@) == "long"@ ==> p.outcome == Ok::<Side, String>(Side::Long),
        lowercased(signal@) == "short"@ ==> p.outcome == Ok::<Side, String>(Side::Short),
        (lowercased(signal@) != "long"@ && lowercased(signal@) != "short"@) ==> p.outcome is Err,
{
    let lowered = to_lowercase(signal);
    plan_webhook_lowered(has_position, lowered.as_str())
}

/// The reply text for an alert that opened a position.
pub fn opened_message(side: Side) -> (s: String)
    ensures
        s@ == (match side {
            Side::Long => "Opened LONG position"@,
            Side::Short => "Opened SHORT position"@,
        }),
{
    match side {
        Side::Long => String::from_str("Opened LONG position"),
        Side::Short => String::from_str("Opened SHORT position"),
    }
}

} // verus!
