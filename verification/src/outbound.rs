//! The outbound-HTTP fan-out: a configured number of GET requests to a
//! configured host, then a summary of what was done.

use vstd::prelude::*;
use vstd::string::*;
use vstd::utf8::*;

use crate::decimal::{decimal, lemma_usize_round_trip, parse_usize, parsed_usize, usize_to_decimal};
use crate::response::{plain_text_ok, HttpResponse};

verus! {

/// The summary sent back after `count` requests to `host`.
pub open spec fn summary(count: nat, host: Seq<char>) -> Seq<char> {
    "Made "@ + decimal(count) + " outbound requests to "@ + host
}

/// The fan-out in progress: how many requests to send to which host, and
/// how many have been sent.
pub struct OutboundRequests {
    host: String,
    total: usize,
    sent: usize,
}

impl OutboundRequests {
    /// No more requests were sent than asked for.
    #[verifier::type_invariant]
    spec fn consistent(self) -> bool {
        self.sent <= self.total
    }

    /// The host that every request goes to.
    pub closed spec fn host(self) -> Seq<char> {
        self.host@
    }

    /// How many requests are to be sent.
    pub closed spec fn total(self) -> nat {
        self.total as nat
    }

    /// How many requests have been sent.
    pub closed spec fn sent(self) -> nat {
        self.sent as nat
    }

    /// The method of every request: `GET`.
    pub fn method(&self) -> (m: &'static str)
        ensures
            m@ == "GET"@,
    {
        "GET"
    }

    /// The host of the next request, or `None` once all have been sent.
    pub fn next_target(&self) -> (t: Option<&str>)
        ensures
            self.sent() < self.total() ==> (t matches Some(h) && h@ == self.host()),
            self.sent() >= self.total() ==> t is None,
    {
        if self.sent < self.total {
            Some(self.host.as_str())
        } else {
            None
        }
    }

    /// Takes in the outcome of sending the next request. A response counts
    /// the request as sent; a failed send ends the fan-out with the error
    /// `failed to get response`.
    pub fn record_send(&mut self, outcome: Result<(), String>) -> (stop: Option<String>)
        requires
            old(self).sent() < old(self).total(),
        ensures
            final(self).total() == old(self).total(),
            final(self).host() == old(self).host(),
            match outcome {
                Ok(()) => stop is None && final(self).sent() == old(self).sent() + 1,
                Err(_) => (stop matches Some(m) && m@ == "failed to get response"@)
                    && final(self).sent() == old(self).sent(),
            },
    {
        match outcome {
            Ok(()) => {
                self.sent = self.sent + 1;
                None
            },
            Err(_) => Some(String::from_str("failed to get response")),
        }
    }

    /// The `text/plain` summary, once every request has been sent.
    pub fn respond(&self) -> (r: HttpResponse)
        requires
            self.sent() == self.total(),
        ensures
            r@ == plain_text_ok(encode_utf8(summary(self.total(), self.host()))),
    {
        let mut text = String::from_str("Made ");
        let digits = usize_to_decimal(self.total);
        text.append(digits.as_str());
        text.append(" outbound requests to ");
        text.append(self.host.as_str());
        HttpResponse::text_ok(text.as_str().as_bytes_vec())
    }
}

/// The fan-out that the configuration asks for: `count` read as a `usize`,
/// or an error saying that it is not one.
pub fn handle_hello_rust(host: String, count: &str) -> (r: Result<OutboundRequests, String>)
    ensures
        match parsed_usize(count@) {
            Some(n) => r matches Ok(plan) && plan.total() == n && plan.sent() == 0
                && plan.host() == host@,
            None => r matches Err(m) && m@ == "number_of_requests variable is not a valid integer"@,
        },
{
    match parse_usize(count) {
        Some(n) => Ok(OutboundRequests { host, total: n, sent: 0 }),
        None => Err(String::from_str("number_of_requests variable is not a valid integer")),
    }
}

/// The summary reports the number of requests made: it is `Made `, a
/// numeral, ` outbound requests to ` and the host, and `usize::from_str`
/// reads that numeral back as the count, whatever the count.
pub proof fn lemma_summary_reports_count(count: usize, host: Seq<char>)
    ensures
        exists|numeral: Seq<char>|
            #![trigger parsed_usize(numeral)]
            summary(count as nat, host) == "Made "@ + numeral + " outbound requests to "@ + host
                && parsed_usize(numeral) == Some(count),
{
    lemma_usize_round_trip(count);
    assert(parsed_usize(decimal(count as nat)) == Some(count));
}

} // verus!
